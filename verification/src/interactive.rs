//! The interactive mode: with no command on the command line, the user is
//! asked which saved connection to open, on which port, and whether with
//! an identity file.
//!
//! The prompts are outside work. After each of them the [`Dialogue`] is
//! told what the user answered and says what is to be asked next.

use vstd::prelude::*;
use crate::cli::DEFAULT_PORT;
use crate::config::{Config, RecordView};
use crate::error::{ErrorKind, RsshError};
use crate::text::{decimal, lemma_port_of_decimal, parse_port, parsed_port};

verus! {

/// The port that the prompt offers.
pub const DEFAULT_PORT_TEXT: &'static str = "22";

/// What is shown where no connection is saved.
pub const NOTHING_SAVED: &'static str = "No connections saved. Use 'add' command first.";

/// What the outside reports to the dialogue.
#[derive(Debug)]
pub enum DialogueEvent {
    /// What the user chose or typed.
    Answer(String),
    /// What the user chose when asked yes or no.
    Confirmed(bool),
    /// The prompt failed, or the user broke it off.
    Failed { reason: String },
}

/// What the dialogue asks the outside to do.
#[derive(Debug)]
pub enum DialogueAction {
    /// Let the user choose one of `options`.
    ChooseAlias { options: Vec<String> },
    /// Ask for the port, offering `offered`.
    AskPort { offered: String },
    /// Ask whether an identity file is to be used, offering `offered`.
    AskWhetherIdentity { offered: bool },
    /// Ask for the path of the private key.
    AskIdentityPath,
    /// Open a shell on the connection that the answers describe.
    Connect { alias: String, port: u16, identity: Option<String> },
    /// There is nothing to choose from: show `line`.
    Report { line: String },
    /// Give up with `error`.
    Abort { error: RsshError },
}

/// A [`DialogueEvent`] as contracts speak of it.
pub enum DialogueEventView {
    Answer(Seq<char>),
    Confirmed(bool),
    Failed { reason: Seq<char> },
}

/// A [`DialogueAction`] as contracts speak of it.
pub enum DialogueActionView {
    ChooseAlias { options: Seq<Seq<char>> },
    AskPort { offered: Seq<char> },
    AskWhetherIdentity { offered: bool },
    AskIdentityPath,
    Connect { alias: Seq<char>, port: u16, identity: Option<Seq<char>> },
    Report { line: Seq<char> },
    Abort { error: ErrorKind },
}

/// How far the dialogue has come: the answer it waits for, or how it
/// ended.
pub enum DialogueStage {
    Choosing,
    AskingPort { alias: Seq<char> },
    AskingWhetherIdentity { alias: Seq<char>, port: u16 },
    AskingIdentityPath { alias: Seq<char>, port: u16 },
    Connecting { alias: Seq<char>, port: u16, identity: Option<Seq<char>> },
    Reported { line: Seq<char> },
    Failed { error: ErrorKind },
}

impl View for DialogueEvent {
    type V = DialogueEventView;

    open spec fn view(&self) -> DialogueEventView {
        match self {
            DialogueEvent::Answer(text) => DialogueEventView::Answer(text@),
            DialogueEvent::Confirmed(yes) => DialogueEventView::Confirmed(*yes),
            DialogueEvent::Failed { reason } => DialogueEventView::Failed { reason: reason@ },
        }
    }
}

impl View for DialogueAction {
    type V = DialogueActionView;

    open spec fn view(&self) -> DialogueActionView {
        match self {
            DialogueAction::ChooseAlias { options } => DialogueActionView::ChooseAlias {
                options: options.deep_view(),
            },
            DialogueAction::AskPort { offered } => DialogueActionView::AskPort {
                offered: offered@,
            },
            DialogueAction::AskWhetherIdentity { offered } => {
                DialogueActionView::AskWhetherIdentity { offered: *offered }
            },
            DialogueAction::AskIdentityPath => DialogueActionView::AskIdentityPath,
            DialogueAction::Connect { alias, port, identity } => DialogueActionView::Connect {
                alias: alias@,
                port: *port,
                identity: identity.deep_view(),
            },
            DialogueAction::Report { line } => DialogueActionView::Report { line: line@ },
            DialogueAction::Abort { error } => DialogueActionView::Abort { error: error@ },
        }
    }
}

/// The aliases of `records`, in their order.
pub open spec fn aliases_of(records: Seq<RecordView>) -> Seq<Seq<char>> {
    Seq::new(records.len(), |i: int| records[i].alias)
}

/// Ending with the connection that the answers describe.
pub open spec fn connect(alias: Seq<char>, port: u16, identity: Option<Seq<char>>) -> (
    DialogueStage,
    DialogueActionView,
) {
    (
        DialogueStage::Connecting { alias, port, identity },
        DialogueActionView::Connect { alias, port, identity },
    )
}

/// Ending with `error`.
pub open spec fn give_up(error: ErrorKind) -> (DialogueStage, DialogueActionView) {
    (DialogueStage::Failed { error }, DialogueActionView::Abort { error })
}

/// Why the prompt failed that `e` reports. An event that is no answer to
/// what was asked counts as a failure of its own.
pub open spec fn fault(e: DialogueEventView) -> Seq<char> {
    match e {
        DialogueEventView::Failed { reason } => reason,
        _ => "unexpected event"@,
    }
}

/// Where the dialogue starts on a store with `records`: with the choice
/// among its aliases, or with the end where it has none.
pub open spec fn dialogue_start(records: Seq<RecordView>) -> (DialogueStage, DialogueActionView) {
    if records.len() == 0 {
        (
            DialogueStage::Reported { line: NOTHING_SAVED@ },
            DialogueActionView::Report { line: NOTHING_SAVED@ },
        )
    } else {
        (
            DialogueStage::Choosing,
            DialogueActionView::ChooseAlias { options: aliases_of(records) },
        )
    }
}

/// One step of the dialogue: where it stands after the event `e` reached
/// it at `s`, and what it asks for next.
pub open spec fn dialogue_step(s: DialogueStage, e: DialogueEventView) -> (
    DialogueStage,
    DialogueActionView,
) {
    match (s, e) {
        (DialogueStage::Choosing, DialogueEventView::Answer(alias)) => (
            DialogueStage::AskingPort { alias },
            DialogueActionView::AskPort { offered: DEFAULT_PORT_TEXT@ },
        ),
        (DialogueStage::AskingPort { alias }, DialogueEventView::Answer(text)) => match parsed_port(
            text,
        ) {
            Some(port) => (
                DialogueStage::AskingWhetherIdentity { alias, port },
                DialogueActionView::AskWhetherIdentity { offered: false },
            ),
            None => give_up(ErrorKind::Other { reason: "Invalid port number"@ }),
        },
        (
            DialogueStage::AskingWhetherIdentity { alias, port },
            DialogueEventView::Confirmed(yes),
        ) => if yes {
            (
                DialogueStage::AskingIdentityPath { alias, port },
                DialogueActionView::AskIdentityPath,
            )
        } else {
            connect(alias, port, None)
        },
        (DialogueStage::AskingIdentityPath { alias, port }, DialogueEventView::Answer(path)) => {
            connect(alias, port, Some(path))
        },
        (DialogueStage::Connecting { alias, port, identity }, _) => (
            s,
            DialogueActionView::Connect { alias, port, identity },
        ),
        (DialogueStage::Reported { line }, _) => (s, DialogueActionView::Report { line }),
        (DialogueStage::Failed { error }, _) => (s, DialogueActionView::Abort { error }),
        _ => give_up(ErrorKind::Other { reason: fault(e) }),
    }
}

/// The dialogue of the interactive mode, as far as it has come.
pub struct Dialogue {
    phase: Phase,
}

enum Phase {
    Choosing,
    AskingPort { alias: String },
    AskingWhetherIdentity { alias: String, port: u16 },
    AskingIdentityPath { alias: String, port: u16 },
    Connecting { alias: String, port: u16, identity: Option<String> },
    Reported { line: String },
    Failed { error: RsshError },
}

impl View for Dialogue {
    type V = DialogueStage;

    closed spec fn view(&self) -> DialogueStage {
        match self.phase {
            Phase::Choosing => DialogueStage::Choosing,
            Phase::AskingPort { alias } => DialogueStage::AskingPort { alias: alias@ },
            Phase::AskingWhetherIdentity { alias, port } => DialogueStage::AskingWhetherIdentity {
                alias: alias@,
                port,
            },
            Phase::AskingIdentityPath { alias, port } => DialogueStage::AskingIdentityPath {
                alias: alias@,
                port,
            },
            Phase::Connecting { alias, port, identity } => DialogueStage::Connecting {
                alias: alias@,
                port,
                identity: identity.deep_view(),
            },
            Phase::Reported { line } => DialogueStage::Reported { line: line@ },
            Phase::Failed { error } => DialogueStage::Failed { error: error@ },
        }
    }
}

fn copy_text(text: &Option<String>) -> (copy: Option<String>)
    ensures
        copy.deep_view() == text.deep_view(),
{
    match text {
        Some(t) => Some(t.clone()),
        None => None,
    }
}

/// Starts the interactive mode on the store `config`.
pub fn start_dialogue(config: &Config) -> (start: (Dialogue, DialogueAction))
    ensures
        (start.0@, start.1@) == dialogue_start(config.records()),
{
    let options = config.aliases();
    if options.len() == 0 {
        (
            Dialogue { phase: Phase::Reported { line: NOTHING_SAVED.to_owned() } },
            DialogueAction::Report { line: NOTHING_SAVED.to_owned() },
        )
    } else {
        assert(options.deep_view() =~= aliases_of(config.records()));
        (Dialogue { phase: Phase::Choosing }, DialogueAction::ChooseAlias { options })
    }
}

impl Dialogue {
    /// Whether the dialogue has come to its end, one way or the other.
    pub fn is_finished(&self) -> (finished: bool)
        ensures
            finished == (self@ is Connecting || self@ is Reported || self@ is Failed),
    {
        match self.phase {
            Phase::Connecting { .. } | Phase::Reported { .. } | Phase::Failed { .. } => true,
            _ => false,
        }
    }

    fn connect(&mut self, alias: String, port: u16, identity: Option<String>) -> (action:
        DialogueAction)
        ensures
            (final(self)@, action@) == connect(alias@, port, identity.deep_view()),
    {
        let action = DialogueAction::Connect {
            alias: alias.clone(),
            port,
            identity: copy_text(&identity),
        };
        self.phase = Phase::Connecting { alias, port, identity };
        action
    }

    fn give_up(&mut self, error: RsshError) -> (action: DialogueAction)
        ensures
            (final(self)@, action@) == give_up(error@),
    {
        self.phase = Phase::Failed { error: error.clone() };
        DialogueAction::Abort { error }
    }

    /// Takes in what the user answered and says what is to be asked next.
    ///
    /// A prompt that fails ends the dialogue, and so does an event that is
    /// no answer to the last prompt.
    pub fn step(&mut self, event: DialogueEvent) -> (action: DialogueAction)
        ensures
            (final(self)@, action@) == dialogue_step(old(self)@, event@),
    {
        match &self.phase {
            Phase::Connecting { alias, port, identity } => {
                return DialogueAction::Connect {
                    alias: alias.clone(),
                    port: *port,
                    identity: copy_text(identity),
                };
            },
            Phase::Reported { line } => {
                return DialogueAction::Report { line: line.clone() };
            },
            Phase::Failed { error } => {
                return DialogueAction::Abort { error: error.clone() };
            },
            _ => {},
        }
        match (&self.phase, event) {
            (Phase::Choosing, DialogueEvent::Answer(alias)) => {
                self.phase = Phase::AskingPort { alias };
                DialogueAction::AskPort { offered: DEFAULT_PORT_TEXT.to_owned() }
            },
            (Phase::AskingPort { alias }, DialogueEvent::Answer(text)) => {
                match parse_port(text.as_str()) {
                    Some(port) => {
                        self.phase = Phase::AskingWhetherIdentity { alias: alias.clone(), port };
                        DialogueAction::AskWhetherIdentity { offered: false }
                    },
                    None => self.give_up(
                        RsshError::Other { reason: "Invalid port number".to_owned() },
                    ),
                }
            },
            (Phase::AskingWhetherIdentity { alias, port }, DialogueEvent::Confirmed(yes)) => {
                let alias = alias.clone();
                let port = *port;
                if yes {
                    self.phase = Phase::AskingIdentityPath { alias, port };
                    DialogueAction::AskIdentityPath
                } else {
                    self.connect(alias, port, None)
                }
            },
            (Phase::AskingIdentityPath { alias, port }, DialogueEvent::Answer(path)) => {
                let alias = alias.clone();
                let port = *port;
                self.connect(alias, port, Some(path))
            },
            (_, DialogueEvent::Failed { reason }) => self.give_up(RsshError::Other { reason }),
            (_, _) => self.give_up(RsshError::Other { reason: "unexpected event".to_owned() }),
        }
    }
}

/// The port that the prompt offers is the port that commands use where
/// none is given.
pub proof fn lemma_offered_port_is_default()
    ensures
        parsed_port(DEFAULT_PORT_TEXT@) == Some(DEFAULT_PORT),
{
    reveal_strlit("22");
    lemma_port_of_decimal(DEFAULT_PORT);
    assert(decimal(2) =~= seq!['2']);
    assert(decimal(22) =~= seq!['2', '2']);
    assert(DEFAULT_PORT_TEXT@ =~= decimal(22));
}

/// A user who takes what every prompt offers opens a shell on the chosen
/// alias, on the default port and without identity file.
pub proof fn lemma_offers_taken(alias: Seq<char>)
    ensures
        ({
            let chosen = dialogue_step(DialogueStage::Choosing, DialogueEventView::Answer(alias));
            let ported = dialogue_step(chosen.0, DialogueEventView::Answer(DEFAULT_PORT_TEXT@));
            let ended = dialogue_step(ported.0, DialogueEventView::Confirmed(false));
            &&& chosen.1 == DialogueActionView::AskPort { offered: DEFAULT_PORT_TEXT@ }
            &&& ported.1 == DialogueActionView::AskWhetherIdentity { offered: false }
            &&& ended.1 == DialogueActionView::Connect { alias, port: DEFAULT_PORT, identity: None }
        }),
{
    lemma_offered_port_is_default();
}

} // verus!
