//! The commands that read or change the alias store: add, list, remove.
//!
//! Writing the store to its file and deleting a secret from the vault are
//! outside work. After each piece of it the [`StoreRun`] is told what
//! happened and says what is to be done next.
//!
//! An alias that is removed is taken out of the store first; then the
//! store is written, and only then the vault is asked to delete the secret
//! of the alias. A vault that has no such secret does not make the command
//! fail; a vault that fails otherwise does, with the alias already gone.

use vstd::prelude::*;
use crate::cli::Commands;
use crate::config::{position, with_record, without_record, AliasRecord, Config, RecordView};
use crate::credentials::{
    delete_password,
    deletion_outcome,
    reply_view,
    FaultView,
    VaultFault,
};
use crate::error::{ErrorKind, RsshError};

verus! {

/// What the outside reports to a run of a store command.
#[derive(Debug)]
pub enum StoreEvent {
    /// The store was written.
    Done,
    /// The store could not be written.
    Failed { reason: String },
    /// The answer of the vault to the request to delete a secret.
    Deleted(Result<(), VaultFault>),
}

/// What a run of a store command asks the outside to do.
#[derive(Debug)]
pub enum StoreAction {
    /// Write the store, which now holds `records`.
    Save { records: Vec<AliasRecord> },
    /// Delete what the vault holds for `alias`.
    DeleteSecret { alias: String },
    /// The command is done: show `lines`.
    Report { lines: Vec<String> },
    /// Give up with `error`.
    Abort { error: RsshError },
}

/// A [`StoreEvent`] as contracts speak of it.
pub enum StoreEventView {
    Done,
    Failed { reason: Seq<char> },
    Deleted(Result<(), FaultView>),
}

/// A [`StoreAction`] as contracts speak of it.
pub enum StoreActionView {
    Save { records: Seq<RecordView> },
    DeleteSecret { alias: Seq<char> },
    Report { lines: Seq<Seq<char>> },
    Abort { error: ErrorKind },
}

/// How far a store command has come: the work it waits for, or how it
/// ended.
pub enum StoreStage {
    /// The store is being written with `alias` added.
    SavingAdded { alias: Seq<char> },
    /// The store is being written with `alias` removed.
    SavingRemoved { alias: Seq<char> },
    /// The vault is deleting the secret of `alias`.
    Deleting { alias: Seq<char> },
    Reported { lines: Seq<Seq<char>> },
    Failed { error: ErrorKind },
}

impl View for StoreEvent {
    type V = StoreEventView;

    open spec fn view(&self) -> StoreEventView {
        match self {
            StoreEvent::Done => StoreEventView::Done,
            StoreEvent::Failed { reason } => StoreEventView::Failed { reason: reason@ },
            StoreEvent::Deleted(reply) => StoreEventView::Deleted(reply_view(*reply)),
        }
    }
}

impl View for StoreAction {
    type V = StoreActionView;

    open spec fn view(&self) -> StoreActionView {
        match self {
            StoreAction::Save { records } => StoreActionView::Save {
                records: records.deep_view(),
            },
            StoreAction::DeleteSecret { alias } => StoreActionView::DeleteSecret { alias: alias@ },
            StoreAction::Report { lines } => StoreActionView::Report { lines: lines.deep_view() },
            StoreAction::Abort { error } => StoreActionView::Abort { error: error@ },
        }
    }
}

/// The line that lists `record`.
pub open spec fn listed(record: RecordView) -> Seq<char> {
    "  "@ + record.alias + " -> "@ + record.connection
}

/// What the list command shows for `records`.
pub open spec fn listing(records: Seq<RecordView>) -> Seq<Seq<char>> {
    if records.len() == 0 {
        seq!["No connections saved. Use 'rssh add <alias> <user@host>' to add one."@]
    } else {
        seq!["Saved connections:"@] + Seq::new(records.len(), |i: int| listed(records[i]))
    }
}

/// What is shown once `alias` is added.
pub open spec fn added_line(alias: Seq<char>) -> Seq<char> {
    "Connection '"@ + alias + "' added."@
}

/// What is shown once `alias` is removed.
pub open spec fn removed_line(alias: Seq<char>) -> Seq<char> {
    "Connection '"@ + alias + "' removed."@
}

/// Ending with `lines` shown.
pub open spec fn report(lines: Seq<Seq<char>>) -> (StoreStage, StoreActionView) {
    (StoreStage::Reported { lines }, StoreActionView::Report { lines })
}

/// Ending with `error`.
pub open spec fn give_up(error: ErrorKind) -> (StoreStage, StoreActionView) {
    (StoreStage::Failed { error }, StoreActionView::Abort { error })
}

/// Why the work failed that `e` reports. An event that is no answer to what
/// was asked counts as a failure of its own.
pub open spec fn fault(e: StoreEventView) -> Seq<char> {
    match e {
        StoreEventView::Failed { reason } => reason,
        _ => "unexpected event"@,
    }
}

/// A store command is one of add, list and remove.
pub open spec fn is_store_command(command: Commands) -> bool {
    command is Add || command is List || command is Remove
}

/// What `command` makes of a store with `records`: the records afterwards.
pub open spec fn store_after(records: Seq<RecordView>, command: Commands) -> Seq<RecordView> {
    match command {
        Commands::Add { alias, connection_string } => with_record(
            records,
            alias@,
            connection_string@,
        ),
        Commands::Remove { alias } => without_record(records, alias@),
        _ => records,
    }
}

/// Where the store command `command` starts on a store with `records`:
/// what it waits for and what it asks for first.
pub open spec fn store_start(records: Seq<RecordView>, command: Commands) -> (
    StoreStage,
    StoreActionView,
) {
    match command {
        Commands::Add { alias, .. } => (
            StoreStage::SavingAdded { alias: alias@ },
            StoreActionView::Save { records: store_after(records, command) },
        ),
        Commands::Remove { alias } => if position(records, alias@) < records.len() {
            (
                StoreStage::SavingRemoved { alias: alias@ },
                StoreActionView::Save { records: store_after(records, command) },
            )
        } else {
            give_up(ErrorKind::AliasNotFound { alias: alias@ })
        },
        _ => report(listing(records)),
    }
}

/// One step of a store command: where it stands after the event `e`
/// reached it at `s`, and what it asks for next.
pub open spec fn store_step(s: StoreStage, e: StoreEventView) -> (StoreStage, StoreActionView) {
    match (s, e) {
        (StoreStage::SavingAdded { alias }, StoreEventView::Done) => report(
            seq![added_line(alias)],
        ),
        (StoreStage::SavingRemoved { alias }, StoreEventView::Done) => (
            StoreStage::Deleting { alias },
            StoreActionView::DeleteSecret { alias },
        ),
        (StoreStage::Deleting { alias }, StoreEventView::Deleted(reply)) => match deletion_outcome(
            reply,
        ) {
            Ok(_) => report(seq![removed_line(alias)]),
            Err(error) => give_up(error),
        },
        (StoreStage::Reported { lines }, _) => (s, StoreActionView::Report { lines }),
        (StoreStage::Failed { error }, _) => (s, StoreActionView::Abort { error }),
        _ => give_up(ErrorKind::Other { reason: fault(e) }),
    }
}

/// A store command that is being carried out.
pub struct StoreRun {
    phase: Phase,
}

enum Phase {
    SavingAdded { alias: String },
    SavingRemoved { alias: String },
    Deleting { alias: String },
    Reported { lines: Vec<String> },
    Failed { error: RsshError },
}

impl View for StoreRun {
    type V = StoreStage;

    closed spec fn view(&self) -> StoreStage {
        match self.phase {
            Phase::SavingAdded { alias } => StoreStage::SavingAdded { alias: alias@ },
            Phase::SavingRemoved { alias } => StoreStage::SavingRemoved { alias: alias@ },
            Phase::Deleting { alias } => StoreStage::Deleting { alias: alias@ },
            Phase::Reported { lines } => StoreStage::Reported { lines: lines.deep_view() },
            Phase::Failed { error } => StoreStage::Failed { error: error@ },
        }
    }
}

fn copy_lines(lines: &Vec<String>) -> (copy: Vec<String>)
    ensures
        copy.deep_view() == lines.deep_view(),
{
    let mut copy: Vec<String> = Vec::new();
    let mut i: usize = 0;
    while i < lines.len()
        invariant
            i <= lines.len(),
            copy.len() == i,
            forall|k: int| 0 <= k < i ==> copy[k]@ == lines[k]@,
        decreases lines.len() - i,
    {
        copy.push(lines[i].clone());
        i = i + 1;
    }
    assert(copy.deep_view() =~= lines.deep_view());
    copy
}

fn one_line(head: &str, middle: &str, tail: &str) -> (lines: Vec<String>)
    ensures
        lines.deep_view() == seq![head@ + middle@ + tail@],
{
    let mut line = head.to_owned();
    line.append(middle);
    line.append(tail);
    let mut lines: Vec<String> = Vec::new();
    lines.push(line);
    assert(lines.deep_view() =~= seq![head@ + middle@ + tail@]);
    lines
}

/// What the list command shows for the store `config`.
pub fn list_lines(config: &Config) -> (lines: Vec<String>)
    ensures
        lines.deep_view() == listing(config.records()),
{
    let records = config.save();
    let mut lines: Vec<String> = Vec::new();
    if records.len() == 0 {
        lines.push(
            "No connections saved. Use 'rssh add <alias> <user@host>' to add one.".to_owned(),
        );
        assert(lines.deep_view() =~= listing(config.records()));
        return lines;
    }
    lines.push("Saved connections:".to_owned());
    let mut i: usize = 0;
    while i < records.len()
        invariant
            i <= records.len(),
            lines.len() == i + 1,
            lines[0]@ == "Saved connections:"@,
            records.deep_view() == config.records(),
            forall|k: int| 0 <= k < i ==> lines[k + 1]@ == listed(config.records()[k]),
        decreases records.len() - i,
    {
        let mut line = "  ".to_owned();
        line.append(records[i].alias.as_str());
        line.append(" -> ");
        line.append(records[i].connection.as_str());
        proof {
            assert(records.deep_view()[i as int] == records[i as int]@);
        }
        lines.push(line);
        i = i + 1;
    }
    assert(lines.deep_view() =~= listing(config.records()));
    lines
}

/// Starts the store command `command` on `config`: changes the store as
/// the command says and asks for the first piece of outside work. There is
/// nothing to start for a command that is no store command.
pub fn store_command(config: &mut Config, command: &Commands) -> (start: Option<
    (StoreRun, StoreAction),
>)
    ensures
        final(config).records() == store_after(old(config).records(), *command),
        match start {
            Some((run, action)) => is_store_command(*command) && (run@, action@) == store_start(
                old(config).records(),
                *command,
            ),
            None => !is_store_command(*command),
        },
{
    match command {
        Commands::Add { alias, connection_string } => {
            config.add(alias.clone(), connection_string.clone());
            Some(
                (
                    StoreRun { phase: Phase::SavingAdded { alias: alias.clone() } },
                    StoreAction::Save { records: config.save() },
                ),
            )
        },
        Commands::List => {
            let lines = list_lines(config);
            Some(
                (
                    StoreRun { phase: Phase::Reported { lines: copy_lines(&lines) } },
                    StoreAction::Report { lines },
                ),
            )
        },
        Commands::Remove { alias } => {
            match config.remove(alias.as_str()) {
                Ok(_) => Some(
                    (
                        StoreRun { phase: Phase::SavingRemoved { alias: alias.clone() } },
                        StoreAction::Save { records: config.save() },
                    ),
                ),
                Err(error) => Some(
                    (
                        StoreRun { phase: Phase::Failed { error: error.clone() } },
                        StoreAction::Abort { error },
                    ),
                ),
            }
        },
        _ => None,
    }
}

impl StoreRun {
    /// Whether the command has come to its end, one way or the other.
    pub fn is_finished(&self) -> (finished: bool)
        ensures
            finished == (self@ is Reported || self@ is Failed),
    {
        match self.phase {
            Phase::Reported { .. } | Phase::Failed { .. } => true,
            _ => false,
        }
    }

    fn report(&mut self, lines: Vec<String>) -> (action: StoreAction)
        ensures
            (final(self)@, action@) == report(lines.deep_view()),
    {
        self.phase = Phase::Reported { lines: copy_lines(&lines) };
        StoreAction::Report { lines }
    }

    fn give_up(&mut self, error: RsshError) -> (action: StoreAction)
        ensures
            (final(self)@, action@) == give_up(error@),
    {
        self.phase = Phase::Failed { error: error.clone() };
        StoreAction::Abort { error }
    }

    /// Takes in what happened and says what is to be done next.
    ///
    /// An event that is no answer to the last request ends the command
    /// like a failure of that request.
    pub fn step(&mut self, event: StoreEvent) -> (action: StoreAction)
        ensures
            (final(self)@, action@) == store_step(old(self)@, event@),
    {
        match &self.phase {
            Phase::Reported { lines } => {
                return StoreAction::Report { lines: copy_lines(lines) };
            },
            Phase::Failed { error } => {
                return StoreAction::Abort { error: error.clone() };
            },
            _ => {},
        }
        match (&self.phase, event) {
            (Phase::SavingAdded { alias }, StoreEvent::Done) => {
                let lines = one_line("Connection '", alias.as_str(), "' added.");
                self.report(lines)
            },
            (Phase::SavingRemoved { alias }, StoreEvent::Done) => {
                let action = StoreAction::DeleteSecret { alias: alias.clone() };
                self.phase = Phase::Deleting { alias: alias.clone() };
                action
            },
            (Phase::Deleting { alias }, StoreEvent::Deleted(reply)) => {
                match delete_password(reply) {
                    Ok(_) => {
                        let lines = one_line("Connection '", alias.as_str(), "' removed.");
                        self.report(lines)
                    },
                    Err(error) => self.give_up(error),
                }
            },
            (_, StoreEvent::Failed { reason }) => self.give_up(RsshError::Other { reason }),
            (_, _) => self.give_up(RsshError::Other { reason: "unexpected event".to_owned() }),
        }
    }
}

/// Removing an alias that the store does not hold fails with
/// `AliasNotFound`, leaves the store as it is, and asks for nothing: the
/// store is not written and the vault is not touched. However often it is
/// tried, it comes to the same.
pub proof fn lemma_remove_of_missing_alias(records: Seq<RecordView>, alias: String)
    requires
        position(records, alias@) == records.len(),
    ensures
        store_after(records, Commands::Remove { alias }) == records,
        store_start(records, Commands::Remove { alias }) == give_up(
            ErrorKind::AliasNotFound { alias: alias@ },
        ),
{
}

/// Removing an alias that the store holds writes the store without it and
/// then asks the vault to delete its secret. Whether the vault held a
/// secret or not, the command ends well.
pub proof fn lemma_remove_of_stored_alias(records: Seq<RecordView>, alias: String, had_secret: bool)
    requires
        position(records, alias@) < records.len(),
    ensures
        ({
            let start = store_start(records, Commands::Remove { alias });
            let saved = store_step(start.0, StoreEventView::Done);
            let reply = if had_secret {
                Ok(())
            } else {
                Err(FaultView::NoEntry)
            };
            let deleted = store_step(saved.0, StoreEventView::Deleted(reply));
            &&& start.1 == StoreActionView::Save { records: without_record(records, alias@) }
            &&& saved.1 == StoreActionView::DeleteSecret { alias: alias@ }
            &&& deleted.1 == StoreActionView::Report { lines: seq![removed_line(alias@)] }
        }),
{
}

/// The vault is asked to delete a secret only once the store has been
/// written without the alias, and a vault that fails then fails the
/// command, in its own words.
pub proof fn lemma_vault_follows_store(s: StoreStage, e: StoreEventView, reason: Seq<char>)
    ensures
        store_step(s, e).1 is DeleteSecret ==> s is SavingRemoved && e is Done && store_step(
            s,
            e,
        ).1->DeleteSecret_alias == s->SavingRemoved_alias,
        s is Deleting ==> store_step(
            s,
            StoreEventView::Deleted(Err(FaultView::Other { reason })),
        ).1 == (StoreActionView::Abort { error: ErrorKind::Other { reason } }),
        s is SavingRemoved && e is Failed ==> store_step(s, e).1 == (StoreActionView::Abort {
            error: ErrorKind::Other { reason: e->reason },
        }),
{
}

} // verus!
