//! The interactive shell: keys become bytes for the channel, and what the
//! channel sends is shown, in turns of a single loop.
//!
//! The loop itself runs outside. After each piece of outside work it tells
//! the [`ShellSession`] what happened, and is told what to do next.

use vstd::prelude::*;
use crossterm::event::KeyModifiers;
use crate::error::{outcome_view, ErrorKind, RsshError};

verus! {

/// How long one wait for local input lasts, in milliseconds.
pub const POLL_INTERVAL_MS: u64 = 10;

/// How many bytes one read from the channel may bring.
pub const READ_CAPACITY: usize = 1024;

/// Carriage return, the byte of the Enter key.
pub const CR: u8 = 0x0d;

/// The byte of the Backspace key.
pub const BS: u8 = 0x08;

/// Horizontal tab.
pub const TAB: u8 = 0x09;

/// Escape, which also opens the sequence of an arrow key.
pub const ESC: u8 = 0x1b;

/// The opening bracket that follows escape in the sequence of an arrow key.
/// The letter after it says which arrow.
pub const BRACKET: u8 = 0x5b;

/// The letter `A`, which ends the sequence of the arrow up.
pub const ARROW_UP: u8 = 0x41;

/// The letter `B`, which ends the sequence of the arrow down.
pub const ARROW_DOWN: u8 = 0x42;

/// The letter `C`, which ends the sequence of the arrow to the right.
pub const ARROW_RIGHT: u8 = 0x43;

/// The letter `D`, which ends the sequence of the arrow to the left.
pub const ARROW_LEFT: u8 = 0x44;

/// A key of the local keyboard.
#[derive(Clone, Copy, Debug, PartialEq, Eq, Structural)]
pub enum KeyCode {
    Char(char),
    Enter,
    Backspace,
    Left,
    Right,
    Up,
    Down,
    Tab,
    Esc,
    /// Any key that the shell does not pass on.
    Other,
}

/// What happened to a key.
#[derive(Clone, Copy, Debug, PartialEq, Eq, Structural)]
pub enum KeyEventKind {
    Press,
    Repeat,
    Release,
}

/// A key event: the key, the modifiers that were held, and what happened
/// to the key.
#[derive(Clone, Copy, Debug, PartialEq, Eq, Structural)]
pub struct KeyEvent {
    pub code: KeyCode,
    /// The modifiers, as the bits of crossterm's `KeyModifiers`.
    pub modifiers: u8,
    pub kind: KeyEventKind,
}

/// What the local terminal reported.
#[derive(Clone, Copy, Debug, PartialEq, Eq, Structural)]
pub enum InputEvent {
    Key(KeyEvent),
    Resize { width: u16, height: u16 },
    /// Anything else: mouse, focus, paste.
    Other,
}

/// The bit that stands for the control key among the modifiers of a key
/// event.
pub const CONTROL: u8 = 0b0000_0010;

/// The control key is among `modifiers`.
pub open spec fn control_among(modifiers: u8) -> bool {
    modifiers & CONTROL == CONTROL
}

/// Whether the control key is among `modifiers`, by crossterm's
/// `KeyModifiers::contains`.
///
/// Taken on trust: `contains` says of a set of modifiers whether every bit
/// of its argument is set in it, and crossterm's `KeyModifiers::CONTROL` is
/// the one bit [`CONTROL`].
#[verifier::external_body]
fn control_held(modifiers: u8) -> (held: bool)
    ensures
        held == control_among(modifiers),
{
    KeyModifiers::from_bits_retain(modifiers).contains(KeyModifiers::CONTROL)
}

/// The bytes that a key sends to the remote side, with or without the
/// control key.
pub open spec fn key_bytes(code: KeyCode, control: bool) -> Seq<u8> {
    match code {
        KeyCode::Char(c) => if control {
            if 'a' <= c <= 'z' {
                seq![(c as u32 - 96) as u8]
            } else {
                seq![]
            }
        } else {
            seq![(c as u32 % 256) as u8]
        },
        KeyCode::Enter => seq![CR],
        KeyCode::Backspace => seq![BS],
        KeyCode::Left => seq![ESC, BRACKET, ARROW_LEFT],
        KeyCode::Right => seq![ESC, BRACKET, ARROW_RIGHT],
        KeyCode::Up => seq![ESC, BRACKET, ARROW_UP],
        KeyCode::Down => seq![ESC, BRACKET, ARROW_DOWN],
        KeyCode::Tab => seq![TAB],
        KeyCode::Esc => seq![ESC],
        KeyCode::Other => seq![],
    }
}

/// The bytes that a key event sends: those of its key where the key was
/// pressed, none where it was released or is repeating.
pub open spec fn key_event_bytes(key: KeyEvent) -> Seq<u8> {
    if key.kind == KeyEventKind::Press {
        key_bytes(key.code, control_among(key.modifiers))
    } else {
        seq![]
    }
}

/// Translates a key into the bytes that the remote side gets for it.
pub fn translate_key(code: KeyCode, control: bool) -> (bytes: Vec<u8>)
    ensures
        bytes@ == key_bytes(code, control),
{
    let bytes = match code {
        KeyCode::Char(c) => {
            if control {
                if 'a' <= c && c <= 'z' {
                    vec![(c as u32 - 96) as u8]
                } else {
                    Vec::new()
                }
            } else {
                vec![(c as u32 % 256) as u8]
            }
        },
        KeyCode::Enter => vec![CR],
        KeyCode::Backspace => vec![BS],
        KeyCode::Left => vec![ESC, BRACKET, ARROW_LEFT],
        KeyCode::Right => vec![ESC, BRACKET, ARROW_RIGHT],
        KeyCode::Up => vec![ESC, BRACKET, ARROW_UP],
        KeyCode::Down => vec![ESC, BRACKET, ARROW_DOWN],
        KeyCode::Tab => vec![TAB],
        KeyCode::Esc => vec![ESC],
        KeyCode::Other => Vec::new(),
    };
    assert(bytes@ =~= key_bytes(code, control));
    bytes
}

/// What the outside reports to the shell session.
#[derive(Debug)]
pub enum ShellEvent {
    /// The work asked for was done.
    Done,
    /// The work asked for failed.
    Failed { reason: String },
    /// The size of the local terminal.
    Size { width: u16, height: u16 },
    /// What the local terminal reported within the interval, if anything.
    Input(Option<InputEvent>),
    /// What a read from the channel brought. No bytes: the remote side has
    /// closed the stream.
    Data(Vec<u8>),
    /// A read from the channel found nothing to read for now.
    WouldBlock,
}

/// What the shell session asks the outside to do.
#[derive(Debug)]
pub enum ShellAction {
    OpenChannel,
    QuerySize,
    RequestPty { term: String, width: u32, height: u32 },
    StartShell,
    EnterRawMode,
    SetNonBlocking,
    /// Wait for local input, no longer than `millis`.
    PollInput { millis: u64 },
    /// Write all of `bytes` to the channel and flush it.
    WriteChannel { bytes: Vec<u8> },
    ResizePty { width: u32, height: u32 },
    /// Read at most `capacity` bytes from the channel, without waiting.
    ReadChannel { capacity: usize },
    /// Write all of `bytes` to the local display and flush it.
    WriteDisplay { bytes: Vec<u8> },
    /// Put the local terminal back into the mode it had.
    RestoreTerminal,
    /// Leave the shell with `outcome`.
    Exit { outcome: Result<(), RsshError> },
}

/// A [`ShellEvent`] as contracts speak of it.
pub enum ShellEventView {
    Done,
    Failed { reason: Seq<char> },
    Size { width: u16, height: u16 },
    Input(Option<InputEvent>),
    Data(Seq<u8>),
    WouldBlock,
}

/// A [`ShellAction`] as contracts speak of it.
pub enum ShellActionView {
    OpenChannel,
    QuerySize,
    RequestPty { term: Seq<char>, width: u32, height: u32 },
    StartShell,
    EnterRawMode,
    SetNonBlocking,
    PollInput { millis: u64 },
    WriteChannel { bytes: Seq<u8> },
    ResizePty { width: u32, height: u32 },
    ReadChannel { capacity: usize },
    WriteDisplay { bytes: Seq<u8> },
    RestoreTerminal,
    Exit { outcome: Result<(), ErrorKind> },
}

/// Where a shell session stands: the work it waits for, or how it ended.
pub enum ShellState {
    Opening,
    Sizing,
    RequestingPty,
    Starting,
    EnteringRaw,
    Unblocking,
    Polling,
    Sending,
    Resizing,
    Reading,
    Showing,
    Restoring { outcome: Result<(), ErrorKind> },
    Exited { outcome: Result<(), ErrorKind> },
}

impl View for ShellEvent {
    type V = ShellEventView;

    open spec fn view(&self) -> ShellEventView {
        match self {
            ShellEvent::Done => ShellEventView::Done,
            ShellEvent::Failed { reason } => ShellEventView::Failed { reason: reason@ },
            ShellEvent::Size { width, height } => ShellEventView::Size {
                width: *width,
                height: *height,
            },
            ShellEvent::Input(input) => ShellEventView::Input(*input),
            ShellEvent::Data(bytes) => ShellEventView::Data(bytes@),
            ShellEvent::WouldBlock => ShellEventView::WouldBlock,
        }
    }
}

impl View for ShellAction {
    type V = ShellActionView;

    open spec fn view(&self) -> ShellActionView {
        match self {
            ShellAction::OpenChannel => ShellActionView::OpenChannel,
            ShellAction::QuerySize => ShellActionView::QuerySize,
            ShellAction::RequestPty { term, width, height } => ShellActionView::RequestPty {
                term: term@,
                width: *width,
                height: *height,
            },
            ShellAction::StartShell => ShellActionView::StartShell,
            ShellAction::EnterRawMode => ShellActionView::EnterRawMode,
            ShellAction::SetNonBlocking => ShellActionView::SetNonBlocking,
            ShellAction::PollInput { millis } => ShellActionView::PollInput { millis: *millis },
            ShellAction::WriteChannel { bytes } => ShellActionView::WriteChannel { bytes: bytes@ },
            ShellAction::ResizePty { width, height } => ShellActionView::ResizePty {
                width: *width,
                height: *height,
            },
            ShellAction::ReadChannel { capacity } => ShellActionView::ReadChannel {
                capacity: *capacity,
            },
            ShellAction::WriteDisplay { bytes } => ShellActionView::WriteDisplay { bytes: bytes@ },
            ShellAction::RestoreTerminal => ShellActionView::RestoreTerminal,
            ShellAction::Exit { outcome } => ShellActionView::Exit {
                outcome: outcome_view(*outcome),
            },
        }
    }
}

/// The local terminal is in raw mode while the session stands at `s`.
pub open spec fn raw_mode(s: ShellState) -> bool {
    match s {
        ShellState::Unblocking
        | ShellState::Polling
        | ShellState::Sending
        | ShellState::Resizing
        | ShellState::Reading
        | ShellState::Showing
        | ShellState::Restoring { .. } => true,
        _ => false,
    }
}

/// Why the work failed that `e` reports. An event that is no answer to what
/// was asked counts as a failure of its own.
pub open spec fn fault(e: ShellEventView) -> Seq<char> {
    match e {
        ShellEventView::Failed { reason } => reason,
        _ => "unexpected event"@,
    }
}

/// The error that the event `e` stands for at `s`. A failed read from the
/// channel has its own kind.
pub open spec fn fault_kind(s: ShellState, e: ShellEventView) -> ErrorKind {
    if s is Reading && e is Failed {
        ErrorKind::ChannelReadError { reason: fault(e) }
    } else {
        ErrorKind::Other { reason: fault(e) }
    }
}

/// Giving up at `s` with `error`: in raw mode the terminal is restored
/// first, else the shell is left at once.
pub open spec fn give_up(s: ShellState, error: ErrorKind) -> (ShellState, ShellActionView) {
    if raw_mode(s) {
        (ShellState::Restoring { outcome: Err(error) }, ShellActionView::RestoreTerminal)
    } else {
        (ShellState::Exited { outcome: Err(error) }, ShellActionView::Exit { outcome: Err(error) })
    }
}

/// The output phase: one read from the channel.
pub open spec fn to_output() -> (ShellState, ShellActionView) {
    (ShellState::Reading, ShellActionView::ReadChannel { capacity: READ_CAPACITY })
}

/// The input phase: one wait for local input.
pub open spec fn to_input() -> (ShellState, ShellActionView) {
    (ShellState::Polling, ShellActionView::PollInput { millis: POLL_INTERVAL_MS })
}

/// What local input leads to: the bytes of a pressed key go to the channel,
/// a new size goes to the pseudo-terminal, and all else leads straight to
/// the output phase.
pub open spec fn after_input(input: Option<InputEvent>) -> (ShellState, ShellActionView) {
    match input {
        Some(InputEvent::Key(key)) => if key_event_bytes(key).len() > 0 {
            (ShellState::Sending, ShellActionView::WriteChannel { bytes: key_event_bytes(key) })
        } else {
            to_output()
        },
        Some(InputEvent::Resize { width, height }) => (
            ShellState::Resizing,
            ShellActionView::ResizePty { width: width as u32, height: height as u32 },
        ),
        _ => to_output(),
    }
}

/// One step of the shell session: where it stands after the event `e`
/// reached it at `s`, and what it asks for next.
pub open spec fn shell_step(s: ShellState, e: ShellEventView) -> (ShellState, ShellActionView) {
    match (s, e) {
        (ShellState::Opening, ShellEventView::Done) => (
            ShellState::Sizing,
            ShellActionView::QuerySize,
        ),
        (ShellState::Sizing, ShellEventView::Size { width, height }) => (
            ShellState::RequestingPty,
            ShellActionView::RequestPty {
                term: "xterm-256color"@,
                width: width as u32,
                height: height as u32,
            },
        ),
        (ShellState::RequestingPty, ShellEventView::Done) => (
            ShellState::Starting,
            ShellActionView::StartShell,
        ),
        (ShellState::Starting, ShellEventView::Done) => (
            ShellState::EnteringRaw,
            ShellActionView::EnterRawMode,
        ),
        (ShellState::EnteringRaw, ShellEventView::Done) => (
            ShellState::Unblocking,
            ShellActionView::SetNonBlocking,
        ),
        (ShellState::Unblocking, ShellEventView::Done) => to_input(),
        (ShellState::Polling, ShellEventView::Input(input)) => after_input(input),
        (ShellState::Sending, ShellEventView::Done) => to_output(),
        (ShellState::Resizing, ShellEventView::Done) => to_output(),
        (ShellState::Reading, ShellEventView::Data(bytes)) => if bytes.len() == 0 {
            (ShellState::Restoring { outcome: Ok(()) }, ShellActionView::RestoreTerminal)
        } else {
            (ShellState::Showing, ShellActionView::WriteDisplay { bytes })
        },
        (ShellState::Reading, ShellEventView::WouldBlock) => to_input(),
        (ShellState::Showing, ShellEventView::Done) => to_output(),
        (ShellState::Restoring { outcome }, ShellEventView::Done) => (
            ShellState::Exited { outcome },
            ShellActionView::Exit { outcome },
        ),
        (ShellState::Restoring { outcome }, _) => {
            let kept = if outcome is Ok {
                Err(fault_kind(s, e))
            } else {
                outcome
            };
            (ShellState::Exited { outcome: kept }, ShellActionView::Exit { outcome: kept })
        },
        (ShellState::Exited { outcome }, _) => (s, ShellActionView::Exit { outcome }),
        _ => give_up(s, fault_kind(s, e)),
    }
}

/// An interactive shell over an authenticated session, as far as it has
/// come.
pub struct ShellSession {
    phase: Phase,
}

enum Phase {
    Opening,
    Sizing,
    RequestingPty,
    Starting,
    EnteringRaw,
    Unblocking,
    Polling,
    Sending,
    Resizing,
    Reading,
    Showing,
    Restoring { outcome: Result<(), RsshError> },
    Exited { outcome: Result<(), RsshError> },
}

impl View for ShellSession {
    type V = ShellState;

    closed spec fn view(&self) -> ShellState {
        match self.phase {
            Phase::Opening => ShellState::Opening,
            Phase::Sizing => ShellState::Sizing,
            Phase::RequestingPty => ShellState::RequestingPty,
            Phase::Starting => ShellState::Starting,
            Phase::EnteringRaw => ShellState::EnteringRaw,
            Phase::Unblocking => ShellState::Unblocking,
            Phase::Polling => ShellState::Polling,
            Phase::Sending => ShellState::Sending,
            Phase::Resizing => ShellState::Resizing,
            Phase::Reading => ShellState::Reading,
            Phase::Showing => ShellState::Showing,
            Phase::Restoring { outcome } => ShellState::Restoring { outcome: outcome_view(outcome) },
            Phase::Exited { outcome } => ShellState::Exited { outcome: outcome_view(outcome) },
        }
    }
}

fn copy_outcome(outcome: &Result<(), RsshError>) -> (copy: Result<(), RsshError>)
    ensures
        copy == *outcome,
{
    match outcome {
        Ok(unit) => Ok(*unit),
        Err(e) => Err(e.clone()),
    }
}

/// The reason that an event gives for a failure.
fn fault_of(event: ShellEvent) -> (reason: String)
    ensures
        reason@ == fault(event@),
{
    match event {
        ShellEvent::Failed { reason } => reason,
        _ => "unexpected event".to_owned(),
    }
}

/// Starts an interactive shell: the session that waits for the channel to
/// be opened, and the request to open it.
pub fn handle_interactive_shell() -> (start: (ShellSession, ShellAction))
    ensures
        start.0@ == ShellState::Opening,
        start.1@ == ShellActionView::OpenChannel,
{
    (ShellSession { phase: Phase::Opening }, ShellAction::OpenChannel)
}

impl ShellSession {
    /// Whether the shell has been left.
    pub fn is_finished(&self) -> (finished: bool)
        ensures
            finished == (self@ is Exited),
    {
        match self.phase {
            Phase::Exited { .. } => true,
            _ => false,
        }
    }

    /// Whether the local terminal is in raw mode.
    pub fn in_raw_mode(&self) -> (raw: bool)
        ensures
            raw == raw_mode(self@),
    {
        match self.phase {
            Phase::Unblocking
            | Phase::Polling
            | Phase::Sending
            | Phase::Resizing
            | Phase::Reading
            | Phase::Showing
            | Phase::Restoring { .. } => true,
            _ => false,
        }
    }

    fn give_up(&mut self, error: RsshError) -> (action: ShellAction)
        ensures
            (final(self)@, action@) == give_up(old(self)@, error@),
    {
        if self.in_raw_mode() {
            self.phase = Phase::Restoring { outcome: Err(error) };
            ShellAction::RestoreTerminal
        } else {
            let outcome = Err(error.clone());
            self.phase = Phase::Exited { outcome: Err(error) };
            ShellAction::Exit { outcome }
        }
    }

    fn to_output(&mut self) -> (action: ShellAction)
        ensures
            (final(self)@, action@) == to_output(),
    {
        self.phase = Phase::Reading;
        ShellAction::ReadChannel { capacity: READ_CAPACITY }
    }

    fn to_input(&mut self) -> (action: ShellAction)
        ensures
            (final(self)@, action@) == to_input(),
    {
        self.phase = Phase::Polling;
        ShellAction::PollInput { millis: POLL_INTERVAL_MS }
    }

    fn after_input(&mut self, input: Option<InputEvent>) -> (action: ShellAction)
        ensures
            (final(self)@, action@) == after_input(input),
    {
        match input {
            Some(InputEvent::Key(key)) => {
                let bytes = match key.kind {
                    KeyEventKind::Press => translate_key(key.code, control_held(key.modifiers)),
                    _ => Vec::new(),
                };
                assert(bytes@ =~= key_event_bytes(key));
                if bytes.len() > 0 {
                    self.phase = Phase::Sending;
                    ShellAction::WriteChannel { bytes }
                } else {
                    self.to_output()
                }
            },
            Some(InputEvent::Resize { width, height }) => {
                self.phase = Phase::Resizing;
                ShellAction::ResizePty { width: width as u32, height: height as u32 }
            },
            _ => self.to_output(),
        }
    }

    fn fail(&mut self, event: ShellEvent) -> (action: ShellAction)
        ensures
            (final(self)@, action@) == give_up(old(self)@, fault_kind(old(self)@, event@)),
    {
        let read_failed = match (&self.phase, &event) {
            (Phase::Reading, ShellEvent::Failed { .. }) => true,
            _ => false,
        };
        let reason = fault_of(event);
        let error = if read_failed {
            RsshError::ChannelReadError { reason }
        } else {
            RsshError::Other { reason }
        };
        self.give_up(error)
    }

    fn leave(&mut self, event: ShellEvent) -> (action: ShellAction)
        requires
            old(self)@ is Restoring,
        ensures
            (final(self)@, action@) == shell_step(old(self)@, event@),
    {
        let done = match &event {
            ShellEvent::Done => true,
            _ => false,
        };
        let before = match &self.phase {
            Phase::Restoring { outcome } => copy_outcome(outcome),
            _ => Ok(()),
        };
        let kept = if !done && before.is_ok() {
            Err(RsshError::Other { reason: fault_of(event) })
        } else {
            before
        };
        let outcome = copy_outcome(&kept);
        self.phase = Phase::Exited { outcome: kept };
        ShellAction::Exit { outcome }
    }

    /// Takes in what happened and says what is to be done next.
    ///
    /// The terminal is restored before the shell is left, whatever made it
    /// end. An event that is no answer to the last request ends the shell
    /// like a failure of that request.
    pub fn step(&mut self, event: ShellEvent) -> (action: ShellAction)
        ensures
            (final(self)@, action@) == shell_step(old(self)@, event@),
    {
        match &self.phase {
            Phase::Exited { outcome } => {
                return ShellAction::Exit { outcome: copy_outcome(outcome) };
            },
            Phase::Restoring { .. } => {
                return self.leave(event);
            },
            _ => {},
        }
        match (&self.phase, event) {
            (Phase::Opening, ShellEvent::Done) => {
                self.phase = Phase::Sizing;
                ShellAction::QuerySize
            },
            (Phase::Sizing, ShellEvent::Size { width, height }) => {
                self.phase = Phase::RequestingPty;
                ShellAction::RequestPty {
                    term: "xterm-256color".to_owned(),
                    width: width as u32,
                    height: height as u32,
                }
            },
            (Phase::RequestingPty, ShellEvent::Done) => {
                self.phase = Phase::Starting;
                ShellAction::StartShell
            },
            (Phase::Starting, ShellEvent::Done) => {
                self.phase = Phase::EnteringRaw;
                ShellAction::EnterRawMode
            },
            (Phase::EnteringRaw, ShellEvent::Done) => {
                self.phase = Phase::Unblocking;
                ShellAction::SetNonBlocking
            },
            (Phase::Unblocking, ShellEvent::Done) => self.to_input(),
            (Phase::Polling, ShellEvent::Input(input)) => self.after_input(input),
            (Phase::Sending, ShellEvent::Done) => self.to_output(),
            (Phase::Resizing, ShellEvent::Done) => self.to_output(),
            (Phase::Reading, ShellEvent::Data(bytes)) => {
                if bytes.len() == 0 {
                    self.phase = Phase::Restoring { outcome: Ok(()) };
                    ShellAction::RestoreTerminal
                } else {
                    self.phase = Phase::Showing;
                    ShellAction::WriteDisplay { bytes }
                }
            },
            (Phase::Reading, ShellEvent::WouldBlock) => self.to_input(),
            (Phase::Showing, ShellEvent::Done) => self.to_output(),
            (_, event) => self.fail(event),
        }
    }
}

} // verus!
