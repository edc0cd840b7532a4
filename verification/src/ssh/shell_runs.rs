//! What holds of whole runs of a shell session, whatever the outside
//! reports.

use vstd::prelude::*;
use crate::ssh::shell::{
    key_event_bytes,
    raw_mode,
    shell_step,
    InputEvent,
    ShellActionView,
    ShellEventView,
    ShellState,
};

verus! {

/// A run: where the session stands after `events` reached it one by one at
/// `s`, and what it asked for on the way, in order.
pub open spec fn shell_run(s: ShellState, events: Seq<ShellEventView>) -> (
    ShellState,
    Seq<ShellActionView>,
)
    decreases events.len(),
{
    if events.len() == 0 {
        (s, Seq::empty())
    } else {
        let before = shell_run(s, events.drop_last());
        let last = shell_step(before.0, events.last());
        (last.0, before.1.push(last.1))
    }
}

/// How often `action` stands in `asked`.
pub open spec fn times_asked(asked: Seq<ShellActionView>, action: ShellActionView) -> nat
    decreases asked.len(),
{
    if asked.len() == 0 {
        0
    } else if asked.last() == action {
        times_asked(asked.drop_last(), action) + 1
    } else {
        times_asked(asked.drop_last(), action)
    }
}

/// What `asked` puts on the local display, piece by piece.
pub open spec fn shown(asked: Seq<ShellActionView>) -> Seq<Seq<u8>>
    decreases asked.len(),
{
    if asked.len() == 0 {
        Seq::empty()
    } else {
        match asked.last() {
            ShellActionView::WriteDisplay { bytes } => shown(asked.drop_last()).push(bytes),
            _ => shown(asked.drop_last()),
        }
    }
}

/// What `asked` sends to the channel, piece by piece.
pub open spec fn sent(asked: Seq<ShellActionView>) -> Seq<Seq<u8>>
    decreases asked.len(),
{
    if asked.len() == 0 {
        Seq::empty()
    } else {
        match asked.last() {
            ShellActionView::WriteChannel { bytes } => sent(asked.drop_last()).push(bytes),
            _ => sent(asked.drop_last()),
        }
    }
}

/// The chunk that the event `e` brings from the channel to a session at
/// `s`: the data of a read that was asked for, unless it is the end of the
/// stream.
pub open spec fn chunk_received(s: ShellState, e: ShellEventView) -> Option<Seq<u8>> {
    match e {
        ShellEventView::Data(bytes) if s is Reading && bytes.len() > 0 => Some(bytes),
        _ => None,
    }
}

/// The bytes that the event `e` brings from the keyboard to a session at
/// `s`: those of a key event that was waited for, if it has any.
pub open spec fn keys_typed(s: ShellState, e: ShellEventView) -> Option<Seq<u8>> {
    match e {
        ShellEventView::Input(Some(InputEvent::Key(key))) if s is Polling && key_event_bytes(
            key,
        ).len() > 0 => Some(key_event_bytes(key)),
        _ => None,
    }
}

/// What the channel handed out during a run from `s`, chunk by chunk.
pub open spec fn received(s: ShellState, events: Seq<ShellEventView>) -> Seq<Seq<u8>>
    decreases events.len(),
{
    if events.len() == 0 {
        Seq::empty()
    } else {
        let before = received(s, events.drop_last());
        match chunk_received(shell_run(s, events.drop_last()).0, events.last()) {
            Some(bytes) => before.push(bytes),
            None => before,
        }
    }
}

/// What was typed during a run from `s`, key by key.
pub open spec fn typed(s: ShellState, events: Seq<ShellEventView>) -> Seq<Seq<u8>>
    decreases events.len(),
{
    if events.len() == 0 {
        Seq::empty()
    } else {
        let before = typed(s, events.drop_last());
        match keys_typed(shell_run(s, events.drop_last()).0, events.last()) {
            Some(bytes) => before.push(bytes),
            None => before,
        }
    }
}

/// What the outside reports while the channel hands out `chunks` one after
/// the other and each is shown without fault.
pub open spec fn chunks_read(chunks: Seq<Seq<u8>>) -> Seq<ShellEventView>
    decreases chunks.len(),
{
    if chunks.len() == 0 {
        Seq::empty()
    } else {
        chunks_read(chunks.drop_last()).push(ShellEventView::Data(chunks.last())).push(
            ShellEventView::Done,
        )
    }
}

/// `chunks_read`, then the end of the stream and the terminal restored.
pub open spec fn chunks_then_eof(chunks: Seq<Seq<u8>>) -> Seq<ShellEventView> {
    chunks_read(chunks).push(ShellEventView::Data(Seq::empty())).push(ShellEventView::Done)
}

/// Raw mode is left by restoring the terminal and in no other way, and the
/// shell is left from raw mode only once the terminal has been restored.
pub proof fn lemma_raw_mode_ends_by_restoring(s: ShellState, e: ShellEventView)
    ensures
        raw_mode(s) && !raw_mode(shell_step(s, e).0) ==> s is Restoring && shell_step(s, e).0
            is Exited,
        shell_step(s, e).1 is RestoreTerminal <==> !(s is Restoring) && shell_step(s, e).0
            is Restoring,
        shell_step(s, e).1 is Exit <==> shell_step(s, e).0 is Exited,
        s is Exited ==> shell_step(s, e).0 == s,
{
}

/// The display is written to just when the channel has handed out a chunk,
/// and with that chunk; the channel is written to just when a key with
/// bytes was pressed, and with all the bytes of that key at once.
pub proof fn lemma_step_passes_on(s: ShellState, e: ShellEventView)
    ensures
        match chunk_received(s, e) {
            Some(bytes) => shell_step(s, e).1 == ShellActionView::WriteDisplay { bytes },
            None => !(shell_step(s, e).1 is WriteDisplay),
        },
        match keys_typed(s, e) {
            Some(bytes) => shell_step(s, e).1 == ShellActionView::WriteChannel { bytes },
            None => !(shell_step(s, e).1 is WriteChannel),
        },
{
}

/// Whatever else happens during a run: what the channel hands out goes to
/// the display chunk by chunk, each chunk once and in the order in which
/// it came, and what is typed goes to the channel key by key, in the order
/// in which it was typed.
pub proof fn lemma_passed_on_in_order(s: ShellState, events: Seq<ShellEventView>)
    ensures
        shown(shell_run(s, events).1) == received(s, events),
        sent(shell_run(s, events).1) == typed(s, events),
    decreases events.len(),
{
    if events.len() > 0 {
        lemma_passed_on_in_order(s, events.drop_last());
        let before = shell_run(s, events.drop_last());
        let run = shell_run(s, events);
        assert(run.1.drop_last() == before.1);
        lemma_step_passes_on(before.0, events.last());
    }
}

/// A run that goes on by one event.
pub proof fn lemma_run_goes_on(s: ShellState, events: Seq<ShellEventView>, e: ShellEventView)
    ensures
        shell_run(s, events.push(e)).0 == shell_step(shell_run(s, events).0, e).0,
        shell_run(s, events.push(e)).1 == shell_run(s, events).1.push(
            shell_step(shell_run(s, events).0, e).1,
        ),
{
    assert(events.push(e).drop_last() =~= events);
}

proof fn lemma_times_asked_push(
    asked: Seq<ShellActionView>,
    next: ShellActionView,
    action: ShellActionView,
)
    ensures
        times_asked(asked.push(next), action) == times_asked(asked, action) + if next == action {
            1nat
        } else {
            0nat
        },
{
    assert(asked.push(next).drop_last() =~= asked);
}

proof fn lemma_shown_push(asked: Seq<ShellActionView>, next: ShellActionView)
    ensures
        shown(asked.push(next)) == match next {
            ShellActionView::WriteDisplay { bytes } => shown(asked).push(bytes),
            _ => shown(asked),
        },
{
    assert(asked.push(next).drop_last() =~= asked);
}

/// While nothing fails, the channel has data and the display takes it,
/// every chunk is shown as it came, the terminal is left as it is, and the
/// session is ready to read on.
pub proof fn lemma_chunks_are_shown(chunks: Seq<Seq<u8>>)
    requires
        forall|i: int| 0 <= i < chunks.len() ==> (#[trigger] chunks[i]).len() > 0,
    ensures
        shell_run(ShellState::Reading, chunks_read(chunks)).0 == ShellState::Reading,
        shown(shell_run(ShellState::Reading, chunks_read(chunks)).1) == chunks,
        times_asked(
            shell_run(ShellState::Reading, chunks_read(chunks)).1,
            ShellActionView::RestoreTerminal,
        ) == 0,
    decreases chunks.len(),
{
    if chunks.len() == 0 {
        assert(shown(shell_run(ShellState::Reading, chunks_read(chunks)).1) =~= chunks);
    } else {
        let rest = chunks.drop_last();
        lemma_chunks_are_shown(rest);
        let data = ShellEventView::Data(chunks.last());
        let before = shell_run(ShellState::Reading, chunks_read(rest));
        lemma_run_goes_on(ShellState::Reading, chunks_read(rest), data);
        let read = shell_run(ShellState::Reading, chunks_read(rest).push(data));
        lemma_shown_push(before.1, shell_step(before.0, data).1);
        lemma_times_asked_push(
            before.1,
            shell_step(before.0, data).1,
            ShellActionView::RestoreTerminal,
        );
        lemma_run_goes_on(ShellState::Reading, chunks_read(rest).push(data), ShellEventView::Done);
        lemma_shown_push(read.1, shell_step(read.0, ShellEventView::Done).1);
        lemma_times_asked_push(
            read.1,
            shell_step(read.0, ShellEventView::Done).1,
            ShellActionView::RestoreTerminal,
        );
        assert(rest.push(chunks.last()) =~= chunks);
    }
}

/// A channel that hands out chunks, none of them empty, and then reports
/// the end of the stream: each chunk is put on the display, in the order
/// in which it came and nothing else; then the terminal is restored, once,
/// and the shell is left without error.
pub proof fn lemma_output_until_eof(chunks: Seq<Seq<u8>>)
    requires
        forall|i: int| 0 <= i < chunks.len() ==> (#[trigger] chunks[i]).len() > 0,
    ensures
        shell_run(ShellState::Reading, chunks_then_eof(chunks)).0 == (ShellState::Exited {
            outcome: Ok(()),
        }),
        shown(shell_run(ShellState::Reading, chunks_then_eof(chunks)).1) == chunks,
        shell_run(ShellState::Reading, chunks_then_eof(chunks)).1.last() == (
        ShellActionView::Exit { outcome: Ok(()) }),
        times_asked(
            shell_run(ShellState::Reading, chunks_then_eof(chunks)).1,
            ShellActionView::RestoreTerminal,
        ) == 1,
{
    lemma_chunks_are_shown(chunks);
    let eof = ShellEventView::Data(Seq::empty());
    let read = shell_run(ShellState::Reading, chunks_read(chunks));
    lemma_run_goes_on(ShellState::Reading, chunks_read(chunks), eof);
    let closed = shell_run(ShellState::Reading, chunks_read(chunks).push(eof));
    lemma_shown_push(read.1, shell_step(read.0, eof).1);
    lemma_times_asked_push(read.1, shell_step(read.0, eof).1, ShellActionView::RestoreTerminal);
    lemma_run_goes_on(ShellState::Reading, chunks_read(chunks).push(eof), ShellEventView::Done);
    lemma_shown_push(closed.1, shell_step(closed.0, ShellEventView::Done).1);
    lemma_times_asked_push(
        closed.1,
        shell_step(closed.0, ShellEventView::Done).1,
        ShellActionView::RestoreTerminal,
    );
}

/// The terminal was in raw mode at some point of the run.
pub open spec fn ever_raw(s: ShellState, events: Seq<ShellEventView>) -> bool
    decreases events.len(),
{
    raw_mode(shell_run(s, events).0) || (events.len() > 0 && ever_raw(s, events.drop_last()))
}

/// In every run from the start the terminal is restored at most once, and
/// never unless it was in raw mode. A shell that has been left has restored
/// the terminal exactly once if it ever was in raw mode. Until then the
/// terminal stays in raw mode once it is, and is restored at the last step
/// before the shell is left.
pub proof fn lemma_terminal_restored_once(events: Seq<ShellEventView>)
    ensures
        ({
            let run = shell_run(ShellState::Opening, events);
            let restored = times_asked(run.1, ShellActionView::RestoreTerminal);
            let was_raw = ever_raw(ShellState::Opening, events);
            &&& restored <= 1
            &&& restored == 1 ==> was_raw
            &&& run.0 is Exited ==> (restored == 1 <==> was_raw)
            &&& run.0 is Restoring ==> restored == 1
            &&& !(run.0 is Exited) ==> (was_raw <==> raw_mode(run.0))
            &&& raw_mode(run.0) && !(run.0 is Restoring) ==> restored == 0
        }),
    decreases events.len(),
{
    if events.len() > 0 {
        lemma_terminal_restored_once(events.drop_last());
        let before = shell_run(ShellState::Opening, events.drop_last());
        let run = shell_run(ShellState::Opening, events);
        assert(run.1.drop_last() == before.1);
        lemma_raw_mode_ends_by_restoring(before.0, events.last());
    }
}

} // verus!
