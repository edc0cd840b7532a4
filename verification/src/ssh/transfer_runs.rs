//! What holds of every step and of whole runs of a transfer, whatever the
//! outside reports.

use vstd::prelude::*;
use crate::error::ErrorKind;
use crate::path::{
    base_name_of,
    lemma_base_name_is_file_name,
    lemma_base_name_of_joined,
};
use crate::ssh::transfer::{
    download_start,
    transfer_step,
    upload_start,
    DescriptorView,
    Direction,
    TransferActionView,
    TransferEventView,
    TransferStage,
    TransferView,
    COPY_CAPACITY,
};

verus! {

/// A run: where the transfer stands after `events` reached it one by one at
/// `t`, and what it asked for on the way, in order.
pub open spec fn transfer_run(t: TransferView, events: Seq<TransferEventView>) -> (
    TransferView,
    Seq<TransferActionView>,
)
    decreases events.len(),
{
    if events.len() == 0 {
        (t, Seq::empty())
    } else {
        let before = transfer_run(t, events.drop_last());
        let last = transfer_step(before.0, events.last());
        (last.0, before.1.push(last.1))
    }
}

/// What `asked` writes to the destination, chunk by chunk.
pub open spec fn written(asked: Seq<TransferActionView>) -> Seq<Seq<u8>>
    decreases asked.len(),
{
    if asked.len() == 0 {
        Seq::empty()
    } else {
        match asked.last() {
            TransferActionView::Write { bytes } => written(asked.drop_last()).push(bytes),
            _ => written(asked.drop_last()),
        }
    }
}

/// The chunk that the event `e` brings from the source to a transfer at
/// `stage`: the data of a read that was asked for, unless the source is at
/// its end.
pub open spec fn chunk_read(stage: TransferStage, e: TransferEventView) -> Option<Seq<u8>> {
    match e {
        TransferEventView::Data(bytes) if stage is Reading && bytes.len() > 0 => Some(bytes),
        _ => None,
    }
}

/// What the source handed out during a run from `t`, chunk by chunk.
pub open spec fn read_from_source(t: TransferView, events: Seq<TransferEventView>) -> Seq<Seq<u8>>
    decreases events.len(),
{
    if events.len() == 0 {
        Seq::empty()
    } else {
        let before = read_from_source(t, events.drop_last());
        match chunk_read(transfer_run(t, events.drop_last()).0.stage, events.last()) {
            Some(bytes) => before.push(bytes),
            None => before,
        }
    }
}

/// How many bytes `chunks` hold together.
pub open spec fn total_len(chunks: Seq<Seq<u8>>) -> nat
    decreases chunks.len(),
{
    if chunks.len() == 0 {
        0
    } else {
        total_len(chunks.drop_last()) + chunks.last().len()
    }
}

/// What the outside reports while the source hands out `chunks` one after
/// the other and each is written without fault.
pub open spec fn chunks_copied(chunks: Seq<Seq<u8>>) -> Seq<TransferEventView>
    decreases chunks.len(),
{
    if chunks.len() == 0 {
        Seq::empty()
    } else {
        chunks_copied(chunks.drop_last()).push(TransferEventView::Data(chunks.last())).push(
            TransferEventView::Done,
        )
    }
}

/// The transfer `t` with `more` bytes counted on top.
pub open spec fn advanced(t: TransferView, more: nat) -> TransferView {
    TransferView {
        descriptor: DescriptorView {
            bytes_transferred: (t.descriptor.bytes_transferred + more) as u64,
            ..t.descriptor
        },
        ..t
    }
}

/// The count of bytes never goes down, and goes up by what was written.
/// Paths and direction stay, and the total is set when the source is sized
/// and at no other time. Any failure that is reported ends the
/// transfer with `TransferFailed` and the reason given, and a transfer that
/// has ended stays as it ended.
pub proof fn lemma_step_keeps_count(t: TransferView, e: TransferEventView)
    ensures
        transfer_step(t, e).0.descriptor.bytes_transferred >= t.descriptor.bytes_transferred,
        transfer_step(t, e).0.descriptor.bytes_transferred != t.descriptor.bytes_transferred ==> {
            &&& t.stage is Writing
            &&& e is Done
            &&& transfer_step(t, e).0.descriptor.bytes_transferred
                == t.descriptor.bytes_transferred + t.stage->len
        },
        transfer_step(t, e).0.descriptor.local_path == t.descriptor.local_path,
        transfer_step(t, e).0.descriptor.remote_path == t.descriptor.remote_path,
        transfer_step(t, e).0.descriptor.direction == t.descriptor.direction,
        transfer_step(t, e).0.descriptor.total_bytes != t.descriptor.total_bytes ==> t.stage
            is SizingSource && e is Size,
        e is Failed && !(t.stage is Done) && !(t.stage is Failed) ==> transfer_step(t, e).1 == (
        TransferActionView::Abort { error: ErrorKind::TransferFailed { reason: e->reason } }),
        t.stage is Done || t.stage is Failed ==> transfer_step(t, e).0 == t,
        transfer_step(t, e).1 is Write ==> t.stage is Reading && e == TransferEventView::Data(
            transfer_step(t, e).1->bytes,
        ),
{
}

/// Whatever else happens during a run: what the source hands out goes to
/// the destination chunk by chunk, each chunk once and in the order in
/// which it came.
pub proof fn lemma_written_in_order(t: TransferView, events: Seq<TransferEventView>)
    ensures
        written(transfer_run(t, events).1) == read_from_source(t, events),
    decreases events.len(),
{
    if events.len() > 0 {
        lemma_written_in_order(t, events.drop_last());
        let before = transfer_run(t, events.drop_last());
        let run = transfer_run(t, events);
        assert(run.1.drop_last() == before.1);
    }
}

/// A run that goes on by one event.
pub proof fn lemma_run_goes_on(
    t: TransferView,
    events: Seq<TransferEventView>,
    e: TransferEventView,
)
    ensures
        transfer_run(t, events.push(e)).0 == transfer_step(transfer_run(t, events).0, e).0,
        transfer_run(t, events.push(e)).1 == transfer_run(t, events).1.push(
            transfer_step(transfer_run(t, events).0, e).1,
        ),
{
    assert(events.push(e).drop_last() =~= events);
}

proof fn lemma_written_push(asked: Seq<TransferActionView>, next: TransferActionView)
    ensures
        written(asked.push(next)) == match next {
            TransferActionView::Write { bytes } => written(asked).push(bytes),
            _ => written(asked),
        },
{
    assert(asked.push(next).drop_last() =~= asked);
}

/// While nothing fails and the source has data, every chunk is written as
/// it came, its bytes are counted, and the transfer is ready to read on.
pub proof fn lemma_chunks_are_written(t: TransferView, chunks: Seq<Seq<u8>>)
    requires
        t.stage is Reading,
        forall|i: int| 0 <= i < chunks.len() ==> (#[trigger] chunks[i]).len() > 0,
        t.descriptor.bytes_transferred + total_len(chunks) <= u64::MAX,
    ensures
        transfer_run(t, chunks_copied(chunks)).0 == advanced(t, total_len(chunks)),
        written(transfer_run(t, chunks_copied(chunks)).1) == chunks,
    decreases chunks.len(),
{
    if chunks.len() == 0 {
        assert(written(transfer_run(t, chunks_copied(chunks)).1) =~= chunks);
        assert(advanced(t, 0) == t);
    } else {
        let rest = chunks.drop_last();
        lemma_chunks_are_written(t, rest);
        let data = TransferEventView::Data(chunks.last());
        let before = transfer_run(t, chunks_copied(rest));
        lemma_run_goes_on(t, chunks_copied(rest), data);
        let read = transfer_run(t, chunks_copied(rest).push(data));
        lemma_written_push(before.1, transfer_step(before.0, data).1);
        lemma_run_goes_on(t, chunks_copied(rest).push(data), TransferEventView::Done);
        lemma_written_push(read.1, transfer_step(read.0, TransferEventView::Done).1);
        assert(rest.push(chunks.last()) =~= chunks);
    }
}

/// A source that hands out chunks, none of them empty, and then is at its
/// end: each chunk is written to the destination, in the order in which it
/// came and nothing else, the bytes transferred are those that were there
/// before and those of all chunks together, and the transfer is complete.
pub proof fn lemma_copy_until_end(t: TransferView, chunks: Seq<Seq<u8>>)
    requires
        t.stage is Reading,
        forall|i: int| 0 <= i < chunks.len() ==> (#[trigger] chunks[i]).len() > 0,
        t.descriptor.bytes_transferred + total_len(chunks) <= u64::MAX,
    ensures
        ({
            let events = chunks_copied(chunks).push(TransferEventView::Data(Seq::empty()));
            let run = transfer_run(t, events);
            &&& run.0.stage is Done
            &&& run.0.descriptor.bytes_transferred == t.descriptor.bytes_transferred + total_len(
                chunks,
            )
            &&& written(run.1) == chunks
            &&& run.1.last() == TransferActionView::Finish
        }),
{
    lemma_chunks_are_written(t, chunks);
    let eof = TransferEventView::Data(Seq::empty());
    let read = transfer_run(t, chunks_copied(chunks));
    lemma_run_goes_on(t, chunks_copied(chunks), eof);
    lemma_written_push(read.1, transfer_step(read.0, eof).1);
}

/// An upload that nothing hinders opens the local file, sizes it, opens
/// the SFTP subsystem, creates the remote file under the base name of the
/// local one and starts to read, in this order.
pub proof fn lemma_upload_setup(local_path: Seq<char>, remote_dir: Seq<char>, size: Option<u64>)
    requires
        base_name_of(local_path) is Some,
    ensures
        ({
            let start = upload_start(local_path, true, remote_dir);
            let events = seq![
                TransferEventView::Done,
                TransferEventView::Size(size),
                TransferEventView::Done,
                TransferEventView::Done,
            ];
            let run = transfer_run(start.0, events);
            &&& start.1 == TransferActionView::OpenSource { path: local_path }
            &&& run.1 == seq![
                TransferActionView::StatSource,
                TransferActionView::OpenSftp,
                TransferActionView::CreateDestination { path: start.0.descriptor.remote_path },
                TransferActionView::Read { capacity: COPY_CAPACITY },
            ]
            &&& run.0.stage is Reading
            &&& run.0.descriptor.bytes_transferred == 0
            &&& run.0.descriptor.total_bytes == match size {
                Some(n) => n,
                None => 0,
            }
            &&& base_name_of(start.0.descriptor.remote_path) == base_name_of(local_path)
        }),
{
    let start = upload_start(local_path, true, remote_dir);
    let e0 = Seq::<TransferEventView>::empty();
    let e1 = e0.push(TransferEventView::Done);
    let e2 = e1.push(TransferEventView::Size(size));
    let e3 = e2.push(TransferEventView::Done);
    let e4 = e3.push(TransferEventView::Done);
    lemma_run_goes_on(start.0, e0, TransferEventView::Done);
    lemma_run_goes_on(start.0, e1, TransferEventView::Size(size));
    lemma_run_goes_on(start.0, e2, TransferEventView::Done);
    lemma_run_goes_on(start.0, e3, TransferEventView::Done);
    let events = seq![
        TransferEventView::Done,
        TransferEventView::Size(size),
        TransferEventView::Done,
        TransferEventView::Done,
    ];
    assert(events =~= e4);
    let run = transfer_run(start.0, events);
    assert(run.1 =~= seq![
        TransferActionView::StatSource,
        TransferActionView::OpenSftp,
        TransferActionView::CreateDestination { path: start.0.descriptor.remote_path },
        TransferActionView::Read { capacity: COPY_CAPACITY },
    ]);
    lemma_base_name_is_file_name(local_path);
    lemma_base_name_of_joined(remote_dir, base_name_of(local_path)->0);
}

/// A download that nothing hinders creates the local directory, opens the
/// SFTP subsystem, opens the remote file, sizes it, creates the local file
/// under the base name of the remote one and starts to read, in this
/// order.
pub proof fn lemma_download_setup(remote_path: Seq<char>, local_dir: Seq<char>, size: Option<u64>)
    requires
        base_name_of(remote_path) is Some,
    ensures
        ({
            let start = download_start(remote_path, local_dir, false);
            let events = seq![
                TransferEventView::Done,
                TransferEventView::Done,
                TransferEventView::Done,
                TransferEventView::Size(size),
                TransferEventView::Done,
            ];
            let run = transfer_run(start.0, events);
            &&& start.1 == TransferActionView::CreateLocalDir { path: local_dir }
            &&& run.1 == seq![
                TransferActionView::OpenSftp,
                TransferActionView::OpenSource { path: remote_path },
                TransferActionView::StatSource,
                TransferActionView::CreateDestination { path: start.0.descriptor.local_path },
                TransferActionView::Read { capacity: COPY_CAPACITY },
            ]
            &&& run.0.stage is Reading
            &&& run.0.descriptor.bytes_transferred == 0
            &&& run.0.descriptor.total_bytes == match size {
                Some(n) => n,
                None => 0,
            }
            &&& base_name_of(start.0.descriptor.local_path) == base_name_of(remote_path)
        }),
{
    let start = download_start(remote_path, local_dir, false);
    let e0 = Seq::<TransferEventView>::empty();
    let e1 = e0.push(TransferEventView::Done);
    let e2 = e1.push(TransferEventView::Done);
    let e3 = e2.push(TransferEventView::Done);
    let e4 = e3.push(TransferEventView::Size(size));
    let e5 = e4.push(TransferEventView::Done);
    lemma_run_goes_on(start.0, e0, TransferEventView::Done);
    lemma_run_goes_on(start.0, e1, TransferEventView::Done);
    lemma_run_goes_on(start.0, e2, TransferEventView::Done);
    lemma_run_goes_on(start.0, e3, TransferEventView::Size(size));
    lemma_run_goes_on(start.0, e4, TransferEventView::Done);
    let events = seq![
        TransferEventView::Done,
        TransferEventView::Done,
        TransferEventView::Done,
        TransferEventView::Size(size),
        TransferEventView::Done,
    ];
    assert(events =~= e5);
    let run = transfer_run(start.0, events);
    assert(run.1 =~= seq![
        TransferActionView::OpenSftp,
        TransferActionView::OpenSource { path: remote_path },
        TransferActionView::StatSource,
        TransferActionView::CreateDestination { path: start.0.descriptor.local_path },
        TransferActionView::Read { capacity: COPY_CAPACITY },
    ]);
    lemma_base_name_is_file_name(remote_path);
    lemma_base_name_of_joined(local_dir, base_name_of(remote_path)->0);
}

/// A transfer that is turned down at its start asks for nothing but to
/// give up: no file is touched and nothing goes over the network. An
/// upload is turned down just when the local path is no regular file or
/// has no base name; a download just when the remote path has no base
/// name or the local destination is a regular file, and of the two the
/// remote path is named first.
pub proof fn lemma_refusals(path: Seq<char>, dir: Seq<char>, is_file: bool)
    ensures
        upload_start(path, is_file, dir).1 is Abort <==> !is_file || base_name_of(path) is None,
        upload_start(path, is_file, dir).1 is Abort ==> upload_start(path, is_file, dir).1 == (
        TransferActionView::Abort { error: ErrorKind::NotAFile { path } }),
        download_start(path, dir, is_file).1 is Abort <==> is_file || base_name_of(path) is None,
        base_name_of(path) is None ==> download_start(path, dir, is_file).1 == (
        TransferActionView::Abort { error: ErrorKind::InvalidRemotePath { path } }),
        base_name_of(path) is Some && is_file ==> download_start(path, dir, is_file).1 == (
        TransferActionView::Abort { error: ErrorKind::DestinationIsFile { path: dir } }),
        upload_start(path, is_file, dir).1 is Abort <==> upload_start(path, is_file, dir).0.stage
            is Failed,
        download_start(path, dir, is_file).1 is Abort <==> download_start(
            path,
            dir,
            is_file,
        ).0.stage is Failed,
{
}

} // verus!
