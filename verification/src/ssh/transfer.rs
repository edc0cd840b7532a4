//! File transfers: where an upload or a download goes, and the copying of
//! its bytes chunk by chunk.
//!
//! Files, directories and the SFTP subsystem are outside work. After each
//! piece of it the [`Transfer`] is told what happened and says what is to
//! be done next. The source of an upload is the local file and its
//! destination the remote one; for a download it is the other way round.

use vstd::prelude::*;
use crate::error::{ErrorKind, RsshError};
use crate::path::{base_name, base_name_of, join, joined};

verus! {

/// How many bytes one read from the source may bring.
pub const COPY_CAPACITY: usize = 8192;

/// Which way the bytes go.
#[derive(Clone, Copy, Debug, PartialEq, Eq, Structural)]
pub enum Direction {
    Upload,
    Download,
}

/// What is transferred, and how far the transfer has come.
#[derive(Debug)]
pub struct TransferDescriptor {
    pub local_path: String,
    pub remote_path: String,
    pub direction: Direction,
    /// The size of the source, or 0 where it is not known.
    pub total_bytes: u64,
    pub bytes_transferred: u64,
}

/// A [`TransferDescriptor`] as contracts speak of it.
pub struct DescriptorView {
    pub local_path: Seq<char>,
    pub remote_path: Seq<char>,
    pub direction: Direction,
    pub total_bytes: u64,
    pub bytes_transferred: u64,
}

impl View for TransferDescriptor {
    type V = DescriptorView;

    open spec fn view(&self) -> DescriptorView {
        DescriptorView {
            local_path: self.local_path@,
            remote_path: self.remote_path@,
            direction: self.direction,
            total_bytes: self.total_bytes,
            bytes_transferred: self.bytes_transferred,
        }
    }
}

impl DescriptorView {
    /// The path of the file that is read.
    pub open spec fn source(self) -> Seq<char> {
        match self.direction {
            Direction::Upload => self.local_path,
            Direction::Download => self.remote_path,
        }
    }

    /// The path of the file that is written.
    pub open spec fn destination(self) -> Seq<char> {
        match self.direction {
            Direction::Upload => self.remote_path,
            Direction::Download => self.local_path,
        }
    }
}

/// What the outside reports to a transfer.
#[derive(Debug)]
pub enum TransferEvent {
    /// The work asked for was done.
    Done,
    /// The work asked for failed.
    Failed { reason: String },
    /// The size of the source, where it is known.
    Size(Option<u64>),
    /// What a read from the source brought. No bytes: the source is at its
    /// end.
    Data(Vec<u8>),
}

/// What a transfer asks the outside to do.
#[derive(Debug)]
pub enum TransferAction {
    /// Create the local directory `path` and what is missing above it.
    CreateLocalDir { path: String },
    /// Open the SFTP subsystem of the session.
    OpenSftp,
    /// Open the source at `path` for reading.
    OpenSource { path: String },
    /// Find out the size of the source.
    StatSource,
    /// Create the destination at `path` for writing.
    CreateDestination { path: String },
    /// Read at most `capacity` bytes from the source.
    Read { capacity: usize },
    /// Write all of `bytes` to the destination.
    Write { bytes: Vec<u8> },
    /// The transfer is complete.
    Finish,
    /// Give up with `error`. What was written stays.
    Abort { error: RsshError },
}

/// A [`TransferEvent`] as contracts speak of it.
pub enum TransferEventView {
    Done,
    Failed { reason: Seq<char> },
    Size(Option<u64>),
    Data(Seq<u8>),
}

/// A [`TransferAction`] as contracts speak of it.
pub enum TransferActionView {
    CreateLocalDir { path: Seq<char> },
    OpenSftp,
    OpenSource { path: Seq<char> },
    StatSource,
    CreateDestination { path: Seq<char> },
    Read { capacity: usize },
    Write { bytes: Seq<u8> },
    Finish,
    Abort { error: ErrorKind },
}

/// How far a transfer has come: the work it waits for, or how it ended.
pub enum TransferStage {
    CreatingDir,
    OpeningSftp,
    OpeningSource,
    SizingSource,
    CreatingDestination,
    Reading,
    /// A chunk of `len` bytes is being written.
    Writing { len: nat },
    Done,
    Failed { error: ErrorKind },
}

/// A transfer as contracts speak of it.
pub struct TransferView {
    pub descriptor: DescriptorView,
    pub stage: TransferStage,
}

impl View for TransferEvent {
    type V = TransferEventView;

    open spec fn view(&self) -> TransferEventView {
        match self {
            TransferEvent::Done => TransferEventView::Done,
            TransferEvent::Failed { reason } => TransferEventView::Failed { reason: reason@ },
            TransferEvent::Size(size) => TransferEventView::Size(*size),
            TransferEvent::Data(bytes) => TransferEventView::Data(bytes@),
        }
    }
}

impl View for TransferAction {
    type V = TransferActionView;

    open spec fn view(&self) -> TransferActionView {
        match self {
            TransferAction::CreateLocalDir { path } => TransferActionView::CreateLocalDir {
                path: path@,
            },
            TransferAction::OpenSftp => TransferActionView::OpenSftp,
            TransferAction::OpenSource { path } => TransferActionView::OpenSource { path: path@ },
            TransferAction::StatSource => TransferActionView::StatSource,
            TransferAction::CreateDestination { path } => TransferActionView::CreateDestination {
                path: path@,
            },
            TransferAction::Read { capacity } => TransferActionView::Read { capacity: *capacity },
            TransferAction::Write { bytes } => TransferActionView::Write { bytes: bytes@ },
            TransferAction::Finish => TransferActionView::Finish,
            TransferAction::Abort { error } => TransferActionView::Abort { error: error@ },
        }
    }
}

/// Why the work failed that `e` reports. An event that is no answer to what
/// was asked counts as a failure of its own.
pub open spec fn fault(e: TransferEventView) -> Seq<char> {
    match e {
        TransferEventView::Failed { reason } => reason,
        _ => "unexpected event"@,
    }
}

/// Why a transfer ends whose count of bytes would leave the range of the
/// counter.
pub open spec fn overflow_reason() -> Seq<char> {
    "byte count out of range"@
}

/// Giving up with `error`.
pub open spec fn give_up(t: TransferView, error: ErrorKind) -> (TransferView, TransferActionView) {
    (TransferView { stage: TransferStage::Failed { error }, ..t }, TransferActionView::Abort { error })
}

/// Going on to `stage`, asking for `action`.
pub open spec fn go_on(t: TransferView, stage: TransferStage, action: TransferActionView) -> (
    TransferView,
    TransferActionView,
) {
    (TransferView { stage, ..t }, action)
}

/// The next read from the source.
pub open spec fn read_on(t: TransferView) -> (TransferView, TransferActionView) {
    go_on(t, TransferStage::Reading, TransferActionView::Read { capacity: COPY_CAPACITY })
}

/// What follows once a chunk of `len` bytes is written: the bytes are
/// counted and the next chunk is read, unless the count leaves the range of
/// the counter.
pub open spec fn after_write(t: TransferView, len: nat) -> (TransferView, TransferActionView) {
    if t.descriptor.bytes_transferred + len <= u64::MAX {
        read_on(
            TransferView {
                descriptor: DescriptorView {
                    bytes_transferred: (t.descriptor.bytes_transferred + len) as u64,
                    ..t.descriptor
                },
                ..t
            },
        )
    } else {
        give_up(t, ErrorKind::TransferFailed { reason: overflow_reason() })
    }
}

/// What follows once the size of the source is known: it becomes the
/// total, 0 standing for a size that is not known. An upload then opens the
/// SFTP subsystem, a download creates the local file.
pub open spec fn after_size(t: TransferView, size: Option<u64>) -> (
    TransferView,
    TransferActionView,
) {
    let total_bytes = match size {
        Some(n) => n,
        None => 0,
    };
    let sized = TransferView { descriptor: DescriptorView { total_bytes, ..t.descriptor }, ..t };
    match t.descriptor.direction {
        Direction::Upload => go_on(sized, TransferStage::OpeningSftp, TransferActionView::OpenSftp),
        Direction::Download => go_on(
            sized,
            TransferStage::CreatingDestination,
            TransferActionView::CreateDestination { path: t.descriptor.local_path },
        ),
    }
}

/// What follows once the SFTP subsystem is open: an upload creates the
/// remote file, a download opens it.
pub open spec fn after_sftp(t: TransferView) -> (TransferView, TransferActionView) {
    match t.descriptor.direction {
        Direction::Upload => go_on(
            t,
            TransferStage::CreatingDestination,
            TransferActionView::CreateDestination { path: t.descriptor.remote_path },
        ),
        Direction::Download => go_on(
            t,
            TransferStage::OpeningSource,
            TransferActionView::OpenSource { path: t.descriptor.remote_path },
        ),
    }
}

/// One step of a transfer: where it stands after the event `e` reached it
/// at `t`, and what it asks for next.
pub open spec fn transfer_step(t: TransferView, e: TransferEventView) -> (
    TransferView,
    TransferActionView,
) {
    match (t.stage, e) {
        (TransferStage::CreatingDir, TransferEventView::Done) => go_on(
            t,
            TransferStage::OpeningSftp,
            TransferActionView::OpenSftp,
        ),
        (TransferStage::OpeningSftp, TransferEventView::Done) => after_sftp(t),
        (TransferStage::OpeningSource, TransferEventView::Done) => go_on(
            t,
            TransferStage::SizingSource,
            TransferActionView::StatSource,
        ),
        (TransferStage::SizingSource, TransferEventView::Size(size)) => after_size(t, size),
        (TransferStage::CreatingDestination, TransferEventView::Done) => read_on(t),
        (TransferStage::Reading, TransferEventView::Data(bytes)) => if bytes.len() == 0 {
            go_on(t, TransferStage::Done, TransferActionView::Finish)
        } else {
            go_on(
                t,
                TransferStage::Writing { len: bytes.len() },
                TransferActionView::Write { bytes },
            )
        },
        (TransferStage::Writing { len }, TransferEventView::Done) => after_write(t, len),
        (TransferStage::Done, _) => (t, TransferActionView::Finish),
        (TransferStage::Failed { error }, _) => (t, TransferActionView::Abort { error }),
        _ => give_up(t, ErrorKind::TransferFailed { reason: fault(e) }),
    }
}

/// A transfer that has nothing to do but to give up with `error`.
pub open spec fn refused(
    local_path: Seq<char>,
    remote_path: Seq<char>,
    direction: Direction,
    error: ErrorKind,
) -> (TransferView, TransferActionView) {
    (
        TransferView {
            descriptor: DescriptorView {
                local_path,
                remote_path,
                direction,
                total_bytes: 0,
                bytes_transferred: 0,
            },
            stage: TransferStage::Failed { error },
        },
        TransferActionView::Abort { error },
    )
}

/// Where an upload starts. The file goes into `remote_dir` under its own
/// base name. A local path that is no regular file, or has no base name,
/// is turned down.
pub open spec fn upload_start(local_path: Seq<char>, is_file: bool, remote_dir: Seq<char>) -> (
    TransferView,
    TransferActionView,
) {
    match base_name_of(local_path) {
        Some(name) if is_file => (
            TransferView {
                descriptor: DescriptorView {
                    local_path,
                    remote_path: joined(remote_dir, name),
                    direction: Direction::Upload,
                    total_bytes: 0,
                    bytes_transferred: 0,
                },
                stage: TransferStage::OpeningSource,
            },
            TransferActionView::OpenSource { path: local_path },
        ),
        _ => refused(
            local_path,
            remote_dir,
            Direction::Upload,
            ErrorKind::NotAFile { path: local_path },
        ),
    }
}

/// Where a download starts. The file goes into `local_dir` under its own
/// base name. A remote path without base name is turned down, and so is a
/// local destination that is a regular file.
pub open spec fn download_start(
    remote_path: Seq<char>,
    local_dir: Seq<char>,
    local_dir_is_file: bool,
) -> (TransferView, TransferActionView) {
    match base_name_of(remote_path) {
        None => refused(
            local_dir,
            remote_path,
            Direction::Download,
            ErrorKind::InvalidRemotePath { path: remote_path },
        ),
        Some(name) => if local_dir_is_file {
            refused(
                local_dir,
                remote_path,
                Direction::Download,
                ErrorKind::DestinationIsFile { path: local_dir },
            )
        } else {
            (
                TransferView {
                    descriptor: DescriptorView {
                        local_path: joined(local_dir, name),
                        remote_path,
                        direction: Direction::Download,
                        total_bytes: 0,
                        bytes_transferred: 0,
                    },
                    stage: TransferStage::CreatingDir,
                },
                TransferActionView::CreateLocalDir { path: local_dir },
            )
        },
    }
}

/// A file transfer, as far as it has come.
pub struct Transfer {
    descriptor: TransferDescriptor,
    phase: Phase,
}

enum Phase {
    CreatingDir,
    OpeningSftp,
    OpeningSource,
    SizingSource,
    CreatingDestination,
    Reading,
    Writing { len: usize },
    Done,
    Failed { error: RsshError },
}

impl Phase {
    spec fn stage(self) -> TransferStage {
        match self {
            Phase::CreatingDir => TransferStage::CreatingDir,
            Phase::OpeningSftp => TransferStage::OpeningSftp,
            Phase::OpeningSource => TransferStage::OpeningSource,
            Phase::SizingSource => TransferStage::SizingSource,
            Phase::CreatingDestination => TransferStage::CreatingDestination,
            Phase::Reading => TransferStage::Reading,
            Phase::Writing { len } => TransferStage::Writing { len: len as nat },
            Phase::Done => TransferStage::Done,
            Phase::Failed { error } => TransferStage::Failed { error: error@ },
        }
    }
}

impl View for Transfer {
    type V = TransferView;

    closed spec fn view(&self) -> TransferView {
        TransferView { descriptor: self.descriptor@, stage: self.phase.stage() }
    }
}

fn refuse(local_path: &str, remote_path: &str, direction: Direction, error: RsshError) -> (start: (
    Transfer,
    TransferAction,
))
    ensures
        (start.0@, start.1@) == refused(local_path@, remote_path@, direction, error@),
{
    let descriptor = TransferDescriptor {
        local_path: local_path.to_owned(),
        remote_path: remote_path.to_owned(),
        direction,
        total_bytes: 0,
        bytes_transferred: 0,
    };
    (
        Transfer { descriptor, phase: Phase::Failed { error: error.clone() } },
        TransferAction::Abort { error },
    )
}

/// Starts the upload of the local file `local_path` into the remote
/// directory `remote_dir`. `local_is_file` says whether the local path is a
/// regular file.
pub fn handle_upload(local_path: &str, local_is_file: bool, remote_dir: &str) -> (start: (
    Transfer,
    TransferAction,
))
    ensures
        (start.0@, start.1@) == upload_start(local_path@, local_is_file, remote_dir@),
{
    match base_name(local_path) {
        Some(name) if local_is_file => {
            let descriptor = TransferDescriptor {
                local_path: local_path.to_owned(),
                remote_path: join(remote_dir, name.as_str()),
                direction: Direction::Upload,
                total_bytes: 0,
                bytes_transferred: 0,
            };
            (
                Transfer { descriptor, phase: Phase::OpeningSource },
                TransferAction::OpenSource { path: local_path.to_owned() },
            )
        },
        _ => refuse(
            local_path,
            remote_dir,
            Direction::Upload,
            RsshError::NotAFile { path: local_path.to_owned() },
        ),
    }
}

/// Starts the download of the remote file `remote_path` into the local
/// directory `local_dir`. `local_dir_is_file` says whether the local
/// destination is a regular file; a directory that is missing will be
/// created.
pub fn handle_download(remote_path: &str, local_dir: &str, local_dir_is_file: bool) -> (start: (
    Transfer,
    TransferAction,
))
    ensures
        (start.0@, start.1@) == download_start(remote_path@, local_dir@, local_dir_is_file),
{
    match base_name(remote_path) {
        None => refuse(
            local_dir,
            remote_path,
            Direction::Download,
            RsshError::InvalidRemotePath { path: remote_path.to_owned() },
        ),
        Some(name) => {
            if local_dir_is_file {
                refuse(
                    local_dir,
                    remote_path,
                    Direction::Download,
                    RsshError::DestinationIsFile { path: local_dir.to_owned() },
                )
            } else {
                let descriptor = TransferDescriptor {
                    local_path: join(local_dir, name.as_str()),
                    remote_path: remote_path.to_owned(),
                    direction: Direction::Download,
                    total_bytes: 0,
                    bytes_transferred: 0,
                };
                (
                    Transfer { descriptor, phase: Phase::CreatingDir },
                    TransferAction::CreateLocalDir { path: local_dir.to_owned() },
                )
            }
        },
    }
}

/// The reason that an event gives for a failure.
fn fault_of(event: TransferEvent) -> (reason: String)
    ensures
        reason@ == fault(event@),
{
    match event {
        TransferEvent::Failed { reason } => reason,
        _ => "unexpected event".to_owned(),
    }
}

impl Transfer {
    /// What is transferred, and how far the transfer has come.
    pub fn descriptor(&self) -> (descriptor: &TransferDescriptor)
        ensures
            descriptor@ == self@.descriptor,
    {
        &self.descriptor
    }

    /// Whether all bytes have been copied.
    pub fn is_done(&self) -> (done: bool)
        ensures
            done == (self@.stage is Done),
    {
        match self.phase {
            Phase::Done => true,
            _ => false,
        }
    }

    /// Whether the transfer has come to its end, one way or the other.
    pub fn is_finished(&self) -> (finished: bool)
        ensures
            finished == (self@.stage is Done || self@.stage is Failed),
    {
        match self.phase {
            Phase::Done | Phase::Failed { .. } => true,
            _ => false,
        }
    }

    fn give_up(&mut self, error: RsshError) -> (action: TransferAction)
        ensures
            (final(self)@, action@) == give_up(old(self)@, error@),
    {
        self.phase = Phase::Failed { error: error.clone() };
        TransferAction::Abort { error }
    }

    fn read_on(&mut self) -> (action: TransferAction)
        ensures
            (final(self)@, action@) == read_on(old(self)@),
    {
        self.phase = Phase::Reading;
        TransferAction::Read { capacity: COPY_CAPACITY }
    }

    fn after_write(&mut self, len: usize) -> (action: TransferAction)
        ensures
            (final(self)@, action@) == after_write(old(self)@, len as nat),
    {
        let len: u64 = len as u64;
        if len <= u64::MAX - self.descriptor.bytes_transferred {
            self.descriptor.bytes_transferred = self.descriptor.bytes_transferred + len;
            self.read_on()
        } else {
            self.give_up(RsshError::TransferFailed { reason: "byte count out of range".to_owned() })
        }
    }

    fn after_size(&mut self, size: Option<u64>) -> (action: TransferAction)
        ensures
            (final(self)@, action@) == after_size(old(self)@, size),
    {
        self.descriptor.total_bytes = match size {
            Some(n) => n,
            None => 0,
        };
        match self.descriptor.direction {
            Direction::Upload => {
                self.phase = Phase::OpeningSftp;
                TransferAction::OpenSftp
            },
            Direction::Download => {
                self.phase = Phase::CreatingDestination;
                TransferAction::CreateDestination { path: self.descriptor.local_path.clone() }
            },
        }
    }

    fn after_sftp(&mut self) -> (action: TransferAction)
        ensures
            (final(self)@, action@) == after_sftp(old(self)@),
    {
        match self.descriptor.direction {
            Direction::Upload => {
                self.phase = Phase::CreatingDestination;
                TransferAction::CreateDestination { path: self.descriptor.remote_path.clone() }
            },
            Direction::Download => {
                self.phase = Phase::OpeningSource;
                TransferAction::OpenSource { path: self.descriptor.remote_path.clone() }
            },
        }
    }

    /// Takes in what happened and says what is to be done next.
    ///
    /// Any failure ends the transfer with `TransferFailed`, and so does an
    /// event that is no answer to the last request.
    pub fn step(&mut self, event: TransferEvent) -> (action: TransferAction)
        ensures
            (final(self)@, action@) == transfer_step(old(self)@, event@),
    {
        match &self.phase {
            Phase::Done => {
                return TransferAction::Finish;
            },
            Phase::Failed { error } => {
                return TransferAction::Abort { error: error.clone() };
            },
            _ => {},
        }
        match (&self.phase, event) {
            (Phase::CreatingDir, TransferEvent::Done) => {
                self.phase = Phase::OpeningSftp;
                TransferAction::OpenSftp
            },
            (Phase::OpeningSftp, TransferEvent::Done) => self.after_sftp(),
            (Phase::OpeningSource, TransferEvent::Done) => {
                self.phase = Phase::SizingSource;
                TransferAction::StatSource
            },
            (Phase::SizingSource, TransferEvent::Size(size)) => self.after_size(size),
            (Phase::CreatingDestination, TransferEvent::Done) => self.read_on(),
            (Phase::Reading, TransferEvent::Data(bytes)) => {
                if bytes.len() == 0 {
                    self.phase = Phase::Done;
                    TransferAction::Finish
                } else {
                    self.phase = Phase::Writing { len: bytes.len() };
                    TransferAction::Write { bytes }
                }
            },
            (Phase::Writing { len }, TransferEvent::Done) => {
                let len = *len;
                self.after_write(len)
            },
            (_, event) => {
                let reason = fault_of(event);
                self.give_up(RsshError::TransferFailed { reason })
            },
        }
    }
}

} // verus!
