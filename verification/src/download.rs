//! Downloads to a file.
//!
//! A [`FileDownload`] says at every moment what has to be done next; the caller
//! does it and reports the outcome with [`FileDownload::advance`]. The bytes go
//! to a temporary file, which takes the place of the destination once all of
//! them have been written.

use crate::error::{Drive9Error, ErrorView};
use crate::exception::{
    exception_of, plain_exception, transfer_cancelled, Drive9Exception, Drive9Result, ExceptionView,
};
use vstd::prelude::*;

verus! {

broadcast use vstd::string::group_string_axioms;

/// How many bytes are read at a time.
pub const CHUNK_SIZE: usize = 64 * 1024;

/// What has to be done next.
#[derive(Debug, Clone, Copy, PartialEq, Eq, Structural)]
pub enum DownloadAction {
    /// Ask the server for the size of the remote file, then look whether the
    /// transfer has been cancelled.
    Stat,
    /// Open the remote file.
    Open,
    /// Create the temporary file.
    Create,
    /// Tell the listener, if there is one, then look whether the transfer has
    /// been cancelled.
    Report { transferred: u64, total: u64 },
    /// Read at most [`CHUNK_SIZE`] bytes.
    Read,
    /// Write the bytes that were read to the temporary file.
    Write { len: usize },
    /// Flush the temporary file.
    Flush,
    /// Rename the temporary file to the destination.
    Rename,
    /// Remove the temporary file, whether or not that succeeds.
    RemoveTemp,
    /// Nothing is left to do.
    Finished,
}

/// What came of the last action.
#[derive(Debug)]
pub enum DownloadEvent {
    /// The size of the remote file, if the server told it.
    StatDone { size: Option<i64>, cancelled: bool },
    Opened,
    OpenFailed(Drive9Error),
    Created,
    Reported { cancelled: bool },
    /// That many bytes were read; none at the end of the file.
    Chunk(usize),
    Written,
    Flushed,
    Renamed,
    TempRemoved,
    /// The file system or the connection failed, with this message.
    IoFailed(String),
    /// The transfer was cancelled while the remote file was being opened or read.
    Cancelled,
}

/// The content of a [`DownloadEvent`].
pub enum EventView {
    StatDone { size: Option<i64>, cancelled: bool },
    Opened,
    OpenFailed(ErrorView),
    Created,
    Reported { cancelled: bool },
    Chunk(usize),
    Written,
    Flushed,
    Renamed,
    TempRemoved,
    IoFailed(Seq<char>),
    Cancelled,
}

impl View for DownloadEvent {
    type V = EventView;

    open spec fn view(&self) -> EventView {
        match *self {
            DownloadEvent::StatDone { size, cancelled } => EventView::StatDone { size, cancelled },
            DownloadEvent::Opened => EventView::Opened,
            DownloadEvent::OpenFailed(error) => EventView::OpenFailed(error@),
            DownloadEvent::Created => EventView::Created,
            DownloadEvent::Reported { cancelled } => EventView::Reported { cancelled },
            DownloadEvent::Chunk(len) => EventView::Chunk(len),
            DownloadEvent::Written => EventView::Written,
            DownloadEvent::Flushed => EventView::Flushed,
            DownloadEvent::Renamed => EventView::Renamed,
            DownloadEvent::TempRemoved => EventView::TempRemoved,
            DownloadEvent::IoFailed(message) => EventView::IoFailed(message@),
            DownloadEvent::Cancelled => EventView::Cancelled,
        }
    }
}

/// Where a download stands.
pub enum PhaseView {
    Stat,
    Open,
    Create,
    Report,
    Read,
    Write(usize),
    Flush,
    Rename,
    /// The download has failed; the temporary file has to go.
    Cleanup(ExceptionView),
    /// The download is over; `None` is success.
    Finished(Option<ExceptionView>),
}

/// The state of a download.
pub struct DownloadState {
    pub remote_path: Seq<char>,
    /// The destination.
    pub target: Seq<char>,
    pub temp_path: Seq<char>,
    /// The size of the remote file, or 0 if it is unknown.
    pub total: u64,
    /// The bytes that have been written.
    pub transferred: u64,
    pub phase: PhaseView,
}

/// The start of a download.
pub open spec fn download_start(
    remote_path: Seq<char>,
    target: Seq<char>,
    temp_path: Seq<char>,
) -> DownloadState {
    DownloadState {
        remote_path,
        target,
        temp_path,
        total: 0,
        transferred: 0,
        phase: PhaseView::Stat,
    }
}

/// The total that is reported for a size that the server told, or did not.
pub open spec fn reported_total(size: Option<i64>) -> u64 {
    match size {
        Some(size) => if size > 0 {
            size as u64
        } else {
            0
        },
        None => 0,
    }
}

/// The exception for a message of the file system or the connection.
pub open spec fn io_exception(message: Seq<char>) -> ExceptionView {
    plain_exception("io"@, message)
}

/// The exception for a temporary file that could not be renamed.
pub open spec fn rename_exception(target: Seq<char>, message: Seq<char>) -> ExceptionView {
    io_exception("rename temp to "@ + target + ": "@ + message)
}

/// The same download, elsewhere.
pub open spec fn moved(s: DownloadState, phase: PhaseView) -> DownloadState {
    DownloadState { phase, ..s }
}

/// Where a failure leads.
pub open spec fn failed(s: DownloadState, exception: ExceptionView) -> DownloadState {
    moved(s, PhaseView::Cleanup(exception))
}

/// The state after an event. An event that does not answer the pending action
/// changes nothing.
pub open spec fn next(s: DownloadState, event: EventView) -> DownloadState {
    match (s.phase, event) {
        (PhaseView::Stat, EventView::StatDone { size, cancelled }) => {
            let sized = DownloadState { total: reported_total(size), ..s };
            if cancelled {
                failed(sized, transfer_cancelled())
            } else {
                moved(sized, PhaseView::Open)
            }
        },
        (PhaseView::Open, EventView::Opened) => moved(s, PhaseView::Create),
        (PhaseView::Open, EventView::OpenFailed(error)) => failed(s, exception_of(error)),
        (PhaseView::Open, EventView::Cancelled) => failed(s, transfer_cancelled()),
        (PhaseView::Create, EventView::Created) => moved(s, PhaseView::Report),
        (PhaseView::Create, EventView::IoFailed(message)) => failed(s, io_exception(message)),
        (PhaseView::Report, EventView::Reported { cancelled }) => if cancelled {
            failed(s, transfer_cancelled())
        } else {
            moved(s, PhaseView::Read)
        },
        (PhaseView::Read, EventView::Chunk(len)) => if len == 0 {
            moved(s, PhaseView::Flush)
        } else {
            moved(s, PhaseView::Write(len))
        },
        (PhaseView::Read, EventView::IoFailed(message)) => failed(s, io_exception(message)),
        (PhaseView::Read, EventView::Cancelled) => failed(s, transfer_cancelled()),
        (PhaseView::Write(len), EventView::Written) => DownloadState {
            transferred: (s.transferred + len) as u64,
            phase: PhaseView::Report,
            ..s
        },
        (PhaseView::Write(_), EventView::IoFailed(message)) => failed(s, io_exception(message)),
        (PhaseView::Flush, EventView::Flushed) => moved(s, PhaseView::Rename),
        (PhaseView::Flush, EventView::IoFailed(message)) => failed(s, io_exception(message)),
        (PhaseView::Rename, EventView::Renamed) => moved(s, PhaseView::Finished(None)),
        (PhaseView::Rename, EventView::IoFailed(message)) => failed(
            s,
            rename_exception(s.target, message),
        ),
        (PhaseView::Cleanup(exception), EventView::TempRemoved) => moved(
            s,
            PhaseView::Finished(Some(exception)),
        ),
        _ => s,
    }
}

/// What has to be done in a state.
pub open spec fn pending(s: DownloadState) -> DownloadAction {
    match s.phase {
        PhaseView::Stat => DownloadAction::Stat,
        PhaseView::Open => DownloadAction::Open,
        PhaseView::Create => DownloadAction::Create,
        PhaseView::Report => DownloadAction::Report {
            transferred: s.transferred,
            total: s.total,
        },
        PhaseView::Read => DownloadAction::Read,
        PhaseView::Write(len) => DownloadAction::Write { len },
        PhaseView::Flush => DownloadAction::Flush,
        PhaseView::Rename => DownloadAction::Rename,
        PhaseView::Cleanup(_) => DownloadAction::RemoveTemp,
        PhaseView::Finished(_) => DownloadAction::Finished,
    }
}

/// An event that can occur: no more bytes are read than were asked for, and the
/// bytes of a file can be counted.
pub open spec fn possible(s: DownloadState, event: EventView) -> bool {
    &&& event matches EventView::Chunk(len) ==> len <= CHUNK_SIZE
    &&& s.phase matches PhaseView::Write(len) ==> s.transferred + len <= u64::MAX
}

/// Where a download stands.
#[derive(Debug)]
enum Phase {
    Stat,
    Open,
    Create,
    Report,
    Read,
    Write(usize),
    Flush,
    Rename,
    Cleanup(Drive9Exception),
    Finished(Option<Drive9Exception>),
}

impl View for Phase {
    type V = PhaseView;

    closed spec fn view(&self) -> PhaseView {
        match *self {
            Phase::Stat => PhaseView::Stat,
            Phase::Open => PhaseView::Open,
            Phase::Create => PhaseView::Create,
            Phase::Report => PhaseView::Report,
            Phase::Read => PhaseView::Read,
            Phase::Write(len) => PhaseView::Write(len),
            Phase::Flush => PhaseView::Flush,
            Phase::Rename => PhaseView::Rename,
            Phase::Cleanup(exception) => PhaseView::Cleanup(exception@),
            Phase::Finished(outcome) => PhaseView::Finished(
                match outcome {
                    Some(exception) => Some(exception@),
                    None => None,
                },
            ),
        }
    }
}

/// A download of a remote file to a local one.
#[derive(Debug)]
pub struct FileDownload {
    remote_path: String,
    target: String,
    temp_path: String,
    total: u64,
    transferred: u64,
    phase: Phase,
}

impl View for FileDownload {
    type V = DownloadState;

    closed spec fn view(&self) -> DownloadState {
        DownloadState {
            remote_path: self.remote_path@,
            target: self.target@,
            temp_path: self.temp_path@,
            total: self.total,
            transferred: self.transferred,
            phase: self.phase@,
        }
    }
}

impl FileDownload {
    /// A download to `target` by way of `temp_path`.
    pub fn with_temp_path(remote_path: String, target: String, temp_path: String) -> (download:
        Self)
        ensures
            download@ == download_start(remote_path@, target@, temp_path@),
    {
        FileDownload {
            remote_path,
            target,
            temp_path,
            total: 0,
            transferred: 0,
            phase: Phase::Stat,
        }
    }

    /// The remote file.
    pub fn remote_path(&self) -> (path: &str)
        ensures
            path@ == self@.remote_path,
    {
        self.remote_path.as_str()
    }

    /// The destination.
    pub fn target(&self) -> (path: &str)
        ensures
            path@ == self@.target,
    {
        self.target.as_str()
    }

    /// The temporary file.
    pub fn temp_path(&self) -> (path: &str)
        ensures
            path@ == self@.temp_path,
    {
        self.temp_path.as_str()
    }

    /// What has to be done next.
    pub fn pending(&self) -> (action: DownloadAction)
        ensures
            action == pending(self@),
    {
        match &self.phase {
            Phase::Stat => DownloadAction::Stat,
            Phase::Open => DownloadAction::Open,
            Phase::Create => DownloadAction::Create,
            Phase::Report => DownloadAction::Report {
                transferred: self.transferred,
                total: self.total,
            },
            Phase::Read => DownloadAction::Read,
            Phase::Write(len) => DownloadAction::Write { len: *len },
            Phase::Flush => DownloadAction::Flush,
            Phase::Rename => DownloadAction::Rename,
            Phase::Cleanup(_) => DownloadAction::RemoveTemp,
            Phase::Finished(_) => DownloadAction::Finished,
        }
    }

    /// The exception for a message of the file system or the connection.
    fn io_phase(message: String) -> (phase: Phase)
        ensures
            phase@ == PhaseView::Cleanup(io_exception(message@)),
    {
        Phase::Cleanup(Drive9Exception::plain("io", message))
    }

    /// Takes up what came of the pending action.
    pub fn advance(&mut self, event: DownloadEvent)
        requires
            possible(old(self)@, event@),
        ensures
            final(self)@ == next(old(self)@, event@),
    {
        match (&self.phase, event) {
            (Phase::Stat, DownloadEvent::StatDone { size, cancelled }) => {
                self.total = match size {
                    Some(size) => if size > 0 {
                        size as u64
                    } else {
                        0
                    },
                    None => 0,
                };
                self.phase = if cancelled {
                    Phase::Cleanup(Drive9Exception::cancelled())
                } else {
                    Phase::Open
                };
            },
            (Phase::Open, DownloadEvent::Opened) => {
                self.phase = Phase::Create;
            },
            (Phase::Open, DownloadEvent::OpenFailed(error)) => {
                self.phase = Phase::Cleanup(Drive9Exception::from(error));
            },
            (Phase::Open, DownloadEvent::Cancelled) => {
                self.phase = Phase::Cleanup(Drive9Exception::cancelled());
            },
            (Phase::Create, DownloadEvent::Created) => {
                self.phase = Phase::Report;
            },
            (Phase::Create, DownloadEvent::IoFailed(message)) => {
                self.phase = Self::io_phase(message);
            },
            (Phase::Report, DownloadEvent::Reported { cancelled }) => {
                self.phase = if cancelled {
                    Phase::Cleanup(Drive9Exception::cancelled())
                } else {
                    Phase::Read
                };
            },
            (Phase::Read, DownloadEvent::Chunk(len)) => {
                self.phase = if len == 0 {
                    Phase::Flush
                } else {
                    Phase::Write(len)
                };
            },
            (Phase::Read, DownloadEvent::IoFailed(message)) => {
                self.phase = Self::io_phase(message);
            },
            (Phase::Read, DownloadEvent::Cancelled) => {
                self.phase = Phase::Cleanup(Drive9Exception::cancelled());
            },
            (Phase::Write(len), DownloadEvent::Written) => {
                self.transferred = self.transferred + *len as u64;
                self.phase = Phase::Report;
            },
            (Phase::Write(_), DownloadEvent::IoFailed(message)) => {
                self.phase = Self::io_phase(message);
            },
            (Phase::Flush, DownloadEvent::Flushed) => {
                self.phase = Phase::Rename;
            },
            (Phase::Flush, DownloadEvent::IoFailed(message)) => {
                self.phase = Self::io_phase(message);
            },
            (Phase::Rename, DownloadEvent::Renamed) => {
                self.phase = Phase::Finished(None);
            },
            (Phase::Rename, DownloadEvent::IoFailed(message)) => {
                let mut detail = "rename temp to ".to_string();
                detail.append(self.target.as_str());
                detail.append(": ");
                detail.append(message.as_str());
                self.phase = Self::io_phase(detail);
            },
            (Phase::Cleanup(exception), DownloadEvent::TempRemoved) => {
                self.phase = Phase::Finished(Some(exception.clone()));
            },
            _ => {},
        }
    }

    /// How the download ended, once it has.
    pub fn outcome(&self) -> (outcome: Option<Drive9Result<()>>)
        ensures
            match self@.phase {
                PhaseView::Finished(None) => outcome matches Some(Ok(_)),
                PhaseView::Finished(Some(expected)) => outcome matches Some(Err(exception))
                    && exception@ == expected,
                _ => outcome is None,
            },
    {
        match &self.phase {
            Phase::Finished(None) => Some(Ok(())),
            Phase::Finished(Some(exception)) => Some(Err(exception.clone())),
            _ => None,
        }
    }
}

} // verus!
