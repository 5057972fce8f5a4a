//! Downloads that are read chunk by chunk.
//!
//! The remote file is opened first; then each read asks the
//! [`Drive9StreamDownload`] whether it may go ahead, reads, and reports what it
//! got. A terminal state answers every later read in the same way.

use crate::error::Drive9Error;
use crate::exception::{
    exception_of, other_exception, plain_exception, transfer_cancelled, Drive9Exception,
    Drive9Result, ExceptionView,
};
use vstd::prelude::*;

verus! {

broadcast use vstd::string::group_string_axioms;

/// What came of opening the remote file.
#[derive(Debug)]
pub enum OpenOutcome {
    Opened,
    Failed(Drive9Error),
    Cancelled,
}

/// What a read has to do.
#[derive(Debug, Clone, Copy, PartialEq, Eq, Structural)]
pub enum ReadStep {
    /// Take the reader, read, and report with
    /// [`Drive9StreamDownload::chunk_read`].
    Read,
    /// There is nothing left to read.
    End,
}

/// What came of a read.
#[derive(Debug)]
pub enum ReadOutcome {
    /// Some bytes; none at the end of the remote file.
    Chunk(Vec<u8>),
    /// The connection failed, with this message.
    Failed(String),
    /// The transfer was cancelled during the read.
    Cancelled,
}

/// The state of a chunked download.
pub enum ChunksView {
    /// Reads are possible. `reading` says that one is under way.
    Open { reading: bool },
    EndOfStream,
    Closed,
    Errored(ExceptionView),
}

/// The exception for two reads at the same time.
pub open spec fn concurrent_read() -> ExceptionView {
    other_exception("concurrent read_chunk is not supported"@)
}

/// The exception for a read after the download was closed.
pub open spec fn closed_read() -> ExceptionView {
    other_exception("stream download is closed"@)
}

/// What a read is told, given whether the transfer has been cancelled.
pub open spec fn read_answer(s: ChunksView, cancelled: bool) -> Result<ReadStep, ExceptionView> {
    match s {
        ChunksView::Open { reading } => if reading {
            Err(concurrent_read())
        } else if cancelled {
            Err(transfer_cancelled())
        } else {
            Ok(ReadStep::Read)
        },
        ChunksView::EndOfStream => Ok(ReadStep::End),
        ChunksView::Closed => Err(closed_read()),
        ChunksView::Errored(exception) => Err(exception),
    }
}

/// The state after a read has asked. A refused read of an open download is
/// terminal.
pub open spec fn after_ask(s: ChunksView, cancelled: bool) -> ChunksView {
    match s {
        ChunksView::Open { reading } => match read_answer(s, cancelled) {
            Ok(_) => ChunksView::Open { reading: true },
            Err(exception) => ChunksView::Errored(exception),
        },
        _ => s,
    }
}

/// What a read gives back.
pub open spec fn read_result(outcome: ReadOutcome) -> Result<Option<Seq<u8>>, ExceptionView> {
    match outcome {
        ReadOutcome::Chunk(bytes) => if bytes@.len() > 0 {
            Ok(Some(bytes@))
        } else {
            Ok(None)
        },
        ReadOutcome::Failed(message) => Err(plain_exception("io"@, message@)),
        ReadOutcome::Cancelled => Err(transfer_cancelled()),
    }
}

/// The state after a read has reported. A download that reached a terminal state
/// during the read stays in it.
pub open spec fn after_read(s: ChunksView, outcome: ReadOutcome) -> ChunksView {
    match s {
        ChunksView::Open { reading } => match read_result(outcome) {
            Ok(Some(_)) => ChunksView::Open { reading: false },
            Ok(None) => ChunksView::EndOfStream,
            Err(exception) => ChunksView::Errored(exception),
        },
        _ => s,
    }
}

/// The state after the download was closed.
pub open spec fn after_close(s: ChunksView) -> ChunksView {
    match s {
        ChunksView::Open { reading } => ChunksView::Closed,
        _ => s,
    }
}

/// The state of a chunked download.
#[derive(Debug)]
enum Chunks {
    Open { reading: bool },
    EndOfStream,
    Closed,
    Errored(Drive9Exception),
}

/// A download that is read chunk by chunk.
#[derive(Debug)]
pub struct Drive9StreamDownload {
    state: Chunks,
}

impl View for Drive9StreamDownload {
    type V = ChunksView;

    closed spec fn view(&self) -> ChunksView {
        match self.state {
            Chunks::Open { reading } => ChunksView::Open { reading },
            Chunks::EndOfStream => ChunksView::EndOfStream,
            Chunks::Closed => ChunksView::Closed,
            Chunks::Errored(exception) => ChunksView::Errored(exception@),
        }
    }
}

impl Drive9StreamDownload {
    /// The download of a remote file, from what came of opening it.
    pub fn new(outcome: OpenOutcome) -> (download: Drive9Result<Self>)
        ensures
            match outcome {
                OpenOutcome::Opened => download matches Ok(opened) && opened@ == (
                ChunksView::Open { reading: false }),
                OpenOutcome::Failed(error) => download matches Err(exception) && exception@
                    == exception_of(error@),
                OpenOutcome::Cancelled => download matches Err(exception) && exception@
                    == transfer_cancelled(),
            },
    {
        match outcome {
            OpenOutcome::Opened => Ok(
                Drive9StreamDownload { state: Chunks::Open { reading: false } },
            ),
            OpenOutcome::Failed(error) => Err(Drive9Exception::from(error)),
            OpenOutcome::Cancelled => Err(Drive9Exception::cancelled()),
        }
    }

    /// Asks whether the next chunk may be read, given whether the transfer has
    /// been cancelled.
    pub fn read_chunk(&mut self, cancelled: bool) -> (step: Drive9Result<ReadStep>)
        ensures
            final(self)@ == after_ask(old(self)@, cancelled),
            match read_answer(old(self)@, cancelled) {
                Ok(expected) => step matches Ok(given) && given == expected,
                Err(expected) => step matches Err(exception) && exception@ == expected,
            },
    {
        let exception = match &self.state {
            Chunks::Open { reading } => if *reading {
                Drive9Exception::other("concurrent read_chunk is not supported".to_string())
            } else if cancelled {
                Drive9Exception::cancelled()
            } else {
                self.state = Chunks::Open { reading: true };
                return Ok(ReadStep::Read);
            },
            Chunks::EndOfStream => {
                return Ok(ReadStep::End);
            },
            Chunks::Closed => {
                return Err(Drive9Exception::other("stream download is closed".to_string()));
            },
            Chunks::Errored(exception) => {
                return Err(exception.clone());
            },
        };
        self.state = Chunks::Errored(exception.clone());
        Err(exception)
    }

    /// Reports what came of a read.
    pub fn chunk_read(&mut self, outcome: ReadOutcome) -> (chunk: Drive9Result<Option<Vec<u8>>>)
        ensures
            final(self)@ == after_read(old(self)@, outcome),
            match read_result(outcome) {
                Ok(Some(bytes)) => chunk matches Ok(Some(given)) && given@ == bytes,
                Ok(None) => chunk matches Ok(None),
                Err(expected) => chunk matches Err(exception) && exception@ == expected,
            },
    {
        let open = match &self.state {
            Chunks::Open { reading: _ } => true,
            _ => false,
        };
        match outcome {
            ReadOutcome::Chunk(bytes) => if bytes.len() > 0 {
                if open {
                    self.state = Chunks::Open { reading: false };
                }
                Ok(Some(bytes))
            } else {
                if open {
                    self.state = Chunks::EndOfStream;
                }
                Ok(None)
            },
            ReadOutcome::Failed(message) => {
                let exception = Drive9Exception::plain("io", message);
                if open {
                    self.state = Chunks::Errored(exception.clone());
                }
                Err(exception)
            },
            ReadOutcome::Cancelled => {
                let exception = Drive9Exception::cancelled();
                if open {
                    self.state = Chunks::Errored(exception.clone());
                }
                Err(exception)
            },
        }
    }

    /// Closes the download. One that has ended stays as it ended.
    pub fn close_stream(&mut self)
        ensures
            final(self)@ == after_close(old(self)@),
    {
        if let Chunks::Open { reading: _ } = &self.state {
            self.state = Chunks::Closed;
        }
    }
}

/// A download that has ended, was closed or has failed stays so, and gives every
/// later read the same answer.
pub proof fn law_terminal_state_is_replayed(s: ChunksView, cancelled: bool, outcome: ReadOutcome)
    requires
        !(s is Open),
    ensures
        after_ask(s, cancelled) == s,
        after_read(s, outcome) == s,
        after_close(s) == s,
        read_answer(s, cancelled) == read_answer(s, !cancelled),
{
}

/// A refused or failed read of an open download is answered in the same way
/// ever after.
pub proof fn law_failed_read_is_replayed(
    s: ChunksView,
    cancelled: bool,
    outcome: ReadOutcome,
    later: bool,
)
    ensures
        read_answer(s, cancelled) matches Err(exception) ==> read_answer(
            after_ask(s, cancelled),
            later,
        ) == Err::<ReadStep, ExceptionView>(exception),
        s is Open ==> (read_result(outcome) matches Err(exception) ==> read_answer(
            after_read(s, outcome),
            later,
        ) == Err::<ReadStep, ExceptionView>(exception)),
{
}

/// Closing twice is closing once, and a closed download cannot be read.
pub proof fn law_close_blocks_reads(s: ChunksView, cancelled: bool)
    ensures
        after_close(after_close(s)) == after_close(s),
        s is Open ==> read_answer(after_close(s), cancelled) == Err::<ReadStep, ExceptionView>(
            closed_read(),
        ),
{
}

/// An open download may be read, unless a read is under way or the transfer has
/// been cancelled; either of these ends the download with the exception that the
/// reader gets.
pub proof fn law_reading_an_open_download(reading: bool, cancelled: bool)
    ensures
        ({
            let s = ChunksView::Open { reading };
            &&& reading ==> {
                &&& read_answer(s, cancelled) matches Err(exception) && exception
                    == other_exception("concurrent read_chunk is not supported"@)
                &&& after_ask(s, cancelled) == ChunksView::Errored(
                    other_exception("concurrent read_chunk is not supported"@),
                )
            }
            &&& !reading && cancelled ==> {
                &&& read_answer(s, cancelled) matches Err(exception) && exception
                    == transfer_cancelled()
                &&& after_ask(s, cancelled) == ChunksView::Errored(transfer_cancelled())
            }
            &&& !reading && !cancelled ==> {
                &&& read_answer(s, cancelled) == Ok::<ReadStep, ExceptionView>(ReadStep::Read)
                &&& after_ask(s, cancelled) == (ChunksView::Open { reading: true })
            }
        }),
{
}

/// A download that is over answers a read with the end, with the exception that it
/// failed with, or that it has been closed.
pub proof fn law_reading_a_finished_download(exception: ExceptionView, cancelled: bool)
    ensures
        read_answer(ChunksView::EndOfStream, cancelled) == Ok::<ReadStep, ExceptionView>(
            ReadStep::End,
        ),
        read_answer(ChunksView::Closed, cancelled) == Err::<ReadStep, ExceptionView>(
            other_exception("stream download is closed"@),
        ),
        read_answer(ChunksView::Errored(exception), cancelled) == Err::<ReadStep, ExceptionView>(
            exception,
        ),
        concurrent_read() == other_exception("concurrent read_chunk is not supported"@),
        closed_read() == other_exception("stream download is closed"@),
{
}

/// The bytes that a read got are given back, all of them and no others, and the
/// download can be read again; no bytes are the end.
pub proof fn law_chunk_is_passed_on(bytes: Vec<u8>, reading: bool)
    ensures
        ({
            let s = ChunksView::Open { reading };
            let outcome = ReadOutcome::Chunk(bytes);
            &&& bytes@.len() > 0 ==> {
                &&& read_result(outcome) == Ok::<Option<Seq<u8>>, ExceptionView>(Some(bytes@))
                &&& after_read(s, outcome) == (ChunksView::Open { reading: false })
            }
            &&& bytes@.len() == 0 ==> {
                &&& read_result(outcome) == Ok::<Option<Seq<u8>>, ExceptionView>(None)
                &&& after_read(s, outcome) == ChunksView::EndOfStream
            }
        }),
{
}

/// A read that failed or was cancelled says so, and so does the download from then
/// on.
pub proof fn law_failed_read_says_why(message: String, reading: bool)
    ensures
        ({
            let s = ChunksView::Open { reading };
            let failed = ReadOutcome::Failed(message);
            &&& read_result(failed) == Err::<Option<Seq<u8>>, ExceptionView>(
                plain_exception("io"@, message@),
            )
            &&& after_read(s, failed) == ChunksView::Errored(plain_exception("io"@, message@))
            &&& read_result(ReadOutcome::Cancelled) == Err::<Option<Seq<u8>>, ExceptionView>(
                transfer_cancelled(),
            )
            &&& after_read(s, ReadOutcome::Cancelled) == ChunksView::Errored(transfer_cancelled())
            &&& after_close(s) == ChunksView::Closed
        }),
{
}

} // verus!
