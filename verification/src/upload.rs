//! The life of a streaming upload as foreign callers see it.
//!
//! A [`Drive9StreamUpload`] stands in front of a
//! [`StreamWriter`](crate::stream::StreamWriter). Each operation asks it first,
//! then drives the writer, and reports the outcome back.

use crate::error::Drive9Error;
use crate::exception::{exception_of, other_exception, Drive9Exception, Drive9Result};
use crate::stream::{UploadPlanV2, WritePartError};
use vstd::prelude::*;

verus! {

broadcast use vstd::string::group_string_axioms;

/// The life of a streaming upload.
#[derive(Debug, Clone, Copy, PartialEq, Eq, Structural)]
pub enum StreamState {
    /// Parts can be written; the upload can be completed or aborted.
    Active,
    /// Everything is rejected.
    Completed,
    /// Everything is rejected, but to abort again does nothing.
    Aborted,
    /// Everything is rejected, but the upload can be aborted to clean up.
    Errored,
}

/// The message with which operation `op` is rejected.
pub open spec fn rejection(state: StreamState, op: Seq<char>) -> Option<Seq<char>> {
    match state {
        StreamState::Active => None,
        StreamState::Completed => Some(op + ": stream upload already completed"@),
        StreamState::Aborted => Some(op + ": stream upload already aborted"@),
        StreamState::Errored => Some(
            op + ": stream upload is in errored state; call abort() to clean up"@,
        ),
    }
}

/// `checked` is what asking for operation `op` gives.
pub open spec fn guards(state: StreamState, op: Seq<char>, checked: Drive9Result<()>) -> bool {
    match rejection(state, op) {
        Some(message) => checked matches Err(exception) && exception@ == other_exception(message),
        None => checked is Ok,
    }
}

/// The state after a part was written or refused. A part number that the stream
/// cannot have is the caller's mistake and leaves the upload as it was.
pub open spec fn after_write(state: StreamState, result: Result<(), WritePartError>) -> StreamState {
    match result {
        Err(WritePartError::Stream(_)) if state == StreamState::Active => StreamState::Errored,
        _ => state,
    }
}

/// A streaming multipart upload.
#[derive(Debug)]
pub struct Drive9StreamUpload {
    state: StreamState,
}

impl View for Drive9StreamUpload {
    type V = StreamState;

    closed spec fn view(&self) -> StreamState {
        self.state
    }
}

impl Drive9StreamUpload {
    /// A new upload is active.
    pub fn new() -> (upload: Self)
        ensures
            upload@ == StreamState::Active,
    {
        Drive9StreamUpload { state: StreamState::Active }
    }

    /// The state of the upload.
    pub fn state(&self) -> (state: StreamState)
        ensures
            state == self@,
    {
        self.state
    }

    /// Rejects operation `op` unless the upload is active.
    pub fn guard_writable_or_err(&self, op: &str) -> (checked: Drive9Result<()>)
        ensures
            guards(self@, op@, checked),
    {
        let reason = match self.state {
            StreamState::Active => {
                return Ok(());
            },
            StreamState::Completed => ": stream upload already completed",
            StreamState::Aborted => ": stream upload already aborted",
            StreamState::Errored => {
                ": stream upload is in errored state; call abort() to clean up"
            },
        };
        let mut detail = op.to_string();
        detail.append(reason);
        Err(Drive9Exception::other(detail))
    }

    /// Takes note of the outcome of writing a part.
    pub fn observe_result(&mut self, result: &Result<(), WritePartError>)
        ensures
            final(self)@ == after_write(old(self)@, *result),
    {
        if let Err(WritePartError::Stream(_)) = result {
            if self.state == StreamState::Active {
                self.state = StreamState::Errored;
            }
        }
    }

    /// Asks whether a part may be written.
    pub fn write_part(&self) -> (checked: Drive9Result<()>)
        ensures
            guards(self@, "write_part"@, checked),
    {
        self.guard_writable_or_err("write_part")
    }

    /// Reports the outcome of writing a part.
    pub fn write_part_result(&mut self, result: Result<(), WritePartError>) -> (outcome:
        Drive9Result<()>)
        ensures
            final(self)@ == after_write(old(self)@, result),
            match result {
                Ok(_) => outcome is Ok,
                Err(refusal) => outcome matches Err(exception) && exception@ == exception_of(
                    refusal@.error,
                ),
            },
    {
        self.observe_result(&result);
        match result {
            Ok(_) => Ok(()),
            Err(WritePartError::Parameter(error)) => Err(Drive9Exception::from(error)),
            Err(WritePartError::Stream(error)) => Err(Drive9Exception::from(error)),
        }
    }

    /// Asks whether the upload may be completed.
    pub fn complete(&self) -> (checked: Drive9Result<()>)
        ensures
            guards(self@, "complete"@, checked),
    {
        self.guard_writable_or_err("complete")
    }

    /// Reports the outcome of completing the upload.
    pub fn complete_result(&mut self, result: Result<(), Drive9Error>) -> (outcome: Drive9Result<
        (),
    >)
        ensures
            match result {
                Ok(_) => outcome is Ok && final(self)@ == StreamState::Completed,
                Err(error) => {
                    &&& outcome matches Err(exception) && exception@ == exception_of(error@)
                    &&& final(self)@ == StreamState::Errored
                },
            },
    {
        match result {
            Ok(_) => {
                self.state = StreamState::Completed;
                Ok(())
            },
            Err(error) => {
                self.state = StreamState::Errored;
                Err(Drive9Exception::from(error))
            },
        }
    }

    /// Asks whether the upload has to be aborted; `false` says that it has been
    /// aborted already. A completed upload cannot be aborted.
    pub fn abort(&self) -> (proceed: Drive9Result<bool>)
        ensures
            match self@ {
                StreamState::Aborted => proceed matches Ok(needed) && !needed,
                StreamState::Completed => proceed matches Err(exception) && exception@
                    == other_exception("stream upload already completed; cannot abort"@),
                _ => proceed matches Ok(needed) && needed,
            },
    {
        match self.state {
            StreamState::Aborted => Ok(false),
            StreamState::Completed => Err(
                Drive9Exception::other(
                    "stream upload already completed; cannot abort".to_string(),
                ),
            ),
            _ => Ok(true),
        }
    }

    /// Reports the outcome of aborting the upload. After a failure the state is
    /// what it was, and the caller may try again.
    pub fn abort_result(&mut self, result: Result<(), Drive9Error>) -> (outcome: Drive9Result<()>)
        ensures
            match result {
                Ok(_) => outcome is Ok && final(self)@ == StreamState::Aborted,
                Err(error) => {
                    &&& outcome matches Err(exception) && exception@ == exception_of(error@)
                    &&& final(self)@ == old(self)@
                },
            },
    {
        match result {
            Ok(_) => {
                self.state = StreamState::Aborted;
                Ok(())
            },
            Err(error) => Err(Drive9Exception::from(error)),
        }
    }

    /// The size of the parts in the upload plan. `None` says that the upload has
    /// to be initiated first.
    pub fn part_size(&self, plan: Option<&UploadPlanV2>) -> (size: Drive9Result<Option<i64>>)
        ensures
            match rejection(self@, "part_size"@) {
                Some(message) => size matches Err(exception) && exception@ == other_exception(
                    message,
                ),
                None => size matches Ok(known) && known == match plan {
                    Some(plan) => Some(plan.part_size),
                    None => None,
                },
            },
    {
        match self.guard_writable_or_err("part_size") {
            Ok(_) => match plan {
                Some(plan) => Ok(Some(plan.part_size)),
                None => Ok(None),
            },
            Err(exception) => Err(exception),
        }
    }

    /// The number of parts in the upload plan. `None` says that the upload has
    /// to be initiated first.
    pub fn total_parts(&self, plan: Option<&UploadPlanV2>) -> (total: Drive9Result<Option<i32>>)
        ensures
            match rejection(self@, "total_parts"@) {
                Some(message) => total matches Err(exception) && exception@ == other_exception(
                    message,
                ),
                None => total matches Ok(known) && known == match plan {
                    Some(plan) => Some(plan.total_parts),
                    None => None,
                },
            },
    {
        match self.guard_writable_or_err("total_parts") {
            Ok(_) => match plan {
                Some(plan) => Ok(Some(plan.total_parts)),
                None => Ok(None),
            },
            Err(exception) => Err(exception),
        }
    }

    /// Reports the outcome of an initiation that was needed to know the plan.
    pub fn initiate_result(&mut self, result: Result<(), Drive9Error>) -> (outcome: Drive9Result<
        (),
    >)
        ensures
            match result {
                Ok(_) => outcome is Ok && final(self)@ == old(self)@,
                Err(error) => {
                    &&& outcome matches Err(exception) && exception@ == exception_of(error@)
                    &&& final(self)@ == if old(self)@ == StreamState::Active {
                        StreamState::Errored
                    } else {
                        old(self)@
                    }
                },
            },
    {
        match result {
            Ok(_) => Ok(()),
            Err(error) => self.write_part_result(Err(WritePartError::Stream(error))),
        }
    }
}

/// A part number that the stream cannot have leaves the upload as it was, so a
/// later part and the completion are judged as if nothing had happened.
pub proof fn law_parameter_error_keeps_upload(state: StreamState, error: Drive9Error)
    ensures
        after_write(state, Err(WritePartError::Parameter(error))) == state,
{
}

/// A failure of the stream shuts an active upload, and from then on every
/// operation but to abort is rejected.
pub proof fn law_stream_error_shuts_upload(error: Drive9Error, op: Seq<char>)
    ensures
        after_write(StreamState::Active, Err(WritePartError::Stream(error)))
            == StreamState::Errored,
        rejection(StreamState::Errored, op) is Some,
{
}

/// Only an active upload can be written to and completed, and writing a part
/// never brings one back to life.
pub proof fn law_only_active_accepts(
    state: StreamState,
    result: Result<(), WritePartError>,
    op: Seq<char>,
)
    ensures
        rejection(state, op) is None <==> state == StreamState::Active,
        after_write(state, result) == StreamState::Active ==> state == StreamState::Active,
        state != StreamState::Active ==> after_write(state, result) == state,
{
}

/// An operation on an upload that is over is rejected with its name and the state
/// of the upload; on an active one it goes through.
pub proof fn law_rejection_names_operation_and_state(op: Seq<char>, checked: Drive9Result<()>)
    ensures
        rejection(StreamState::Active, op) is None,
        rejection(StreamState::Completed, op) == Some(op + ": stream upload already completed"@),
        rejection(StreamState::Aborted, op) == Some(op + ": stream upload already aborted"@),
        rejection(StreamState::Errored, op) == Some(
            op + ": stream upload is in errored state; call abort() to clean up"@,
        ),
        guards(StreamState::Active, op, checked) <==> checked is Ok,
        guards(StreamState::Completed, op, checked) <==> checked is Err && checked->Err_0@
            == other_exception(op + ": stream upload already completed"@),
        guards(StreamState::Aborted, op, checked) <==> checked is Err && checked->Err_0@
            == other_exception(op + ": stream upload already aborted"@),
        guards(StreamState::Errored, op, checked) <==> checked is Err && checked->Err_0@
            == other_exception(
            op + ": stream upload is in errored state; call abort() to clean up"@,
        ),
{
}

/// A part that was accepted leaves the upload as it was.
pub proof fn law_accepted_part_keeps_upload(state: StreamState)
    ensures
        after_write(state, Ok(())) == state,
{
}

} // verus!
