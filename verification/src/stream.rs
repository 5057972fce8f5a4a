//! Streaming multipart uploads.
//!
//! A [`StreamWriter`] takes every decision of a streaming upload. Its methods
//! are called with the writer locked; between two calls the caller performs the
//! step that the last call asked for and hands the outcome to the next call.

use crate::error::{Drive9Error, ErrorView};
use crate::stream_model::{
    add_final, apply, close, closed_message, complete_refusal, first_gap, fresh, give_up, highest,
    initiate, initiate_and_reserve, is_highest, land, lemma_highest, manifest, mark_aborted,
    mark_completed, part_refusal, parts_up_to, reserve, start_part, stream_refusal, PartView,
    PlanView, RefusalView, WriterOp, WriterState, UPLOAD_MAX_CONCURRENCY,
};
use crate::text::{append_signed, append_unsigned, contains};
use std::collections::HashMap;
use vstd::prelude::*;

verus! {

broadcast use {vstd::string::group_string_axioms, vstd::std_specs::hash::group_hash_axioms};

/// The server's plan for a multipart upload.
#[derive(Debug)]
pub struct UploadPlanV2 {
    pub upload_id: String,
    pub part_size: i64,
    pub total_parts: i32,
}

impl View for UploadPlanV2 {
    type V = PlanView;

    open spec fn view(&self) -> PlanView {
        PlanView {
            upload_id: self.upload_id@,
            part_size: self.part_size,
            total_parts: self.total_parts,
        }
    }
}

/// A part that has been uploaded, with the tag that the store gave it.
#[derive(Debug)]
pub struct CompletePart {
    pub number: i32,
    pub etag: String,
}

impl View for CompletePart {
    type V = PartView;

    open spec fn view(&self) -> PartView {
        PartView { number: self.number, etag: self.etag@ }
    }
}

/// Why a part was not accepted.
#[derive(Debug)]
pub enum WritePartError {
    /// The caller asked for a part that the stream cannot have; the stream is
    /// as good as before.
    Parameter(Drive9Error),
    /// The stream is closed, or something failed.
    Stream(Drive9Error),
}

impl View for WritePartError {
    type V = RefusalView;

    open spec fn view(&self) -> RefusalView {
        match *self {
            WritePartError::Parameter(error) => RefusalView { parameter: true, error: error@ },
            WritePartError::Stream(error) => RefusalView { parameter: false, error: error@ },
        }
    }
}

/// What has to happen next for a part that is being written.
#[derive(Debug)]
pub enum PartStep {
    /// Initiate the upload, and hand the answer to
    /// [`StreamWriter::write_part_initiated`] before the writer is unlocked.
    Initiate,
    /// The part is accepted: wait for a permit, then call
    /// [`StreamWriter::permit_acquired`].
    Upload { upload_id: String },
}

/// What a part that waits for its turn may do.
#[derive(Debug, Clone, Copy, PartialEq, Eq, Structural)]
pub enum PermitStep {
    /// Upload the part, then call [`StreamWriter::part_finished`].
    Start,
    /// As many parts as may run are running: wait and ask again.
    Queued,
}

/// What has to happen next to complete the stream.
#[derive(Debug)]
pub enum CompleteStep {
    /// Parts are in flight: wait and ask again.
    Wait,
    /// Initiate the upload, hand the answer to [`StreamWriter::init_locked`] and
    /// ask again.
    Initiate,
    /// Upload the final part, hand its tag to
    /// [`StreamWriter::final_part_uploaded`] and call [`StreamWriter::finish`].
    UploadFinal { upload_id: String },
    /// Call [`StreamWriter::finish`].
    Finish,
}

/// What has to happen next to abort the stream.
#[derive(Debug)]
pub enum AbortStep {
    /// Parts are in flight: wait and ask again.
    Wait,
    /// Tell the server to drop the upload.
    Abort { upload_id: String },
    /// There is nothing to tell the server.
    Done,
}

/// The outcome of the initiation of an upload.
pub open spec fn plan_reply(reply: Result<UploadPlanV2, Drive9Error>) -> Result<
    PlanView,
    ErrorView,
> {
    match reply {
        Ok(plan) => Ok(plan@),
        Err(error) => Err(error@),
    }
}

/// The outcome of the upload of a part.
pub open spec fn part_reply(reply: Result<String, Drive9Error>) -> Result<Seq<char>, ErrorView> {
    match reply {
        Ok(etag) => Ok(etag@),
        Err(error) => Err(error@),
    }
}

/// A multipart upload whose parts arrive one by one, in any order.
pub struct StreamWriter {
    path: String,
    total_size: i64,
    expected_revision: i64,
    plan: Option<UploadPlanV2>,
    uploaded: HashMap<i32, CompletePart>,
    inflight: usize,
    running: usize,
    err: Option<Drive9Error>,
    completed: bool,
    aborted: bool,
    closing: bool,
}

impl View for StreamWriter {
    type V = WriterState;

    closed spec fn view(&self) -> WriterState {
        WriterState {
            path: self.path@,
            total_size: self.total_size,
            expected_revision: self.expected_revision,
            plan: match self.plan {
                Some(plan) => Some(plan@),
                None => None,
            },
            uploaded: self.uploaded@.map_values(|part: CompletePart| part.etag@),
            inflight: self.inflight as nat,
            running: self.running as nat,
            error: match self.err {
                Some(error) => Some(error@),
                None => None,
            },
            completed: self.completed,
            aborted: self.aborted,
            closing: self.closing,
        }
    }
}

impl StreamWriter {
    /// The writer is in a state that its methods lead to.
    pub closed spec fn wf(&self) -> bool {
        &&& self@.consistent()
        &&& forall|number: i32| #[trigger]
            self.uploaded@.contains_key(number) ==> self.uploaded@[number].number == number
    }

    /// What [`StreamWriter::wf`] says of the state.
    pub proof fn lemma_wf_consistent(&self)
        requires
            self.wf(),
        ensures
            self@.consistent(),
    {
    }

    /// A new stream of `total_size` bytes for `path`. Nothing is sent to the
    /// server until the first part is written.
    pub fn new(path: String, total_size: i64, expected_revision: i64) -> (writer: Self)
        ensures
            writer.wf(),
            writer@ == fresh(path@, total_size, expected_revision),
    {
        let writer = StreamWriter {
            path,
            total_size,
            expected_revision,
            plan: None,
            uploaded: HashMap::new(),
            inflight: 0,
            running: 0,
            err: None,
            completed: false,
            aborted: false,
            closing: false,
        };
        assert(writer@.uploaded =~= Map::empty());
        writer
    }

    /// Whether the upload has been initiated.
    pub fn started(&self) -> (started: bool)
        ensures
            started == self@.started(),
    {
        self.plan.is_some()
    }

    /// What the server is asked when the upload is initiated: the path, the size
    /// and the expected revision.
    pub fn initiation(&self) -> (request: (&str, i64, i64))
        ensures
            request.0@ == self@.path,
            request.1 == self@.total_size,
            request.2 == self@.expected_revision,
    {
        (self.path.as_str(), self.total_size, self.expected_revision)
    }

    /// Whether another part can be counted.
    pub fn has_room(&self) -> (room: bool)
        ensures
            room == (self@.inflight < usize::MAX),
    {
        self.inflight < usize::MAX
    }

    /// Takes up the server's answer to the initiation of the upload.
    pub fn init_locked(&mut self, reply: Result<UploadPlanV2, Drive9Error>) -> (outcome: Result<
        (),
        Drive9Error,
    >)
        requires
            old(self).wf(),
        ensures
            final(self)@ == apply(old(self)@, WriterOp::Initiated(plan_reply(reply))),
            final(self).wf(),
            final(self)@ == initiate(old(self)@, plan_reply(reply)).1,
            match initiate(old(self)@, plan_reply(reply)).0 {
                Ok(_) => outcome is Ok,
                Err(error) => outcome matches Err(given) && given@ == error,
            },
    {
        if self.plan.is_some() {
            return Ok(());
        }
        match reply {
            Ok(plan) => {
                self.plan = Some(plan);
                Ok(())
            },
            Err(error) => {
                let text = error.to_string();
                let mut message = "initiate stream upload: ".to_string();
                message.append(text.as_str());
                if contains(message.as_str(), "v2 protocol") || contains(
                    text.as_str(),
                    "v2 upload API not available",
                ) {
                    Err(
                        Drive9Error::Other(
                            "streaming upload requires v2 protocol: v2 upload API not available".to_string(),
                        ),
                    )
                } else {
                    Err(Drive9Error::Other(message))
                }
            },
        }
    }

    /// The refusal of a stream that is finished, or about to be.
    fn refuse_closed(&self) -> (refusal: Option<Drive9Error>)
        ensures
            match closed_message(self@) {
                Some(message) => refusal matches Some(error) && error@ == ErrorView::Other(message),
                None => refusal is None,
            },
    {
        if self.completed {
            Some(Drive9Error::Other("stream writer already completed".to_string()))
        } else if self.aborted {
            Some(Drive9Error::Other("stream writer already aborted".to_string()))
        } else if self.closing {
            Some(Drive9Error::Other("stream writer is closing".to_string()))
        } else {
            None
        }
    }

    /// Accepts part `part_num` under the plan.
    fn reserve_part(&mut self, part_num: i32) -> (outcome: Result<String, WritePartError>)
        requires
            old(self).wf(),
            old(self)@.plan is Some,
            old(self)@.inflight < usize::MAX,
        ensures
            final(self).wf(),
            final(self)@ == reserve(old(self)@, old(self)@.plan->0, part_num).1,
            match reserve(old(self)@, old(self)@.plan->0, part_num).0 {
                Ok(upload_id) => outcome matches Ok(given) && given@ == upload_id,
                Err(refusal) => outcome matches Err(given) && given@ == refusal,
            },
    {
        let plan = self.plan.as_ref().unwrap();
        if part_num > plan.total_parts {
            let mut message = "part number ".to_string();
            append_signed(&mut message, part_num as i64);
            message.append(" exceeds total_parts ");
            append_signed(&mut message, plan.total_parts as i64);
            return Err(WritePartError::Parameter(Drive9Error::Other(message)));
        }
        let upload_id = plan.upload_id.clone();
        self.inflight = self.inflight + 1;
        Ok(upload_id)
    }

    /// Asks to write part `part_num`. The part is refused, or the upload has to
    /// be initiated first, or the part is accepted and counts as in flight.
    pub fn write_part(&mut self, part_num: i32) -> (step: Result<PartStep, WritePartError>)
        requires
            old(self).wf(),
            old(self)@.inflight < usize::MAX,
        ensures
            final(self)@ == apply(old(self)@, WriterOp::Write(part_num)),
            final(self).wf(),
            match part_refusal(old(self)@, part_num) {
                Some(refusal) => {
                    &&& step matches Err(given) && given@ == refusal
                    &&& final(self)@ == old(self)@
                },
                None => match old(self)@.plan {
                    None => {
                        &&& step == Ok::<PartStep, WritePartError>(PartStep::Initiate)
                        &&& final(self)@ == old(self)@
                    },
                    Some(plan) => {
                        &&& final(self)@ == reserve(old(self)@, plan, part_num).1
                        &&& match reserve(old(self)@, plan, part_num).0 {
                            Ok(upload_id) => step matches Ok(PartStep::Upload { upload_id: given })
                                && given@ == upload_id,
                            Err(refusal) => step matches Err(given) && given@ == refusal,
                        }
                    },
                },
            },
    {
        if part_num < 1 {
            return Err(
                WritePartError::Parameter(
                    Drive9Error::Other("part number must be >= 1".to_string()),
                ),
            );
        }
        if let Some(error) = &self.err {
            return Err(WritePartError::Stream(Drive9Error::Other(error.to_string())));
        }
        if let Some(refusal) = self.refuse_closed() {
            return Err(WritePartError::Stream(refusal));
        }
        if self.uploaded.contains_key(&part_num) {
            let mut message = "part ".to_string();
            append_signed(&mut message, part_num as i64);
            message.append(" already uploaded");
            return Err(WritePartError::Parameter(Drive9Error::Other(message)));
        }
        if self.plan.is_none() {
            return Ok(PartStep::Initiate);
        }
        match self.reserve_part(part_num) {
            Ok(upload_id) => Ok(PartStep::Upload { upload_id }),
            Err(refusal) => Err(refusal),
        }
    }

    /// Takes up the server's answer to the initiation that
    /// [`StreamWriter::write_part`] asked for, and accepts or refuses the part.
    /// Gives the id of the upload.
    pub fn write_part_initiated(
        &mut self,
        part_num: i32,
        reply: Result<UploadPlanV2, Drive9Error>,
    ) -> (outcome: Result<String, WritePartError>)
        requires
            part_refusal(old(self)@, part_num) is None,
            old(self).wf(),
            old(self)@.inflight < usize::MAX,
        ensures
            final(self)@ == apply(old(self)@, WriterOp::WriteInitiated(part_num, plan_reply(reply))),
            final(self).wf(),
            final(self)@ == initiate_and_reserve(old(self)@, part_num, plan_reply(reply)).1,
            match initiate_and_reserve(old(self)@, part_num, plan_reply(reply)).0 {
                Ok(upload_id) => outcome matches Ok(given) && given@ == upload_id,
                Err(refusal) => outcome matches Err(given) && given@ == refusal,
            },
    {
        match self.init_locked(reply) {
            Ok(_) => self.reserve_part(part_num),
            Err(error) => Err(WritePartError::Stream(error)),
        }
    }

    /// Asks whether a part that was accepted may be uploaded now. A part whose
    /// stream was closed while it waited is given up.
    pub fn permit_acquired(&mut self) -> (step: Result<PermitStep, WritePartError>)
        requires
            old(self).wf(),
            old(self)@.running < old(self)@.inflight,
        ensures
            final(self)@ == apply(old(self)@, WriterOp::Permit),
            final(self).wf(),
            match closed_message(old(self)@) {
                Some(message) => {
                    &&& step matches Err(given) && given@ == stream_refusal(message)
                    &&& final(self)@ == give_up(old(self)@)
                },
                None => if old(self)@.running < UPLOAD_MAX_CONCURRENCY {
                    &&& step == Ok::<PermitStep, WritePartError>(PermitStep::Start)
                    &&& final(self)@ == start_part(old(self)@)
                } else {
                    &&& step == Ok::<PermitStep, WritePartError>(PermitStep::Queued)
                    &&& final(self)@ == old(self)@
                },
            },
    {
        if let Some(refusal) = self.refuse_closed() {
            self.inflight = self.inflight - 1;
            return Err(WritePartError::Stream(refusal));
        }
        if self.running < UPLOAD_MAX_CONCURRENCY {
            self.running = self.running + 1;
            Ok(PermitStep::Start)
        } else {
            Ok(PermitStep::Queued)
        }
    }

    /// The upload of part `part_num` has ended.
    pub fn part_finished(&mut self, part_num: i32, outcome: Result<String, Drive9Error>)
        requires
            old(self).wf(),
            old(self)@.running > 0,
        ensures
            final(self)@ == apply(old(self)@, WriterOp::Landed(part_num, part_reply(outcome))),
            final(self).wf(),
            final(self)@ == land(old(self)@, part_num, part_reply(outcome)),
    {
        self.inflight = self.inflight - 1;
        self.running = self.running - 1;
        match outcome {
            Ok(etag) => {
                self.uploaded.insert(part_num, CompletePart { number: part_num, etag });
                assert(self@.uploaded =~= old(self)@.uploaded.insert(part_num, etag@));
                assert(self@.uploaded.dom() =~= self.uploaded@.dom());
            },
            Err(error) => {
                if self.err.is_none() {
                    self.err = Some(error);
                }
            },
        }
    }

    /// The plan that the server gave, once the upload has been initiated.
    pub fn plan(&self) -> (plan: Option<&UploadPlanV2>)
        ensures
            match self@.plan {
                Some(expected) => plan matches Some(given) && given@ == expected,
                None => plan is None,
            },
    {
        self.plan.as_ref()
    }

    /// Whether every part that was accepted has landed.
    pub fn wait_inflight(&self) -> (idle: bool)
        ensures
            idle == (self@.inflight == 0),
    {
        self.inflight == 0
    }

    /// Asks to complete the stream. From now on it accepts no part.
    pub fn complete(&mut self) -> (outcome: Result<(), Drive9Error>)
        requires
            old(self).wf(),
        ensures
            final(self)@ == apply(old(self)@, WriterOp::Complete),
            final(self).wf(),
            match closed_message(old(self)@) {
                Some(message) => {
                    &&& outcome matches Err(given) && given@ == ErrorView::Other(message)
                    &&& final(self)@ == old(self)@
                },
                None => outcome is Ok && final(self)@ == close(old(self)@),
            },
    {
        if let Some(refusal) = self.refuse_closed() {
            return Err(refusal);
        }
        self.closing = true;
        Ok(())
    }

    /// What completing the stream has to do next, given whether there is no
    /// data for a final part. A stream that was never started is started for
    /// the sake of its final part.
    pub fn complete_step(&self, final_data_is_empty: bool) -> (step: Result<
        CompleteStep,
        Drive9Error,
    >)
        ensures
            if self@.inflight > 0 {
                step == Ok::<CompleteStep, Drive9Error>(CompleteStep::Wait)
            } else if complete_refusal(self@, final_data_is_empty) is Some {
                step matches Err(given) && given@ == ErrorView::Other(
                    complete_refusal(self@, final_data_is_empty)->0,
                )
            } else if self@.plan is None {
                step == Ok::<CompleteStep, Drive9Error>(CompleteStep::Initiate)
            } else if final_data_is_empty {
                step == Ok::<CompleteStep, Drive9Error>(CompleteStep::Finish)
            } else {
                step matches Ok(CompleteStep::UploadFinal { upload_id }) && upload_id@
                    == self@.plan->0.upload_id
            },
    {
        if !self.wait_inflight() {
            return Ok(CompleteStep::Wait);
        }
        if let Some(error) = &self.err {
            return Err(Drive9Error::Other(error.to_string()));
        }
        match &self.plan {
            None => if final_data_is_empty {
                Err(Drive9Error::Other("stream writer was never started".to_string()))
            } else {
                Ok(CompleteStep::Initiate)
            },
            Some(plan) => if final_data_is_empty {
                Ok(CompleteStep::Finish)
            } else {
                Ok(CompleteStep::UploadFinal { upload_id: plan.upload_id.clone() })
            },
        }
    }

    /// The final part has been uploaded.
    pub fn final_part_uploaded(&mut self, final_part_num: i32, etag: String)
        requires
            old(self).wf(),
            old(self)@.plan is Some,
        ensures
            final(self)@ == apply(old(self)@, WriterOp::FinalPart(final_part_num, etag@)),
            final(self).wf(),
            final(self)@ == add_final(old(self)@, final_part_num, etag@),
    {
        self.uploaded.insert(final_part_num, CompletePart { number: final_part_num, etag });
        assert(self@.uploaded =~= old(self)@.uploaded.insert(final_part_num, etag@));
        assert(self@.uploaded.dom() =~= self.uploaded@.dom());
    }

    /// The highest part number that has been uploaded.
    fn highest_part(&self) -> (max: Option<i32>)
        ensures
            match max {
                Some(number) => is_highest(self@.uploaded, number),
                None => self@.uploaded.dom() =~= Set::<i32>::empty(),
            },
    {
        let mut max: Option<i32> = None;
        for number in it: self.uploaded.keys()
            invariant
                it.seq().unref().to_set() == self.uploaded@.dom(),
                match max {
                    Some(top) => {
                        &&& self.uploaded@.contains_key(top)
                        &&& forall|i: int| 0 <= i < it.index() ==> *#[trigger] it.seq()[i] <= top
                    },
                    None => it.index() == 0,
                },
        {
            assert(it.seq().unref()[it.index() as int] == *number);
            assert(it.seq().unref().to_set().contains(*number));
            max = match max {
                Some(top) => if *number > top {
                    Some(*number)
                } else {
                    Some(top)
                },
                None => Some(*number),
            };
        }
        max
    }

    /// Collects what completing the upload sends to the server: the id of the
    /// upload, and its parts from the first to the highest.
    pub fn finish(&mut self) -> (outcome: Result<(String, Vec<CompletePart>), Drive9Error>)
        requires
            old(self).wf(),
            old(self)@.plan is Some,
            old(self)@.closing,
        ensures
            final(self)@ == apply(old(self)@, WriterOp::Finish),
            final(self).wf(),
            match manifest(old(self)@.uploaded) {
                Ok(parts) => {
                    &&& outcome matches Ok((upload_id, given))
                    &&& upload_id@ == old(self)@.plan->0.upload_id
                    &&& given@.map_values(|part: CompletePart| part@) == parts
                    &&& final(self)@ == mark_completed(old(self)@)
                },
                Err(error) => {
                    &&& outcome matches Err(given) && given@ == error
                    &&& final(self)@ == old(self)@
                },
            },
    {
        let max: i32 = match self.highest_part() {
            Some(number) => number,
            None => {
                return Err(Drive9Error::Other("no parts uploaded in stream upload".to_string()));
            },
        };
        proof {
            lemma_highest(self@.uploaded, max);
        }
        let mut parts: Vec<CompletePart> = Vec::new();
        let mut number: i64 = 1;
        while number <= max as i64
            invariant
                self@ == old(self)@,
                self.wf(),
                self@.uploaded.contains_key(max),
                is_highest(self@.uploaded, max),
                highest(self@.uploaded) == max,
                1 <= number,
                number <= max + 1 || number == 1,
                first_gap(self@.uploaded, 1, max as int) == first_gap(
                    self@.uploaded,
                    number as int,
                    max as int,
                ),
                parts@.len() == number - 1,
                forall|i: int|
                    0 <= i < parts@.len() ==> (#[trigger] parts@[i])@ == (PartView {
                        number: (i + 1) as i32,
                        etag: self@.uploaded[(i + 1) as i32],
                    }),
            decreases max - number + 1,
        {
            match self.uploaded.get(&(number as i32)) {
                Some(part) => {
                    parts.push(CompletePart { number: part.number, etag: part.etag.clone() });
                },
                None => {
                    let mut message = "missing part ".to_string();
                    append_signed(&mut message, number);
                    message.append(" in stream upload (have ");
                    append_unsigned(&mut message, self.uploaded.len() as u128);
                    message.append(" parts, max ");
                    append_signed(&mut message, max as i64);
                    message.append(")");
                    assert(self@.uploaded.dom() =~= self.uploaded@.dom());
                    return Err(Drive9Error::Other(message));
                },
            }
            number = number + 1;
        }
        let ghost listed = parts@.map_values(|part: CompletePart| part@);
        assert(listed =~= parts_up_to(self@.uploaded, max as int));
        let upload_id = self.plan.as_ref().unwrap().upload_id.clone();
        self.completed = true;
        Ok((upload_id, parts))
    }

    /// Asks to abort the stream. From now on it accepts no part. `false` says
    /// that it has been aborted before, and that nothing is left to do.
    pub fn abort(&mut self) -> (proceed: bool)
        requires
            old(self).wf(),
        ensures
            final(self)@ == apply(old(self)@, WriterOp::Abort),
            final(self).wf(),
            proceed == !old(self)@.aborted,
            final(self)@ == if old(self)@.aborted {
                old(self)@
            } else {
                close(old(self)@)
            },
    {
        if self.aborted {
            return false;
        }
        self.closing = true;
        true
    }

    /// What aborting the stream has to do next. Once no part is in flight, the
    /// stream is aborted, and the server has to be told if it knows the upload.
    pub fn abort_step(&mut self) -> (step: AbortStep)
        requires
            old(self).wf(),
            old(self)@.closing,
        ensures
            final(self)@ == apply(old(self)@, WriterOp::AbortStep),
            final(self).wf(),
            if old(self)@.inflight > 0 {
                step is Wait && final(self)@ == old(self)@
            } else {
                &&& final(self)@ == mark_aborted(old(self)@)
                &&& match old(self)@.plan {
                    Some(plan) => step matches AbortStep::Abort { upload_id } && upload_id@
                        == plan.upload_id,
                    None => step is Done,
                }
            },
    {
        if !self.wait_inflight() {
            return AbortStep::Wait;
        }
        self.aborted = true;
        match &self.plan {
            Some(plan) => AbortStep::Abort { upload_id: plan.upload_id.clone() },
            None => AbortStep::Done,
        }
    }
}

} // verus!
