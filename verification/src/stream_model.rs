//! The state of a streaming upload and how each operation moves it.

use crate::error::ErrorView;
use crate::text::{decimal, occurs_in};
use vstd::prelude::*;

verus! {

broadcast use vstd::string::group_string_axioms;

/// How many parts of one stream are uploaded at the same time.
pub const UPLOAD_MAX_CONCURRENCY: usize = 16;

/// The content of an upload plan.
pub struct PlanView {
    pub upload_id: Seq<char>,
    pub part_size: i64,
    pub total_parts: i32,
}

/// The content of an uploaded part.
pub struct PartView {
    pub number: i32,
    pub etag: Seq<char>,
}

/// The state of a streaming upload.
pub struct WriterState {
    pub path: Seq<char>,
    pub total_size: i64,
    pub expected_revision: i64,
    /// What the server answered to the initiation of the upload.
    pub plan: Option<PlanView>,
    /// The tags of the parts that have been uploaded, by part number.
    pub uploaded: Map<i32, Seq<char>>,
    /// Parts that were accepted and have not landed yet.
    pub inflight: nat,
    /// Parts among these whose upload has been started.
    pub running: nat,
    /// The first failure of a part upload.
    pub error: Option<ErrorView>,
    pub completed: bool,
    pub aborted: bool,
    pub closing: bool,
}

/// Why a part is not accepted. A parameter refusal is the fault of the caller
/// and says nothing about the stream.
pub struct RefusalView {
    pub parameter: bool,
    pub error: ErrorView,
}

impl WriterState {
    /// The upload has been initiated.
    pub open spec fn started(self) -> bool {
        self.plan is Some
    }

    /// What holds of every state that a writer can be in.
    pub open spec fn consistent(self) -> bool {
        &&& self.running <= self.inflight <= usize::MAX
        &&& self.running <= UPLOAD_MAX_CONCURRENCY
        &&& self.uploaded.dom().finite()
        &&& self.plan is None ==> self.inflight == 0 && self.uploaded.dom() =~= Set::empty()
        &&& self.completed ==> self.closing && self.plan is Some
        &&& self.aborted ==> self.closing
    }
}

/// A new stream for `path`.
pub open spec fn fresh(path: Seq<char>, total_size: i64, expected_revision: i64) -> WriterState {
    WriterState {
        path,
        total_size,
        expected_revision,
        plan: None,
        uploaded: Map::empty(),
        inflight: 0,
        running: 0,
        error: None,
        completed: false,
        aborted: false,
        closing: false,
    }
}

/// The message with which a stream that is finished, or about to be, refuses.
pub open spec fn closed_message(s: WriterState) -> Option<Seq<char>> {
    if s.completed {
        Some("stream writer already completed"@)
    } else if s.aborted {
        Some("stream writer already aborted"@)
    } else if s.closing {
        Some("stream writer is closing"@)
    } else {
        None
    }
}

/// A refusal that is the fault of the caller.
pub open spec fn parameter_refusal(message: Seq<char>) -> RefusalView {
    RefusalView { parameter: true, error: ErrorView::Other(message) }
}

/// A refusal that is due to the state of the stream.
pub open spec fn stream_refusal(message: Seq<char>) -> RefusalView {
    RefusalView { parameter: false, error: ErrorView::Other(message) }
}

/// Why part `number` is refused before the upload plan is consulted.
pub open spec fn part_refusal(s: WriterState, number: i32) -> Option<RefusalView> {
    if number < 1 {
        Some(parameter_refusal("part number must be >= 1"@))
    } else if s.error is Some {
        Some(stream_refusal(s.error->0.text()))
    } else if closed_message(s) is Some {
        Some(stream_refusal(closed_message(s)->0))
    } else if s.uploaded.contains_key(number) {
        Some(parameter_refusal("part "@ + decimal(number as int) + " already uploaded"@))
    } else {
        None
    }
}

/// Accepts part `number` under the plan, or refuses it because the plan has
/// fewer parts. Gives the id of the upload.
pub open spec fn reserve(s: WriterState, plan: PlanView, number: i32) -> (
    Result<Seq<char>, RefusalView>,
    WriterState,
) {
    if number > plan.total_parts {
        (
            Err(
                parameter_refusal(
                    "part number "@ + decimal(number as int) + " exceeds total_parts "@ + decimal(
                        plan.total_parts as int,
                    ),
                ),
            ),
            s,
        )
    } else {
        (Ok(plan.upload_id), WriterState { inflight: s.inflight + 1, ..s })
    }
}

/// The error that a failed initiation surfaces as.
pub open spec fn initiate_error(error: ErrorView) -> ErrorView {
    let message = "initiate stream upload: "@ + error.text();
    if occurs_in(message, "v2 protocol"@) || occurs_in(
        error.text(),
        "v2 upload API not available"@,
    ) {
        ErrorView::Other("streaming upload requires v2 protocol: v2 upload API not available"@)
    } else {
        ErrorView::Other(message)
    }
}

/// Takes up the server's answer to the initiation of the upload. A stream that
/// has been initiated already keeps its plan.
pub open spec fn initiate(s: WriterState, reply: Result<PlanView, ErrorView>) -> (
    Result<(), ErrorView>,
    WriterState,
) {
    if s.plan is Some {
        (Ok(()), s)
    } else {
        match reply {
            Ok(plan) => (Ok(()), WriterState { plan: Some(plan), ..s }),
            Err(error) => (Err(initiate_error(error)), s),
        }
    }
}

/// Takes up the server's answer to the initiation and then accepts or refuses
/// part `number`.
pub open spec fn initiate_and_reserve(
    s: WriterState,
    number: i32,
    reply: Result<PlanView, ErrorView>,
) -> (Result<Seq<char>, RefusalView>, WriterState) {
    match initiate(s, reply).0 {
        Ok(_) => reserve(initiate(s, reply).1, initiate(s, reply).1.plan->0, number),
        Err(error) => (Err(RefusalView { parameter: false, error }), initiate(s, reply).1),
    }
}

/// A part that was waiting for its turn is given up.
pub open spec fn give_up(s: WriterState) -> WriterState {
    WriterState { inflight: (s.inflight - 1) as nat, ..s }
}

/// The upload of a waiting part starts.
pub open spec fn start_part(s: WriterState) -> WriterState {
    WriterState { running: s.running + 1, ..s }
}

/// The upload of part `number` has ended, with the tag of the part or with an
/// error. Only the first error is kept.
pub open spec fn land(s: WriterState, number: i32, outcome: Result<Seq<char>, ErrorView>) -> WriterState {
    let freed = WriterState {
        inflight: (s.inflight - 1) as nat,
        running: (s.running - 1) as nat,
        ..s
    };
    match outcome {
        Ok(etag) => WriterState { uploaded: s.uploaded.insert(number, etag), ..freed },
        Err(error) => if s.error is None {
            WriterState { error: Some(error), ..freed }
        } else {
            freed
        },
    }
}

/// From now on the stream accepts nothing.
pub open spec fn close(s: WriterState) -> WriterState {
    WriterState { closing: true, ..s }
}

/// The final part has been uploaded.
pub open spec fn add_final(s: WriterState, number: i32, etag: Seq<char>) -> WriterState {
    WriterState { uploaded: s.uploaded.insert(number, etag), ..s }
}

/// `number` is the highest part number that has been uploaded.
pub open spec fn is_highest(uploaded: Map<i32, Seq<char>>, number: i32) -> bool {
    &&& uploaded.contains_key(number)
    &&& forall|other: i32| #[trigger] uploaded.contains_key(other) ==> other <= number
}

/// The highest part number that has been uploaded.
pub open spec fn highest(uploaded: Map<i32, Seq<char>>) -> i32 {
    choose|number: i32| is_highest(uploaded, number)
}

/// There is at most one highest part number.
pub proof fn lemma_highest(uploaded: Map<i32, Seq<char>>, number: i32)
    requires
        is_highest(uploaded, number),
    ensures
        highest(uploaded) == number,
{
    assert(is_highest(uploaded, highest(uploaded)));
}

/// The first number from `from` up to `to` that has not been uploaded.
pub open spec fn first_gap(uploaded: Map<i32, Seq<char>>, from: int, to: int) -> Option<int>
    decreases to + 1 - from,
{
    if from > to {
        None
    } else if uploaded.contains_key(from as i32) {
        first_gap(uploaded, from + 1, to)
    } else {
        Some(from)
    }
}

/// The parts `1` to `to`, in order.
pub open spec fn parts_up_to(uploaded: Map<i32, Seq<char>>, to: int) -> Seq<PartView> {
    Seq::new(
        if to < 0 {
            0
        } else {
            to as nat
        },
        |i: int| PartView { number: (i + 1) as i32, etag: uploaded[(i + 1) as i32] },
    )
}

/// The message for a gap in the uploaded parts.
pub open spec fn gap_message(gap: int, have: int, max: int) -> Seq<char> {
    "missing part "@ + decimal(gap) + " in stream upload (have "@ + decimal(have) + " parts, max "@
        + decimal(max) + ")"@
}

/// What completing the upload sends to the server: every part from the first to
/// the highest; or why it cannot be completed.
pub open spec fn manifest(uploaded: Map<i32, Seq<char>>) -> Result<Seq<PartView>, ErrorView> {
    if uploaded.dom() =~= Set::empty() {
        Err(ErrorView::Other("no parts uploaded in stream upload"@))
    } else {
        let max = highest(uploaded) as int;
        match first_gap(uploaded, 1, max) {
            Some(gap) => Err(
                ErrorView::Other(gap_message(gap, uploaded.dom().len() as int, max)),
            ),
            None => Ok(parts_up_to(uploaded, max)),
        }
    }
}

/// The stream has been completed on the client's side.
pub open spec fn mark_completed(s: WriterState) -> WriterState {
    WriterState { completed: true, ..s }
}

/// The stream has been aborted on the client's side.
pub open spec fn mark_aborted(s: WriterState) -> WriterState {
    WriterState { aborted: true, ..s }
}

/// Why a stream without parts in flight cannot be completed.
pub open spec fn complete_refusal(s: WriterState, final_data_is_empty: bool) -> Option<Seq<char>> {
    if s.error is Some {
        Some(s.error->0.text())
    } else if s.plan is None && final_data_is_empty {
        Some("stream writer was never started"@)
    } else {
        None
    }
}

/// An operation on a stream.
pub enum WriterOp {
    /// A part is offered.
    Write(i32),
    /// The answer to the initiation that a part asked for.
    WriteInitiated(i32, Result<PlanView, ErrorView>),
    /// The answer to the initiation that completing asked for.
    Initiated(Result<PlanView, ErrorView>),
    /// A part that was accepted asks for its turn.
    Permit,
    /// The upload of a part has ended.
    Landed(i32, Result<Seq<char>, ErrorView>),
    /// The stream is asked to complete.
    Complete,
    /// The final part has been uploaded.
    FinalPart(i32, Seq<char>),
    /// The parts are collected for the server.
    Finish,
    /// The stream is asked to abort.
    Abort,
    /// Aborting looks whether parts are in flight.
    AbortStep,
}

/// When an operation may take place.
pub open spec fn allowed(s: WriterState, op: WriterOp) -> bool {
    match op {
        WriterOp::Write(_) => s.inflight < usize::MAX,
        WriterOp::WriteInitiated(number, _) => s.inflight < usize::MAX && part_refusal(s, number)
            is None,
        WriterOp::Initiated(_) => true,
        WriterOp::Permit => s.running < s.inflight,
        WriterOp::Landed(_, _) => s.running > 0,
        WriterOp::Complete => true,
        WriterOp::FinalPart(_, _) => s.plan is Some,
        WriterOp::Finish => s.plan is Some && s.closing,
        WriterOp::Abort => true,
        WriterOp::AbortStep => s.closing,
    }
}

/// The state after an operation.
pub open spec fn apply(s: WriterState, op: WriterOp) -> WriterState {
    match op {
        WriterOp::Write(number) => if part_refusal(s, number) is None && s.plan is Some {
            reserve(s, s.plan->0, number).1
        } else {
            s
        },
        WriterOp::WriteInitiated(number, reply) => initiate_and_reserve(s, number, reply).1,
        WriterOp::Initiated(reply) => initiate(s, reply).1,
        WriterOp::Permit => if closed_message(s) is Some {
            give_up(s)
        } else if s.running < UPLOAD_MAX_CONCURRENCY {
            start_part(s)
        } else {
            s
        },
        WriterOp::Landed(number, outcome) => land(s, number, outcome),
        WriterOp::Complete => if closed_message(s) is Some {
            s
        } else {
            close(s)
        },
        WriterOp::FinalPart(number, etag) => add_final(s, number, etag),
        WriterOp::Finish => if manifest(s.uploaded) is Ok {
            mark_completed(s)
        } else {
            s
        },
        WriterOp::Abort => if s.aborted {
            s
        } else {
            close(s)
        },
        WriterOp::AbortStep => if s.inflight > 0 {
            s
        } else {
            mark_aborted(s)
        },
    }
}

/// The state after a sequence of operations.
pub open spec fn run(s: WriterState, ops: Seq<WriterOp>) -> WriterState
    decreases ops.len(),
{
    if ops.len() == 0 {
        s
    } else {
        apply(run(s, ops.drop_last()), ops.last())
    }
}

/// Each operation of the sequence may take place when its turn comes.
pub open spec fn run_allowed(s: WriterState, ops: Seq<WriterOp>) -> bool
    decreases ops.len(),
{
    ops.len() > 0 ==> run_allowed(s, ops.drop_last()) && allowed(
        run(s, ops.drop_last()),
        ops.last(),
    )
}

} // verus!
