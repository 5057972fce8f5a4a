//! What each operation on a streaming upload does, and what the server is told
//! in the end.

use crate::error::ErrorView;
use crate::stream_laws::{law_history, law_manifest_lists_every_part};
use crate::stream_model::{
    add_final, allowed, apply, close, closed_message, complete_refusal, fresh, give_up, highest,
    initiate, initiate_and_reserve, initiate_error, is_highest, land, lemma_highest, manifest,
    mark_aborted, mark_completed, parameter_refusal, part_refusal, reserve, run, run_allowed,
    start_part, stream_refusal, PartView, PlanView, RefusalView, WriterOp, WriterState,
    UPLOAD_MAX_CONCURRENCY,
};
use crate::text::{decimal, occurs_in};
use vstd::prelude::*;

verus! {

/// Nothing but what is in flight, the plan, the uploaded parts, the failure and
/// the marks can differ.
pub open spec fn same_target(s: WriterState, t: WriterState) -> bool {
    &&& t.path == s.path
    &&& t.total_size == s.total_size
    &&& t.expected_revision == s.expected_revision
}

/// The completed, aborted and closing marks are the same.
pub open spec fn same_marks(s: WriterState, t: WriterState) -> bool {
    &&& t.completed == s.completed
    &&& t.aborted == s.aborted
    &&& t.closing == s.closing
}

/// `t` has `added` more parts in flight than `s` and differs in nothing else.
pub open spec fn only_inflight(s: WriterState, t: WriterState, added: int) -> bool {
    &&& same_target(s, t)
    &&& same_marks(s, t)
    &&& t.plan == s.plan
    &&& t.uploaded == s.uploaded
    &&& t.running == s.running
    &&& t.error == s.error
    &&& t.inflight == s.inflight + added
}

/// `after` maps `number` to `etag` and every other number as `before` does.
pub open spec fn tagged(
    before: Map<i32, Seq<char>>,
    after: Map<i32, Seq<char>>,
    number: i32,
    etag: Seq<char>,
) -> bool {
    &&& after.contains_key(number)
    &&& after[number] == etag
    &&& forall|other: i32|
        other != number ==> (#[trigger] after.contains_key(other) <==> before.contains_key(other))
    &&& forall|other: i32|
        other != number && #[trigger] after.contains_key(other) ==> after[other] == before[other]
}

/// Up to sixteen parts of a stream are uploaded at the same time.
pub proof fn law_concurrency()
    ensures
        UPLOAD_MAX_CONCURRENCY == 16,
{
}

/// A new stream is for the path, the size and the revision that it was opened
/// with; nothing has been sent, and nothing has happened.
pub proof fn law_new_stream(path: Seq<char>, total_size: i64, expected_revision: i64)
    ensures
        ({
            let s = fresh(path, total_size, expected_revision);
            &&& s.path == path
            &&& s.total_size == total_size
            &&& s.expected_revision == expected_revision
            &&& s.plan is None
            &&& forall|number: i32| !#[trigger] s.uploaded.contains_key(number)
            &&& s.inflight == 0
            &&& s.running == 0
            &&& s.error is None
            &&& !s.completed
            &&& !s.aborted
            &&& !s.closing
            &&& s.consistent()
            &&& !s.started()
        }),
{
}

/// A stream has been started exactly when it has a plan.
pub proof fn law_started(s: WriterState)
    ensures
        s.started() <==> s.plan is Some,
{
}

/// A stream that is finished, or about to be, says which of these it is.
pub proof fn law_closed_stream_says_why(s: WriterState)
    ensures
        s.completed ==> closed_message(s) == Some("stream writer already completed"@),
        !s.completed && s.aborted ==> closed_message(s) == Some("stream writer already aborted"@),
        !s.completed && !s.aborted && s.closing ==> closed_message(s) == Some(
            "stream writer is closing"@,
        ),
        closed_message(s) is None <==> !s.completed && !s.aborted && !s.closing,
{
}

/// A refusal holds its message, and says whether the caller is to blame.
pub proof fn law_refusal(message: Seq<char>)
    ensures
        parameter_refusal(message).parameter,
        parameter_refusal(message).error == ErrorView::Other(message),
        !stream_refusal(message).parameter,
        stream_refusal(message).error == ErrorView::Other(message),
{
}

/// A part is refused before the plan is consulted exactly if its number is below
/// 1, the stream has failed, the stream is closed, or the part has been uploaded.
/// The first of these that holds is the reason that is given.
pub proof fn law_part_refusal(s: WriterState, number: i32)
    ensures
        part_refusal(s, number) is None <==> {
            &&& number >= 1
            &&& s.error is None
            &&& !s.completed && !s.aborted && !s.closing
            &&& !s.uploaded.contains_key(number)
        },
        number < 1 ==> part_refusal(s, number) == Some(
            (RefusalView {
                parameter: true,
                error: ErrorView::Other("part number must be >= 1"@),
            }),
        ),
        number >= 1 && s.error is Some ==> part_refusal(s, number) == Some(
            (RefusalView { parameter: false, error: ErrorView::Other(s.error->0.text()) }),
        ),
        number >= 1 && s.error is None && closed_message(s) is Some ==> part_refusal(s, number)
            == Some(
            (RefusalView { parameter: false, error: ErrorView::Other(closed_message(s)->0) }),
        ),
        number >= 1 && s.error is None && closed_message(s) is None && s.uploaded.contains_key(
            number,
        ) ==> part_refusal(s, number) == Some(
            (RefusalView {
                parameter: true,
                error: ErrorView::Other("part "@ + decimal(number as int) + " already uploaded"@),
            }),
        ),
{
}

/// A part is accepted under a plan exactly if the plan has that many parts; it
/// then counts as in flight, for the upload that the plan names.
pub proof fn law_reservation(s: WriterState, plan: PlanView, number: i32)
    ensures
        number <= plan.total_parts ==> {
            &&& reserve(s, plan, number).0 == Ok::<Seq<char>, RefusalView>(plan.upload_id)
            &&& only_inflight(s, reserve(s, plan, number).1, 1)
        },
        number > plan.total_parts ==> {
            &&& reserve(s, plan, number).0 == Err::<Seq<char>, RefusalView>(
                RefusalView {
                    parameter: true,
                    error: ErrorView::Other(
                        "part number "@ + decimal(number as int) + " exceeds total_parts "@
                            + decimal(plan.total_parts as int),
                    ),
                },
            )
            &&& reserve(s, plan, number).1 == s
        },
{
}

/// The failure of an initiation names the protocol where the server lacks it, and
/// else says what happened.
pub proof fn law_initiation_failure(error: ErrorView)
    ensures
        occurs_in("initiate stream upload: "@ + error.text(), "v2 protocol"@) || occurs_in(
            error.text(),
            "v2 upload API not available"@,
        ) ==> initiate_error(error) == ErrorView::Other(
            "streaming upload requires v2 protocol: v2 upload API not available"@,
        ),
        !occurs_in("initiate stream upload: "@ + error.text(), "v2 protocol"@) && !occurs_in(
            error.text(),
            "v2 upload API not available"@,
        ) ==> initiate_error(error) == ErrorView::Other(
            "initiate stream upload: "@ + error.text(),
        ),
{
}

/// The first plan that the server gives is kept and never exchanged; a failed
/// initiation changes nothing. Nothing but the plan is touched.
pub proof fn law_initiation(s: WriterState, plan: PlanView, error: ErrorView)
    ensures
        s.plan is Some ==> {
            &&& initiate(s, Ok(plan)) == (Ok::<(), ErrorView>(()), s)
            &&& initiate(s, Err(error)) == (Ok::<(), ErrorView>(()), s)
        },
        s.plan is None ==> {
            let t = initiate(s, Ok(plan)).1;
            &&& initiate(s, Ok(plan)).0 is Ok
            &&& t.plan == Some(plan)
            &&& same_target(s, t)
            &&& same_marks(s, t)
            &&& t.uploaded == s.uploaded
            &&& t.inflight == s.inflight
            &&& t.running == s.running
            &&& t.error == s.error
            &&& initiate(s, Err(error)) == (Err::<(), ErrorView>(initiate_error(error)), s)
        },
        apply(s, WriterOp::Initiated(Ok(plan))) == initiate(s, Ok(plan)).1,
        apply(s, WriterOp::Initiated(Err(error))) == initiate(s, Err(error)).1,
{
}

/// A part that had the upload initiated is then judged by the plan; if the
/// initiation failed, the part is refused with that failure, which is not the
/// caller's fault.
pub proof fn law_initiation_for_a_part(
    s: WriterState,
    number: i32,
    plan: PlanView,
    error: ErrorView,
)
    requires
        s.plan is None,
    ensures
        number <= plan.total_parts ==> {
            let (outcome, t) = initiate_and_reserve(s, number, Ok(plan));
            &&& outcome == Ok::<Seq<char>, RefusalView>(plan.upload_id)
            &&& t.plan == Some(plan)
            &&& t.inflight == s.inflight + 1
            &&& t.running == s.running
            &&& t.uploaded == s.uploaded
            &&& t.error == s.error
            &&& same_target(s, t)
            &&& same_marks(s, t)
        },
        number > plan.total_parts ==> {
            let (outcome, t) = initiate_and_reserve(s, number, Ok(plan));
            &&& outcome matches Err(refusal) && refusal.parameter && refusal.error
                == ErrorView::Other(
                "part number "@ + decimal(number as int) + " exceeds total_parts "@ + decimal(
                    plan.total_parts as int,
                ),
            )
            &&& t == initiate(s, Ok(plan)).1
        },
        initiate_and_reserve(s, number, Err(error)) == (
            Err::<Seq<char>, RefusalView>(
                RefusalView { parameter: false, error: initiate_error(error) },
            ),
            s,
        ),
        apply(s, WriterOp::WriteInitiated(number, Ok(plan))) == initiate_and_reserve(
            s,
            number,
            Ok(plan),
        ).1,
        apply(s, WriterOp::WriteInitiated(number, Err(error))) == s,
{
}

/// Once there is a plan, an answer to another initiation plays no role for a part:
/// the plan that is there decides.
pub proof fn law_plan_decides(s: WriterState, number: i32, reply: Result<PlanView, ErrorView>)
    ensures
        s.plan matches Some(plan) ==> {
            &&& initiate_and_reserve(s, number, reply) == reserve(s, plan, number)
            &&& apply(s, WriterOp::WriteInitiated(number, reply)) == reserve(s, plan, number).1
            &&& apply(s, WriterOp::Initiated(reply)) == s
        },
{
}

/// Offering a part adds it to those in flight exactly if it is accepted, and
/// touches nothing else.
pub proof fn law_offer(s: WriterState, number: i32)
    ensures
        ({
            let accepted = {
                &&& number >= 1
                &&& s.error is None
                &&& !s.completed && !s.aborted && !s.closing
                &&& !s.uploaded.contains_key(number)
                &&& s.plan is Some
                &&& number <= s.plan->0.total_parts
            };
            only_inflight(
                s,
                apply(s, WriterOp::Write(number)),
                if accepted {
                    1
                } else {
                    0
                },
            )
        }),
{
}

/// A part that asks for its turn is given up if the stream is closed; it starts
/// if fewer than sixteen are running, and waits if not.
pub proof fn law_turn(s: WriterState)
    requires
        s.running < s.inflight,
    ensures
        s.completed || s.aborted || s.closing ==> only_inflight(
            s,
            apply(s, WriterOp::Permit),
            -1,
        ),
        !s.completed && !s.aborted && !s.closing && s.running >= 16 ==> apply(s, WriterOp::Permit)
            == s,
        !s.completed && !s.aborted && !s.closing && s.running < 16 ==> {
            let t = apply(s, WriterOp::Permit);
            &&& t.running == s.running + 1
            &&& t.inflight == s.inflight
            &&& t.uploaded == s.uploaded
            &&& t.plan == s.plan
            &&& t.error == s.error
            &&& same_target(s, t)
            &&& same_marks(s, t)
        },
        only_inflight(s, give_up(s), -1),
        start_part(s).running == s.running + 1,
        only_inflight(s, (WriterState { running: s.running, ..start_part(s) }), 0),
{
}

/// A part that has landed carries exactly the tag that was reported for it, and
/// the tags of all other parts are what they were. It is no longer in flight.
pub proof fn law_landed_part_carries_its_tag(s: WriterState, number: i32, etag: Seq<char>)
    requires
        s.running > 0,
        s.inflight > 0,
    ensures
        ({
            let t = apply(s, WriterOp::Landed(number, Ok(etag)));
            &&& tagged(s.uploaded, t.uploaded, number, etag)
            &&& t.inflight == s.inflight - 1
            &&& t.running == s.running - 1
            &&& t.plan == s.plan
            &&& t.error == s.error
            &&& same_target(s, t)
            &&& same_marks(s, t)
            &&& t == land(s, number, Ok(etag))
        }),
{
}

/// A part that failed leaves the uploaded parts as they were. Its failure is kept
/// if it is the first.
pub proof fn law_failed_part_is_noted(s: WriterState, number: i32, error: ErrorView)
    requires
        s.running > 0,
        s.inflight > 0,
    ensures
        ({
            let t = apply(s, WriterOp::Landed(number, Err(error)));
            &&& t.uploaded == s.uploaded
            &&& t.inflight == s.inflight - 1
            &&& t.running == s.running - 1
            &&& t.plan == s.plan
            &&& s.error is None ==> t.error == Some(error)
            &&& s.error is Some ==> t.error == s.error
            &&& same_target(s, t)
            &&& same_marks(s, t)
            &&& t == land(s, number, Err(error))
        }),
{
}

/// The final part carries exactly the tag that was reported for it, and the tags
/// of all other parts are what they were. Nothing else changes.
pub proof fn law_final_part_carries_its_tag(s: WriterState, number: i32, etag: Seq<char>)
    ensures
        ({
            let t = apply(s, WriterOp::FinalPart(number, etag));
            &&& tagged(s.uploaded, t.uploaded, number, etag)
            &&& t.inflight == s.inflight
            &&& t.running == s.running
            &&& t.plan == s.plan
            &&& t.error == s.error
            &&& same_target(s, t)
            &&& same_marks(s, t)
            &&& t == add_final(s, number, etag)
        }),
{
}

/// To ask a stream to complete, or to abort, closes it and changes nothing else; a
/// stream that was closed before cannot be asked to complete, and one that was
/// aborted has nothing left to abort.
pub proof fn law_closing(s: WriterState)
    ensures
        ({
            let t = close(s);
            &&& t.closing
            &&& t.completed == s.completed
            &&& t.aborted == s.aborted
            &&& only_inflight(s, (WriterState { closing: s.closing, ..t }), 0)
        }),
        apply(s, WriterOp::Complete) == if s.completed || s.aborted || s.closing {
            s
        } else {
            close(s)
        },
        apply(s, WriterOp::Abort) == if s.aborted {
            s
        } else {
            close(s)
        },
{
}

/// A stream is aborted once no part is in flight, and not before.
pub proof fn law_aborting(s: WriterState)
    ensures
        ({
            let t = mark_aborted(s);
            &&& t.aborted
            &&& t.completed == s.completed
            &&& t.closing == s.closing
            &&& only_inflight(s, (WriterState { aborted: s.aborted, ..t }), 0)
        }),
        apply(s, WriterOp::AbortStep) == if s.inflight > 0 {
            s
        } else {
            mark_aborted(s)
        },
{
}

/// A stream is completed exactly if its parts can be listed.
pub proof fn law_finishing(s: WriterState)
    ensures
        ({
            let t = mark_completed(s);
            &&& t.completed
            &&& t.aborted == s.aborted
            &&& t.closing == s.closing
            &&& only_inflight(s, (WriterState { completed: s.completed, ..t }), 0)
        }),
        apply(s, WriterOp::Finish) == if manifest(s.uploaded) is Ok {
            mark_completed(s)
        } else {
            s
        },
{
}

/// A stream without parts in flight cannot be completed exactly if a part failed,
/// or it was never started and there is nothing to start it for.
pub proof fn law_completion_refusal(s: WriterState, final_data_is_empty: bool)
    ensures
        s.error matches Some(error) ==> complete_refusal(s, final_data_is_empty) == Some(
            error.text(),
        ),
        s.error is None && s.plan is None && final_data_is_empty ==> complete_refusal(
            s,
            final_data_is_empty,
        ) == Some("stream writer was never started"@),
        s.error is None && (s.plan is Some || !final_data_is_empty) ==> complete_refusal(
            s,
            final_data_is_empty,
        ) is None,
{
}

/// When an operation may take place: what limits it is that parts can be counted,
/// that a part is there to start or to land, and that the server knows the upload.
pub proof fn law_operations_are_allowed(
    s: WriterState,
    number: i32,
    reply: Result<PlanView, ErrorView>,
    outcome: Result<Seq<char>, ErrorView>,
    etag: Seq<char>,
)
    ensures
        allowed(s, WriterOp::Write(number)) <==> s.inflight < usize::MAX,
        s.inflight < usize::MAX && part_refusal(s, number) is None ==> allowed(
            s,
            WriterOp::WriteInitiated(number, reply),
        ),
        allowed(s, WriterOp::Initiated(reply)),
        allowed(s, WriterOp::Permit) <==> s.running < s.inflight,
        allowed(s, WriterOp::Landed(number, outcome)) <==> s.running > 0,
        allowed(s, WriterOp::Complete),
        s.plan is Some ==> allowed(s, WriterOp::FinalPart(number, etag)),
        s.plan is Some && s.closing ==> allowed(s, WriterOp::Finish),
        allowed(s, WriterOp::Abort),
        s.closing ==> allowed(s, WriterOp::AbortStep),
{
}

/// Parts that cannot be listed are none at all, or have a gap; the lowest missing
/// number is named, with how many parts there are and which is the highest.
pub proof fn law_listing_failure(uploaded: Map<i32, Seq<char>>, max: i32, gap: i32)
    requires
        uploaded.dom().finite(),
    ensures
        (forall|number: i32| !#[trigger] uploaded.contains_key(number)) ==> manifest(uploaded)
            == Err::<Seq<PartView>, ErrorView>(
            ErrorView::Other("no parts uploaded in stream upload"@),
        ),
        uploaded.contains_key(max) && (forall|other: i32| #[trigger]
            uploaded.contains_key(other) ==> other <= max) && 1 <= gap <= max
            && !uploaded.contains_key(gap) && (forall|other: i32|
            1 <= other < gap ==> #[trigger] uploaded.contains_key(other)) ==> manifest(uploaded)
            == Err::<Seq<PartView>, ErrorView>(
            ErrorView::Other(
                "missing part "@ + decimal(gap as int) + " in stream upload (have "@ + decimal(
                    uploaded.dom().len() as int,
                ) + " parts, max "@ + decimal(max as int) + ")"@,
            ),
        ),
{
    if forall|number: i32| !#[trigger] uploaded.contains_key(number) {
        assert(uploaded.dom() =~= Set::empty());
    }
    if uploaded.contains_key(max) && (forall|other: i32| #[trigger]
        uploaded.contains_key(other) ==> other <= max) && 1 <= gap <= max
        && !uploaded.contains_key(gap) && (forall|other: i32|
        1 <= other < gap ==> #[trigger] uploaded.contains_key(other)) {
        assert(is_highest(uploaded, max));
        lemma_highest(uploaded, max);
        assert(uploaded.dom().contains(max));
        lemma_gap(uploaded, 1, max as int, gap);
    }
}

/// Parts without a gap can be listed: as many as the highest of them says.
pub proof fn law_listing_succeeds(uploaded: Map<i32, Seq<char>>, max: i32)
    requires
        uploaded.dom().finite(),
        uploaded.contains_key(max),
        forall|other: i32| #[trigger] uploaded.contains_key(other) ==> other <= max,
        forall|other: i32| 1 <= other <= max ==> #[trigger] uploaded.contains_key(other),
    ensures
        manifest(uploaded) is Ok,
        (manifest(uploaded)->Ok_0).len() == if max >= 1 {
            max as int
        } else {
            0
        },
{
    assert(is_highest(uploaded, max));
    lemma_highest(uploaded, max);
    assert(uploaded.dom().contains(max));
    law_manifest_lists_every_part(uploaded);
}

/// The first gap is the lowest missing number.
proof fn lemma_gap(uploaded: Map<i32, Seq<char>>, from: int, to: int, gap: i32)
    requires
        1 <= from <= gap <= to <= i32::MAX,
        !uploaded.contains_key(gap),
        forall|other: i32| from <= other < gap ==> #[trigger] uploaded.contains_key(other),
    ensures
        crate::stream_model::first_gap(uploaded, from, to) == Some(gap as int),
    decreases gap - from,
{
    if from < gap {
        assert(uploaded.contains_key(from as i32));
        lemma_gap(uploaded, from + 1, to, gap);
    }
}

/// The tag of the last upload that was reported for a part, in a sequence of
/// operations.
pub open spec fn last_tag(ops: Seq<WriterOp>, number: i32) -> Option<Seq<char>>
    decreases ops.len(),
{
    if ops.len() == 0 {
        None
    } else {
        match ops.last() {
            WriterOp::Landed(landed, Ok(etag)) if landed == number => Some(etag),
            WriterOp::FinalPart(landed, etag) if landed == number => Some(etag),
            _ => last_tag(ops.drop_last(), number),
        }
    }
}

/// A part has been uploaded exactly if an upload of it was reported, and it
/// carries the tag of the last such report.
pub proof fn law_parts_carry_reported_tags(
    path: Seq<char>,
    total_size: i64,
    expected_revision: i64,
    ops: Seq<WriterOp>,
    number: i32,
)
    ensures
        ({
            let uploaded = run(fresh(path, total_size, expected_revision), ops).uploaded;
            &&& uploaded.contains_key(number) <==> last_tag(ops, number) is Some
            &&& uploaded.contains_key(number) ==> last_tag(ops, number) == Some(uploaded[number])
        }),
    decreases ops.len(),
{
    if ops.len() > 0 {
        law_parts_carry_reported_tags(
            path,
            total_size,
            expected_revision,
            ops.drop_last(),
            number,
        );
    }
}

/// What the server is told on completion: the parts from the first on, each once,
/// in order and with the tag of the last upload that was reported for it.
pub proof fn law_completion_sends_reported_tags(
    path: Seq<char>,
    total_size: i64,
    expected_revision: i64,
    ops: Seq<WriterOp>,
)
    requires
        run_allowed(fresh(path, total_size, expected_revision), ops),
    ensures
        ({
            let uploaded = run(fresh(path, total_size, expected_revision), ops).uploaded;
            manifest(uploaded) matches Ok(parts) ==> {
                &&& forall|i: int|
                    0 <= i < parts.len() ==> {
                        &&& (#[trigger] parts[i]).number == i + 1
                        &&& last_tag(ops, parts[i].number) == Some(parts[i].etag)
                    }
                &&& forall|number: i32|
                    number >= 1 && #[trigger] last_tag(ops, number) is Some ==> number
                        <= parts.len()
            }
        }),
{
    let uploaded = run(fresh(path, total_size, expected_revision), ops).uploaded;
    law_history(path, total_size, expected_revision, ops, 0);
    law_manifest_lists_every_part(uploaded);
    if let Ok(parts) = manifest(uploaded) {
        assert forall|i: int| 0 <= i < parts.len() implies {
            &&& (#[trigger] parts[i]).number == i + 1
            &&& last_tag(ops, parts[i].number) == Some(parts[i].etag)
        } by {
            law_parts_carry_reported_tags(
                path,
                total_size,
                expected_revision,
                ops,
                parts[i].number,
            );
        }
        assert forall|number: i32| number >= 1 && #[trigger] last_tag(
            ops,
            number,
        ) is Some implies number <= parts.len() by {
            law_parts_carry_reported_tags(path, total_size, expected_revision, ops, number);
            assert(uploaded.contains_key(number));
            assert(uploaded.dom().contains(number));
            assert(is_highest(uploaded, highest(uploaded)));
        }
    }
}

} // verus!
