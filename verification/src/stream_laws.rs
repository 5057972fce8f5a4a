//! What holds of every streaming upload.

use crate::error::ErrorView;
use crate::stream_model::{
    allowed, apply, closed_message, complete_refusal, first_gap, fresh, highest,
    initiate_and_reserve, is_highest, land, lemma_highest, manifest, part_refusal, parts_up_to,
    reserve, run, run_allowed, stream_refusal, PartView, PlanView, WriterOp, WriterState,
    UPLOAD_MAX_CONCURRENCY,
};
use vstd::prelude::*;

verus! {

broadcast use vstd::string::group_string_axioms;

/// No operation undoes what came before: the target of the stream and its plan
/// stay, so the upload is initiated at most once; the first failure stays; a
/// closed, completed or aborted stream stays so; and no uploaded part is lost.
pub open spec fn continues(s: WriterState, t: WriterState) -> bool {
    &&& t.path == s.path
    &&& t.total_size == s.total_size
    &&& t.expected_revision == s.expected_revision
    &&& s.plan is Some ==> t.plan == s.plan
    &&& s.error is Some ==> t.error == s.error
    &&& s.closing ==> t.closing
    &&& s.completed ==> t.completed
    &&& s.aborted ==> t.aborted
    &&& s.uploaded.dom().subset_of(t.uploaded.dom())
}

/// Every operation keeps the state consistent; in particular no more than
/// [`UPLOAD_MAX_CONCURRENCY`] parts are uploaded at the same time.
pub proof fn law_operations_keep_consistency(s: WriterState, op: WriterOp)
    requires
        s.consistent(),
        allowed(s, op),
    ensures
        apply(s, op).consistent(),
        apply(s, op).running <= UPLOAD_MAX_CONCURRENCY,
{
}

/// No operation undoes what came before.
pub proof fn law_operations_continue(s: WriterState, op: WriterOp)
    ensures
        continues(s, apply(s, op)),
{
}

/// Whatever happens to a stream, its state is consistent and continues every
/// state that it was in before.
pub proof fn law_history(
    path: Seq<char>,
    total_size: i64,
    expected_revision: i64,
    ops: Seq<WriterOp>,
    earlier: int,
)
    requires
        run_allowed(fresh(path, total_size, expected_revision), ops),
        0 <= earlier <= ops.len(),
    ensures
        run(fresh(path, total_size, expected_revision), ops).consistent(),
        continues(
            run(fresh(path, total_size, expected_revision), ops.take(earlier)),
            run(fresh(path, total_size, expected_revision), ops),
        ),
    decreases ops.len(),
{
    let s = fresh(path, total_size, expected_revision);
    if ops.len() == 0 {
        assert(ops.take(earlier) =~= ops);
    } else {
        let before = run(s, ops.drop_last());
        if earlier == ops.len() {
            assert(ops.take(earlier) =~= ops);
            law_history(path, total_size, expected_revision, ops.drop_last(), 0);
        } else {
            law_history(path, total_size, expected_revision, ops.drop_last(), earlier);
            assert(ops.drop_last().take(earlier) =~= ops.take(earlier));
        }
        law_operations_keep_consistency(before, ops.last());
        law_operations_continue(before, ops.last());
    }
}

/// A stream that is closing, completed or aborted accepts no part, cannot be
/// completed, and has no more parts in flight after an operation than before.
pub proof fn law_closed_stream_accepts_nothing(s: WriterState, op: WriterOp, number: i32)
    requires
        s.consistent(),
        s.closing,
        allowed(s, op),
    ensures
        part_refusal(s, number) is Some,
        closed_message(s) is Some,
        apply(s, WriterOp::Complete) == s,
        apply(s, op).closing,
        apply(s, op).inflight <= s.inflight,
        apply(s, op).running <= s.running,
{
}

/// A part that was waiting for its turn when the stream was closed is given up
/// and never uploaded.
pub proof fn law_waiting_part_is_given_up(s: WriterState)
    requires
        s.consistent(),
        s.closing,
        allowed(s, WriterOp::Permit),
    ensures
        apply(s, WriterOp::Permit).inflight == s.inflight - 1,
        apply(s, WriterOp::Permit).running == s.running,
        apply(s, WriterOp::Permit).uploaded == s.uploaded,
{
}

/// Aborting an aborted stream changes nothing, and an aborted stream says so to
/// whoever offers a part or asks to complete it.
pub proof fn law_abort_is_idempotent(s: WriterState, number: i32)
    requires
        s.aborted,
    ensures
        apply(s, WriterOp::Abort) == s,
        !s.completed ==> closed_message(s) == Some("stream writer already aborted"@),
        !s.completed && s.error is None && number >= 1 ==> part_refusal(s, number) == Some(
            stream_refusal("stream writer already aborted"@),
        ),
{
}

/// The first failure of a part upload is reported to every part that is offered
/// later and to the attempt to complete the stream.
pub proof fn law_first_failure_sticks(s: WriterState, op: WriterOp, number: i32, empty: bool)
    requires
        s.error is Some,
    ensures
        apply(s, op).error == s.error,
        number >= 1 ==> part_refusal(apply(s, op), number) == Some(
            stream_refusal(s.error->0.text()),
        ),
        complete_refusal(apply(s, op), empty) == Some(s.error->0.text()),
{
}

/// The part numbers that have been accepted.
pub open spec fn accepted(s: WriterState, ops: Seq<WriterOp>) -> Set<i32>
    decreases ops.len(),
{
    if ops.len() == 0 {
        Set::empty()
    } else {
        let before = run(s, ops.drop_last());
        let earlier = accepted(s, ops.drop_last());
        match ops.last() {
            WriterOp::Write(number) => if part_refusal(before, number) is None && before.plan is Some
                && reserve(before, before.plan->0, number).0 is Ok {
                earlier.insert(number)
            } else {
                earlier
            },
            WriterOp::WriteInitiated(number, reply) => if initiate_and_reserve(
                before,
                number,
                reply,
            ).0 is Ok {
                earlier.insert(number)
            } else {
                earlier
            },
            _ => earlier,
        }
    }
}

/// Only parts that have been accepted land.
pub open spec fn lands_accepted(s: WriterState, ops: Seq<WriterOp>) -> bool
    decreases ops.len(),
{
    ops.len() > 0 ==> {
        &&& lands_accepted(s, ops.drop_last())
        &&& ops.last() matches WriterOp::Landed(number, _) ==> accepted(
            s,
            ops.drop_last(),
        ).contains(number)
    }
}

/// The operation uploads part `number` as the final part.
pub open spec fn is_final(op: WriterOp, number: i32) -> bool {
    op matches WriterOp::FinalPart(given, _) && given == number
}

/// Part `number` has been uploaded as a final part.
pub open spec fn uploaded_as_final(ops: Seq<WriterOp>, number: i32) -> bool {
    exists|i: int| 0 <= i < ops.len() && is_final(#[trigger] ops[i], number)
}

/// Every part number that is accepted is one of the plan, from 1 on.
pub proof fn law_accepted_numbers_are_planned(
    path: Seq<char>,
    total_size: i64,
    expected_revision: i64,
    ops: Seq<WriterOp>,
    number: i32,
)
    requires
        run_allowed(fresh(path, total_size, expected_revision), ops),
        accepted(fresh(path, total_size, expected_revision), ops).contains(number),
    ensures
        ({
            let t = run(fresh(path, total_size, expected_revision), ops);
            t.plan is Some && 1 <= number <= t.plan->0.total_parts
        }),
    decreases ops.len(),
{
    let s = fresh(path, total_size, expected_revision);
    let before = run(s, ops.drop_last());
    law_operations_continue(before, ops.last());
    if accepted(s, ops.drop_last()).contains(number) {
        law_accepted_numbers_are_planned(
            path,
            total_size,
            expected_revision,
            ops.drop_last(),
            number,
        );
    }
}

/// A part is uploaded only under a number of the plan, from 1 on, or as a final
/// part.
pub proof fn law_uploaded_numbers_are_planned(
    path: Seq<char>,
    total_size: i64,
    expected_revision: i64,
    ops: Seq<WriterOp>,
    number: i32,
)
    requires
        run_allowed(fresh(path, total_size, expected_revision), ops),
        lands_accepted(fresh(path, total_size, expected_revision), ops),
        run(fresh(path, total_size, expected_revision), ops).uploaded.contains_key(number),
    ensures
        ({
            let t = run(fresh(path, total_size, expected_revision), ops);
            ||| uploaded_as_final(ops, number)
            ||| t.plan is Some && 1 <= number <= t.plan->0.total_parts
        }),
    decreases ops.len(),
{
    let s = fresh(path, total_size, expected_revision);
    if ops.len() > 0 {
        let earlier = ops.drop_last();
        let before = run(s, earlier);
        law_operations_continue(before, ops.last());
        if before.uploaded.contains_key(number) {
            law_uploaded_numbers_are_planned(path, total_size, expected_revision, earlier, number);
            if uploaded_as_final(earlier, number) {
                let i = choose|i: int|
                    0 <= i < earlier.len() && is_final(#[trigger] earlier[i], number);
                assert(is_final(ops[i], number));
            }
        } else {
            match ops.last() {
                WriterOp::Landed(landed, _) => {
                    law_accepted_numbers_are_planned(
                        path,
                        total_size,
                        expected_revision,
                        earlier,
                        landed,
                    );
                },
                WriterOp::FinalPart(_, _) => {
                    assert(is_final(ops[ops.len() - 1], number));
                },
                _ => {},
            }
        }
    }
}

/// A stream whose parts have numbers from 1 on lists at least one part when it is
/// completed, and lists every part that has been uploaded.
pub proof fn law_completed_stream_lists_a_part(
    path: Seq<char>,
    total_size: i64,
    expected_revision: i64,
    ops: Seq<WriterOp>,
)
    requires
        run_allowed(fresh(path, total_size, expected_revision), ops),
        forall|i: int|
            0 <= i < ops.len() ==> match #[trigger] ops[i] {
                WriterOp::Landed(number, _) => number >= 1,
                WriterOp::FinalPart(number, _) => number >= 1,
                _ => true,
            },
    ensures
        ({
            let uploaded = run(fresh(path, total_size, expected_revision), ops).uploaded;
            &&& forall|number: i32| #[trigger] uploaded.contains_key(number) ==> number >= 1
            &&& manifest(uploaded) matches Ok(parts) ==> {
                &&& parts.len() >= 1
                &&& forall|number: i32| #[trigger]
                    uploaded.contains_key(number) ==> number <= parts.len() && parts[number - 1]
                        == (PartView { number, etag: uploaded[number] })
            }
        }),
    decreases ops.len(),
{
    let s = fresh(path, total_size, expected_revision);
    if ops.len() > 0 {
        let earlier = ops.drop_last();
        assert forall|i: int| 0 <= i < earlier.len() implies match #[trigger] earlier[i] {
            WriterOp::Landed(number, _) => number >= 1,
            WriterOp::FinalPart(number, _) => number >= 1,
            _ => true,
        } by {
            assert(earlier[i] == ops[i]);
        }
        law_completed_stream_lists_a_part(path, total_size, expected_revision, earlier);
        assert(ops[ops.len() - 1] == ops.last());
    }
    law_history(path, total_size, expected_revision, ops, 0);
    law_manifest_lists_every_part(run(s, ops).uploaded);
}

/// Two parts may land in either order.
pub proof fn law_parts_land_in_any_order(
    s: WriterState,
    first: i32,
    first_etag: Seq<char>,
    second: i32,
    second_etag: Seq<char>,
)
    requires
        first != second,
        s.running >= 2,
        s.inflight >= 2,
    ensures
        land(land(s, first, Ok(first_etag)), second, Ok(second_etag)) == land(
            land(s, second, Ok(second_etag)),
            first,
            Ok(first_etag),
        ),
{
    assert(s.uploaded.insert(first, first_etag).insert(second, second_etag)
        =~= s.uploaded.insert(second, second_etag).insert(first, first_etag));
}

/// [`first_gap`] finds a gap if there is one.
proof fn lemma_first_gap(uploaded: Map<i32, Seq<char>>, from: int, to: int)
    ensures
        match first_gap(uploaded, from, to) {
            Some(gap) => {
                &&& from <= gap <= to
                &&& !uploaded.contains_key(gap as i32)
                &&& forall|i: int|
                    from <= i < gap ==> #[trigger] uploaded.contains_key(i as i32)
            },
            None => forall|i: int|
                from <= i <= to ==> #[trigger] uploaded.contains_key(i as i32),
        },
    decreases to + 1 - from,
{
    if from <= to && uploaded.contains_key(from as i32) {
        lemma_first_gap(uploaded, from + 1, to);
    }
}

/// A nonempty set of part numbers has a highest one.
proof fn lemma_highest_exists(uploaded: Map<i32, Seq<char>>)
    requires
        uploaded.dom().finite(),
        uploaded.dom().len() > 0,
    ensures
        exists|number: i32| is_highest(uploaded, number),
    decreases uploaded.dom().len(),
{
    let some = uploaded.dom().choose();
    let rest = uploaded.remove(some);
    if rest.dom().len() == 0 {
        assert(is_highest(uploaded, some)) by {
            assert forall|other: i32| #[trigger] uploaded.contains_key(other) implies other
                <= some by {
                if other != some {
                    assert(rest.dom().contains(other));
                }
            }
        }
    } else {
        lemma_highest_exists(rest);
        let top = choose|number: i32| is_highest(rest, number);
        let number = if some > top {
            some
        } else {
            top
        };
        assert(is_highest(uploaded, number)) by {
            assert(uploaded.contains_key(top));
            assert forall|other: i32| #[trigger] uploaded.contains_key(other) implies other
                <= number by {
                if other != some {
                    assert(rest.contains_key(other));
                }
            }
        }
    }
}

/// Completing succeeds exactly when some part has been uploaded and no number
/// below the highest is missing. What is sent then lists each part once, in
/// ascending order and with the tag that it landed with.
pub proof fn law_manifest_lists_every_part(uploaded: Map<i32, Seq<char>>)
    requires
        uploaded.dom().finite(),
    ensures
        manifest(uploaded) is Ok <==> uploaded.dom().len() > 0 && forall|number: i32|
            1 <= number <= highest(uploaded) ==> #[trigger] uploaded.contains_key(number),
        uploaded.dom().len() > 0 ==> is_highest(uploaded, highest(uploaded)),
        manifest(uploaded) matches Ok(parts) ==> {
            &&& highest(uploaded) >= 1 ==> parts.len() == highest(uploaded)
            &&& forall|i: int|
                0 <= i < parts.len() ==> {
                    &&& (#[trigger] parts[i]).number == i + 1
                    &&& uploaded.contains_key(parts[i].number)
                    &&& parts[i].etag == uploaded[parts[i].number]
                }
            &&& forall|number: i32|
                number >= 1 && #[trigger] uploaded.contains_key(number) ==> parts[number - 1]
                    == (PartView { number, etag: uploaded[number] })
        },
{
    if uploaded.dom().len() > 0 {
        lemma_highest_exists(uploaded);
        let max = choose|number: i32| is_highest(uploaded, number);
        lemma_highest(uploaded, max);
        lemma_first_gap(uploaded, 1, max as int);
        assert(uploaded.dom().contains(max));
        match first_gap(uploaded, 1, max as int) {
            Some(gap) => {
                assert(1 <= (gap as i32) <= max);
            },
            None => {
                assert forall|number: i32| 1 <= number <= max implies #[trigger] uploaded.contains_key(
                    number,
                ) by {
                    let i = number as int;
                    assert(uploaded.contains_key(i as i32));
                }
                let parts = parts_up_to(uploaded, max as int);
                assert forall|i: int| 0 <= i < parts.len() implies {
                    &&& (#[trigger] parts[i]).number == i + 1
                    &&& uploaded.contains_key(parts[i].number)
                    &&& parts[i].etag == uploaded[parts[i].number]
                } by {
                    assert(uploaded.contains_key((i + 1) as i32));
                }
            },
        }
    } else {
        assert(uploaded.dom() =~= Set::empty());
    }
}

/// A stream of one part needs no call but to complete it: the upload is then
/// initiated for the final part, and that part alone is sent.
pub proof fn law_single_part_stream(
    path: Seq<char>,
    total_size: i64,
    expected_revision: i64,
    plan: PlanView,
    etag: Seq<char>,
)
    ensures
        ({
            let asked = apply(fresh(path, total_size, expected_revision), WriterOp::Complete);
            let initiated = apply(asked, WriterOp::Initiated(Ok(plan)));
            let uploaded = apply(initiated, WriterOp::FinalPart(1, etag));
            &&& asked.closing && asked.inflight == 0
            &&& complete_refusal(asked, false) is None
            &&& initiated.plan == Some(plan)
            &&& manifest(uploaded.uploaded) == Ok::<Seq<PartView>, ErrorView>(
                seq![PartView { number: 1, etag }],
            )
            &&& apply(uploaded, WriterOp::Finish).completed
        }),
{
    let asked = apply(fresh(path, total_size, expected_revision), WriterOp::Complete);
    let initiated = apply(asked, WriterOp::Initiated(Ok(plan)));
    let uploaded = apply(initiated, WriterOp::FinalPart(1, etag)).uploaded;
    assert(uploaded.dom().contains(1));
    assert(is_highest(uploaded, 1));
    lemma_highest(uploaded, 1);
    assert(first_gap(uploaded, 2, 1) is None);
    assert(parts_up_to(uploaded, 1) =~= seq![PartView { number: 1, etag }]);
}

} // verus!
