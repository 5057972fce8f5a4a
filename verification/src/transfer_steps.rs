//! What each event does to an upload of a file, and what the server is told in
//! the end.

use crate::error::{Drive9Error, ErrorView};
use crate::stream::UploadPlanV2;
use crate::stream_model::PlanView;
use crate::transfer::{
    ended, noticed, sending, upload_next, upload_pending, upload_possible, upload_start,
    UploadAction, UploadEvent, UploadEventView, UploadPhaseView, UploadRoute, UploadState,
};
use crate::transfer_laws::{law_upload_history, upload_drive};
use vstd::prelude::*;

verus! {

/// What is uploaded and how is the same.
pub open spec fn same_file(s: UploadState, t: UploadState) -> bool {
    t.route == s.route && t.total == s.total
}

/// The parts and their counts are the same.
pub open spec fn same_parts(s: UploadState, t: UploadState) -> bool {
    &&& t.plan == s.plan
    &&& t.started == s.started
    &&& t.settled == s.settled
    &&& t.parts == s.parts
    &&& t.transferred == s.transferred
}

/// The states differ at most in where the upload stands.
pub open spec fn only_phase(s: UploadState, t: UploadState) -> bool {
    same_file(s, t) && same_parts(s, t) && t.stop == s.stop
}

/// What stops an upload after a look at the cancel flag: what stopped it before,
/// and else the cancellation.
pub open spec fn stop_after(stop: Option<ErrorView>, cancelled: bool) -> Option<ErrorView> {
    if stop is None && cancelled {
        Some(ErrorView::Cancelled)
    } else {
        stop
    }
}

/// An upload begins with a look at the cancel flag; nothing has been sent. A size
/// below zero counts as zero.
pub proof fn law_new_upload(size: i64, route: UploadRoute)
    ensures
        ({
            let s = upload_start(size, route);
            &&& s.route == route
            &&& size >= 0 ==> s.total == size
            &&& size < 0 ==> s.total == 0
            &&& s.plan is None
            &&& s.started == 0
            &&& s.settled == 0
            &&& s.parts.len() == 0
            &&& s.transferred == 0
            &&& s.stop is None
            &&& s.phase is Check
            &&& s.consistent()
        }),
{
}

/// An upload has as many parts as its plan says.
pub proof fn law_part_count(s: UploadState)
    ensures
        s.plan matches Some(plan) ==> {
            &&& plan.total_parts >= 0 ==> s.part_count() == plan.total_parts
            &&& plan.total_parts < 0 ==> s.part_count() == 0
        },
        s.plan is None ==> s.part_count() == 0,
{
}

/// While parts are sent, the next part is launched if nothing stops the upload, a
/// part is left and fewer than sixteen are on their way; else the oldest part on
/// its way is awaited; and if none is, the upload is put together, or dropped if
/// something stopped it.
pub proof fn law_next_part(s: UploadState)
    requires
        s.consistent(),
        s.phase is Send,
    ensures
        s.stop is None && s.started < s.part_count() && s.started - s.settled < 16
            ==> upload_pending(s) == (UploadAction::StartPart { number: (s.started + 1) as i32 }),
        !(s.stop is None && s.started < s.part_count() && s.started - s.settled < 16) && s.settled
            < s.started ==> upload_pending(s) == (UploadAction::AwaitPart {
            number: (s.settled + 1) as i32,
        }),
        s.stop is None && s.settled == s.started && s.started == s.part_count() ==> upload_pending(
            s,
        ) is Complete,
        s.stop is Some && s.settled == s.started ==> upload_pending(s) is Abort,
{
}

/// What has to be done elsewhere follows from where the upload stands; the
/// listener is told of nothing at the start, of the parts that landed in between,
/// and of the whole file at the end.
pub proof fn law_pending_upload_action(s: UploadState)
    ensures
        s.phase is Check ==> upload_pending(s) is Check,
        s.phase is ReportStart ==> upload_pending(s) == (UploadAction::Report {
            transferred: 0,
            total: s.total,
        }),
        s.phase is Put ==> upload_pending(s) is Put,
        s.phase is Initiate ==> upload_pending(s) is Initiate,
        s.phase is ReportPart ==> upload_pending(s) == (UploadAction::Report {
            transferred: s.transferred,
            total: s.total,
        }),
        s.phase is ReportEnd ==> upload_pending(s) == (UploadAction::Report {
            transferred: s.total,
            total: s.total,
        }),
        s.phase is Finished ==> upload_pending(s) is Finished,
        s.phase is Send ==> !(upload_pending(s) is Check || upload_pending(s) is Report
            || upload_pending(s) is Put || upload_pending(s) is Initiate || upload_pending(
            s,
        ) is Finished),
{
}

/// An upload that is cancelled at the start ends there; else a small file is
/// reported and sent, and a large one initiated.
pub proof fn law_upload_begins(s: UploadState, cancelled: bool)
    requires
        s.phase is Check,
    ensures
        ({
            let t = upload_next(s, UploadEventView::Checked { cancelled });
            &&& only_phase(s, t)
            &&& cancelled ==> t.phase == UploadPhaseView::Finished(Some(ErrorView::Cancelled))
            &&& !cancelled && s.route is Single ==> t.phase is ReportStart
            &&& !cancelled && s.route is Multipart ==> t.phase is Initiate
        }),
{
}

/// After the first report the file is sent, unless the upload has been cancelled;
/// after the last one it is over; and after one in between parts are sent.
pub proof fn law_upload_reports(s: UploadState, cancelled: bool)
    ensures
        s.phase is ReportStart ==> {
            let t = upload_next(s, UploadEventView::Reported { cancelled });
            &&& only_phase(s, t)
            &&& cancelled ==> t.phase == UploadPhaseView::Finished(Some(ErrorView::Cancelled))
            &&& !cancelled ==> t.phase is Put
        },
        s.phase is ReportPart ==> {
            let t = upload_next(s, UploadEventView::Reported { cancelled });
            &&& same_file(s, t)
            &&& same_parts(s, t)
            &&& t.stop == stop_after(s.stop, cancelled)
            &&& t.phase is Send
        },
        s.phase is ReportEnd ==> {
            let t = upload_next(s, UploadEventView::Reported { cancelled });
            &&& only_phase(s, t)
            &&& t.phase == UploadPhaseView::Finished(None)
        },
{
}

/// A request that the server took is reported as the end; one that failed ends the
/// upload with its error.
pub proof fn law_upload_requests(s: UploadState, error: ErrorView)
    ensures
        s.phase is Put ==> {
            let t = upload_next(s, UploadEventView::PutDone(Ok(())));
            let u = upload_next(s, UploadEventView::PutDone(Err(error)));
            &&& only_phase(s, t) && t.phase is ReportEnd
            &&& only_phase(s, u) && u.phase == UploadPhaseView::Finished(Some(error))
        },
        upload_pending(s) is Complete ==> {
            let t = upload_next(s, UploadEventView::Completed(Ok(())));
            let u = upload_next(s, UploadEventView::Completed(Err(error)));
            &&& only_phase(s, t) && t.phase is ReportEnd
            &&& only_phase(s, u) && u.phase == UploadPhaseView::Finished(Some(error))
        },
        upload_pending(s) is Abort ==> {
            let t = upload_next(s, UploadEventView::AbortDone);
            &&& only_phase(s, t)
            &&& t.phase == UploadPhaseView::Finished(s.stop)
        },
{
}

/// The plan of the server is taken over as it is; without one the upload ends with
/// the error.
pub proof fn law_upload_plan(s: UploadState, plan: PlanView, error: ErrorView, cancelled: bool)
    requires
        s.phase is Initiate,
    ensures
        ({
            let t = upload_next(s, UploadEventView::Initiated { reply: Ok(plan), cancelled });
            let u = upload_next(s, UploadEventView::Initiated { reply: Err(error), cancelled });
            &&& t.plan == Some(plan)
            &&& same_file(s, t)
            &&& same_parts(s, (UploadState { plan: s.plan, ..t }))
            &&& t.stop == stop_after(s.stop, cancelled)
            &&& t.phase is Send
            &&& only_phase(s, u) && u.phase == UploadPhaseView::Finished(Some(error))
        }),
{
}

/// A part that was launched counts as such, and nothing else changes but that a
/// cancellation is noted.
pub proof fn law_part_is_launched(s: UploadState, cancelled: bool)
    requires
        upload_pending(s) is StartPart,
    ensures
        ({
            let t = upload_next(s, UploadEventView::PartStarted { cancelled });
            &&& t.started == s.started + 1
            &&& same_file(s, t)
            &&& same_parts(s, (UploadState { started: s.started, ..t }))
            &&& t.stop == stop_after(s.stop, cancelled)
            &&& t.phase == s.phase
        }),
{
}

/// A part that landed while nothing stops the upload is listed, last, under the
/// number that was awaited and with exactly the tag that came with it; the parts
/// before it are as they were, and its bytes count as transferred. The listener is
/// told, unless these are all the bytes.
pub proof fn law_part_lands(s: UploadState, etag: Seq<char>, bytes: u64)
    requires
        s.consistent(),
        upload_pending(s) is AwaitPart,
        s.stop is None,
        s.transferred + bytes <= u64::MAX,
    ensures
        ({
            let t = upload_next(
                s,
                UploadEventView::PartDone { outcome: Ok((etag, bytes)), cancelled: false },
            );
            &&& upload_pending(s) == (UploadAction::AwaitPart { number: t.parts.last().number })
            &&& t.parts.len() == s.parts.len() + 1
            &&& t.parts.last().etag == etag
            &&& t.parts.drop_last() == s.parts
            &&& t.transferred == s.transferred + bytes
            &&& t.settled == s.settled + 1
            &&& t.started == s.started
            &&& t.plan == s.plan
            &&& t.stop is None
            &&& same_file(s, t)
            &&& t.transferred < t.total ==> t.phase is ReportPart
            &&& t.transferred >= t.total ==> t.phase is Send
        }),
{
    let t = upload_next(
        s,
        UploadEventView::PartDone { outcome: Ok((etag, bytes)), cancelled: false },
    );
    assert(t.parts.drop_last() =~= s.parts);
}

/// A part that ended after something stopped the upload, or together with a
/// cancellation, or failed, is not listed and counts for nothing. The first thing
/// that went wrong is what stops the upload.
pub proof fn law_part_does_not_count(
    s: UploadState,
    outcome: Result<(Seq<char>, u64), ErrorView>,
    cancelled: bool,
)
    requires
        upload_pending(s) is AwaitPart,
        s.stop is Some || cancelled || outcome is Err,
    ensures
        ({
            let t = upload_next(s, UploadEventView::PartDone { outcome, cancelled });
            &&& t.settled == s.settled + 1
            &&& same_file(s, t)
            &&& same_parts(s, (UploadState { settled: s.settled, ..t }))
            &&& t.phase is Send
            &&& s.stop is Some ==> t.stop == s.stop
            &&& s.stop is None && outcome is Err ==> t.stop == Some(outcome->Err_0)
            &&& s.stop is None && outcome is Ok ==> t.stop == Some(ErrorView::Cancelled)
        }),
{
}

/// The event answers what the upload waits for.
pub open spec fn upload_answers(action: UploadAction, event: UploadEventView) -> bool {
    match event {
        UploadEventView::Checked { .. } => action is Check,
        UploadEventView::Reported { .. } => action is Report,
        UploadEventView::PutDone(_) => action is Put,
        UploadEventView::Initiated { .. } => action is Initiate,
        UploadEventView::PartStarted { .. } => action is StartPart,
        UploadEventView::PartDone { .. } => action is AwaitPart,
        UploadEventView::Completed(_) => action is Complete,
        UploadEventView::AbortDone => action is Abort,
    }
}

/// An event that answers nothing changes nothing.
pub proof fn law_stray_upload_event(s: UploadState, event: UploadEventView)
    ensures
        !upload_answers(upload_pending(s), event) ==> upload_next(s, event) == s,
{
}

/// The small steps that the others are made of touch only what they are about.
pub proof fn law_small_steps(s: UploadState, error: Option<ErrorView>, cancelled: bool)
    ensures
        only_phase(s, ended(s, error)) && ended(s, error).phase == UploadPhaseView::Finished(error),
        only_phase(s, sending(s)) && sending(s).phase is Send,
        same_file(s, noticed(s, cancelled)) && same_parts(s, noticed(s, cancelled)),
        noticed(s, cancelled).phase == s.phase,
        noticed(s, cancelled).stop == stop_after(s.stop, cancelled),
{
}

/// Every event can occur but for bytes that cannot be counted.
pub proof fn law_possible_upload_events(s: UploadState, event: UploadEventView)
    ensures
        (event matches UploadEventView::PartDone { outcome: Ok((_, bytes)), .. } ==> s.transferred
            + bytes <= u64::MAX) ==> upload_possible(s, event),
{
}

/// The content of an event is its parts, and nothing of it is lost.
pub proof fn law_upload_event_content(
    cancelled: bool,
    error: Drive9Error,
    plan: UploadPlanV2,
    etag: String,
    bytes: u64,
)
    ensures
        (UploadEvent::Checked { cancelled })@ == (UploadEventView::Checked { cancelled }),
        (UploadEvent::Reported { cancelled })@ == (UploadEventView::Reported { cancelled }),
        UploadEvent::PutDone(Ok(()))@ == UploadEventView::PutDone(Ok(())),
        UploadEvent::PutDone(Err(error))@ == UploadEventView::PutDone(Err(error@)),
        (UploadEvent::Initiated { reply: Ok(plan), cancelled })@ == (UploadEventView::Initiated {
            reply: Ok(plan@),
            cancelled,
        }),
        (UploadEvent::Initiated { reply: Err(error), cancelled })@ == (
        UploadEventView::Initiated { reply: Err(error@), cancelled }),
        (UploadEvent::PartStarted { cancelled })@ == (UploadEventView::PartStarted { cancelled }),
        (UploadEvent::PartDone { outcome: Ok((etag, bytes)), cancelled })@ == (
        UploadEventView::PartDone { outcome: Ok((etag@, bytes)), cancelled }),
        (UploadEvent::PartDone { outcome: Err(error), cancelled })@ == (UploadEventView::PartDone {
            outcome: Err(error@),
            cancelled,
        }),
        UploadEvent::Completed(Ok(()))@ == UploadEventView::Completed(Ok(())),
        UploadEvent::Completed(Err(error))@ == UploadEventView::Completed(Err(error@)),
        UploadEvent::AbortDone@ == UploadEventView::AbortDone,
{
}

/// The tag that came with the answer to the wait for a part, in a sequence of
/// events.
pub open spec fn answered_tag(
    s: UploadState,
    events: Seq<UploadEventView>,
    number: int,
) -> Option<Seq<char>>
    decreases events.len(),
{
    if events.len() == 0 {
        None
    } else {
        match (upload_pending(upload_drive(s, events.drop_last())), events.last()) {
            (
                UploadAction::AwaitPart { number: awaited },
                UploadEventView::PartDone { outcome: Ok((etag, _)), .. },
            ) if awaited == number => Some(etag),
            _ => answered_tag(s, events.drop_last(), number),
        }
    }
}

/// Whatever happened before, each part that the server is asked to put together
/// carries the tag that came with the answer to the wait for that very part, and
/// every part of the plan is there.
pub proof fn law_upload_sends_answered_tags(
    size: i64,
    route: UploadRoute,
    events: Seq<UploadEventView>,
    n: int,
)
    ensures
        ({
            let s = upload_start(size, route);
            let t = upload_drive(s, events);
            upload_pending(t) is Complete && 1 <= n <= t.part_count() ==> {
                &&& t.parts.len() == t.part_count()
                &&& t.parts[n - 1].number == n
                &&& answered_tag(s, events, n) == Some(t.parts[n - 1].etag)
            }
        }),
{
    law_upload_history(size, route, events);
    lemma_parts_carry_answered_tags(size, route, events, n);
}

/// Every part that is listed carries the tag that came with the answer to the wait
/// for it.
proof fn lemma_parts_carry_answered_tags(
    size: i64,
    route: UploadRoute,
    events: Seq<UploadEventView>,
    n: int,
)
    ensures
        ({
            let s = upload_start(size, route);
            let t = upload_drive(s, events);
            t.stop is None && 1 <= n <= t.parts.len() ==> answered_tag(s, events, n) == Some(
                t.parts[n - 1].etag,
            )
        }),
    decreases events.len(),
{
    if events.len() > 0 {
        lemma_parts_carry_answered_tags(size, route, events.drop_last(), n);
        law_upload_history(size, route, events.drop_last());
        law_upload_history(size, route, events);
    }
}

} // verus!
