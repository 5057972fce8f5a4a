//! What holds of every upload of a file.

use crate::error::ErrorView;
use crate::stream_model::UPLOAD_MAX_CONCURRENCY;
use crate::transfer::{
    upload_next, upload_pending, upload_possible, upload_start, UploadAction, UploadEventView,
    UploadPhaseView, UploadRoute, UploadState,
};
use vstd::prelude::*;

verus! {

/// The state after a sequence of events.
pub open spec fn upload_drive(s: UploadState, events: Seq<UploadEventView>) -> UploadState
    decreases events.len(),
{
    if events.len() == 0 {
        s
    } else {
        upload_next(upload_drive(s, events.drop_last()), events.last())
    }
}

/// Each event of the sequence can occur when its turn comes.
pub open spec fn upload_drive_possible(s: UploadState, events: Seq<UploadEventView>) -> bool
    decreases events.len(),
{
    events.len() > 0 ==> upload_drive_possible(s, events.drop_last()) && upload_possible(
        upload_drive(s, events.drop_last()),
        events.last(),
    )
}

/// The upload has been in a state in which `action` was pending.
pub open spec fn asked(
    s: UploadState,
    events: Seq<UploadEventView>,
    action: spec_fn(UploadAction) -> bool,
) -> bool
    decreases events.len(),
{
    action(upload_pending(upload_drive(s, events))) || (events.len() > 0 && asked(
        s,
        events.drop_last(),
        action,
    ))
}

/// Something is sent to the server.
pub open spec fn is_request(action: UploadAction) -> bool {
    action is Put || action is Initiate || action is StartPart || action is Complete
        || action is Abort
}

/// The listener is told that every byte has been transferred.
pub open spec fn is_full_report(action: UploadAction) -> bool {
    action matches UploadAction::Report { transferred, total } && transferred == total
}

/// The bytes of the parts that landed before anything went wrong.
pub open spec fn bytes_landed(s: UploadState, events: Seq<UploadEventView>) -> int
    decreases events.len(),
{
    if events.len() == 0 {
        0
    } else {
        let before = upload_drive(s, events.drop_last());
        bytes_landed(s, events.drop_last()) + match (upload_pending(before), events.last()) {
            (
                UploadAction::AwaitPart { .. },
                UploadEventView::PartDone { outcome: Ok((_, bytes)), cancelled },
            ) => if before.stop is None && !cancelled {
                bytes as int
            } else {
                0
            },
            _ => 0,
        }
    }
}

/// Every event keeps the state consistent; in particular no more than
/// [`UPLOAD_MAX_CONCURRENCY`] parts are on their way at the same time.
pub proof fn law_upload_stays_consistent(s: UploadState, event: UploadEventView)
    requires
        s.consistent(),
    ensures
        upload_next(s, event).consistent(),
        upload_next(s, event).started - upload_next(s, event).settled <= UPLOAD_MAX_CONCURRENCY,
{
}

/// Whatever happens to an upload, its state is consistent.
pub proof fn law_upload_history(size: i64, route: UploadRoute, events: Seq<UploadEventView>)
    ensures
        upload_drive(upload_start(size, route), events).consistent(),
        upload_drive(upload_start(size, route), events).route == route,
        upload_drive(upload_start(size, route), events).total == upload_start(size, route).total,
    decreases events.len(),
{
    if events.len() > 0 {
        law_upload_history(size, route, events.drop_last());
        law_upload_stays_consistent(
            upload_drive(upload_start(size, route), events.drop_last()),
            events.last(),
        );
    }
}

/// The listener is told that every byte of a file has been transferred only
/// once the server has the whole file: an upload that fails or is cancelled
/// never tells so. An empty file is left out: all of its bytes have been
/// transferred from the start.
pub proof fn law_full_report_means_success(
    size: i64,
    route: UploadRoute,
    events: Seq<UploadEventView>,
)
    requires
        size > 0,
    ensures
        ({
            let s = upload_start(size, route);
            let t = upload_drive(s, events);
            asked(s, events, |action: UploadAction| is_full_report(action)) ==> t.phase is ReportEnd
                || t.phase == UploadPhaseView::Finished(None)
        }),
    decreases events.len(),
{
    law_upload_history(size, route, events);
    if events.len() > 0 {
        law_full_report_means_success(size, route, events.drop_last());
        law_upload_history(size, route, events.drop_last());
    }
}

/// A small file that is sent is reported twice: nothing has been transferred
/// when the request goes out, and everything once the server has taken it.
pub proof fn law_small_upload_reports_start_and_end(size: i64)
    ensures
        ({
            let s = upload_start(size, UploadRoute::Single);
            let checked = upload_next(s, UploadEventView::Checked { cancelled: false });
            let told = upload_next(checked, UploadEventView::Reported { cancelled: false });
            let taken = upload_next(told, UploadEventView::PutDone(Ok(())));
            let done = upload_next(taken, UploadEventView::Reported { cancelled: false });
            &&& upload_pending(checked) == UploadAction::Report { transferred: 0, total: s.total }
            &&& upload_pending(told) is Put
            &&& upload_pending(taken) == UploadAction::Report {
                transferred: s.total,
                total: s.total,
            }
            &&& done.phase == UploadPhaseView::Finished(None)
        }),
{
}

/// An upload that is cancelled before it begins sends nothing, reports nothing
/// and ends as cancelled, whatever comes after.
pub proof fn law_cancelled_before_start_sends_nothing(
    size: i64,
    route: UploadRoute,
    events: Seq<UploadEventView>,
)
    requires
        events.len() > 0,
        events[0] == (UploadEventView::Checked { cancelled: true }),
    ensures
        ({
            let s = upload_start(size, route);
            &&& upload_drive(s, events).phase == UploadPhaseView::Finished(
                Some(ErrorView::Cancelled),
            )
            &&& !asked(s, events, |action: UploadAction| is_request(action))
            &&& !asked(s, events, |action: UploadAction| action is Report)
        }),
    decreases events.len(),
{
    let s = upload_start(size, route);
    let request = |action: UploadAction| is_request(action);
    let report = |action: UploadAction| action is Report;
    let earlier = events.drop_last();
    if events.len() == 1 {
        assert(upload_drive(s, earlier) == s);
        assert(!asked(s, earlier, request));
        assert(!asked(s, earlier, report));
    } else {
        law_cancelled_before_start_sends_nothing(size, route, earlier);
    }
}

/// Once an upload in parts has been cancelled, or a part has failed, no part is
/// launched, nothing is reported and nothing is put together: the parts that are
/// on their way come to an end, the server is told to drop the upload, and the
/// upload ends with what stopped it.
pub proof fn law_stopped_upload_drains_and_aborts(s: UploadState, event: UploadEventView)
    requires
        s.consistent(),
        s.phase is Send,
        s.stop is Some,
    ensures
        upload_pending(s) == if s.settled < s.started {
            UploadAction::AwaitPart { number: (s.settled + 1) as i32 }
        } else {
            UploadAction::Abort
        },
        upload_next(s, event).stop == s.stop,
        upload_next(s, event).started == s.started,
        upload_next(s, event).parts == s.parts,
        ({
            ||| upload_next(s, event).phase is Send
            ||| {
                &&& upload_pending(s) is Abort
                &&& event is AbortDone
                &&& upload_next(s, event).phase == UploadPhaseView::Finished(s.stop)
            }
        }),
{
}

/// Once the server has been asked to put the parts together, nothing stops the
/// upload.
proof fn lemma_complete_is_not_stopped(
    size: i64,
    route: UploadRoute,
    events: Seq<UploadEventView>,
)
    ensures
        ({
            let s = upload_start(size, route);
            let t = upload_drive(s, events);
            asked(s, events, |action: UploadAction| action is Complete) ==> {
                &&& t.stop is None
                &&& upload_pending(t) is Complete || t.phase is ReportEnd || t.phase is Finished
            }
        }),
    decreases events.len(),
{
    law_upload_history(size, route, events);
    if events.len() > 0 {
        lemma_complete_is_not_stopped(size, route, events.drop_last());
        law_upload_history(size, route, events.drop_last());
    }
}

/// An upload in parts that was stopped never asks the server to put the parts
/// together, and has told the server to drop the upload before it ends.
pub proof fn law_stopped_upload_has_been_aborted(
    size: i64,
    route: UploadRoute,
    events: Seq<UploadEventView>,
)
    ensures
        ({
            let s = upload_start(size, route);
            let t = upload_drive(s, events);
            t.stop is Some ==> {
                &&& !asked(s, events, |action: UploadAction| action is Complete)
                &&& t.phase is Send || t.phase == UploadPhaseView::Finished(t.stop)
                &&& t.phase is Finished ==> asked(
                    s,
                    events,
                    |action: UploadAction| action is Abort,
                )
            }
        }),
    decreases events.len(),
{
    lemma_complete_is_not_stopped(size, route, events);
    if events.len() > 0 {
        law_stopped_upload_has_been_aborted(size, route, events.drop_last());
        law_upload_history(size, route, events.drop_last());
        let before = upload_drive(upload_start(size, route), events.drop_last());
        if upload_pending(before) is Abort {
            let abort = |action: UploadAction| action is Abort;
            assert(asked(upload_start(size, route), events.drop_last(), abort));
        }
    }
}

/// Cancellation that is noticed while parts are on their way stops the upload
/// with "operation cancelled", unless something went wrong before.
pub proof fn law_cancellation_stops_upload(s: UploadState, etag: Seq<char>, bytes: u64)
    requires
        s.consistent(),
        s.stop is None,
    ensures
        upload_pending(s) is StartPart ==> upload_next(
            s,
            UploadEventView::PartStarted { cancelled: true },
        ).stop == Some(ErrorView::Cancelled),
        upload_pending(s) is AwaitPart ==> upload_next(
            s,
            UploadEventView::PartDone { outcome: Ok((etag, bytes)), cancelled: true },
        ).stop == Some(ErrorView::Cancelled),
        s.phase is ReportPart ==> upload_next(
            s,
            UploadEventView::Reported { cancelled: true },
        ).stop == Some(ErrorView::Cancelled),
        ErrorView::Cancelled.text() == "operation cancelled"@,
{
}

/// Progress speaks of the bytes of the parts that landed, no more and no less,
/// and never goes back.
pub proof fn law_upload_progress_is_precise(
    size: i64,
    route: UploadRoute,
    events: Seq<UploadEventView>,
)
    requires
        upload_drive_possible(upload_start(size, route), events),
    ensures
        ({
            let s = upload_start(size, route);
            &&& upload_drive(s, events).transferred == bytes_landed(s, events)
            &&& events.len() > 0 ==> upload_drive(s, events).transferred >= upload_drive(
                s,
                events.drop_last(),
            ).transferred
        }),
    decreases events.len(),
{
    if events.len() > 0 {
        law_upload_progress_is_precise(size, route, events.drop_last());
    }
}

/// What the server is asked to put together is every part of the plan, in order.
pub proof fn law_upload_completes_every_part(s: UploadState)
    requires
        s.consistent(),
        upload_pending(s) is Complete,
    ensures
        s.parts.len() == s.part_count(),
        forall|i: int| 0 <= i < s.parts.len() ==> (#[trigger] s.parts[i]).number == i + 1,
{
}

/// An upload that is over stays as it is.
pub proof fn law_finished_upload_stays(s: UploadState, event: UploadEventView)
    requires
        s.phase is Finished,
    ensures
        upload_next(s, event) == s,
        upload_pending(s) is Finished,
{
}

} // verus!
