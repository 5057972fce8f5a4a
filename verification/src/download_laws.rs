//! What holds of every download to a file.

use crate::download::{
    download_start, next, pending, possible, reported_total, DownloadAction, DownloadState,
    EventView, PhaseView,
};
use crate::exception::{transfer_cancelled, ExceptionView};
use vstd::prelude::*;

verus! {

/// The state after a sequence of events.
pub open spec fn drive(s: DownloadState, events: Seq<EventView>) -> DownloadState
    decreases events.len(),
{
    if events.len() == 0 {
        s
    } else {
        next(drive(s, events.drop_last()), events.last())
    }
}

/// Each event of the sequence can occur when its turn comes.
pub open spec fn drive_possible(s: DownloadState, events: Seq<EventView>) -> bool
    decreases events.len(),
{
    events.len() > 0 ==> drive_possible(s, events.drop_last()) && possible(
        drive(s, events.drop_last()),
        events.last(),
    )
}

/// The bytes that have been written to the temporary file.
pub open spec fn bytes_written(s: DownloadState, events: Seq<EventView>) -> int
    decreases events.len(),
{
    if events.len() == 0 {
        0
    } else {
        bytes_written(s, events.drop_last()) + match (
            drive(s, events.drop_last()).phase,
            events.last(),
        ) {
            (PhaseView::Write(len), EventView::Written) => len as int,
            _ => 0,
        }
    }
}

/// The temporary file has taken the place of the destination.
pub open spec fn destination_replaced(s: DownloadState, events: Seq<EventView>) -> bool
    decreases events.len(),
{
    events.len() > 0 && (destination_replaced(s, events.drop_last()) || (drive(
        s,
        events.drop_last(),
    ).phase is Rename && events.last() is Renamed))
}

/// The end of the remote file has been read.
pub open spec fn end_reached(s: DownloadState, events: Seq<EventView>) -> bool
    decreases events.len(),
{
    events.len() > 0 && (end_reached(s, events.drop_last()) || (drive(
        s,
        events.drop_last(),
    ).phase is Read && events.last() == EventView::Chunk(0)))
}

/// Progress speaks of the bytes that have been written, no more and no less.
pub proof fn law_progress_is_precise(
    remote_path: Seq<char>,
    target: Seq<char>,
    temp_path: Seq<char>,
    events: Seq<EventView>,
)
    requires
        drive_possible(download_start(remote_path, target, temp_path), events),
    ensures
        drive(download_start(remote_path, target, temp_path), events).transferred == bytes_written(
            download_start(remote_path, target, temp_path),
            events,
        ),
    decreases events.len(),
{
    if events.len() > 0 {
        law_progress_is_precise(remote_path, target, temp_path, events.drop_last());
    }
}

/// Progress never goes back, and the total that is reported does not change once
/// the size of the remote file is known.
pub proof fn law_progress_is_monotonic(s: DownloadState, event: EventView)
    requires
        possible(s, event),
    ensures
        next(s, event).transferred >= s.transferred,
        !(s.phase is Stat) ==> next(s, event).total == s.total,
        next(s, event).remote_path == s.remote_path,
        next(s, event).target == s.target,
        next(s, event).temp_path == s.temp_path,
{
}

/// The first report is of no bytes.
pub proof fn law_first_report_is_of_nothing(
    remote_path: Seq<char>,
    target: Seq<char>,
    temp_path: Seq<char>,
    size: Option<i64>,
)
    ensures
        ({
            let s = download_start(remote_path, target, temp_path);
            let sized = next(s, EventView::StatDone { size, cancelled: false });
            let created = next(next(sized, EventView::Opened), EventView::Created);
            pending(created) == (DownloadAction::Report {
                transferred: 0,
                total: reported_total(size),
            })
        }),
        size is None ==> reported_total(size) == 0,
{
}

/// Every chunk is reported as soon as it has been written, together with what
/// came before it, and no chunk is read before the last one has been reported
/// and the transfer has been seen not cancelled.
pub proof fn law_each_chunk_is_reported(s: DownloadState, event: EventView)
    requires
        possible(s, event),
    ensures
        s.phase matches PhaseView::Write(len) ==> (event is Written ==> pending(next(s, event)) == (
        DownloadAction::Report { transferred: (s.transferred + len) as u64, total: s.total })),
        pending(next(s, event)) is Read && !(pending(s) is Read) ==> pending(s) is Report && event
            == (EventView::Reported { cancelled: false }),
{
}

/// The temporary file takes the place of the destination exactly when the
/// download succeeds, and then only after the whole remote file has been read,
/// written and flushed.
pub proof fn law_destination_is_replaced_on_success_only(
    remote_path: Seq<char>,
    target: Seq<char>,
    temp_path: Seq<char>,
    events: Seq<EventView>,
)
    ensures
        ({
            let s = download_start(remote_path, target, temp_path);
            let t = drive(s, events);
            &&& destination_replaced(s, events) <==> t.phase == PhaseView::Finished(None)
            &&& (t.phase is Flush || t.phase is Rename || t.phase == PhaseView::Finished(None))
                ==> end_reached(s, events)
        }),
    decreases events.len(),
{
    if events.len() > 0 {
        law_destination_is_replaced_on_success_only(
            remote_path,
            target,
            temp_path,
            events.drop_last(),
        );
    }
}

/// The files on the disk, by their paths.
pub type Disk = Map<Seq<char>, Seq<u8>>;

/// What an event does to the disk. `bytes` are the bytes that reached the
/// temporary file, also where creating or writing it failed half-way. Removing
/// the temporary file succeeds.
pub open spec fn disk_next(s: DownloadState, disk: Disk, event: EventView, bytes: Seq<u8>) -> Disk {
    let held = if disk.contains_key(s.temp_path) {
        disk[s.temp_path]
    } else {
        Seq::empty()
    };
    match (s.phase, event) {
        (PhaseView::Create, EventView::Created) => disk.insert(s.temp_path, Seq::empty()),
        (PhaseView::Create, EventView::IoFailed(_)) => disk.insert(s.temp_path, bytes),
        (PhaseView::Write(_), EventView::Written) => disk.insert(s.temp_path, held + bytes),
        (PhaseView::Write(_), EventView::IoFailed(_)) => disk.insert(s.temp_path, held + bytes),
        (PhaseView::Rename, EventView::Renamed) => disk.remove(s.temp_path).insert(s.target, held),
        (PhaseView::Cleanup(_), EventView::TempRemoved) => disk.remove(s.temp_path),
        _ => disk,
    }
}

/// The disk after a sequence of events, with the bytes that go with each.
pub open spec fn disk_after(
    s: DownloadState,
    disk: Disk,
    events: Seq<EventView>,
    bytes: Seq<Seq<u8>>,
) -> Disk
    decreases events.len(),
{
    if events.len() == 0 {
        disk
    } else {
        disk_next(
            drive(s, events.drop_last()),
            disk_after(s, disk, events.drop_last(), bytes),
            events.last(),
            bytes[events.len() - 1],
        )
    }
}

/// The bytes of the chunks that have been written, one after the other.
pub open spec fn body_written(
    s: DownloadState,
    events: Seq<EventView>,
    bytes: Seq<Seq<u8>>,
) -> Seq<u8>
    decreases events.len(),
{
    if events.len() == 0 {
        Seq::empty()
    } else {
        let before = body_written(s, events.drop_last(), bytes);
        if drive(s, events.drop_last()).phase is Write && events.last() is Written {
            before + bytes[events.len() - 1]
        } else {
            before
        }
    }
}

/// The temporary file is there, and holds what has been written.
spec fn temp_file_holds(s: DownloadState, disk: Disk, body: Seq<u8>) -> bool {
    match s.phase {
        PhaseView::Stat | PhaseView::Open | PhaseView::Create => body == Seq::<u8>::empty(),
        PhaseView::Report
        | PhaseView::Read
        | PhaseView::Write(_)
        | PhaseView::Flush
        | PhaseView::Rename => disk.contains_key(s.temp_path) && disk[s.temp_path] == body,
        _ => true,
    }
}

/// A download by way of another file than the destination touches nothing but
/// these two. A download that succeeds leaves the whole remote file at the
/// destination. One that fails, or has not ended, leaves the destination as it
/// was, be that absent. Once a download has ended there is no temporary file.
pub proof fn law_download_keeps_or_replaces_destination(
    remote_path: Seq<char>,
    target: Seq<char>,
    temp_path: Seq<char>,
    disk: Disk,
    events: Seq<EventView>,
    bytes: Seq<Seq<u8>>,
    other: Seq<char>,
)
    requires
        temp_path != target,
    ensures
        ({
            let s = download_start(remote_path, target, temp_path);
            let t = drive(s, events);
            let after = disk_after(s, disk, events, bytes);
            &&& t.phase == PhaseView::Finished(None) ==> after.contains_key(target) && after[target]
                == body_written(s, events, bytes) && end_reached(s, events)
            &&& t.phase != PhaseView::Finished(None) ==> {
                &&& after.contains_key(target) == disk.contains_key(target)
                &&& disk.contains_key(target) ==> after[target] == disk[target]
            }
            &&& t.phase is Finished ==> !after.contains_key(temp_path)
            &&& other != target && other != temp_path ==> {
                &&& after.contains_key(other) == disk.contains_key(other)
                &&& disk.contains_key(other) ==> after[other] == disk[other]
            }
        }),
{
    lemma_disk(remote_path, target, temp_path, disk, events, bytes, other);
    law_destination_is_replaced_on_success_only(remote_path, target, temp_path, events);
}

/// What [`law_download_keeps_or_replaces_destination`] says, with what the
/// temporary file holds in between.
proof fn lemma_disk(
    remote_path: Seq<char>,
    target: Seq<char>,
    temp_path: Seq<char>,
    disk: Disk,
    events: Seq<EventView>,
    bytes: Seq<Seq<u8>>,
    other: Seq<char>,
)
    requires
        temp_path != target,
    ensures
        ({
            let s = download_start(remote_path, target, temp_path);
            let t = drive(s, events);
            let after = disk_after(s, disk, events, bytes);
            &&& t.target == target && t.temp_path == temp_path
            &&& temp_file_holds(t, after, body_written(s, events, bytes))
            &&& t.phase == PhaseView::Finished(None) ==> after.contains_key(target) && after[target]
                == body_written(s, events, bytes)
            &&& t.phase != PhaseView::Finished(None) ==> {
                &&& after.contains_key(target) == disk.contains_key(target)
                &&& disk.contains_key(target) ==> after[target] == disk[target]
            }
            &&& t.phase is Finished ==> !after.contains_key(temp_path)
            &&& other != target && other != temp_path ==> {
                &&& after.contains_key(other) == disk.contains_key(other)
                &&& disk.contains_key(other) ==> after[other] == disk[other]
            }
        }),
    decreases events.len(),
{
    if events.len() > 0 {
        lemma_disk(remote_path, target, temp_path, disk, events.drop_last(), bytes, other);
    }
}

/// Only a flushed temporary file is renamed.
pub proof fn law_rename_follows_flush(s: DownloadState, event: EventView)
    requires
        !(pending(s) is Rename),
        pending(next(s, event)) is Rename,
    ensures
        pending(s) is Flush,
        event is Flushed,
{
}

/// A download that has failed removes the temporary file and then ends with the
/// exception that it failed with; nothing else can happen to it.
pub proof fn law_failure_removes_temp_file(
    s: DownloadState,
    event: EventView,
    exception: ExceptionView,
)
    ensures
        s.phase == PhaseView::Cleanup(exception) ==> {
            &&& pending(s) is RemoveTemp
            &&& next(s, event).phase == PhaseView::Cleanup(exception) || next(s, event).phase
                == PhaseView::Finished(Some(exception))
        },
        next(s, event).phase == PhaseView::Finished(Some(exception)) ==> s.phase
            == PhaseView::Cleanup(exception) || s.phase == PhaseView::Finished(Some(exception)),
        s.phase is Finished ==> next(s, event) == s,
{
}

/// Wherever cancellation is noticed, the download fails with code "cancelled".
pub proof fn law_cancellation_is_reported(s: DownloadState, size: Option<i64>)
    ensures
        s.phase is Stat ==> next(s, EventView::StatDone { size, cancelled: true }).phase
            == PhaseView::Cleanup(transfer_cancelled()),
        s.phase is Report ==> next(s, EventView::Reported { cancelled: true }).phase
            == PhaseView::Cleanup(transfer_cancelled()),
        s.phase is Open || s.phase is Read ==> next(s, EventView::Cancelled).phase
            == PhaseView::Cleanup(transfer_cancelled()),
        transfer_cancelled().code == "cancelled"@,
{
}

} // verus!
