//! What each event does to a download to a file, and what reaches the disk.

use crate::download::{
    download_start, failed, io_exception, moved, next, pending, possible, rename_exception,
    reported_total, DownloadAction, DownloadEvent, DownloadState, EventView, PhaseView, CHUNK_SIZE,
};
use crate::download_laws::{
    body_written, bytes_written, disk_after, drive, drive_possible,
    law_download_keeps_or_replaces_destination, Disk,
};
use crate::error::{Drive9Error, ErrorView};
use crate::exception::{exception_of, ExceptionView};
use vstd::prelude::*;

verus! {

/// The files and the counts are the same.
pub open spec fn same_transfer(s: DownloadState, t: DownloadState) -> bool {
    &&& t.remote_path == s.remote_path
    &&& t.target == s.target
    &&& t.temp_path == s.temp_path
    &&& t.total == s.total
    &&& t.transferred == s.transferred
}

/// The exception has this code and this detail, and no reply stands behind it.
pub open spec fn says(exception: ExceptionView, code: Seq<char>, detail: Seq<char>) -> bool {
    &&& exception.code == code
    &&& exception.detail == detail
    &&& exception.status_code is None
    &&& exception.server_revision is None
}

/// The download has failed with this code and this detail.
pub open spec fn fails(s: DownloadState, code: Seq<char>, detail: Seq<char>) -> bool {
    s.phase matches PhaseView::Cleanup(exception) && says(exception, code, detail)
}

/// A download begins by asking for the size; nothing is known and nothing has
/// been written.
pub proof fn law_new_download(remote_path: Seq<char>, target: Seq<char>, temp_path: Seq<char>)
    ensures
        ({
            let s = download_start(remote_path, target, temp_path);
            &&& s.remote_path == remote_path
            &&& s.target == target
            &&& s.temp_path == temp_path
            &&& s.total == 0
            &&& s.transferred == 0
            &&& s.phase is Stat
        }),
        CHUNK_SIZE == 65536,
{
}

/// What has to be done follows from where the download stands.
pub proof fn law_pending_action(s: DownloadState)
    ensures
        pending(s) is Stat <==> s.phase is Stat,
        pending(s) is Open <==> s.phase is Open,
        pending(s) is Create <==> s.phase is Create,
        pending(s) is Report <==> s.phase is Report,
        pending(s) is Read <==> s.phase is Read,
        pending(s) is Write <==> s.phase is Write,
        pending(s) is Flush <==> s.phase is Flush,
        pending(s) is Rename <==> s.phase is Rename,
        pending(s) is RemoveTemp <==> s.phase is Cleanup,
        pending(s) is Finished <==> s.phase is Finished,
        pending(s) matches DownloadAction::Report { transferred, total } ==> transferred
            == s.transferred && total == s.total,
        s.phase matches PhaseView::Write(n) ==> pending(s) == (DownloadAction::Write { len: n }),
{
}

/// The total that is reported is the size that the server told, and 0 where it
/// told none or a negative one.
pub proof fn law_reported_total(size: i64)
    ensures
        size >= 0 ==> reported_total(Some(size)) == size,
        size < 0 ==> reported_total(Some(size)) == 0,
        reported_total(None) == 0,
{
}

/// The answer to the question for the size sets the total; then the remote file is
/// opened, unless the transfer has been cancelled.
pub proof fn law_size_is_told(s: DownloadState, size: Option<i64>, cancelled: bool)
    requires
        s.phase is Stat,
    ensures
        ({
            let t = next(s, EventView::StatDone { size, cancelled });
            &&& t.total == reported_total(size)
            &&& same_transfer(s, (DownloadState { total: s.total, ..t }))
            &&& cancelled ==> fails(t, "cancelled"@, "transfer cancelled"@)
            &&& !cancelled ==> t.phase is Open
        }),
{
}

/// The remote file is opened, then the temporary file is created, then the
/// listener is told.
pub proof fn law_opening(s: DownloadState, error: ErrorView, message: Seq<char>)
    ensures
        s.phase is Open ==> {
            &&& next(s, EventView::Opened).phase is Create
            &&& same_transfer(s, next(s, EventView::Opened))
            &&& next(s, EventView::OpenFailed(error)).phase == PhaseView::Cleanup(
                exception_of(error),
            )
            &&& same_transfer(s, next(s, EventView::OpenFailed(error)))
            &&& fails(next(s, EventView::Cancelled), "cancelled"@, "transfer cancelled"@)
            &&& same_transfer(s, next(s, EventView::Cancelled))
        },
        s.phase is Create ==> {
            &&& next(s, EventView::Created).phase is Report
            &&& same_transfer(s, next(s, EventView::Created))
            &&& fails(next(s, EventView::IoFailed(message)), "io"@, message)
            &&& same_transfer(s, next(s, EventView::IoFailed(message)))
        },
{
}

/// After a report the next chunk is read, unless the transfer has been cancelled.
pub proof fn law_reporting(s: DownloadState, cancelled: bool)
    requires
        s.phase is Report,
    ensures
        ({
            let t = next(s, EventView::Reported { cancelled });
            &&& same_transfer(s, t)
            &&& cancelled ==> fails(t, "cancelled"@, "transfer cancelled"@)
            &&& !cancelled ==> t.phase is Read
        }),
{
}

/// A chunk that has been read is written whole: every byte of it, and no more. At
/// the end of the remote file the temporary file is flushed.
pub proof fn law_chunk_is_written_whole(s: DownloadState, n: usize, message: Seq<char>)
    requires
        s.phase is Read,
    ensures
        n > 0 ==> pending(next(s, EventView::Chunk(n))) == (DownloadAction::Write { len: n }),
        n == 0 ==> pending(next(s, EventView::Chunk(n))) is Flush,
        same_transfer(s, next(s, EventView::Chunk(n))),
        fails(next(s, EventView::IoFailed(message)), "io"@, message),
        same_transfer(s, next(s, EventView::IoFailed(message))),
        fails(next(s, EventView::Cancelled), "cancelled"@, "transfer cancelled"@),
        same_transfer(s, next(s, EventView::Cancelled)),
{
}

/// What has been written counts as transferred, and the listener is told; a write
/// that failed counts for nothing.
pub proof fn law_writing(s: DownloadState, message: Seq<char>)
    ensures
        s.phase matches PhaseView::Write(n) ==> (s.transferred + n <= u64::MAX ==> {
            let t = next(s, EventView::Written);
            &&& t.transferred == s.transferred + n
            &&& t.phase is Report
            &&& same_transfer(s, (DownloadState { transferred: s.transferred, ..t }))
        }),
        s.phase is Write ==> {
            &&& fails(next(s, EventView::IoFailed(message)), "io"@, message)
            &&& same_transfer(s, next(s, EventView::IoFailed(message)))
        },
{
}

/// A flushed file is renamed; a renamed file ends the download; a file that could
/// not be renamed is reported with the destination.
pub proof fn law_finishing_download(s: DownloadState, message: Seq<char>)
    ensures
        s.phase is Flush ==> {
            &&& next(s, EventView::Flushed).phase is Rename
            &&& same_transfer(s, next(s, EventView::Flushed))
            &&& fails(next(s, EventView::IoFailed(message)), "io"@, message)
            &&& same_transfer(s, next(s, EventView::IoFailed(message)))
        },
        s.phase is Rename ==> {
            &&& next(s, EventView::Renamed).phase == PhaseView::Finished(None)
            &&& same_transfer(s, next(s, EventView::Renamed))
            &&& fails(
                next(s, EventView::IoFailed(message)),
                "io"@,
                "rename temp to "@ + s.target + ": "@ + message,
            )
            &&& same_transfer(s, next(s, EventView::IoFailed(message)))
        },
        s.phase matches PhaseView::Cleanup(exception) ==> {
            &&& next(s, EventView::TempRemoved).phase == PhaseView::Finished(Some(exception))
            &&& same_transfer(s, next(s, EventView::TempRemoved))
        },
        says(io_exception(message), "io"@, message),
        says(
            rename_exception(s.target, message),
            "io"@,
            "rename temp to "@ + s.target + ": "@ + message,
        ),
{
}

/// The event answers what the download waits for.
pub open spec fn answers(phase: PhaseView, event: EventView) -> bool {
    match event {
        EventView::StatDone { .. } => phase is Stat,
        EventView::Opened => phase is Open,
        EventView::OpenFailed(_) => phase is Open,
        EventView::Created => phase is Create,
        EventView::Reported { .. } => phase is Report,
        EventView::Chunk(_) => phase is Read,
        EventView::Written => phase is Write,
        EventView::Flushed => phase is Flush,
        EventView::Renamed => phase is Rename,
        EventView::TempRemoved => phase is Cleanup,
        EventView::IoFailed(_) => phase is Create || phase is Read || phase is Write
            || phase is Flush || phase is Rename,
        EventView::Cancelled => phase is Open || phase is Read,
    }
}

/// An event that answers nothing changes nothing.
pub proof fn law_stray_event(s: DownloadState, event: EventView)
    ensures
        !answers(s.phase, event) ==> next(s, event) == s,
{
}

/// Moving a download on, or failing it, touches neither its files nor its counts.
pub proof fn law_moving(s: DownloadState, phase: PhaseView, exception: ExceptionView)
    ensures
        moved(s, phase).phase == phase,
        same_transfer(s, moved(s, phase)),
        failed(s, exception).phase == PhaseView::Cleanup(exception),
        same_transfer(s, failed(s, exception)),
{
}

/// Every event can occur but for a chunk that is larger than what was asked for,
/// and bytes that cannot be counted.
pub proof fn law_possible_events(s: DownloadState, event: EventView)
    ensures
        (event matches EventView::Chunk(n) ==> n <= 65536) && (s.phase matches PhaseView::Write(n)
            ==> s.transferred + n <= u64::MAX) ==> possible(s, event),
{
}

/// The content of an event is its parts, and nothing of it is lost.
pub proof fn law_download_event_content(
    size: Option<i64>,
    cancelled: bool,
    error: Drive9Error,
    n: usize,
    message: String,
)
    ensures
        (DownloadEvent::StatDone { size, cancelled })@ == (EventView::StatDone { size, cancelled }),
        DownloadEvent::Opened@ == EventView::Opened,
        DownloadEvent::OpenFailed(error)@ == EventView::OpenFailed(error@),
        DownloadEvent::Created@ == EventView::Created,
        (DownloadEvent::Reported { cancelled })@ == (EventView::Reported { cancelled }),
        DownloadEvent::Chunk(n)@ == EventView::Chunk(n),
        DownloadEvent::Written@ == EventView::Written,
        DownloadEvent::Flushed@ == EventView::Flushed,
        DownloadEvent::Renamed@ == EventView::Renamed,
        DownloadEvent::TempRemoved@ == EventView::TempRemoved,
        DownloadEvent::IoFailed(message)@ == EventView::IoFailed(message@),
        DownloadEvent::Cancelled@ == EventView::Cancelled,
{
}

/// The bytes that have been read from the remote file.
pub open spec fn bytes_read(s: DownloadState, events: Seq<EventView>) -> int
    decreases events.len(),
{
    if events.len() == 0 {
        0
    } else {
        bytes_read(s, events.drop_last()) + match events.last() {
            EventView::Chunk(n) => if pending(drive(s, events.drop_last())) is Read {
                n as int
            } else {
                0
            },
            _ => 0,
        }
    }
}

/// Every byte that was read is written: while a chunk is being written it is all
/// that is missing, and a download that reads on, or succeeds, has written, and
/// reported as transferred, every byte that it has read.
pub proof fn law_every_byte_read_is_written(
    remote_path: Seq<char>,
    target: Seq<char>,
    temp_path: Seq<char>,
    events: Seq<EventView>,
)
    requires
        drive_possible(download_start(remote_path, target, temp_path), events),
    ensures
        ({
            let s = download_start(remote_path, target, temp_path);
            let t = drive(s, events);
            &&& t.transferred == bytes_written(s, events)
            &&& match pending(t) {
                DownloadAction::Write { len } => bytes_read(s, events) == bytes_written(s, events)
                    + len,
                DownloadAction::RemoveTemp => bytes_written(s, events) <= bytes_read(s, events),
                DownloadAction::Finished => if t.phase == PhaseView::Finished(None) {
                    bytes_read(s, events) == bytes_written(s, events)
                } else {
                    bytes_written(s, events) <= bytes_read(s, events)
                },
                _ => bytes_read(s, events) == bytes_written(s, events),
            }
        }),
    decreases events.len(),
{
    if events.len() > 0 {
        law_every_byte_read_is_written(remote_path, target, temp_path, events.drop_last());
    }
}

/// The content of the last chunk that was read. With each event come bytes: with a
/// chunk its content, with a write what was written.
pub open spec fn last_chunk(
    s: DownloadState,
    events: Seq<EventView>,
    bytes: Seq<Seq<u8>>,
) -> Seq<u8>
    decreases events.len(),
{
    if events.len() == 0 {
        Seq::empty()
    } else if pending(drive(s, events.drop_last())) is Read && events.last() is Chunk {
        bytes[events.len() - 1]
    } else {
        last_chunk(s, events.drop_last(), bytes)
    }
}

/// Everything that was read from the remote file, in order.
pub open spec fn body_read(
    s: DownloadState,
    events: Seq<EventView>,
    bytes: Seq<Seq<u8>>,
) -> Seq<u8>
    decreases events.len(),
{
    if events.len() == 0 {
        Seq::empty()
    } else if pending(drive(s, events.drop_last())) is Read && events.last() is Chunk {
        body_read(s, events.drop_last(), bytes) + bytes[events.len() - 1]
    } else {
        body_read(s, events.drop_last(), bytes)
    }
}

/// A chunk has as many bytes as is said of it, and a write of so many bytes writes
/// that many of the last chunk.
pub open spec fn performed(
    s: DownloadState,
    events: Seq<EventView>,
    bytes: Seq<Seq<u8>>,
) -> bool
    decreases events.len(),
{
    events.len() > 0 ==> {
        let earlier = events.drop_last();
        let asked = pending(drive(s, earlier));
        &&& performed(s, earlier, bytes)
        &&& asked is Read ==> (events.last() matches EventView::Chunk(n)
            ==> bytes[events.len() - 1].len() == n)
        &&& events.last() is Written ==> (asked matches DownloadAction::Write { len }
            ==> bytes[events.len() - 1] == last_chunk(s, earlier, bytes).take(len as int))
    }
}

/// A download that succeeds leaves exactly what was read from the remote file at
/// the destination, byte for byte and in order.
pub proof fn law_destination_holds_what_was_read(
    remote_path: Seq<char>,
    target: Seq<char>,
    temp_path: Seq<char>,
    disk: Disk,
    events: Seq<EventView>,
    bytes: Seq<Seq<u8>>,
)
    requires
        temp_path != target,
        performed(download_start(remote_path, target, temp_path), events, bytes),
    ensures
        ({
            let s = download_start(remote_path, target, temp_path);
            let after = disk_after(s, disk, events, bytes);
            drive(s, events).phase == PhaseView::Finished(None) ==> after.contains_key(target)
                && after[target] == body_read(s, events, bytes)
        }),
{
    law_download_keeps_or_replaces_destination(
        remote_path,
        target,
        temp_path,
        disk,
        events,
        bytes,
        target,
    );
    lemma_body(remote_path, target, temp_path, events, bytes);
}

/// What was written is what was read, but for a chunk that is being written.
proof fn lemma_body(
    remote_path: Seq<char>,
    target: Seq<char>,
    temp_path: Seq<char>,
    events: Seq<EventView>,
    bytes: Seq<Seq<u8>>,
)
    requires
        performed(download_start(remote_path, target, temp_path), events, bytes),
    ensures
        ({
            let s = download_start(remote_path, target, temp_path);
            let t = drive(s, events);
            let read = body_read(s, events, bytes);
            let written = body_written(s, events, bytes);
            match t.phase {
                PhaseView::Write(n) => {
                    &&& last_chunk(s, events, bytes).len() == n
                    &&& read == written + last_chunk(s, events, bytes)
                },
                PhaseView::Cleanup(_) => true,
                PhaseView::Finished(Some(_)) => true,
                _ => read == written,
            }
        }),
    decreases events.len(),
{
    if events.len() > 0 {
        lemma_body(remote_path, target, temp_path, events.drop_last(), bytes);
        let s = download_start(remote_path, target, temp_path);
        let earlier = events.drop_last();
        let held = last_chunk(s, earlier, bytes);
        assert(held.take(held.len() as int) =~= held);
        let latest = bytes[events.len() - 1];
        if latest.len() == 0 {
            assert(body_read(s, earlier, bytes) + latest =~= body_read(s, earlier, bytes));
        }
    }
}

} // verus!
