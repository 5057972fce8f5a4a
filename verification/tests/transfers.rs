//! Downloads, patches, cancellation and the paths of temporary files.

use drive9_mobile_core::cancel::{wait, Drive9CancelToken, WaitStep};
use drive9_mobile_core::chunks::{Drive9StreamDownload, OpenOutcome, ReadOutcome, ReadStep};
use drive9_mobile_core::client::Drive9MobileClient;
use drive9_mobile_core::download::{DownloadAction, DownloadEvent, FileDownload, CHUNK_SIZE};
use drive9_mobile_core::error::Drive9Error;
use drive9_mobile_core::exception::Drive9Exception;
use drive9_mobile_core::patch::PartRead;
use drive9_mobile_core::paths::{temp_directory, temp_name, temp_path};
use drive9_mobile_core::stream::WritePartError;
use drive9_mobile_core::upload::{Drive9StreamUpload, StreamState};

fn client() -> Drive9MobileClient {
    Drive9MobileClient::new("http://localhost".to_string(), "k".to_string())
}

fn download() -> FileDownload {
    FileDownload::with_temp_path("/r".to_string(), "dest".to_string(), "tmp".to_string())
}

/// A download that has come as far as its first read.
fn reading() -> FileDownload {
    let mut download = download();
    download.advance(DownloadEvent::StatDone { size: Some(3), cancelled: false });
    download.advance(DownloadEvent::Opened);
    download.advance(DownloadEvent::Created);
    download.advance(DownloadEvent::Reported { cancelled: false });
    assert_eq!(download.pending(), DownloadAction::Read);
    download
}

/// Lets a failed download clean up, and gives its exception.
fn failure(mut download: FileDownload) -> (String, String) {
    assert_eq!(download.pending(), DownloadAction::RemoveTemp);
    assert!(download.outcome().is_none());
    download.advance(DownloadEvent::TempRemoved);
    assert_eq!(download.pending(), DownloadAction::Finished);
    let Drive9Exception::Drive9 { code, detail, .. } = download.outcome().unwrap().unwrap_err();
    (code, detail)
}

#[test]
fn every_failure_of_a_download_cleans_up() {
    let mut opening = download();
    opening.advance(DownloadEvent::StatDone { size: None, cancelled: false });
    opening.advance(DownloadEvent::OpenFailed(Drive9Error::Status {
        status_code: 404,
        message: "gone".to_string(),
    }));
    assert_eq!(failure(opening), ("http_status".to_string(), "gone".to_string()));

    let mut creating = download();
    creating.advance(DownloadEvent::StatDone { size: None, cancelled: false });
    creating.advance(DownloadEvent::Opened);
    creating.advance(DownloadEvent::IoFailed("read-only".to_string()));
    assert_eq!(failure(creating), ("io".to_string(), "read-only".to_string()));

    let mut read = reading();
    read.advance(DownloadEvent::IoFailed("reset".to_string()));
    assert_eq!(failure(read), ("io".to_string(), "reset".to_string()));

    let mut writing = reading();
    writing.advance(DownloadEvent::Chunk(3));
    writing.advance(DownloadEvent::IoFailed("disk full".to_string()));
    assert_eq!(failure(writing), ("io".to_string(), "disk full".to_string()));

    let mut flushing = reading();
    flushing.advance(DownloadEvent::Chunk(0));
    flushing.advance(DownloadEvent::IoFailed("disk full".to_string()));
    assert_eq!(failure(flushing), ("io".to_string(), "disk full".to_string()));

    let mut renaming = reading();
    renaming.advance(DownloadEvent::Chunk(0));
    renaming.advance(DownloadEvent::Flushed);
    renaming.advance(DownloadEvent::IoFailed("busy".to_string()));
    assert_eq!(failure(renaming), ("io".to_string(), "rename temp to dest: busy".to_string()));
}

#[test]
fn cancellation_is_noticed_everywhere() {
    let cancelled = ("cancelled".to_string(), "transfer cancelled".to_string());
    let mut asking = download();
    asking.advance(DownloadEvent::StatDone { size: Some(3), cancelled: true });
    assert_eq!(failure(asking), cancelled);

    let mut opening = download();
    opening.advance(DownloadEvent::StatDone { size: Some(3), cancelled: false });
    opening.advance(DownloadEvent::Cancelled);
    assert_eq!(failure(opening), cancelled);

    let mut read = reading();
    read.advance(DownloadEvent::Cancelled);
    assert_eq!(failure(read), cancelled);

    let mut written = reading();
    written.advance(DownloadEvent::Chunk(2));
    written.advance(DownloadEvent::Written);
    written.advance(DownloadEvent::Reported { cancelled: true });
    assert_eq!(failure(written), cancelled);
}

#[test]
fn progress_is_what_has_been_written() {
    let mut download = reading();
    download.advance(DownloadEvent::Chunk(2));
    assert_eq!(download.pending(), DownloadAction::Write { len: 2 });
    download.advance(DownloadEvent::Written);
    assert_eq!(download.pending(), DownloadAction::Report { transferred: 2, total: 3 });
    download.advance(DownloadEvent::Reported { cancelled: false });
    download.advance(DownloadEvent::Chunk(CHUNK_SIZE));
    download.advance(DownloadEvent::Written);
    assert_eq!(download.pending(), DownloadAction::Report { transferred: 65_538, total: 3 });
}

#[test]
fn an_event_out_of_turn_changes_nothing() {
    let mut download = download();
    download.advance(DownloadEvent::Renamed);
    assert_eq!(download.pending(), DownloadAction::Stat);
    download.advance(DownloadEvent::StatDone { size: Some(-1), cancelled: false });
    download.advance(DownloadEvent::Opened);
    download.advance(DownloadEvent::Created);
    assert_eq!(download.pending(), DownloadAction::Report { transferred: 0, total: 0 });
}

#[test]
fn the_temporary_file_lies_next_to_the_destination() {
    let joined = temp_path("some/dir/file.bin", 42);
    assert!(joined.starts_with("some/dir"));
    assert!(joined.ends_with(".file.bin.drive9-tmp-42"));
    assert_eq!(joined.len(), "some/dir/.file.bin.drive9-tmp-42".len());
    assert_eq!(temp_path("file.bin", 7), ".file.bin.drive9-tmp-7");
    assert_eq!(temp_path("..", 7), ".download.drive9-tmp-7");
    assert_eq!(temp_path("", 0), ".download.drive9-tmp-0");
    assert_eq!(temp_name(None, 1), ".download.drive9-tmp-1");
    assert_eq!(temp_name(Some("a"), 1), ".a.drive9-tmp-1");
    assert_eq!(temp_directory(Some(String::new())), None);
    assert_eq!(temp_directory(Some("d".to_string())), Some("d".to_string()));
    assert_eq!(temp_directory(None), None);
}

#[test]
fn the_temporary_file_is_never_the_destination() {
    let paths = [
        "a/b.bin",
        "/b.bin",
        "/sdcard/rec 12:30.mp4",
        "1:30.mp4",
        "C:\\Users\\me\\b.bin",
        "C:/Users/me/b.bin",
        "odd\\name",
        "\\\\?\\C:\\dir\\b.bin",
        "//share/dir/b.bin",
        "//share/.download.drive9-tmp-9",
        "//server/share/dir/.download.drive9-tmp-9",
        "\\\\server\\.download.drive9-tmp-9",
        "a//b/./",
        "..",
        "/",
        ".download.drive9-tmp-9",
        "x/.download.drive9-tmp-9",
        ".a.drive9-tmp-9.drive9-tmp-9",
    ];
    for path in paths {
        let temp = temp_path(path, 9);
        assert_ne!(temp, path);
        assert!(temp.ends_with(".drive9-tmp-9"), "{}", temp);
    }
    assert_eq!(temp_path("/b.bin", 9), "/.b.bin.drive9-tmp-9");
    let shared = temp_path("//server/share/dir/b.bin", 9);
    assert!(shared.starts_with("//server/share/dir"));
    assert!(shared.ends_with(".b.bin.drive9-tmp-9"));
    assert_eq!(shared.len(), "//server/share/dir/.b.bin.drive9-tmp-9".len());
    assert!(temp_path("//data/dir/f.bin", 9).starts_with("//data/dir"));
    assert!(temp_path("/tmp//file.bin", 9).starts_with("/tmp"));
    let recording = temp_path("/sdcard/rec 12:30.mp4", 9);
    assert!(recording.starts_with("/sdcard"));
    assert_eq!(recording.len(), "/sdcard/.rec 12:30.mp4.drive9-tmp-9".len());
    assert!(recording.ends_with(".rec 12:30.mp4.drive9-tmp-9"));
}

#[test]
fn a_failed_download_leaves_the_destination() {
    let mut disk = std::collections::HashMap::new();
    disk.insert("d\\f".to_string(), b"old".to_vec());
    let mut download = client().download_file("/r".to_string(), "d\\f".to_string(), Some(3));
    assert_ne!(download.temp_path(), download.target());
    download.advance(DownloadEvent::StatDone { size: Some(4), cancelled: false });
    download.advance(DownloadEvent::Opened);
    disk.insert(download.temp_path().to_string(), Vec::new());
    download.advance(DownloadEvent::Created);
    download.advance(DownloadEvent::Reported { cancelled: false });
    download.advance(DownloadEvent::Chunk(4));
    disk.get_mut(download.temp_path()).unwrap().extend_from_slice(b"ne");
    download.advance(DownloadEvent::IoFailed("disk full".to_string()));
    assert_eq!(download.pending(), DownloadAction::RemoveTemp);
    disk.remove(download.temp_path());
    download.advance(DownloadEvent::TempRemoved);
    assert!(download.outcome().unwrap().is_err());
    assert_eq!(disk.len(), 1);
    assert_eq!(disk.get("d\\f").unwrap(), b"old");
}

#[test]
fn a_download_without_a_clock_has_nonce_zero() {
    let download = client().download_file("/r".to_string(), "f".to_string(), None);
    assert_eq!(download.temp_path(), ".f.drive9-tmp-0");
    assert_eq!(download.target(), "f");
    assert_eq!(download.remote_path(), "/r");
}

#[test]
fn a_read_that_fails_is_replayed() {
    let mut chunks = Drive9StreamDownload::new(OpenOutcome::Opened).unwrap();
    assert_eq!(chunks.read_chunk(false).unwrap(), ReadStep::Read);
    chunks.chunk_read(ReadOutcome::Failed("reset".to_string())).unwrap_err();
    for cancelled in [false, true] {
        let Drive9Exception::Drive9 { code, detail, .. } =
            chunks.read_chunk(cancelled).unwrap_err();
        assert_eq!((code.as_str(), detail.as_str()), ("io", "reset"));
    }
    chunks.close_stream();
    assert_eq!(chunks.read_chunk(false).unwrap_err().to_string(), "reset");
}

#[test]
fn a_chunked_download_can_be_cancelled_before_a_read() {
    assert!(Drive9StreamDownload::new(OpenOutcome::Cancelled).is_err());
    let mut chunks = Drive9StreamDownload::new(OpenOutcome::Opened).unwrap();
    assert_eq!(chunks.read_chunk(true).unwrap_err().to_string(), "transfer cancelled");
    assert_eq!(chunks.read_chunk(false).unwrap_err().to_string(), "transfer cancelled");
}

#[test]
fn a_download_closed_during_a_read_stays_closed() {
    let mut chunks = Drive9StreamDownload::new(OpenOutcome::Opened).unwrap();
    chunks.read_chunk(false).unwrap();
    chunks.close_stream();
    assert_eq!(chunks.chunk_read(ReadOutcome::Chunk(vec![1, 2])).unwrap(), Some(vec![1, 2]));
    assert_eq!(chunks.read_chunk(false).unwrap_err().to_string(), "stream download is closed");
}

#[test]
fn parts_tile_the_local_file() {
    assert_eq!(PartRead::new(1, 5, 100).unwrap().position(), 0);
    assert_eq!(PartRead::new(2, 5, 100).unwrap().position(), 100);
    assert_eq!(PartRead::new(3, 5, 100).unwrap().position(), 200);
    assert_eq!(PartRead::new(0, 5, 100).unwrap().position(), u64::MAX - 99);
}

#[test]
fn a_part_without_bytes_is_refused() {
    let err = PartRead::new(4, -2, 100).unwrap_err();
    assert_eq!(err.to_string(), "server returned requested_size -2 for part 4");
}

#[test]
fn a_part_is_read_in_pieces() {
    let mut read = PartRead::new(1, 3, 100).unwrap();
    assert_eq!(read.wanted(), 3);
    assert!(read.accept(b"ab"));
    assert_eq!(read.wanted(), 1);
    assert!(!read.accept(b"c"));
    assert_eq!(read.finish().unwrap(), b"abc");

    let mut short = PartRead::new(1, 3, 100).unwrap();
    assert!(short.accept(b"ab"));
    assert!(!short.accept(b""));
    let err = short.finish().unwrap_err();
    assert_eq!(err.to_string(), "short read for part 1: expected 3 bytes, got 2");
}

#[test]
fn a_sound_patch_is_passed_on() {
    let request = client()
        .patch_file_parts("l".to_string(), "/r".to_string(), vec![3, 1], 0, 1, Some(6))
        .unwrap();
    assert_eq!(request.local_path, "l");
    assert_eq!(request.remote_path, "/r");
    assert_eq!(request.dirty_parts, vec![3, 1]);
    assert_eq!((request.new_size, request.part_size), (0, 1));
    assert_eq!(request.expected_revision, Some(6));
}

#[test]
fn uploads_need_a_readable_file() {
    let err = client()
        .upload_file(Err("no such file".to_string()), "/r".to_string(), None)
        .unwrap_err();
    let Drive9Exception::Drive9 { code, detail, .. } = err;
    assert_eq!((code.as_str(), detail.as_str()), ("io", "no such file"));
    let request = client().upload_file(Ok(u64::MAX), "/r".to_string(), None).unwrap();
    assert_eq!((request.size, request.expected_revision), (-1, -1));
}

#[test]
fn a_wait_registers_before_it_sleeps() {
    let token = Drive9CancelToken::new();
    let mut step = WaitStep::Check;
    let mut taken = vec![step];
    for _ in 0..3 {
        step = wait(step, token.is_cancelled());
        taken.push(step);
    }
    assert_eq!(
        taken,
        vec![WaitStep::Check, WaitStep::Register, WaitStep::Sleep, WaitStep::Check]
    );
    for last in [WaitStep::Check, WaitStep::Register, WaitStep::Sleep, WaitStep::Done] {
        assert_eq!(wait(last, true), WaitStep::Done);
    }
    assert_eq!(wait(WaitStep::Done, false), WaitStep::Done);
}

#[test]
fn a_cancellation_between_registering_and_sleeping_is_seen() {
    let mut token = Drive9CancelToken::new();
    let registering = wait(WaitStep::Check, token.is_cancelled());
    assert_eq!(registering, WaitStep::Register);
    token.cancel();
    assert_eq!(wait(registering, token.is_cancelled()), WaitStep::Done);
    assert_eq!(wait(WaitStep::Check, token.is_cancelled()), WaitStep::Done);
}

#[test]
fn only_an_active_upload_accepts() {
    let mut upload = Drive9StreamUpload::new();
    assert!(upload.guard_writable_or_err("any").is_ok());
    let failure = Err(WritePartError::Stream(Drive9Error::Other("x".to_string())));
    upload.observe_result(&failure);
    assert_eq!(upload.state(), StreamState::Errored);
    assert_eq!(
        upload.write_part().unwrap_err().to_string(),
        "write_part: stream upload is in errored state; call abort() to clean up"
    );
    assert!(upload.abort().unwrap());
    let err = upload.abort_result(Err(Drive9Error::Io("down".to_string()))).unwrap_err();
    assert_eq!(err.to_string(), "down");
    assert_eq!(upload.state(), StreamState::Errored);
    upload.abort_result(Ok(())).unwrap();
    assert!(!upload.abort().unwrap());
    assert_eq!(
        upload.complete().unwrap_err().to_string(),
        "complete: stream upload already aborted"
    );
}

#[test]
fn a_completed_upload_cannot_be_aborted() {
    let mut upload = Drive9StreamUpload::new();
    upload.complete_result(Ok(())).unwrap();
    assert_eq!(
        upload.abort().unwrap_err().to_string(),
        "stream upload already completed; cannot abort"
    );
    assert_eq!(
        upload.part_size(None).unwrap_err().to_string(),
        "part_size: stream upload already completed"
    );
    assert_eq!(
        upload.total_parts(None).unwrap_err().to_string(),
        "total_parts: stream upload already completed"
    );
}

#[test]
fn a_failed_completion_or_initiation_shuts_the_upload() {
    let mut upload = Drive9StreamUpload::new();
    upload.complete_result(Err(Drive9Error::Cancelled)).unwrap_err();
    assert_eq!(upload.state(), StreamState::Errored);

    let mut upload = Drive9StreamUpload::new();
    upload.initiate_result(Ok(())).unwrap();
    assert_eq!(upload.state(), StreamState::Active);
    upload.initiate_result(Err(Drive9Error::Cancelled)).unwrap_err();
    assert_eq!(upload.state(), StreamState::Errored);
}
