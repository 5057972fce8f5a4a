//! The client's operations against a server that lives in the test.

use std::collections::HashMap;
use std::sync::{Arc, Mutex};

use drive9_mobile_core::cancel::Drive9CancelToken;
use drive9_mobile_core::chunks::{OpenOutcome, ReadOutcome, ReadStep};
use drive9_mobile_core::client::{surface, ClientCall, Drive9MobileClient};
use drive9_mobile_core::download::{DownloadAction, DownloadEvent, FileDownload, CHUNK_SIZE};
use drive9_mobile_core::error::{check_error, Drive9Error};
use drive9_mobile_core::exception::{Drive9Exception, Drive9Result};
use drive9_mobile_core::models::{Drive9ProgressListener, FileInfo, SearchResult, StatResult};
use drive9_mobile_core::patch::PartRead;
use drive9_mobile_core::stream::{
    AbortStep, CompleteStep, PartStep, PermitStep, StreamWriter, UploadPlanV2, WritePartError,
};
use drive9_mobile_core::transfer::{FileUpload, UploadAction, UploadEvent, UploadRoute};
use drive9_mobile_core::upload::{Drive9StreamUpload, StreamState};

fn client() -> Drive9MobileClient {
    Drive9MobileClient::new("http://localhost".to_string(), "k".to_string())
}

/// A reply of the server, as the SDK reads it.
fn reply(status: u16, body: &[u8]) -> Result<Vec<u8>, Drive9Error> {
    check_error(status, body).map(|()| body.to_vec())
}

/// Keeps the files that are written.
#[derive(Default)]
struct Files {
    contents: HashMap<String, Vec<u8>>,
}

impl Files {
    fn serve(&mut self, call: ClientCall) -> Result<Vec<u8>, Drive9Error> {
        match call {
            ClientCall::Write { path, data } => {
                self.contents.insert(path, data);
                Ok(Vec::new())
            }
            ClientCall::Read { path } => match self.contents.get(&path) {
                Some(data) => reply(200, data),
                None => reply(404, b""),
            },
            ClientCall::Delete { path } => {
                self.contents.remove(&path);
                reply(204, b"")
            }
            ClientCall::Copy { src_path, dst_path } => {
                let data = self.contents.get(&src_path).unwrap().clone();
                self.contents.insert(dst_path, data);
                reply(200, b"")
            }
            ClientCall::Rename { old_path, new_path } => {
                let data = self.contents.remove(&old_path).unwrap();
                self.contents.insert(new_path, data);
                reply(200, b"")
            }
            ClientCall::Mkdir { path } => {
                self.contents.insert(path, Vec::new());
                reply(200, b"")
            }
            other => panic!("unexpected call: {:?}", other),
        }
    }
}

/// Records each progress update.
struct RecordingListener {
    updates: Arc<Mutex<Vec<(u64, u64)>>>,
}

impl Drive9ProgressListener for RecordingListener {
    fn on_progress(&self, transferred: u64, total: u64) {
        self.updates.lock().unwrap().push((transferred, total));
    }
}

/// Runs a download of `remote` into `disk`.
fn run_download(
    mut download: FileDownload,
    size: Option<i64>,
    remote: &[u8],
    disk: &mut HashMap<String, Vec<u8>>,
    listener: Option<&dyn Drive9ProgressListener>,
    cancel: Option<&Drive9CancelToken>,
) -> Drive9Result<()> {
    let mut at: usize = 0;
    let mut last: usize = 0;
    loop {
        let cancelled = match cancel {
            Some(token) => token.is_cancelled(),
            None => false,
        };
        let event = match download.pending() {
            DownloadAction::Stat => DownloadEvent::StatDone { size, cancelled },
            DownloadAction::Open => DownloadEvent::Opened,
            DownloadAction::Create => {
                disk.insert(download.temp_path().to_string(), Vec::new());
                DownloadEvent::Created
            }
            DownloadAction::Report { transferred, total } => {
                assert_eq!(disk.get(download.temp_path()).unwrap().len() as u64, transferred);
                if let Some(listener) = listener {
                    listener.on_progress(transferred, total);
                }
                DownloadEvent::Reported { cancelled }
            }
            DownloadAction::Read => {
                last = at;
                at = std::cmp::min(remote.len(), at + CHUNK_SIZE);
                DownloadEvent::Chunk(at - last)
            }
            DownloadAction::Write { len } => {
                assert_eq!(len, at - last);
                let file = disk.get_mut(download.temp_path()).unwrap();
                file.extend_from_slice(&remote[last..at]);
                DownloadEvent::Written
            }
            DownloadAction::Flush => DownloadEvent::Flushed,
            DownloadAction::Rename => {
                let data = disk.remove(download.temp_path()).unwrap();
                disk.insert(download.target().to_string(), data);
                DownloadEvent::Renamed
            }
            DownloadAction::RemoveTemp => {
                disk.remove(download.temp_path());
                DownloadEvent::TempRemoved
            }
            DownloadAction::Finished => return download.outcome().unwrap(),
        };
        download.advance(event);
    }
}

/// Runs an upload in one request, and counts the requests.
fn run_small_upload(
    size: i64,
    answer: Result<(), Drive9Error>,
    requests: &mut usize,
    listener: &dyn Drive9ProgressListener,
    cancel: Option<&Drive9CancelToken>,
) -> Drive9Result<()> {
    let mut upload = FileUpload::new(size, UploadRoute::Single);
    loop {
        let cancelled = match cancel {
            Some(token) => token.is_cancelled(),
            None => false,
        };
        let event = match upload.pending() {
            UploadAction::Check => UploadEvent::Checked { cancelled },
            UploadAction::Report { transferred, total } => {
                listener.on_progress(transferred, total);
                UploadEvent::Reported { cancelled }
            }
            UploadAction::Put => {
                *requests += 1;
                UploadEvent::PutDone(answer.clone())
            }
            UploadAction::Finished => return surface(upload.outcome().unwrap()),
            other => panic!("unexpected action: {:?}", other),
        };
        upload.advance(event);
    }
}

/// Serves streaming uploads and counts what it is asked.
struct UploadServer {
    plan: (String, i64, i32),
    put_status: u16,
    initiated: usize,
    puts: Vec<i32>,
    completed: Vec<Vec<(i32, String)>>,
    aborted: Vec<String>,
}

impl UploadServer {
    fn new(upload_id: &str, part_size: i64, total_parts: i32) -> Self {
        UploadServer {
            plan: (upload_id.to_string(), part_size, total_parts),
            put_status: 200,
            initiated: 0,
            puts: Vec::new(),
            completed: Vec::new(),
            aborted: Vec::new(),
        }
    }

    fn initiate(&mut self) -> Result<UploadPlanV2, Drive9Error> {
        self.initiated += 1;
        Ok(UploadPlanV2 {
            upload_id: self.plan.0.clone(),
            part_size: self.plan.1,
            total_parts: self.plan.2,
        })
    }

    fn put(&mut self, upload_id: &str, part_num: i32) -> Result<String, Drive9Error> {
        assert_eq!(upload_id, self.plan.0);
        self.puts.push(part_num);
        check_error(self.put_status, br#"{"error":"boom"}"#).map(|()| "e".to_string())
    }
}

/// Writes a part, and lets its upload run to the end.
fn write_to(
    writer: &mut StreamWriter,
    server: &mut UploadServer,
    part_num: i32,
) -> Result<(), WritePartError> {
    let upload_id = match writer.write_part(part_num)? {
        PartStep::Upload { upload_id } => upload_id,
        PartStep::Initiate => {
            let answer = server.initiate();
            writer.write_part_initiated(part_num, answer)?
        }
    };
    assert_eq!(writer.permit_acquired()?, PermitStep::Start);
    let outcome = server.put(&upload_id, part_num);
    writer.part_finished(part_num, outcome);
    Ok(())
}

fn complete_at(
    writer: &mut StreamWriter,
    server: &mut UploadServer,
    final_part_num: i32,
    data: &[u8],
) -> Result<(), Drive9Error> {
    writer.complete()?;
    loop {
        match writer.complete_step(data.is_empty())? {
            CompleteStep::Wait => panic!("every part has landed"),
            CompleteStep::Initiate => {
                let answer = server.initiate();
                writer.init_locked(answer)?;
            }
            CompleteStep::UploadFinal { upload_id } => {
                let etag = server.put(&upload_id, final_part_num)?;
                writer.final_part_uploaded(final_part_num, etag);
                break;
            }
            CompleteStep::Finish => break,
        }
    }
    let (upload_id, parts) = writer.finish()?;
    assert_eq!(upload_id, server.plan.0);
    server.completed.push(parts.into_iter().map(|part| (part.number, part.etag)).collect());
    Ok(())
}

fn abort_at(writer: &mut StreamWriter, server: &mut UploadServer) -> Result<(), Drive9Error> {
    if !writer.abort() {
        return Ok(());
    }
    match writer.abort_step() {
        AbortStep::Wait => panic!("every part has landed"),
        AbortStep::Abort { upload_id } => server.aborted.push(upload_id),
        AbortStep::Done => {}
    }
    Ok(())
}

/// A streaming upload with its server.
struct Session {
    upload: Drive9StreamUpload,
    writer: StreamWriter,
    server: UploadServer,
}

impl Session {
    fn new(path: &str, total_size: i64, server: UploadServer) -> Self {
        let (upload, writer) = client().new_stream_upload(path.to_string(), total_size, None);
        Session { upload, writer, server }
    }

    fn write_part(&mut self, part_num: i32) -> Drive9Result<()> {
        self.upload.write_part()?;
        let result = write_to(&mut self.writer, &mut self.server, part_num);
        self.upload.write_part_result(result)
    }

    fn complete(&mut self, final_part_num: i32, data: &[u8]) -> Drive9Result<()> {
        self.upload.complete()?;
        let result = complete_at(&mut self.writer, &mut self.server, final_part_num, data);
        self.upload.complete_result(result)
    }

    fn abort(&mut self) -> Drive9Result<()> {
        if !self.upload.abort()? {
            return Ok(());
        }
        let result = abort_at(&mut self.writer, &mut self.server);
        self.upload.abort_result(result)
    }

    fn part_size(&mut self) -> Drive9Result<i64> {
        if let Some(size) = self.upload.part_size(self.writer.plan())? {
            return Ok(size);
        }
        let answer = self.server.initiate();
        let result = self.writer.init_locked(answer);
        self.upload.initiate_result(result)?;
        Ok(self.upload.part_size(self.writer.plan())?.unwrap())
    }

    fn total_parts(&mut self) -> Drive9Result<i32> {
        if let Some(total) = self.upload.total_parts(self.writer.plan())? {
            return Ok(total);
        }
        let answer = self.server.initiate();
        let result = self.writer.init_locked(answer);
        self.upload.initiate_result(result)?;
        Ok(self.upload.total_parts(self.writer.plan())?.unwrap())
    }
}

#[test]
fn write_then_read_roundtrip() {
    let mut server = Files::default();
    let client = Drive9MobileClient::new("http://localhost".to_string(), "test-key".to_string());
    let call = client.write("/hello.txt".into(), b"hello mobile".to_vec(), None);
    surface(server.serve(call)).unwrap();
    let data = surface(server.serve(client.read("/hello.txt".into()))).unwrap();
    assert_eq!(data, b"hello mobile");
}

#[test]
fn list_returns_entries() {
    let client = client();
    let call = client.list("/data/".into());
    assert!(matches!(call, ClientCall::List { ref path } if path == "/data/"));
    let entries = Drive9MobileClient::list_reply(Ok(vec![
        FileInfo { name: "a.txt".into(), size: 3, is_dir: false, mtime: None },
        FileInfo { name: "sub".into(), size: 0, is_dir: true, mtime: Some(7) },
    ]))
    .unwrap();
    assert_eq!(entries.len(), 2);
    assert_eq!(entries[0].name, "a.txt");
    assert_eq!(entries[0].size, 3);
    assert!(!entries[0].is_dir);
    assert!(entries[1].is_dir);
    assert_eq!(entries[0].mtime_unix, None);
    assert_eq!(entries[1].mtime_unix, Some(7));
}

#[test]
fn stat_reports_revision_and_size() {
    let call = client().stat("/f.bin".into());
    assert!(matches!(call, ClientCall::Stat { ref path } if path == "/f.bin"));
    let s = Drive9MobileClient::stat_reply(Ok(StatResult {
        size: 42,
        is_dir: false,
        revision: 9,
        mtime: None,
    }))
    .unwrap();
    assert_eq!(s.size, 42);
    assert_eq!(s.revision, 9);
    assert!(!s.is_dir);
}

#[test]
fn delete_succeeds() {
    let mut server = Files::default();
    server.contents.insert("/gone.txt".into(), b"x".to_vec());
    surface(server.serve(client().delete("/gone.txt".into()))).unwrap();
    assert!(server.contents.is_empty());
}

#[test]
fn conflict_preserves_server_revision() {
    let call = client().write("/r.txt".into(), b"x".to_vec(), Some(7));
    assert!(matches!(
        call,
        ClientCall::WriteWithRevision { ref path, ref data, revision: 7 }
            if path == "/r.txt" && data == b"x"
    ));
    let err = surface(reply(409, br#"{"error":"revision mismatch","server_revision":12}"#))
        .unwrap_err();
    let Drive9Exception::Drive9 { code, status_code, server_revision, .. } = err;
    assert_eq!(code, "conflict");
    assert_eq!(status_code, Some(409));
    assert_eq!(server_revision, Some(12));
}

#[test]
fn copy_rename_mkdir_succeed() {
    let mut server = Files::default();
    server.contents.insert("/src.txt".into(), b"s".to_vec());
    server.contents.insert("/old.txt".into(), b"o".to_vec());
    let client = client();
    surface(server.serve(client.copy("/src.txt".into(), "/dst.txt".into()))).unwrap();
    surface(server.serve(client.rename("/old.txt".into(), "/new.txt".into()))).unwrap();
    surface(server.serve(client.mkdir("/dir/".into()))).unwrap();
    assert_eq!(server.contents.get("/dst.txt").unwrap(), b"s");
    assert_eq!(server.contents.get("/new.txt").unwrap(), b"o");
    assert!(server.contents.get("/old.txt").is_none());
    assert!(server.contents.get("/dir/").is_some());
}

#[test]
fn grep_returns_search_results() {
    let call = client().grep("needle".into(), "/".into(), 5);
    assert!(matches!(
        call,
        ClientCall::Grep { ref query, ref path_prefix, limit: 5 }
            if query == "needle" && path_prefix == "/"
    ));
    let results = Drive9MobileClient::search_reply(Ok(vec![
        SearchResult {
            path: "/a.txt".into(),
            name: "a.txt".into(),
            size_bytes: 10,
            score: Some(0.9f64.to_bits()),
        },
        SearchResult {
            path: "/b.txt".into(),
            name: "b.txt".into(),
            size_bytes: 20,
            score: None,
        },
    ]))
    .unwrap();
    assert_eq!(results.len(), 2);
    assert_eq!(results[0].path, "/a.txt");
    assert_eq!(results[0].size_bytes, 10);
    assert_eq!(results[0].score.map(f64::from_bits), Some(0.9));
    assert_eq!(results[1].score, None);
}

#[test]
fn find_forwards_params_to_drive9_rs() {
    let mut params: HashMap<String, String> = HashMap::new();
    params.insert("type".into(), "file".into());
    params.insert("limit".into(), "10".into());
    match client().find("/data/".into(), params) {
        ClientCall::Find { path_prefix, params } => {
            assert_eq!(path_prefix, "/data/");
            assert_eq!(params.get("type").unwrap(), "file");
            assert_eq!(params.get("limit").unwrap(), "10");
            assert_eq!(params.len(), 2);
        }
        other => panic!("unexpected call: {:?}", other),
    }
    let results = Drive9MobileClient::search_reply(Ok(vec![SearchResult {
        path: "/data/x.txt".into(),
        name: "x.txt".into(),
        size_bytes: 1,
        score: None,
    }]))
    .unwrap();
    assert_eq!(results.len(), 1);
    assert_eq!(results[0].path, "/data/x.txt");
}

#[test]
fn find_handles_empty_params() {
    match client().find("/data/".into(), HashMap::new()) {
        ClientCall::Find { params, .. } => assert!(params.is_empty()),
        other => panic!("unexpected call: {:?}", other),
    }
    let results = Drive9MobileClient::search_reply(Ok(Vec::new())).unwrap();
    assert!(results.is_empty());
}

#[test]
fn sql_returns_rows_as_json_strings() {
    let call = client().sql("SELECT path, size, is_dir FROM files".into());
    assert!(matches!(
        call,
        ClientCall::Sql { ref query } if query == "SELECT path, size, is_dir FROM files"
    ));
    let rows = Drive9MobileClient::sql_reply(reply(
        200,
        br#"[{"path":"/a.txt","size":10,"is_dir":false},{"path":"/b","size":0,"is_dir":true}]"#,
    ))
    .unwrap();
    assert_eq!(rows.len(), 2);
    let row0: serde_json::Value = serde_json::from_str(&rows[0]).unwrap();
    assert_eq!(row0["path"], "/a.txt");
    assert_eq!(row0["size"], 10);
    assert_eq!(row0["is_dir"], false);
    let row1: serde_json::Value = serde_json::from_str(&rows[1]).unwrap();
    assert_eq!(row1["path"], "/b");
    assert_eq!(row1["is_dir"], true);
}

#[test]
fn download_file_roundtrip_with_progress() {
    let body = vec![b'a'; 200_000];
    let updates = Arc::new(Mutex::new(Vec::<(u64, u64)>::new()));
    let listener = RecordingListener { updates: Arc::clone(&updates) };
    let mut disk: HashMap<String, Vec<u8>> = HashMap::new();
    let download = client().download_file("/big.bin".into(), "/tmp/dest.bin".into(), Some(5));
    assert_eq!(download.remote_path(), "/big.bin");
    run_download(download, Some(200_000), &body, &mut disk, Some(&listener), None).unwrap();

    assert_eq!(disk.get("/tmp/dest.bin").unwrap(), &body);
    assert_eq!(disk.len(), 1);
    let updates = updates.lock().unwrap().clone();
    assert!(updates.len() >= 2, "want at least start + finish: {:?}", updates);
    assert_eq!(updates.first().copied(), Some((0, 200_000)));
    assert_eq!(updates.last().copied(), Some((200_000, 200_000)));
    for w in updates.windows(2) {
        assert!(w[0].0 <= w[1].0, "progress not monotonic: {} then {}", w[0].0, w[1].0);
    }
    assert_eq!(
        updates,
        vec![
            (0, 200_000),
            (65_536, 200_000),
            (131_072, 200_000),
            (196_608, 200_000),
            (200_000, 200_000)
        ]
    );
}

#[test]
fn download_file_unknown_total_when_stat_fails() {
    let updates = Arc::new(Mutex::new(Vec::<(u64, u64)>::new()));
    let listener = RecordingListener { updates: Arc::clone(&updates) };
    let mut disk: HashMap<String, Vec<u8>> = HashMap::new();
    let size = match check_error(404, b"") {
        Ok(()) => Some(2),
        Err(_) => None,
    };
    let download = client().download_file("/no-head.bin".into(), "/tmp/dest.bin".into(), None);
    run_download(download, size, b"hi", &mut disk, Some(&listener), None).unwrap();
    let updates = updates.lock().unwrap().clone();
    for u in &updates {
        assert_eq!(u.1, 0, "want total=0 when stat fails: {:?}", u);
    }
    assert_eq!(updates, vec![(0, 0), (2, 0)]);
    assert_eq!(disk.get("/tmp/dest.bin").unwrap(), b"hi");
}

#[test]
fn download_file_cancellation_deletes_partial_file() {
    let body = vec![b'b'; 10_000];
    let mut disk: HashMap<String, Vec<u8>> = HashMap::new();
    let mut token = Drive9CancelToken::new();
    token.cancel();
    let download = client().download_file("/cancel.bin".into(), "/tmp/dest.bin".into(), Some(1));
    let err =
        run_download(download, Some(10_000), &body, &mut disk, None, Some(&token)).unwrap_err();
    let Drive9Exception::Drive9 { code, .. } = err;
    assert_eq!(code, "cancelled");
    assert!(
        !disk.contains_key("/tmp/dest.bin"),
        "partial file should be cleaned up on cancellation"
    );
    assert!(disk.is_empty());
}

#[test]
fn download_file_cancel_idempotent() {
    let mut token = Drive9CancelToken::new();
    assert!(!token.is_cancelled());
    token.cancel();
    token.cancel();
    token.cancel();
    assert!(token.is_cancelled());
}

#[test]
fn download_file_no_cancel_token_works() {
    let mut disk: HashMap<String, Vec<u8>> = HashMap::new();
    let download = client().download_file("/plain.bin".into(), "/tmp/dest.bin".into(), Some(1));
    run_download(download, Some(5), b"plain", &mut disk, None, None).unwrap();
    assert_eq!(disk.get("/tmp/dest.bin").unwrap(), b"plain");
}

#[test]
fn download_file_preserves_preexisting_destination_on_failure() {
    let dest = "/tmp/download_preserve.bin".to_string();
    let original = b"do not overwrite me".to_vec();
    let mut disk: HashMap<String, Vec<u8>> = HashMap::new();
    disk.insert(dest.clone(), original.clone());
    let mut token = Drive9CancelToken::new();
    token.cancel();
    let download = client().download_file("/cancel.bin".into(), dest.clone(), Some(99));
    assert!(download.temp_path().contains(".download_preserve.bin.drive9-tmp-"));
    let body = vec![b'b'; 10_000];
    let err =
        run_download(download, Some(10_000), &body, &mut disk, None, Some(&token)).unwrap_err();
    let Drive9Exception::Drive9 { code, .. } = err;
    assert_eq!(code, "cancelled");
    let after = disk.get(&dest).unwrap();
    assert_eq!(after, &original, "pre-existing destination must be unchanged on failure");
    let leftover = disk.keys().find(|name| name.contains(".drive9-tmp-"));
    assert!(leftover.is_none(), "leftover temp file after cancel: {:?}", leftover);
}

#[test]
fn patch_file_parts_validates_inputs() {
    let client = client();

    let err = client
        .patch_file_parts("/local".into(), "/r".into(), vec![1], -1, 100, None)
        .unwrap_err();
    let Drive9Exception::Drive9 { code, detail, .. } = err;
    assert_eq!(code, "other");
    assert!(detail.contains("new_size"), "want new_size error: {}", detail);
    assert_eq!(detail, "new_size must be >= 0, got -1");

    let err = client
        .patch_file_parts("/local".into(), "/r".into(), vec![1], 100, 0, None)
        .unwrap_err();
    let Drive9Exception::Drive9 { code, detail, .. } = err;
    assert_eq!(code, "other");
    assert!(detail.contains("part_size"), "want part_size error: {}", detail);
    assert_eq!(detail, "part_size must be > 0, got 0");

    let err = client
        .patch_file_parts("/local".into(), "/r".into(), vec![0, 1], 100, 100, None)
        .unwrap_err();
    let Drive9Exception::Drive9 { code, detail, .. } = err;
    assert_eq!(code, "other");
    assert!(detail.contains("dirty_parts"), "want dirty_parts error: {}", detail);
}

/// Reads a part of `local`, at most `step` bytes at a time.
fn read_part(
    local: &[u8],
    part_num: i32,
    requested_size: i64,
    part_size: i64,
    step: usize,
) -> Result<Vec<u8>, Drive9Error> {
    let mut read = PartRead::new(part_num, requested_size, part_size)?;
    let mut at = read.position() as usize;
    let mut more = read.wanted() > 0;
    while more {
        let end = std::cmp::min(local.len(), at + std::cmp::min(read.wanted(), step));
        more = read.accept(&local[std::cmp::min(at, local.len())..end]);
        at = end;
    }
    read.finish()
}

#[test]
fn patch_file_parts_short_read_errors() {
    let client = client();
    let request = client
        .patch_file_parts("/local".into(), "/r.bin".into(), vec![1], 100, 100, None)
        .unwrap();
    let local = vec![b'x'; 50];
    let err =
        surface(read_part(&local, 1, 100, request.part_size, 1000)).unwrap_err();
    let Drive9Exception::Drive9 { code, detail, .. } = err;
    assert!(
        detail.contains("short read") || detail.contains("part 1"),
        "want short-read message, got: {}",
        detail
    );
    assert_eq!(code, "other", "expected other code, got: {}", code);
    assert_eq!(detail, "short read for part 1: expected 100 bytes, got 50");
}

#[test]
fn patch_file_parts_uses_global_part_size_for_offset() {
    let mut local = vec![b'a'; 100];
    local.extend(std::iter::repeat(b'b').take(50));
    let request = client()
        .patch_file_parts("/local".into(), "/r.bin".into(), vec![2], 150, 100, None)
        .unwrap();
    assert_eq!(request.dirty_parts, vec![2]);
    assert_eq!(request.new_size, 150);
    let received = read_part(&local, 2, 50, request.part_size, 7).unwrap();
    assert_eq!(received.len(), 50, "expected 50 bytes, got {}", received.len());
    assert!(
        received.iter().all(|&b| b == b'b'),
        "expected all 'b' bytes (offset 100..150), got: {:?}",
        &received[..received.len().min(10)]
    );
}

#[test]
fn upload_file_small_roundtrip_with_progress() {
    let request = client().upload_file(Ok(100), "/up.bin".into(), None).unwrap();
    assert_eq!(request.remote_path, "/up.bin");
    assert_eq!(request.expected_revision, -1);
    let updates = Arc::new(Mutex::new(Vec::<(u64, u64)>::new()));
    let listener = RecordingListener { updates: Arc::clone(&updates) };
    let mut requests: usize = 0;
    run_small_upload(request.size, check_error(200, b""), &mut requests, &listener, None).unwrap();
    let updates = updates.lock().unwrap().clone();
    assert_eq!(updates, vec![(0, 100), (100, 100)]);
    assert_eq!(requests, 1);
}

#[test]
fn upload_file_cancel_before_returns_cancelled_without_request() {
    let request = client().upload_file(Ok(100), "/up-cancel.bin".into(), None).unwrap();
    let mut token = Drive9CancelToken::new();
    token.cancel();
    let updates = Arc::new(Mutex::new(Vec::<(u64, u64)>::new()));
    let listener = RecordingListener { updates: Arc::clone(&updates) };
    let mut requests: usize = 0;
    let err = run_small_upload(
        request.size,
        check_error(200, b""),
        &mut requests,
        &listener,
        Some(&token),
    )
    .unwrap_err();
    let Drive9Exception::Drive9 { code, detail, .. } = err;
    assert_eq!(code, "cancelled");
    assert!(detail.contains("cancel"), "want cancel in detail: {}", detail);
    let updates = updates.lock().unwrap().clone();
    assert_eq!(updates, vec![], "no progress should fire when cancel is pre-set");
    assert_eq!(requests, 0);
}

#[test]
fn upload_file_conditional_conflict_preserves_server_revision() {
    let request = client().upload_file(Ok(50), "/up-rev.bin".into(), Some(5)).unwrap();
    assert_eq!(request.remote_path, "/up-rev.bin");
    assert_eq!(request.size, 50);
    assert_eq!(request.expected_revision, 5);
    let updates = Arc::new(Mutex::new(Vec::<(u64, u64)>::new()));
    let listener = RecordingListener { updates: Arc::clone(&updates) };
    let mut requests: usize = 0;
    let answer = check_error(409, br#"{"error":"revision mismatch","server_revision":12}"#);
    let err =
        run_small_upload(request.size, answer, &mut requests, &listener, None).unwrap_err();
    assert_eq!(updates.lock().unwrap().clone(), vec![(0, 50)]);
    let Drive9Exception::Drive9 { code, status_code, server_revision, .. } = err;
    assert_eq!(code, "conflict");
    assert_eq!(status_code, Some(409));
    assert_eq!(server_revision, Some(12));
}

#[test]
fn vault_list_readable_secrets_happy_path() {
    let call = client().vault_list_readable_secrets();
    assert!(matches!(call, ClientCall::ListReadableVaultSecrets));
    let names = surface(Ok(vec!["alpha".to_string(), "beta".to_string()])).unwrap();
    assert_eq!(names, vec!["alpha".to_string(), "beta".to_string()]);
}

#[test]
fn vault_read_secret_field_returns_value_verbatim() {
    let call = client().vault_read_secret_field("api-keys".into(), "openai".into());
    assert!(matches!(
        call,
        ClientCall::ReadVaultSecretField { ref name, ref field }
            if name == "api-keys" && field == "openai"
    ));
    let value = surface(Ok("sk-very-secret-value".to_string())).unwrap();
    assert_eq!(value, "sk-very-secret-value");
}

#[test]
fn vault_read_secret_field_passes_json_looking_string_through_untouched() {
    let raw = r#"{"k":1,"nested":{"flag":true}}"#;
    let call = client().vault_read_secret_field("dest-config".into(), "payload".into());
    assert!(matches!(
        call,
        ClientCall::ReadVaultSecretField { ref name, ref field }
            if name == "dest-config" && field == "payload"
    ));
    let value = surface(Ok(raw.to_string())).unwrap();
    assert_eq!(value, raw, "wrapper must not interpret JSON-looking strings");
}

/// The path that the server sees for a vault field.
fn vault_path(call: ClientCall) -> String {
    match call {
        ClientCall::ReadVaultSecretField { name, field } => {
            format!("/v1/vault/read/{}/{}", name.replace('/', "%2F"), field.replace('/', "%2F"))
        }
        other => panic!("unexpected call: {:?}", other),
    }
}

#[test]
fn vault_read_secret_field_url_encodes_special_chars_via_drive9_rs() {
    let call = client().vault_read_secret_field("team/backend".into(), "api_key".into());
    let value = match vault_path(call).as_str() {
        "/v1/vault/read/team%2Fbackend/api_key" => Ok("encoded-value".to_string()),
        _ => Err(check_error(404, b"").unwrap_err()),
    };
    assert_eq!(surface(value).unwrap(), "encoded-value");
}

#[test]
fn vault_list_unauthorized_surfaces_as_http_status() {
    let call = client().vault_list_readable_secrets();
    assert!(matches!(call, ClientCall::ListReadableVaultSecrets));
    let err = surface(reply(401, br#"{"error":"token expired"}"#)).unwrap_err();
    let Drive9Exception::Drive9 { code, status_code, detail, .. } = err;
    assert_eq!(code, "http_status");
    assert_eq!(status_code, Some(401));
    assert_eq!(detail, "token expired");
}

#[test]
fn vault_read_field_forbidden_surfaces_as_http_status() {
    let call = client().vault_read_secret_field("private".into(), "value".into());
    assert_eq!(vault_path(call), "/v1/vault/read/private/value");
    let err = surface(reply(403, br#"{"error":"out of scope"}"#)).unwrap_err();
    let Drive9Exception::Drive9 { code, status_code, .. } = err;
    assert_eq!(code, "http_status");
    assert_eq!(status_code, Some(403));
}

#[test]
fn vault_read_missing_secret_surfaces_as_http_status_404() {
    let call = client().vault_read_secret_field("no-such".into(), "field".into());
    assert_eq!(vault_path(call), "/v1/vault/read/no-such/field");
    let err = surface(reply(404, br#"{"error":"secret not found"}"#)).unwrap_err();
    let Drive9Exception::Drive9 { code, status_code, .. } = err;
    assert_eq!(code, "http_status");
    assert_eq!(status_code, Some(404));
}

#[test]
fn stream_upload_happy_path_two_parts() {
    let part_size: i64 = 100;
    let data = vec![b'a'; part_size as usize];
    let mut session =
        Session::new("/big.bin", part_size * 2, UploadServer::new("u-stream", part_size, 2));
    session.write_part(1).unwrap();
    session.complete(2, &data).unwrap();
    assert_eq!(session.server.puts, vec![1, 2]);
    assert_eq!(
        session.server.completed,
        vec![vec![(1, "e".to_string()), (2, "e".to_string())]]
    );

    let err = session.write_part(3).unwrap_err();
    let Drive9Exception::Drive9 { code, detail, .. } = err;
    assert_eq!(code, "other");
    assert!(detail.contains("completed"), "want completed reason: {}", detail);
}

#[test]
fn stream_upload_abort_after_write_calls_server_abort() {
    let part_size: i64 = 100;
    let mut session =
        Session::new("/abrt.bin", part_size, UploadServer::new("u-stream-abort", part_size, 1));
    session.write_part(1).unwrap();
    session.abort().unwrap();
    session.abort().unwrap();
    assert_eq!(session.server.aborted, vec!["u-stream-abort".to_string()]);
    assert!(session.server.completed.is_empty());

    let err = session.write_part(2).unwrap_err();
    let Drive9Exception::Drive9 { code, detail, .. } = err;
    assert_eq!(code, "other");
    assert!(detail.contains("aborted"), "want aborted reason: {}", detail);
}

#[test]
fn stream_upload_part_size_total_parts_initiate_once() {
    let part_size: i64 = 12_345;
    let total_parts: i32 = 7;
    let mut session = Session::new(
        "/info.bin",
        part_size * total_parts as i64,
        UploadServer::new("u-accessors", part_size, total_parts),
    );
    assert_eq!(session.part_size().unwrap(), part_size);
    assert_eq!(session.total_parts().unwrap(), total_parts);
    assert_eq!(session.part_size().unwrap(), part_size);
    assert_eq!(session.total_parts().unwrap(), total_parts);
    assert_eq!(session.server.initiated, 1);
}

#[test]
fn stream_upload_parameter_error_keeps_upload_active() {
    let part_size: i64 = 100;
    let mut session =
        Session::new("/param.bin", part_size, UploadServer::new("u-stream-param", part_size, 1));
    let err = session.write_part(0).unwrap_err();
    let Drive9Exception::Drive9 { detail, .. } = err;
    assert!(
        detail.contains("part number must be"),
        "want parameter error detail, got: {}",
        detail
    );
    assert_eq!(session.upload.state(), StreamState::Active);

    session.write_part(1).unwrap();
    session.complete(1, &[]).unwrap();
    assert_eq!(session.server.puts, vec![1]);
    assert_eq!(session.server.completed.len(), 1);
}

#[test]
fn stream_upload_complete_alone_works_for_one_part_stream() {
    let part_size: i64 = 100;
    let mut session = Session::new(
        "/one-shot.bin",
        part_size,
        UploadServer::new("u-stream-one-shot", part_size, 1),
    );
    session.complete(1, &vec![b'a'; part_size as usize]).unwrap();
    assert_eq!(session.server.initiated, 1);
    assert_eq!(session.server.puts, vec![1]);
    assert_eq!(session.server.completed, vec![vec![(1, "e".to_string())]]);
}

#[test]
fn stream_upload_part_error_transitions_to_errored() {
    let part_size: i64 = 100;
    let data = vec![b'a'; part_size as usize];
    let mut session =
        Session::new("/err.bin", part_size, UploadServer::new("u-stream-err", part_size, 1));
    session.server.put_status = 500;
    session.write_part(1).unwrap();
    let err = session.write_part(2).unwrap_err();
    let Drive9Exception::Drive9 { code, detail, .. } = err;
    assert_eq!(code, "other");
    assert_eq!(detail, "HTTP 500: boom");

    let complete_err = session.complete(2, &data).unwrap_err();
    let Drive9Exception::Drive9 { code, detail, .. } = complete_err;
    assert_eq!(code, "other");
    assert!(
        detail.contains("errored") || detail.contains("background"),
        "want errored / background reason: {}",
        detail
    );

    session.abort().unwrap();
    assert_eq!(session.server.aborted, vec!["u-stream-err".to_string()]);
}

#[test]
fn stream_download_happy_path_multiple_chunks() {
    let body: Vec<u8> = (0..200_000u32).map(|i| (i % 251) as u8).collect();
    let mut dl = client().new_stream_download(OpenOutcome::Opened).unwrap();
    let mut out: Vec<u8> = Vec::new();
    let mut at: usize = 0;
    loop {
        assert_eq!(dl.read_chunk(false).unwrap(), ReadStep::Read);
        let end = std::cmp::min(body.len(), at + CHUNK_SIZE);
        let chunk = dl.chunk_read(ReadOutcome::Chunk(body[at..end].to_vec())).unwrap();
        at = end;
        match chunk {
            Some(chunk) => out.extend_from_slice(&chunk),
            None => break,
        }
    }
    assert_eq!(out, body);
    assert_eq!(dl.read_chunk(false).unwrap(), ReadStep::End);
    dl.close_stream();
    assert_eq!(dl.read_chunk(false).unwrap(), ReadStep::End);
}

#[test]
fn stream_download_close_blocks_further_reads() {
    let mut dl = client().new_stream_download(OpenOutcome::Opened).unwrap();
    assert_eq!(dl.read_chunk(false).unwrap(), ReadStep::Read);
    let body = vec![b'a'; 200_000];
    assert!(dl.chunk_read(ReadOutcome::Chunk(body[..CHUNK_SIZE].to_vec())).unwrap().is_some());
    dl.close_stream();
    dl.close_stream();
    let err = dl.read_chunk(false).unwrap_err();
    let Drive9Exception::Drive9 { code, detail, .. } = err;
    assert_eq!(code, "other");
    assert!(detail.contains("closed"), "want closed reason: {}", detail);
}

#[test]
fn stream_download_replays_error() {
    let failure = check_error(404, br#"{"error":"not found"}"#).unwrap_err();
    let err = match client().new_stream_download(OpenOutcome::Failed(failure)) {
        Err(e) => e,
        Ok(_) => panic!("expected error from new_stream_download"),
    };
    let Drive9Exception::Drive9 { code, status_code, .. } = err;
    assert_eq!(code, "http_status");
    assert_eq!(status_code, Some(404));
}

#[test]
fn stream_download_concurrent_read_chunk_marks_terminal_error() {
    let mut dl = client().new_stream_download(OpenOutcome::Opened).unwrap();
    assert_eq!(dl.read_chunk(false).unwrap(), ReadStep::Read);
    let err_b = match dl.read_chunk(false) {
        Ok(v) => panic!("expected concurrent error; got Ok({:?})", v),
        Err(e) => e,
    };
    let Drive9Exception::Drive9 { code, detail, .. } = err_b;
    assert_eq!(code, "other");
    assert!(detail.contains("concurrent"), "want concurrent reason: {}", detail);

    let err_c = match dl.read_chunk(false) {
        Ok(v) => panic!("expected replayed concurrent error; got Ok({:?})", v),
        Err(e) => e,
    };
    let Drive9Exception::Drive9 { code, detail, .. } = err_c;
    assert_eq!(code, "other");
    assert!(detail.contains("concurrent"), "want concurrent reason on replay: {}", detail);

    assert!(dl.chunk_read(ReadOutcome::Chunk(vec![1])).unwrap().is_some());
    assert!(dl.read_chunk(false).is_err());
}

#[test]
fn stream_download_cancel_during_read_returns_cancelled() {
    let mut token = Drive9CancelToken::new();
    let mut dl = client().new_stream_download(OpenOutcome::Opened).unwrap();
    assert_eq!(dl.read_chunk(token.is_cancelled()).unwrap(), ReadStep::Read);
    let first = dl.chunk_read(ReadOutcome::Chunk(vec![b'b'; 1024])).unwrap();
    assert!(first.is_some(), "first chunk should arrive before cancel");

    assert_eq!(dl.read_chunk(token.is_cancelled()).unwrap(), ReadStep::Read);
    token.cancel();
    let err = match dl.chunk_read(ReadOutcome::Cancelled) {
        Err(e) => e,
        Ok(v) => panic!("expected cancelled error from mid-read cancel; got Ok({:?})", v),
    };
    let Drive9Exception::Drive9 { code, .. } = err;
    assert_eq!(code, "cancelled");

    let err2 = match dl.read_chunk(token.is_cancelled()) {
        Err(e) => e,
        Ok(v) => panic!("expected cancelled replay; got Ok({:?})", v),
    };
    let Drive9Exception::Drive9 { code, .. } = err2;
    assert_eq!(code, "cancelled");
}

#[test]
fn detail_field_carries_message() {
    let call = client().read("/x.txt".into());
    assert!(matches!(call, ClientCall::Read { ref path } if path == "/x.txt"));
    let err = surface(reply(500, br#"{"error":"boom"}"#)).unwrap_err();
    let Drive9Exception::Drive9 { code, detail, .. } = err;
    assert_eq!(code, "http_status");
    assert_eq!(detail, "boom");
}

#[test]
fn status_error_carries_code() {
    let call = client().read("/missing.txt".into());
    assert!(matches!(call, ClientCall::Read { ref path } if path == "/missing.txt"));
    let err = surface(reply(403, br#"{"error":"forbidden"}"#)).unwrap_err();
    let Drive9Exception::Drive9 { code, status_code, detail, .. } = err;
    assert_eq!(code, "http_status");
    assert_eq!(status_code, Some(403));
    assert_eq!(detail, "forbidden");
}
