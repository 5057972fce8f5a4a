//! The calls of the mobile client.
//!
//! A [`Drive9MobileClient`] says which call of the SDK an operation makes, and
//! turns the reply of the SDK into what foreign callers get. What an operation
//! does besides a single call is described by the types that it returns.

use crate::chunks::{ChunksView, Drive9StreamDownload, OpenOutcome};
use crate::download::{download_start, FileDownload};
use crate::error::Drive9Error;
use crate::exception::{
    exception_of, other_exception, plain_exception, transfer_cancelled, Drive9Exception,
    Drive9Result,
};
use crate::json::{json_rows, rows};
use crate::models::{
    Drive9FileInfo, Drive9SearchResult, Drive9StatResult, FileInfo, SearchResult, StatResult,
};
use crate::patch::{patch_rejection, PatchRequest};
use crate::paths::{is_temp_path, temp_path};
use crate::stream::StreamWriter;
use crate::stream_model::fresh;
use crate::upload::{Drive9StreamUpload, StreamState};
use std::collections::HashMap;
use vstd::prelude::*;
use vstd::std_specs::convert::FromSpec;

verus! {

broadcast use vstd::string::group_string_axioms;

/// The revision that stands for a write without a condition.
pub const ANY_REVISION: i64 = -1;

/// A call of the SDK.
#[derive(Debug)]
pub enum ClientCall {
    Write { path: String, data: Vec<u8> },
    WriteWithRevision { path: String, data: Vec<u8>, revision: i64 },
    Read { path: String },
    List { path: String },
    Stat { path: String },
    Delete { path: String },
    Copy { src_path: String, dst_path: String },
    Rename { old_path: String, new_path: String },
    Mkdir { path: String },
    Grep { query: String, path_prefix: String, limit: i32 },
    Find { path_prefix: String, params: HashMap<String, String> },
    Sql { query: String },
    ListReadableVaultSecrets,
    ReadVaultSecretField { name: String, field: String },
}

/// The upload of a local file.
#[derive(Debug)]
pub struct UploadRequest {
    pub remote_path: String,
    pub size: i64,
    pub expected_revision: i64,
}

/// The revision that a write is conditional on.
pub open spec fn condition(expected_revision: Option<i64>) -> i64 {
    match expected_revision {
        Some(revision) => revision,
        None => ANY_REVISION,
    }
}

/// The nonce of a download.
pub open spec fn nonce_value(nonce: Option<u128>) -> u128 {
    match nonce {
        Some(value) => value,
        None => 0,
    }
}

/// The length of a file as a signed number.
pub open spec fn signed_length(len: u64) -> int {
    if len <= i64::MAX {
        len as int
    } else {
        len - 0x1_0000_0000_0000_0000
    }
}

/// `outcome` is what foreign callers get for `result`.
pub open spec fn surfaces<T>(result: Result<T, Drive9Error>, outcome: Drive9Result<T>) -> bool {
    match result {
        Ok(value) => outcome matches Ok(given) && given == value,
        Err(error) => outcome matches Err(exception) && exception@ == exception_of(error@),
    }
}

/// Turns a reply of the SDK into what foreign callers get.
pub fn surface<T>(result: Result<T, Drive9Error>) -> (outcome: Drive9Result<T>)
    ensures
        surfaces(result, outcome),
{
    match result {
        Ok(value) => Ok(value),
        Err(error) => Err(Drive9Exception::from(error)),
    }
}

/// The client that foreign callers hold.
#[derive(Debug)]
pub struct Drive9MobileClient {
    pub base_url: String,
    pub api_key: String,
}

impl Drive9MobileClient {
    /// A client bound to `base_url` and authenticated with `api_key`.
    pub fn new(base_url: String, api_key: String) -> (client: Self)
        ensures
            client.base_url == base_url,
            client.api_key == api_key,
    {
        Drive9MobileClient { base_url, api_key }
    }

    /// Writes `data` to `path`. With an expected revision the write is
    /// conditional.
    pub fn write(&self, path: String, data: Vec<u8>, expected_revision: Option<i64>) -> (call:
        ClientCall)
        ensures
            call == match expected_revision {
                Some(revision) => ClientCall::WriteWithRevision { path, data, revision },
                None => ClientCall::Write { path, data },
            },
    {
        match expected_revision {
            Some(revision) => ClientCall::WriteWithRevision { path, data, revision },
            None => ClientCall::Write { path, data },
        }
    }

    /// Reads the file at `path`.
    pub fn read(&self, path: String) -> (call: ClientCall)
        ensures
            call == (ClientCall::Read { path }),
    {
        ClientCall::Read { path }
    }

    /// Lists the directory at `path`.
    pub fn list(&self, path: String) -> (call: ClientCall)
        ensures
            call == (ClientCall::List { path }),
    {
        ClientCall::List { path }
    }

    /// The entries of a directory, in the order of the server.
    pub fn list_reply(result: Result<Vec<FileInfo>, Drive9Error>) -> (outcome: Drive9Result<
        Vec<Drive9FileInfo>,
    >)
        ensures
            match result {
                Ok(entries) => outcome matches Ok(given) && given@ == entries@.map_values(
                    |entry: FileInfo| Drive9FileInfo::from_spec(entry),
                ) && forall|i: int|
                    0 <= i < entries@.len() ==> {
                        &&& (#[trigger] given@[i]).name == entries@[i].name
                        &&& given@[i].size == entries@[i].size
                        &&& given@[i].is_dir == entries@[i].is_dir
                        &&& given@[i].mtime_unix == entries@[i].mtime
                    },
                Err(error) => outcome matches Err(exception) && exception@ == exception_of(error@),
            },
    {
        let entries = match result {
            Ok(entries) => entries,
            Err(error) => {
                return Err(Drive9Exception::from(error));
            },
        };
        let ghost reported = entries@;
        let mut infos: Vec<Drive9FileInfo> = Vec::new();
        for entry in it: entries
            invariant
                it.seq() == reported,
                infos@ == reported.take(it.index() as int).map_values(
                    |entry: FileInfo| Drive9FileInfo::from_spec(entry),
                ),
        {
            infos.push(Drive9FileInfo::from(entry));
            assert(reported.take(it.index() + 1) =~= reported.take(it.index() as int).push(entry));
            assert(infos@ =~= reported.take(it.index() + 1).map_values(
                |entry: FileInfo| Drive9FileInfo::from_spec(entry),
            ));
        }
        assert(reported.take(reported.len() as int) =~= reported);
        Ok(infos)
    }

    /// Asks for the metadata of `path`.
    pub fn stat(&self, path: String) -> (call: ClientCall)
        ensures
            call == (ClientCall::Stat { path }),
    {
        ClientCall::Stat { path }
    }

    /// The metadata of a path.
    pub fn stat_reply(result: Result<StatResult, Drive9Error>) -> (outcome: Drive9Result<
        Drive9StatResult,
    >)
        ensures
            match result {
                Ok(stat) => {
                    &&& outcome matches Ok(given)
                    &&& given == Drive9StatResult::from_spec(stat)
                    &&& given.size == stat.size
                    &&& given.is_dir == stat.is_dir
                    &&& given.revision == stat.revision
                    &&& given.mtime_unix == stat.mtime
                },
                Err(error) => outcome matches Err(exception) && exception@ == exception_of(error@),
            },
    {
        match result {
            Ok(stat) => Ok(Drive9StatResult::from(stat)),
            Err(error) => Err(Drive9Exception::from(error)),
        }
    }

    /// Deletes `path`.
    pub fn delete(&self, path: String) -> (call: ClientCall)
        ensures
            call == (ClientCall::Delete { path }),
    {
        ClientCall::Delete { path }
    }

    /// Copies a file.
    pub fn copy(&self, src_path: String, dst_path: String) -> (call: ClientCall)
        ensures
            call == (ClientCall::Copy { src_path, dst_path }),
    {
        ClientCall::Copy { src_path, dst_path }
    }

    /// Renames a file.
    pub fn rename(&self, old_path: String, new_path: String) -> (call: ClientCall)
        ensures
            call == (ClientCall::Rename { old_path, new_path }),
    {
        ClientCall::Rename { old_path, new_path }
    }

    /// Makes a directory.
    pub fn mkdir(&self, path: String) -> (call: ClientCall)
        ensures
            call == (ClientCall::Mkdir { path }),
    {
        ClientCall::Mkdir { path }
    }

    /// Searches by content. A `limit` of 0 or less lets the server pick.
    pub fn grep(&self, query: String, path_prefix: String, limit: i32) -> (call: ClientCall)
        ensures
            call == (ClientCall::Grep { query, path_prefix, limit }),
    {
        ClientCall::Grep { query, path_prefix, limit }
    }

    /// Searches by metadata. The parameters are passed on as they are.
    pub fn find(&self, path_prefix: String, params: HashMap<String, String>) -> (call: ClientCall)
        ensures
            call == (ClientCall::Find { path_prefix, params }),
    {
        ClientCall::Find { path_prefix, params }
    }

    /// The hits of a search, in the order of the server.
    pub fn search_reply(result: Result<Vec<SearchResult>, Drive9Error>) -> (outcome: Drive9Result<
        Vec<Drive9SearchResult>,
    >)
        ensures
            match result {
                Ok(hits) => outcome matches Ok(given) && given@ == hits@.map_values(
                    |hit: SearchResult| Drive9SearchResult::from_spec(hit),
                ) && forall|i: int|
                    0 <= i < hits@.len() ==> {
                        &&& (#[trigger] given@[i]).path == hits@[i].path
                        &&& given@[i].name == hits@[i].name
                        &&& given@[i].size_bytes == hits@[i].size_bytes
                        &&& given@[i].score == hits@[i].score
                    },
                Err(error) => outcome matches Err(exception) && exception@ == exception_of(error@),
            },
    {
        let hits = match result {
            Ok(hits) => hits,
            Err(error) => {
                return Err(Drive9Exception::from(error));
            },
        };
        let ghost reported = hits@;
        let mut results: Vec<Drive9SearchResult> = Vec::new();
        for hit in it: hits
            invariant
                it.seq() == reported,
                results@ == reported.take(it.index() as int).map_values(
                    |hit: SearchResult| Drive9SearchResult::from_spec(hit),
                ),
        {
            results.push(Drive9SearchResult::from(hit));
            assert(reported.take(it.index() + 1) =~= reported.take(it.index() as int).push(hit));
            assert(results@ =~= reported.take(it.index() + 1).map_values(
                |hit: SearchResult| Drive9SearchResult::from_spec(hit),
            ));
        }
        assert(reported.take(reported.len() as int) =~= reported);
        Ok(results)
    }

    /// Runs a SQL query.
    pub fn sql(&self, query: String) -> (call: ClientCall)
        ensures
            call == (ClientCall::Sql { query }),
    {
        ClientCall::Sql { query }
    }

    /// The rows of a SQL query, each as JSON text, from the body of the reply.
    pub fn sql_reply(result: Result<Vec<u8>, Drive9Error>) -> (outcome: Drive9Result<Vec<String>>)
        ensures
            match result {
                Ok(body) => match json_rows(body@) {
                    Ok(texts) => outcome matches Ok(given) && given.deep_view() == texts,
                    Err(message) => outcome matches Err(exception) && exception@
                        == plain_exception("json"@, message),
                },
                Err(error) => outcome matches Err(exception) && exception@ == exception_of(error@),
            },
    {
        match result {
            Ok(body) => match rows(body.as_slice()) {
                Ok(texts) => Ok(texts),
                Err(message) => surface(Err(Drive9Error::Json(message))),
            },
            Err(error) => surface(Err(error)),
        }
    }

    /// Lists the vault secrets that are readable with the client's key.
    pub fn vault_list_readable_secrets(&self) -> (call: ClientCall)
        ensures
            call == (ClientCall::ListReadableVaultSecrets),
    {
        ClientCall::ListReadableVaultSecrets
    }

    /// Reads a field of a vault secret. Name and field are passed on as they are.
    pub fn vault_read_secret_field(&self, name: String, field: String) -> (call: ClientCall)
        ensures
            call == (ClientCall::ReadVaultSecretField { name, field }),
    {
        ClientCall::ReadVaultSecretField { name, field }
    }

    /// Downloads `remote_path` to the file `local_path`. The nonce keeps the
    /// temporary files of several downloads apart; it is 0 where there is none.
    pub fn download_file(&self, remote_path: String, local_path: String, nonce: Option<u128>) -> (
        download: FileDownload)
        ensures
            download@ == download_start(remote_path@, local_path@, download@.temp_path),
            is_temp_path(download@.temp_path, local_path@, nonce_value(nonce)),
            download@.temp_path != download@.target,
    {
        let nonce: u128 = match nonce {
            Some(value) => value,
            None => 0,
        };
        let temp = temp_path(local_path.as_str(), nonce);
        FileDownload::with_temp_path(remote_path, local_path, temp)
    }

    /// Opens a streaming upload of `total_size` bytes. With an expected revision
    /// the upload is conditional.
    pub fn new_stream_upload(
        &self,
        remote_path: String,
        total_size: i64,
        expected_revision: Option<i64>,
    ) -> (upload: (Drive9StreamUpload, StreamWriter))
        ensures
            upload.0@ == StreamState::Active,
            upload.1.wf(),
            upload.1@ == fresh(remote_path@, total_size, condition(expected_revision)),
    {
        let revision: i64 = match expected_revision {
            Some(revision) => revision,
            None => ANY_REVISION,
        };
        (Drive9StreamUpload::new(), StreamWriter::new(remote_path, total_size, revision))
    }

    /// Opens a download that is read chunk by chunk, from what came of opening
    /// the remote file.
    pub fn new_stream_download(&self, outcome: OpenOutcome) -> (download: Drive9Result<
        Drive9StreamDownload,
    >)
        ensures
            match outcome {
                OpenOutcome::Opened => download matches Ok(opened) && opened@ == (
                ChunksView::Open { reading: false }),
                OpenOutcome::Failed(error) => download matches Err(exception) && exception@
                    == exception_of(error@),
                OpenOutcome::Cancelled => download matches Err(exception) && exception@
                    == transfer_cancelled(),
            },
    {
        Drive9StreamDownload::new(outcome)
    }

    /// Uploads a local file, given its length or the message of the failure to
    /// open it. With an expected revision the upload is conditional.
    pub fn upload_file(
        &self,
        local_len: Result<u64, String>,
        remote_path: String,
        expected_revision: Option<i64>,
    ) -> (request: Drive9Result<UploadRequest>)
        ensures
            match local_len {
                Ok(len) => {
                    &&& request matches Ok(given)
                    &&& given.remote_path == remote_path
                    &&& given.size == signed_length(len)
                    &&& given.expected_revision == condition(expected_revision)
                },
                Err(message) => request matches Err(exception) && exception@ == plain_exception(
                    "io"@,
                    message@,
                ),
            },
    {
        match local_len {
            Ok(len) => {
                assert(len > 0x7fff_ffff_ffff_ffff ==> len as i64 == len
                    - 0x1_0000_0000_0000_0000) by (bit_vector);
                Ok(
                    UploadRequest {
                        remote_path,
                        size: len as i64,
                        expected_revision: match expected_revision {
                            Some(revision) => revision,
                            None => ANY_REVISION,
                        },
                    },
                )
            },
            Err(message) => Err(Drive9Exception::from(Drive9Error::Io(message))),
        }
    }

    /// Patches parts of a remote file with bytes of a local one. Parameters that
    /// make no sense are rejected before anything is sent.
    pub fn patch_file_parts(
        &self,
        local_path: String,
        remote_path: String,
        dirty_parts: Vec<i32>,
        new_size: i64,
        part_size: i64,
        expected_revision: Option<i64>,
    ) -> (request: Drive9Result<PatchRequest>)
        ensures
            match patch_rejection(dirty_parts@, new_size, part_size) {
                Some(message) => request matches Err(exception) && exception@ == other_exception(
                    message,
                ),
                None => request == Ok::<PatchRequest, Drive9Exception>(
                    PatchRequest {
                        local_path,
                        remote_path,
                        dirty_parts,
                        new_size,
                        part_size,
                        expected_revision,
                    },
                ),
            },
    {
        PatchRequest::new(
            local_path,
            remote_path,
            dirty_parts,
            new_size,
            part_size,
            expected_revision,
        )
    }
}

} // verus!
