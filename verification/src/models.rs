//! What the server reports about files, and the records that foreign callers
//! get to see.

use vstd::prelude::*;
use vstd::std_specs::convert::FromSpecImpl;

verus! {

/// A directory entry as the SDK reports it.
#[derive(Debug, Clone)]
pub struct FileInfo {
    pub name: String,
    pub size: i64,
    pub is_dir: bool,
    pub mtime: Option<i64>,
}

/// The metadata of a path as the SDK reports it; times are Unix seconds.
#[derive(Debug, Clone)]
pub struct StatResult {
    pub size: i64,
    pub is_dir: bool,
    pub revision: i64,
    pub mtime: Option<i64>,
}

/// A search hit as the SDK reports it. The relevance score is carried as the
/// bits of its IEEE 754 double.
#[derive(Debug, Clone)]
pub struct SearchResult {
    pub path: String,
    pub name: String,
    pub size_bytes: i64,
    pub score: Option<u64>,
}

/// A directory entry.
#[derive(Debug, Clone)]
pub struct Drive9FileInfo {
    pub name: String,
    pub size: i64,
    pub is_dir: bool,
    /// Unix timestamp in seconds, if the server reported it.
    pub mtime_unix: Option<i64>,
}

/// The metadata of a path.
#[derive(Debug, Clone)]
pub struct Drive9StatResult {
    pub size: i64,
    pub is_dir: bool,
    pub revision: i64,
    /// Unix timestamp in seconds, if the server reported it.
    pub mtime_unix: Option<i64>,
}

/// A search hit.
#[derive(Debug, Clone)]
pub struct Drive9SearchResult {
    pub path: String,
    pub name: String,
    pub size_bytes: i64,
    /// The bits of the relevance score, when the server returned one.
    pub score: Option<u64>,
}

impl From<FileInfo> for Drive9FileInfo {
    fn from(f: FileInfo) -> (info: Self)
        ensures
            info.name == f.name,
            info.size == f.size,
            info.is_dir == f.is_dir,
            info.mtime_unix == f.mtime,
    {
        Drive9FileInfo { name: f.name, size: f.size, is_dir: f.is_dir, mtime_unix: f.mtime }
    }
}

impl FromSpecImpl<FileInfo> for Drive9FileInfo {
    open spec fn obeys_from_spec() -> bool {
        true
    }

    open spec fn from_spec(f: FileInfo) -> Self {
        Drive9FileInfo { name: f.name, size: f.size, is_dir: f.is_dir, mtime_unix: f.mtime }
    }
}

impl From<StatResult> for Drive9StatResult {
    fn from(s: StatResult) -> (stat: Self)
        ensures
            stat.size == s.size,
            stat.is_dir == s.is_dir,
            stat.revision == s.revision,
            stat.mtime_unix == s.mtime,
    {
        Drive9StatResult {
            size: s.size,
            is_dir: s.is_dir,
            revision: s.revision,
            mtime_unix: s.mtime,
        }
    }
}

impl FromSpecImpl<StatResult> for Drive9StatResult {
    open spec fn obeys_from_spec() -> bool {
        true
    }

    open spec fn from_spec(s: StatResult) -> Self {
        Drive9StatResult {
            size: s.size,
            is_dir: s.is_dir,
            revision: s.revision,
            mtime_unix: s.mtime,
        }
    }
}

impl From<SearchResult> for Drive9SearchResult {
    fn from(r: SearchResult) -> (hit: Self)
        ensures
            hit.path == r.path,
            hit.name == r.name,
            hit.size_bytes == r.size_bytes,
            hit.score == r.score,
    {
        Drive9SearchResult { path: r.path, name: r.name, size_bytes: r.size_bytes, score: r.score }
    }
}

impl FromSpecImpl<SearchResult> for Drive9SearchResult {
    open spec fn obeys_from_spec() -> bool {
        true
    }

    open spec fn from_spec(r: SearchResult) -> Self {
        Drive9SearchResult { path: r.path, name: r.name, size_bytes: r.size_bytes, score: r.score }
    }
}

/// Foreign-implemented progress callback, called with the bytes transferred so
/// far and the total size. `total` is 0 when the total size is unknown.
/// Implementations must be cheap: there is a call per chunk.
pub trait Drive9ProgressListener: Send + Sync {
    fn on_progress(&self, transferred: u64, total: u64);
}

} // verus!
