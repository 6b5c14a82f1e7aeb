//! Events and payloads of the request/completion protocol.
//!
//! A user action that needs a remote call does not perform it: it appends
//! an `AppEventType` to the owner's outbound queue.  The surrounding
//! program performs the call in the background and hands the outcome back
//! through the matching `complete_*` method as a `Complete*Result`.

use vstd::prelude::*;

use crate::error::AppError;
use crate::item::{FileDetail, FileVersion, Item};

verus! {

/// A request the state machine asks the surrounding program to carry out.
#[derive(Debug, PartialEq, Eq)]
pub enum AppEventType {
    /// Load the listing for the current path.
    LoadObjects,
    /// Load detail and version history for the selected file.
    LoadObject,
    /// Download the selected object.
    DownloadObject,
    /// Append this failure to the error log.
    Error(AppError),
}

/// Outcome of the initial top-level listing fetch.
#[derive(Debug)]
pub struct CompleteInitializeResult {
    pub buckets: Vec<Item>,
}

impl CompleteInitializeResult {
    pub fn new(buckets: Vec<Item>) -> (r: CompleteInitializeResult)
        ensures
            r.buckets == buckets,
    {
        CompleteInitializeResult { buckets }
    }
}

/// Outcome of loading the listing under one path.
#[derive(Debug)]
pub struct CompleteLoadObjectsResult {
    pub items: Vec<Item>,
}

impl CompleteLoadObjectsResult {
    pub fn new(items: Vec<Item>) -> (r: CompleteLoadObjectsResult)
        ensures
            r.items == items,
    {
        CompleteLoadObjectsResult { items }
    }
}

/// Outcome of loading one object's metadata and version history.
#[derive(Debug)]
pub struct CompleteLoadObjectResult {
    pub detail: FileDetail,
    pub versions: Vec<FileVersion>,
    /// The composite cache key the record belongs under.
    pub map_key: String,
}

impl CompleteLoadObjectResult {
    pub fn new(detail: FileDetail, versions: Vec<FileVersion>, map_key: String) -> (r:
        CompleteLoadObjectResult)
        ensures
            r.detail == detail,
            r.versions == versions,
            r.map_key == map_key,
    {
        CompleteLoadObjectResult { detail, versions, map_key }
    }
}

/// Outcome of downloading an object and writing it to local storage.
#[derive(Debug)]
pub struct CompleteDownloadObjectResult {
    /// Where the bytes were written.
    pub path: String,
}

impl CompleteDownloadObjectResult {
    pub fn new(path: String) -> (r: CompleteDownloadObjectResult)
        ensures
            r.path == path,
    {
        CompleteDownloadObjectResult { path }
    }
}

/// Snapshot of the arguments a background listing fetch needs.
#[derive(Debug)]
pub struct LoadObjectsRequest {
    pub bucket: String,
    pub prefix: String,
}

/// Snapshot of the arguments a background metadata fetch needs.
#[derive(Debug)]
pub struct LoadObjectRequest {
    pub bucket: String,
    pub key: String,
    pub name: String,
    pub size_byte: u64,
    pub map_key: String,
}

/// Snapshot of the arguments a background download needs.
#[derive(Debug)]
pub struct DownloadObjectRequest {
    pub bucket: String,
    pub key: String,
    pub name: String,
}

/// Which management-console page to open for the current state.
#[derive(Debug, PartialEq, Eq)]
pub enum ConsoleTarget {
    Buckets,
    List { bucket: String, prefix: String },
    Object { bucket: String, prefix: String, name: String },
}

} // verus!
