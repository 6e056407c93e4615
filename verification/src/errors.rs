//! Error kinds and the small plain data types shared by the router.

use vstd::prelude::*;

verus! {

/// Mathematical value of an [`AssetIoError`]: the same two kinds, with the
/// carried path as a sequence of characters.
pub enum AssetIoErrorView {
    NotFound(Seq<char>),
    PathWatchError(Seq<char>),
}

/// The error surface of every operation.
///
/// `NotFound` covers every way a load can fail (missing local file, transport
/// failure, spurious 304): callers distinguish local from remote causes only
/// by the path's own classification. `PathWatchError` reports a failed watch
/// registration and carries the absolute path it was attempted for.
#[derive(Debug, Clone, PartialEq, Eq)]
pub enum AssetIoError {
    NotFound(String),
    PathWatchError(String),
}

impl View for AssetIoError {
    type V = AssetIoErrorView;

    open spec fn view(&self) -> AssetIoErrorView {
        match self {
            AssetIoError::NotFound(p) => AssetIoErrorView::NotFound(p@),
            AssetIoError::PathWatchError(p) => AssetIoErrorView::PathWatchError(p@),
        }
    }
}

/// What kind of entry a path names in local storage.
#[derive(Debug, Clone, Copy, PartialEq, Eq, Structural)]
pub enum FileType {
    File,
    Directory,
}

/// Metadata reported by the local backend for a path.
#[derive(Debug, Clone, Copy, PartialEq, Eq, Structural)]
pub struct Metadata {
    pub file_type: FileType,
}

/// Configuration for the local backend's global change watching: how long to
/// wait after a change before reporting it.
#[derive(Debug, Clone, Copy, PartialEq, Eq, Structural)]
pub struct ChangeWatcher {
    pub delay_millis: u64,
}

/// View of an optional string.
pub open spec fn opt_string_view(o: Option<String>) -> Option<Seq<char>> {
    match o {
        Option::Some(s) => Option::Some(s@),
        Option::None => Option::None,
    }
}

/// View of a byte-load result.
pub open spec fn bytes_result_view(r: Result<Vec<u8>, AssetIoError>) -> Result<
    Seq<u8>,
    AssetIoErrorView,
> {
    match r {
        Result::Ok(v) => Result::Ok(v@),
        Result::Err(e) => Result::Err(e@),
    }
}

/// View of a directory-listing result.
pub open spec fn listing_result_view(r: Result<Vec<String>, AssetIoError>) -> Result<
    Seq<Seq<char>>,
    AssetIoErrorView,
> {
    match r {
        Result::Ok(v) => Result::Ok(v.deep_view()),
        Result::Err(e) => Result::Err(e@),
    }
}

/// View of a metadata result.
pub open spec fn metadata_result_view(r: Result<Metadata, AssetIoError>) -> Result<
    Metadata,
    AssetIoErrorView,
> {
    match r {
        Result::Ok(m) => Result::Ok(m),
        Result::Err(e) => Result::Err(e@),
    }
}

/// View of a unit result.
pub open spec fn unit_result_view(r: Result<(), AssetIoError>) -> Result<(), AssetIoErrorView> {
    match r {
        Result::Ok(u) => Result::Ok(u),
        Result::Err(e) => Result::Err(e@),
    }
}

} // verus!
