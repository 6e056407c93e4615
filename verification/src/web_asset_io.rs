//! The public facade: scheme-based dispatch between the remote fetch path
//! and the host's local storage backend.

use vstd::prelude::*;
use crate::errors::{
    bytes_result_view, listing_result_view, metadata_result_view, opt_string_view,
    unit_result_view, AssetIoError, AssetIoErrorView, ChangeWatcher, Metadata,
};
use crate::headers::{header_keys_unique, header_map_of, HttpHeader};
use crate::path_class::{is_http, is_remote};
use crate::watch::{FilesystemWatchBridge, Watcher};

verus! {

/// The pre-existing local-storage I/O provider, implemented by the host.
///
/// Each operation's result is pinned by a companion specification function,
/// so that the router's contracts can say exactly what delegation returns.
pub trait LocalBackend {
    /// What loading `path` returns.
    open spec fn spec_load(&self, path: Seq<char>) -> Result<Seq<u8>, AssetIoErrorView> {
        arbitrary()
    }

    /// What listing the directory `path` returns.
    open spec fn spec_read_directory(&self, path: Seq<char>) -> Result<Seq<Seq<char>>, AssetIoErrorView> {
        arbitrary()
    }

    /// Whether `path` is a directory.
    open spec fn spec_is_dir(&self, path: Seq<char>) -> bool {
        arbitrary()
    }

    /// What the metadata for `path` is.
    open spec fn spec_get_metadata(&self, path: Seq<char>) -> Result<Metadata, AssetIoErrorView> {
        arbitrary()
    }

    /// What registering a watch on `path` with hint `reload_hint` reports.
    open spec fn spec_watch_path(&self, path: Seq<char>, reload_hint: Option<Seq<char>>) -> Result<
        (),
        AssetIoErrorView,
    > {
        arbitrary()
    }

    /// What installing global change watching reports.
    open spec fn spec_watch_for_changes(&self, configuration: ChangeWatcher) -> Result<
        (),
        AssetIoErrorView,
    > {
        arbitrary()
    }

    /// Loads the bytes of `path`.
    fn load(&self, path: &str) -> (r: Result<Vec<u8>, AssetIoError>)
        ensures
            bytes_result_view(r) == self.spec_load(path@),
    ;

    /// Lists the entries of the directory `path`.
    fn read_directory(&self, path: &str) -> (r: Result<Vec<String>, AssetIoError>)
        ensures
            listing_result_view(r) == self.spec_read_directory(path@),
    ;

    /// Reports whether `path` is a directory.
    fn is_dir(&self, path: &str) -> (r: bool)
        ensures
            r == self.spec_is_dir(path@),
    ;

    /// Fetches the metadata of `path`.
    fn get_metadata(&self, path: &str) -> (r: Result<Metadata, AssetIoError>)
        ensures
            metadata_result_view(r) == self.spec_get_metadata(path@),
    ;

    /// Registers a change watch on `path`.
    fn watch_path_for_changes(&self, to_watch: &str, to_reload: Option<String>) -> (r: Result<
        (),
        AssetIoError,
    >)
        ensures
            unit_result_view(r) == self.spec_watch_path(to_watch@, opt_string_view(to_reload)),
    ;

    /// Installs global change watching.
    fn watch_for_changes(&self, configuration: &ChangeWatcher) -> (r: Result<(), AssetIoError>)
        ensures
            unit_result_view(r) == self.spec_watch_for_changes(*configuration),
    ;
}

/// Everything the router decides about one remote load before the host
/// performs it: the request URI and the header snapshot taken for it.
///
/// The cache lookup and the conditional header come after this, at
/// [`crate::fetch::prepare_conditional`] and
/// [`crate::fetch::build_request_headers`].
pub struct RemoteRequest {
    pub uri: String,
    pub headers: Vec<(String, String)>,
}

/// Where one load goes: served by the local backend, or handed to the host
/// as a prepared remote request.
pub enum LoadDispatch {
    Local(Result<Vec<u8>, AssetIoError>),
    Remote(RemoteRequest),
}

/// The asset router: classifies each path as remote or local and dispatches
/// to the remote fetch path or to the local backend and watch bridge.
pub struct WebAssetIo<B: LocalBackend, W: Watcher> {
    /// The host's local storage backend.
    pub default_io: B,
    /// The bridge local change watches are registered through.
    pub bridge: FilesystemWatchBridge<W>,
    /// The headers applied to every outgoing remote request.
    pub headers: HttpHeader,
    /// The cache namespace remote responses are cached under.
    pub cache_name: String,
}

impl<B: LocalBackend, W: Watcher> WebAssetIo<B, W> {
    /// The router is usable: its header registry holds one pair per name.
    pub open spec fn wf(&self) -> bool {
        self.headers.wf()
    }

    /// Serves a load: a remote path becomes a prepared request — URI equal to
    /// the path, headers equal to a snapshot of the registry — and never
    /// touches the local backend; a local path is delegated verbatim to it.
    pub fn load_path(&self, path: &str) -> (r: LoadDispatch)
        requires
            self.wf(),
        ensures
            is_remote(path@) ==> (r matches LoadDispatch::Remote(req) && req.uri@ == path@
                && header_map_of(req.headers@) == self.headers@ && header_keys_unique(
                req.headers@,
            )),
            !is_remote(path@) ==> (r matches LoadDispatch::Local(res) && bytes_result_view(res)
                == self.default_io.spec_load(path@)),
    {
        if is_http(path) {
            let uri = path.to_owned();
            let headers = self.headers.snapshot();
            LoadDispatch::Remote(RemoteRequest { uri, headers })
        } else {
            LoadDispatch::Local(self.default_io.load(path))
        }
    }

    /// Always delegates to the local backend: directory listing over HTTP is
    /// undefined and a remote path is passed through, not intercepted.
    pub fn read_directory(&self, path: &str) -> (r: Result<Vec<String>, AssetIoError>)
        ensures
            listing_result_view(r) == self.default_io.spec_read_directory(path@),
    {
        self.default_io.read_directory(path)
    }

    /// A remote resource is never a directory; local paths delegate.
    pub fn is_dir(&self, path: &str) -> (r: bool)
        ensures
            r == if is_remote(path@) {
                false
            } else {
                self.default_io.spec_is_dir(path@)
            },
    {
        if is_http(path) {
            false
        } else {
            self.default_io.is_dir(path)
        }
    }

    /// Always delegates to the local backend: remote metadata is out of
    /// scope and a remote path is passed through, not intercepted.
    pub fn get_metadata(&self, path: &str) -> (r: Result<Metadata, AssetIoError>)
        ensures
            metadata_result_view(r) == self.default_io.spec_get_metadata(path@),
    {
        self.default_io.get_metadata(path)
    }

    /// Registers a change watch. A remote path reports success without
    /// installing anything — callers must not assume liveness of remote
    /// change notifications. A local path is registered through the bridge,
    /// which resolves it under the configured root; the reload hint plays no
    /// part in the registration.
    #[allow(unused_variables)]
    pub fn watch_path_for_changes(&self, to_watch: &str, to_reload: Option<String>) -> (r: Result<
        (),
        AssetIoError,
    >)
        ensures
            is_remote(to_watch@) ==> r is Ok,
            !is_remote(to_watch@) ==> unit_result_view(r) == self.bridge.spec_watch(to_watch@),
    {
        if is_http(to_watch) {
            Result::Ok(())
        } else {
            self.bridge.watch(to_watch)
        }
    }

    /// Delegates global change watching to the local backend; no remote
    /// polling is installed.
    pub fn watch_for_changes(&self, configuration: &ChangeWatcher) -> (r: Result<(), AssetIoError>)
        ensures
            unit_result_view(r) == self.default_io.spec_watch_for_changes(*configuration),
    {
        self.default_io.watch_for_changes(configuration)
    }
}

} // verus!
