//! Routing: scheme classification, dispatch, and watch registration.

use std::cell::RefCell;

use web_asset::errors::{AssetIoError, ChangeWatcher, FileType, Metadata};
use web_asset::fetch::{
    outcome_to_result, prepare_conditional, resolve_response, CacheEntry, HttpResponse,
};
use web_asset::headers::HttpHeader;
use web_asset::path_class::is_http;
use web_asset::watch::{join_path, FilesystemWatchBridge, Watcher};
use web_asset::web_asset_io::{LoadDispatch, LocalBackend, WebAssetIo};

/// A local backend with canned answers that records every call made to it.
struct ScriptedBackend {
    bytes: Vec<u8>,
    listing: Vec<String>,
    dir: bool,
    metadata: Metadata,
    calls: RefCell<Vec<String>>,
}

impl ScriptedBackend {
    fn new() -> ScriptedBackend {
        ScriptedBackend {
            bytes: vec![1, 2, 3],
            listing: vec!["a.png".to_string(), "b.png".to_string()],
            dir: true,
            metadata: Metadata { file_type: FileType::File },
            calls: RefCell::new(Vec::new()),
        }
    }
}

impl LocalBackend for ScriptedBackend {
    fn load(&self, path: &str) -> Result<Vec<u8>, AssetIoError> {
        self.calls.borrow_mut().push(format!("load:{}", path));
        Ok(self.bytes.clone())
    }

    fn read_directory(&self, path: &str) -> Result<Vec<String>, AssetIoError> {
        self.calls.borrow_mut().push(format!("read_directory:{}", path));
        Ok(self.listing.clone())
    }

    fn is_dir(&self, path: &str) -> bool {
        self.calls.borrow_mut().push(format!("is_dir:{}", path));
        self.dir
    }

    fn get_metadata(&self, path: &str) -> Result<Metadata, AssetIoError> {
        self.calls.borrow_mut().push(format!("get_metadata:{}", path));
        Ok(self.metadata)
    }

    fn watch_path_for_changes(&self, to_watch: &str, _to_reload: Option<String>) -> Result<(), AssetIoError> {
        self.calls.borrow_mut().push(format!("watch_path:{}", to_watch));
        Ok(())
    }

    fn watch_for_changes(&self, configuration: &ChangeWatcher) -> Result<(), AssetIoError> {
        self.calls.borrow_mut().push(format!("watch_for_changes:{}", configuration.delay_millis));
        Ok(())
    }
}

/// A watcher that records each registered absolute path.
struct RecordingWatcher {
    accept: bool,
    seen: RefCell<Vec<String>>,
}

impl Watcher for RecordingWatcher {
    fn watch(&self, abs_path: &str) -> Result<(), ()> {
        self.seen.borrow_mut().push(abs_path.to_string());
        if self.accept {
            Ok(())
        } else {
            Err(())
        }
    }
}

fn router(root: &str, accept: bool) -> WebAssetIo<ScriptedBackend, RecordingWatcher> {
    WebAssetIo {
        default_io: ScriptedBackend::new(),
        bridge: FilesystemWatchBridge {
            root: root.to_string(),
            watcher: Some(RecordingWatcher { accept, seen: RefCell::new(Vec::new()) }),
        },
        headers: HttpHeader::new(),
        cache_name: "web-asset-cache".to_string(),
    }
}

#[test]
fn classifies_http_and_https_prefixes() {
    assert!(is_http("http://example.com/a.png"));
    assert!(is_http("https://example.com/a.png"));
    assert!(is_http("http://"));
    assert!(!is_http("assets/sprite.png"));
    assert!(!is_http(""));
    assert!(!is_http("http:/example.com"));
    assert!(!is_http("httpx://example.com"));
    assert!(!is_http("ftp://example.com"));
    assert!(!is_http("Http://example.com"));
}

#[test]
fn remote_load_never_touches_local_backend() {
    let io = router("/game", true);
    match io.load_path("https://cdn.example.com/a.png") {
        LoadDispatch::Remote(req) => {
            assert_eq!(req.uri, "https://cdn.example.com/a.png");
            assert!(req.headers.is_empty());
        }
        LoadDispatch::Local(_) => panic!("remote path went to the local backend"),
    }
    assert!(io.default_io.calls.borrow().is_empty());
}

#[test]
fn local_load_delegates_verbatim() {
    let io = router("/game", true);
    match io.load_path("assets/a.png") {
        LoadDispatch::Local(result) => assert_eq!(result, Ok(vec![1, 2, 3])),
        LoadDispatch::Remote(_) => panic!("local path was dispatched remotely"),
    }
    assert_eq!(*io.default_io.calls.borrow(), vec!["load:assets/a.png".to_string()]);
}

#[test]
fn remote_is_dir_false_without_backend_call() {
    let io = router("/game", true);
    assert!(!io.is_dir("http://example.com/dir"));
    assert!(io.default_io.calls.borrow().is_empty());
    assert!(io.is_dir("some/dir"));
    assert_eq!(*io.default_io.calls.borrow(), vec!["is_dir:some/dir".to_string()]);
}

#[test]
fn read_directory_and_metadata_pass_remote_paths_through() {
    let io = router("/game", true);
    let listing = io.read_directory("http://example.com/dir").unwrap();
    assert_eq!(listing, vec!["a.png".to_string(), "b.png".to_string()]);
    let meta = io.get_metadata("http://example.com/a.png").unwrap();
    assert_eq!(meta, Metadata { file_type: FileType::File });
    assert_eq!(
        *io.default_io.calls.borrow(),
        vec![
            "read_directory:http://example.com/dir".to_string(),
            "get_metadata:http://example.com/a.png".to_string(),
        ]
    );
}

#[test]
fn watch_local_path_registers_under_root() {
    let io = router("/game", true);
    let r = io.watch_path_for_changes("assets/sprite.png", None);
    assert_eq!(r, Ok(()));
    let watcher = io.bridge.watcher.as_ref().unwrap();
    assert_eq!(*watcher.seen.borrow(), vec!["/game/assets/sprite.png".to_string()]);
}

#[test]
fn watch_remote_path_succeeds_without_registering() {
    let io = router("/game", true);
    let r = io.watch_path_for_changes("https://example.com/sprite.png", None);
    assert_eq!(r, Ok(()));
    let watcher = io.bridge.watcher.as_ref().unwrap();
    assert!(watcher.seen.borrow().is_empty());
    assert!(io.default_io.calls.borrow().is_empty());
}

#[test]
fn watch_failure_carries_the_absolute_path() {
    let io = router("/game", false);
    let r = io.watch_path_for_changes("assets/sprite.png", None);
    assert_eq!(r, Err(AssetIoError::PathWatchError("/game/assets/sprite.png".to_string())));
}

#[test]
fn watch_without_watcher_silently_succeeds() {
    let io = WebAssetIo {
        default_io: ScriptedBackend::new(),
        bridge: FilesystemWatchBridge::<RecordingWatcher> { root: "/game".to_string(), watcher: None },
        headers: HttpHeader::new(),
        cache_name: "web-asset-cache".to_string(),
    };
    assert_eq!(io.watch_path_for_changes("assets/sprite.png", None), Ok(()));
}

#[test]
fn watch_for_changes_goes_to_the_local_backend() {
    let io = router("/game", true);
    let r = io.watch_for_changes(&ChangeWatcher { delay_millis: 50 });
    assert_eq!(r, Ok(()));
    assert_eq!(*io.default_io.calls.borrow(), vec!["watch_for_changes:50".to_string()]);
}

#[test]
fn full_remote_scenario_with_revalidation() {
    let io = router("/game", true);
    let mut cache: Option<CacheEntry> = None;

    // First load: no prior cache entry, origin answers 200 with an ETag.
    let req = match io.load_path("https://cdn.example.com/a.png") {
        LoadDispatch::Remote(req) => req,
        LoadDispatch::Local(_) => panic!("remote path went to the local backend"),
    };
    assert_eq!(req.uri, "https://cdn.example.com/a.png");
    let (if_none_match, retained) = prepare_conditional(cache.clone());
    assert_eq!(if_none_match, None);
    let response = HttpResponse { status: 200, etag: Some("\"v1\"".to_string()), body: vec![0x89, 0x50, 0x4e, 0x47] };
    let (outcome, store) = resolve_response(retained, Some(response));
    if let Some(entry) = store {
        cache = Some(entry);
    }
    assert_eq!(outcome_to_result(outcome, "https://cdn.example.com/a.png"), Ok(vec![0x89, 0x50, 0x4e, 0x47]));
    assert_eq!(
        cache,
        Some(CacheEntry { body: vec![0x89, 0x50, 0x4e, 0x47], etag: Some("\"v1\"".to_string()) })
    );

    // Second load of the same URI: the origin now answers 304, so the result
    // equals the originally cached bytes, unchanged.
    let (if_none_match, retained) = prepare_conditional(cache.clone());
    assert_eq!(if_none_match, Some("\"v1\"".to_string()));
    let response = HttpResponse { status: 304, etag: Some("\"v1\"".to_string()), body: Vec::new() };
    let (outcome, store) = resolve_response(retained, Some(response));
    assert_eq!(store, None);
    assert_eq!(outcome_to_result(outcome, "https://cdn.example.com/a.png"), Ok(vec![0x89, 0x50, 0x4e, 0x47]));
    assert!(io.default_io.calls.borrow().is_empty());
}

#[test]
fn join_path_inserts_exactly_one_separator() {
    assert_eq!(join_path("/game", "assets/sprite.png"), "/game/assets/sprite.png");
    assert_eq!(join_path("/game/", "assets/sprite.png"), "/game/assets/sprite.png");
    assert_eq!(join_path("/game", "/abs/path.png"), "/abs/path.png");
    assert_eq!(join_path("", "assets/sprite.png"), "assets/sprite.png");
}
