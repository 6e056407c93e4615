//! Change-watch registration for local paths.
//!
//! The bridge resolves a relative local path against a configured root and
//! registers the absolute path with an external watcher owned by the host.
//! With no watcher configured, watching is silently disabled and every
//! registration reports success.

use vstd::prelude::*;
use vstd::string::{StrSliceExecFns, StringExecFns};
use crate::errors::{AssetIoError, AssetIoErrorView};

verus! {

/// The filesystem watcher owned by the host, which the bridge registers
/// absolute paths with.
pub trait Watcher {
    /// Whether registering `abs_path` with this watcher succeeds.
    open spec fn spec_watch_ok(&self, abs_path: Seq<char>) -> bool {
        arbitrary()
    }

    /// Registers an absolute path.
    fn watch(&self, abs_path: &str) -> (r: Result<(), ()>)
        ensures
            r is Ok <==> self.spec_watch_ok(abs_path@),
    ;
}

/// Resolution of a relative path against a root, the way a filesystem path
/// join works: an absolute relative part stands alone, and exactly one
/// separator joins the two otherwise.
pub open spec fn join_path_spec(root: Seq<char>, rel: Seq<char>) -> Seq<char> {
    if rel.len() > 0 && rel[0] == '/' {
        rel
    } else if root.len() == 0 {
        rel
    } else if root[root.len() - 1] == '/' {
        root + rel
    } else {
        root + "/"@ + rel
    }
}

/// Joins a root and a relative path into one absolute path.
pub fn join_path(root: &str, rel: &str) -> (r: String)
    ensures
        r@ == join_path_spec(root@, rel@),
{
    let rel_len = rel.unicode_len();
    if rel_len > 0 && rel.get_char(0) == '/' {
        return rel.to_owned();
    }
    let root_len = root.unicode_len();
    if root_len == 0 {
        return rel.to_owned();
    }
    let mut s = root.to_owned();
    if root.get_char(root_len - 1) != '/' {
        s.append("/");
    }
    s.append(rel);
    proof {
        assert(root@ + "/"@ + rel@ =~= (root@ + "/"@) + rel@);
    }
    s
}

/// Forwards change-watch registration for local paths to the host's
/// filesystem watcher.
pub struct FilesystemWatchBridge<W: Watcher> {
    /// The root every relative path is resolved under.
    pub root: String,
    /// The watcher registrations go to; `None` disables watching.
    pub watcher: Option<W>,
}

impl<W: Watcher> FilesystemWatchBridge<W> {
    /// What a registration through this bridge reports for `rel`: success
    /// with no watcher configured or when the watcher accepts the resolved
    /// absolute path, and a `PathWatchError` carrying that absolute path
    /// otherwise.
    pub open spec fn spec_watch(&self, rel: Seq<char>) -> Result<(), AssetIoErrorView> {
        let abs = join_path_spec(self.root@, rel);
        match self.watcher {
            Option::None => Result::Ok(()),
            Option::Some(w) => if w.spec_watch_ok(abs) {
                Result::Ok(())
            } else {
                Result::Err(AssetIoErrorView::PathWatchError(abs))
            },
        }
    }

    /// Resolves `relative_path` under the configured root and registers the
    /// absolute path with the watcher, if one is present.
    pub fn watch(&self, relative_path: &str) -> (r: Result<(), AssetIoError>)
        ensures
            crate::errors::unit_result_view(r) == self.spec_watch(relative_path@),
    {
        let abs = join_path(self.root.as_str(), relative_path);
        match &self.watcher {
            Option::None => Result::Ok(()),
            Option::Some(w) => {
                match w.watch(abs.as_str()) {
                    Result::Ok(_) => Result::Ok(()),
                    Result::Err(_) => Result::Err(AssetIoError::PathWatchError(abs)),
                }
            },
        }
    }
}

} // verus!
