//! A virtual asset-loading router.
//!
//! Resources are named by path-like string identifiers. An identifier that
//! begins with `http://` or `https://` is *remote* and is served by an HTTP
//! fetch with ETag-based conditional revalidation against a host-provided
//! cache store; any other identifier is *local* and is served by a
//! host-provided local storage backend. The router presents one uniform
//! operation set over both.
//!
//! The network, the platform cache store, the local filesystem and the file
//! watcher are external collaborators: the host performs those effects and
//! feeds their results (as plain values) to the decision functions here,
//! which are specified and verified.

pub mod errors;
pub mod fetch;
pub mod headers;
pub mod path_class;
pub mod watch;
pub mod web_asset_io;
