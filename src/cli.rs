//! The settings a command line gives the proxy.
use vstd::prelude::*;

verus! {

/// The port to listen on, the origin to proxy, and whether to clear the cache of
/// a running proxy instead of starting one.
#[derive(Debug, Clone, PartialEq, Eq)]
pub struct Cli {
    pub port: u16,
    pub origin: String,
    pub clear_cache: bool,
}

} // verus!
