//! A forward caching proxy for one origin.
//!
//! The proxy reads a request line, derives the cache key `origin + path`, and
//! answers from its cache or fetches from the origin, framing each answer with a
//! `Content-Length` and an `X-Cache: HIT` or `X-Cache: MISS` header. The path
//! `/clear-cache` empties the cache. The library makes each of these decisions;
//! its caller does the network I/O.
pub mod cache;
pub mod cli;
pub mod engine;
pub mod http;
pub mod laws;
pub mod tui;

pub use cache::{CacheEntry, CacheStore};
pub use cli::Cli;
pub use engine::{CachingProxyServer, Step};
pub use http::{format_http_response, parse_path};
pub use tui::{App, AppAction, CurrentScreen, Key, KeyKind, StartUpCachingServer};
