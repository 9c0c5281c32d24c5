//! The proxy engine: for each request, the decision between the control path,
//! a cache hit and a fetch from the origin, and what a finished fetch leaves behind.
use vstd::prelude::*;
use vstd::string::*;
use crate::cache::CacheStore;
use crate::http::{
    empty_response, format_empty_response, frame_response, parse_path, path_of, response_bytes,
};

verus! {

/// The reserved path that clears the cache: `/clear-cache`.
pub open spec fn clear_path() -> Seq<char> {
    seq!['/', 'c', 'l', 'e', 'a', 'r', '-', 'c', 'a', 'c', 'h', 'e']
}

/// `HIT`
pub open spec fn hit_status() -> Seq<u8> {
    seq![72u8, 73, 84]
}

/// `MISS`
pub open spec fn miss_status() -> Seq<u8> {
    seq![77u8, 73, 83, 83]
}

/// The key a path is cached under: the origin followed by the path, as they are.
pub open spec fn cache_key(origin: Seq<char>, path: Seq<char>) -> Seq<char> {
    origin + path
}

/// What the engine does with one request, in the abstract.
pub ghost enum Outcome {
    /// Nothing is written back.
    Dropped,
    /// These bytes are written back.
    Responded(Seq<u8>),
    /// The origin must be asked for this URL.
    Fetching(Seq<char>),
}

/// What the engine asks its caller to do with one request.
pub enum Step {
    /// Close the connection with nothing written.
    Drop,
    /// Write these bytes and close the connection.
    Respond(Vec<u8>),
    /// Fetch this URL from the origin, then hand the result to `complete_fetch`.
    Fetch(String),
}

impl View for Step {
    type V = Outcome;

    open spec fn view(&self) -> Outcome {
        match self {
            Step::Drop => Outcome::Dropped,
            Step::Respond(b) => Outcome::Responded(b@),
            Step::Fetch(url) => Outcome::Fetching(url@),
        }
    }
}

/// The cache after one request, and what is done with that request.
pub open spec fn decide(origin: Seq<char>, cache: Map<Seq<char>, Seq<u8>>, request: Seq<char>) -> (
    Map<Seq<char>, Seq<u8>>,
    Outcome,
) {
    match path_of(request) {
        None => (cache, Outcome::Dropped),
        Some(path) => if path == clear_path() {
            (Map::empty(), Outcome::Responded(empty_response()))
        } else {
            let key = cache_key(origin, path);
            if cache.contains_key(key) {
                (cache, Outcome::Responded(response_bytes(cache[key], hit_status())))
            } else {
                (cache, Outcome::Fetching(key))
            }
        },
    }
}

/// The cache after a fetch of `key` has ended, and the response owed for it:
/// a body that came back is stored and relayed; a failed fetch leaves nothing.
pub open spec fn complete(
    cache: Map<Seq<char>, Seq<u8>>,
    key: Seq<char>,
    fetched: Option<Seq<u8>>,
) -> (Map<Seq<char>, Seq<u8>>, Option<Seq<u8>>) {
    match fetched {
        Some(body) => (cache.insert(key, body), Some(response_bytes(body, miss_status()))),
        None => (cache, None),
    }
}

/// A caching proxy for one origin: the origin's base address and the cache it owns.
pub struct CachingProxyServer {
    origin: String,
    cache: CacheStore,
}

impl CachingProxyServer {
    /// The origin's base address.
    pub closed spec fn origin_view(&self) -> Seq<char> {
        self.origin@
    }

    /// What the cache holds.
    pub closed spec fn cache_view(&self) -> Map<Seq<char>, Seq<u8>> {
        self.cache@
    }

    pub closed spec fn wf(&self) -> bool {
        self.cache.wf()
    }

    /// A proxy for `origin`, taken as it is, with an empty cache.
    pub fn new(origin: String) -> (r: CachingProxyServer)
        ensures
            r.wf(),
            r.origin_view() == origin@,
            r.cache_view() == Map::<Seq<char>, Seq<u8>>::empty(),
    {
        CachingProxyServer { origin, cache: CacheStore::new() }
    }

    /// The origin's base address.
    pub fn origin(&self) -> (r: &str)
        ensures
            r@ == self.origin_view(),
    {
        self.origin.as_str()
    }

    /// Empties the cache.
    pub fn clear_cache(&mut self)
        ensures
            final(self).wf(),
            final(self).origin_view() == old(self).origin_view(),
            final(self).cache_view() == Map::<Seq<char>, Seq<u8>>::empty(),
    {
        self.cache.clear();
    }

    /// Decides what to do with a raw request: drop it, answer it, or fetch from the origin.
    pub fn handle_request(&mut self, request: &str) -> (r: Step)
        requires
            old(self).wf(),
        ensures
            final(self).wf(),
            final(self).origin_view() == old(self).origin_view(),
            (final(self).cache_view(), r@) == decide(
                old(self).origin_view(),
                old(self).cache_view(),
                request@,
            ),
    {
        let path = match parse_path(request) {
            Some(p) => p,
            None => {
                return Step::Drop;
            },
        };
        let clear = "/clear-cache".to_owned();
        proof {
            reveal_strlit("/clear-cache");
        }
        assert(clear@ =~= clear_path());
        if path == clear {
            self.clear_cache();
            return Step::Respond(format_empty_response());
        }
        let mut key = self.origin.clone();
        key.append(path.as_str());
        match self.cache.get(&key) {
            Some(body) => {
                let hit: Vec<u8> = vec![72u8, 73, 84];
                assert(hit@ =~= hit_status());
                Step::Respond(frame_response(body, hit.as_slice()))
            },
            None => Step::Fetch(key),
        }
    }

    /// Records the end of a fetch of `key`: a body that came back is stored under
    /// `key` and framed as a miss; a failed fetch gives nothing to write.
    pub fn complete_fetch(&mut self, key: String, fetched: Option<Vec<u8>>) -> (r: Option<Vec<u8>>)
        requires
            old(self).wf(),
        ensures
            final(self).wf(),
            final(self).origin_view() == old(self).origin_view(),
            (final(self).cache_view(), r.deep_view()) == complete(
                old(self).cache_view(),
                key@,
                fetched.deep_view(),
            ),
    {
        match fetched {
            Some(body) => {
                assert(body.deep_view() =~= body@);
                let stored = body.clone();
                assert(stored@ =~= body@);
                self.cache.put(key, stored);
                let miss: Vec<u8> = vec![77u8, 73, 83, 83];
                assert(miss@ =~= miss_status());
                let response = frame_response(body, miss.as_slice());
                assert(response.deep_view() =~= response@);
                Some(response)
            },
            None => None,
        }
    }
}

} // verus!
