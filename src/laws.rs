//! What holds of the engine over several requests, stated over `decide` and `complete`,
//! the models that `handle_request` and `complete_fetch` follow.
use vstd::prelude::*;
use crate::engine::{cache_key, clear_path, complete, decide, hit_status, miss_status, Outcome};
use crate::http::{
    content_length_name, crlf, decimal, digits_value, empty_response, path_of, response_bytes,
    response_head, status_line, x_cache_name,
};

verus! {

/// The first request for a path other than the control path misses and asks the
/// origin for `origin + path`; once that fetch has stored a body, the same request
/// hits, carries the same body, and leaves the cache as it was, so every repeat hits too.
pub proof fn lemma_miss_then_hit(
    origin: Seq<char>,
    cache: Map<Seq<char>, Seq<u8>>,
    request: Seq<char>,
    body: Seq<u8>,
)
    requires
        path_of(request) is Some,
        path_of(request)->0 != clear_path(),
        !cache.contains_key(cache_key(origin, path_of(request)->0)),
    ensures
        ({
            let key = cache_key(origin, path_of(request)->0);
            let filled = cache.insert(key, body);
            &&& decide(origin, cache, request) == (cache, Outcome::Fetching(key))
            &&& complete(cache, key, Some(body)) == (filled, Some(
                response_bytes(body, miss_status()),
            ))
            &&& decide(origin, filled, request) == (filled, Outcome::Responded(
                response_bytes(body, hit_status()),
            ))
        }),
{
}

/// A request whose key is cached hits with the cached body and leaves the cache
/// unchanged; a fetch that ends for another key leaves that entry as it was.
pub proof fn lemma_hit_is_stable(
    origin: Seq<char>,
    cache: Map<Seq<char>, Seq<u8>>,
    request: Seq<char>,
    other_key: Seq<char>,
    fetched: Option<Seq<u8>>,
)
    requires
        path_of(request) is Some,
        path_of(request)->0 != clear_path(),
        cache.contains_key(cache_key(origin, path_of(request)->0)),
        other_key != cache_key(origin, path_of(request)->0),
    ensures
        ({
            let key = cache_key(origin, path_of(request)->0);
            let after = complete(cache, other_key, fetched).0;
            &&& decide(origin, cache, request) == (cache, Outcome::Responded(
                response_bytes(cache[key], hit_status()),
            ))
            &&& after.contains_key(key) && after[key] == cache[key]
            &&& decide(origin, after, request) == (after, Outcome::Responded(
                response_bytes(cache[key], hit_status()),
            ))
        }),
{
}

/// The control path empties the cache and answers with an empty `200`; after it a
/// path that hit before misses again, and the fetch that follows fills it anew.
pub proof fn lemma_clear_then_miss(
    origin: Seq<char>,
    cache: Map<Seq<char>, Seq<u8>>,
    clear_request: Seq<char>,
    request: Seq<char>,
    body: Seq<u8>,
)
    requires
        path_of(clear_request) == Some(clear_path()),
        path_of(request) is Some,
        path_of(request)->0 != clear_path(),
    ensures
        ({
            let key = cache_key(origin, path_of(request)->0);
            let empty = Map::<Seq<char>, Seq<u8>>::empty();
            let filled = empty.insert(key, body);
            &&& decide(origin, cache, clear_request) == (empty, Outcome::Responded(
                empty_response(),
            ))
            &&& decide(origin, empty, request) == (empty, Outcome::Fetching(key))
            &&& complete(empty, key, Some(body)).0 == filled
            &&& decide(origin, filled, request) == (filled, Outcome::Responded(
                response_bytes(body, hit_status()),
            ))
        }),
{
}

/// The digits that `decimal` writes read back as the number they were written for.
pub proof fn lemma_decimal_value(n: nat)
    ensures
        digits_value(decimal(n)) == n,
        forall|i: int| 0 <= i < decimal(n).len() ==> 48 <= #[trigger] decimal(n)[i] <= 57,
    decreases n,
{
    let d = decimal(n);
    if n >= 10 {
        lemma_decimal_value(n / 10);
        assert(d.drop_last() =~= decimal(n / 10));
        assert((n / 10) * 10 + n % 10 == n) by (nonlinear_arith);
        assert(d.last() == (48 + n % 10) as u8);
        assert(((48 + n % 10) as u8 - 48) as nat == n % 10);
        assert(digits_value(d) == digits_value(d.drop_last()) * 10 + (d.last() - 48) as nat);
    } else {
        assert(d.drop_last() =~= Seq::<u8>::empty());
        assert(d.last() == (48 + n) as u8);
        assert(digits_value(d) == digits_value(d.drop_last()) * 10 + (d.last() - 48) as nat);
    }
}

/// A framed response is its head then the body as it is, and the `Content-Length`
/// header in that head holds the decimal digits of the body's exact length in bytes.
/// The answer to the control path says `Content-Length: 0` and carries no body.
pub proof fn lemma_content_length_exact(body: Seq<u8>, status: Seq<u8>)
    ensures
        ({
            let r = response_bytes(body, status);
            let head = response_head(body.len(), status);
            let digits = decimal(body.len());
            &&& head == status_line() + content_length_name() + digits + crlf() + x_cache_name()
                + status + crlf() + crlf()
            &&& digits_value(digits) == body.len()
            &&& forall|i: int| 0 <= i < digits.len() ==> 48 <= #[trigger] digits[i] <= 57
            &&& r.subrange(0, head.len() as int) == head
            &&& r.subrange(head.len() as int, r.len() as int) == body
            &&& r.len() == head.len() + body.len()
        }),
        empty_response() == status_line() + content_length_name() + decimal(0) + crlf() + crlf(),
        digits_value(decimal(0)) == 0,
{
    lemma_decimal_value(body.len());
    lemma_decimal_value(0);
    let r = response_bytes(body, status);
    let head = response_head(body.len(), status);
    assert(r.subrange(0, head.len() as int) =~= head);
    assert(r.subrange(head.len() as int, r.len() as int) =~= body);
}

/// Keys are compared exactly: two paths share a key only when they are the same path.
pub proof fn lemma_cache_key_exact(origin: Seq<char>, path_a: Seq<char>, path_b: Seq<char>)
    ensures
        cache_key(origin, path_a) == cache_key(origin, path_b) <==> path_a == path_b,
{
    if cache_key(origin, path_a) == cache_key(origin, path_b) {
        let k = cache_key(origin, path_a);
        assert(k.subrange(origin.len() as int, k.len() as int) =~= path_a);
        assert(cache_key(origin, path_b).subrange(origin.len() as int, k.len() as int) =~= path_b);
    }
}

/// Requests whose paths differ in any way (`/test` and `/test/`) never hit each
/// other's entry: filling one path's key leaves the other missing.
pub proof fn lemma_distinct_paths_miss(
    origin: Seq<char>,
    cache: Map<Seq<char>, Seq<u8>>,
    first: Seq<char>,
    second: Seq<char>,
    body: Seq<u8>,
)
    requires
        path_of(first) is Some,
        path_of(second) is Some,
        path_of(first)->0 != clear_path(),
        path_of(second)->0 != clear_path(),
        path_of(first)->0 != path_of(second)->0,
        !cache.contains_key(cache_key(origin, path_of(second)->0)),
    ensures
        ({
            let k1 = cache_key(origin, path_of(first)->0);
            let k2 = cache_key(origin, path_of(second)->0);
            let filled = complete(cache, k1, Some(body)).0;
            &&& k1 != k2
            &&& decide(origin, filled, second) == (filled, Outcome::Fetching(k2))
        }),
{
    lemma_cache_key_exact(origin, path_of(first)->0, path_of(second)->0);
}

/// Two requests for the same uncached key that arrive before either fetch ends both
/// miss, each answered with the body its own fetch brought; the store keeps the body
/// whose fetch ended last.
pub proof fn lemma_concurrent_misses(
    origin: Seq<char>,
    cache: Map<Seq<char>, Seq<u8>>,
    request: Seq<char>,
    first_body: Seq<u8>,
    second_body: Seq<u8>,
)
    requires
        path_of(request) is Some,
        path_of(request)->0 != clear_path(),
        !cache.contains_key(cache_key(origin, path_of(request)->0)),
    ensures
        ({
            let key = cache_key(origin, path_of(request)->0);
            let (c1, o1) = decide(origin, cache, request);
            let (c2, o2) = decide(origin, c1, request);
            let (c3, r1) = complete(c2, key, Some(first_body));
            let (c4, r2) = complete(c3, key, Some(second_body));
            &&& o1 == Outcome::Fetching(key)
            &&& o2 == Outcome::Fetching(key)
            &&& r1 == Some(response_bytes(first_body, miss_status()))
            &&& r2 == Some(response_bytes(second_body, miss_status()))
            &&& c4 == cache.insert(key, second_body)
        }),
{
    let key = cache_key(origin, path_of(request)->0);
    assert(cache.insert(key, first_body).insert(key, second_body) =~= cache.insert(
        key,
        second_body,
    ));
}

} // verus!
