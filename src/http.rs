//! The wire format: the path of an inbound request line, and the framing of
//! a response.
use vstd::prelude::*;
use vstd::string::*;

verus! {

/// Whether `c` is white space in Unicode's sense (the `White_Space` property).
pub open spec fn is_white_space(c: char) -> bool {
    let u = c as u32;
    (0x09 <= u && u <= 0x0d) || u == 0x20 || u == 0x85 || u == 0xa0 || u == 0x1680 || (0x2000
        <= u && u <= 0x200a) || u == 0x2028 || u == 0x2029 || u == 0x202f || u == 0x205f || u
        == 0x3000
}

/// The index of the first line feed in `s` at or after `i`, or the length of `s`.
pub open spec fn line_end(s: Seq<char>, i: int) -> int
    decreases s.len() - i,
{
    if i >= s.len() || s[i] == '\n' {
        i
    } else {
        line_end(s, i + 1)
    }
}

/// The index of the first character of `s` at or after `i` that is not white space,
/// or the length of `s`.
pub open spec fn skip_space(s: Seq<char>, i: int) -> int
    decreases s.len() - i,
{
    if i >= s.len() || !is_white_space(s[i]) {
        i
    } else {
        skip_space(s, i + 1)
    }
}

/// The index of the first white space character of `s` at or after `i`,
/// or the length of `s`.
pub open spec fn word_end(s: Seq<char>, i: int) -> int
    decreases s.len() - i,
{
    if i >= s.len() || is_white_space(s[i]) {
        i
    } else {
        word_end(s, i + 1)
    }
}

/// The first line of a request, without its line feed.
pub open spec fn first_line(request: Seq<char>) -> Seq<char> {
    request.subrange(0, line_end(request, 0))
}

/// The path of a request: the second word of its first line, where words are
/// separated by white space; none where that line has fewer than two words.
pub open spec fn path_of(request: Seq<char>) -> Option<Seq<char>> {
    let line = first_line(request);
    let method_start = skip_space(line, 0);
    let method_end = word_end(line, method_start);
    let path_start = skip_space(line, method_end);
    if path_start < line.len() {
        Some(line.subrange(path_start, word_end(line, path_start)))
    } else {
        None
    }
}

/// The ASCII decimal digits of `n`, most significant first, without leading zeros.
pub open spec fn decimal(n: nat) -> Seq<u8>
    decreases n,
{
    if n < 10 {
        seq![(48 + n) as u8]
    } else {
        decimal(n / 10).push((48 + n % 10) as u8)
    }
}

/// The number that a sequence of ASCII decimal digits denotes.
pub open spec fn digits_value(d: Seq<u8>) -> nat
    decreases d.len(),
{
    if d.len() == 0 {
        0
    } else {
        digits_value(d.drop_last()) * 10 + (d.last() - 48) as nat
    }
}

/// `\r\n`
pub open spec fn crlf() -> Seq<u8> {
    seq![13u8, 10u8]
}

/// `HTTP/1.1 200 OK\r\n`
pub open spec fn status_line() -> Seq<u8> {
    seq![72u8, 84, 84, 80, 47, 49, 46, 49, 32, 50, 48, 48, 32, 79, 75, 13, 10]
}

/// `Content-Length: `
pub open spec fn content_length_name() -> Seq<u8> {
    seq![67u8, 111, 110, 116, 101, 110, 116, 45, 76, 101, 110, 103, 116, 104, 58, 32]
}

/// `X-Cache: `
pub open spec fn x_cache_name() -> Seq<u8> {
    seq![88u8, 45, 67, 97, 99, 104, 101, 58, 32]
}

/// The head of a response whose body is `len` bytes long and whose cache status is `status`:
/// the status line, a `Content-Length` header, an `X-Cache` header and a blank line.
pub open spec fn response_head(len: nat, status: Seq<u8>) -> Seq<u8> {
    status_line() + content_length_name() + decimal(len) + crlf() + x_cache_name() + status
        + crlf() + crlf()
}

/// A whole response: its head, then the body bytes as they are.
pub open spec fn response_bytes(body: Seq<u8>, status: Seq<u8>) -> Seq<u8> {
    response_head(body.len(), status) + body
}

/// The answer to the control path: a status line, `Content-Length: 0`, a blank line,
/// and no body.
pub open spec fn empty_response() -> Seq<u8> {
    status_line() + content_length_name() + decimal(0) + crlf() + crlf()
}

/// Whether `c` is white space, as `is_white_space` says.
pub fn white_space(c: char) -> (r: bool)
    ensures
        r == is_white_space(c),
{
    let u = c as u32;
    (0x09 <= u && u <= 0x0d) || u == 0x20 || u == 0x85 || u == 0xa0 || u == 0x1680 || (0x2000
        <= u && u <= 0x200a) || u == 0x2028 || u == 0x2029 || u == 0x202f || u == 0x205f || u
        == 0x3000
}

/// Extracts the path from a raw request: the second word of its first line.
pub fn parse_path(request: &str) -> (r: Option<String>)
    ensures
        r matches Some(p) ==> path_of(request@) == Some(p@),
        r is None ==> path_of(request@) is None,
{
    let len = request.unicode_len();
    let ghost s = request@;
    let mut end: usize = 0;
    while end < len && request.get_char(end) != '\n'
        invariant
            len == s.len(),
            s == request@,
            end <= len,
            line_end(s, end as int) == line_end(s, 0),
        decreases len - end,
    {
        end = end + 1;
    }
    let ghost line = s.subrange(0, end as int);
    assert(line == first_line(s));
    let mut i: usize = 0;
    while i < end && white_space(request.get_char(i))
        invariant
            len == s.len(),
            s == request@,
            end <= len,
            i <= end,
            line == s.subrange(0, end as int),
            skip_space(line, i as int) == skip_space(line, 0),
        decreases end - i,
    {
        i = i + 1;
    }
    while i < end && !white_space(request.get_char(i))
        invariant
            len == s.len(),
            s == request@,
            end <= len,
            i <= end,
            line == s.subrange(0, end as int),
            word_end(line, i as int) == word_end(line, skip_space(line, 0)),
        decreases end - i,
    {
        i = i + 1;
    }
    while i < end && white_space(request.get_char(i))
        invariant
            len == s.len(),
            s == request@,
            end <= len,
            i <= end,
            line == s.subrange(0, end as int),
            skip_space(line, i as int) == skip_space(line, word_end(line, skip_space(line, 0))),
        decreases end - i,
    {
        i = i + 1;
    }
    if i >= end {
        return None;
    }
    let start = i;
    while i < end && !white_space(request.get_char(i))
        invariant
            len == s.len(),
            s == request@,
            end <= len,
            start <= i <= end,
            line == s.subrange(0, end as int),
            word_end(line, i as int) == word_end(line, start as int),
        decreases end - i,
    {
        i = i + 1;
    }
    let word = request.substring_char(start, i);
    assert(word@ =~= line.subrange(start as int, i as int));
    Some(word.to_owned())
}

/// Appends the decimal digits of `n` to `out`.
pub fn push_decimal(out: &mut Vec<u8>, n: usize)
    ensures
        final(out)@ == old(out)@ + decimal(n as nat),
    decreases n,
{
    if n >= 10 {
        push_decimal(out, n / 10);
    }
    out.push(48u8 + (n % 10) as u8);
    assert(final(out)@ =~= old(out)@ + decimal(n as nat)) by {
        if n >= 10 {
            assert(decimal(n as nat) =~= decimal((n / 10) as nat).push((48 + n % 10) as u8));
        }
    }
}

/// Appends each byte of `src` to `out`.
fn push_bytes(out: &mut Vec<u8>, src: &[u8])
    ensures
        final(out)@ == old(out)@ + src@,
{
    let mut i: usize = 0;
    while i < src.len()
        invariant
            0 <= i <= src@.len(),
            out@ == old(out)@ + src@.subrange(0, i as int),
        decreases src@.len() - i,
    {
        out.push(src[i]);
        i = i + 1;
        assert(out@ =~= old(out)@ + src@.subrange(0, i as int));
    }
    assert(src@.subrange(0, i as int) =~= src@);
}

/// Frames `body` as a `200 OK` response whose `X-Cache` header carries `cache_status`.
pub fn format_http_response(body: Vec<u8>, cache_status: &str) -> (r: Vec<u8>)
    ensures
        r@ == response_bytes(body@, cache_status.spec_bytes()),
{
    frame_response(body, cache_status.as_bytes())
}

/// Frames `body` as a `200 OK` response whose `X-Cache` header carries the bytes `status`.
pub fn frame_response(body: Vec<u8>, status: &[u8]) -> (r: Vec<u8>)
    ensures
        r@ == response_bytes(body@, status@),
{
    let mut body = body;
    let ghost b = body@;
    let mut out: Vec<u8> = vec![72u8, 84, 84, 80, 47, 49, 46, 49, 32, 50, 48, 48, 32, 79, 75, 13, 10,
        67, 111, 110, 116, 101, 110, 116, 45, 76, 101, 110, 103, 116, 104, 58, 32];
    assert(out@ =~= status_line() + content_length_name());
    push_decimal(&mut out, body.len());
    let tail: Vec<u8> = vec![13u8, 10, 88, 45, 67, 97, 99, 104, 101, 58, 32];
    assert(tail@ =~= crlf() + x_cache_name());
    push_bytes(&mut out, tail.as_slice());
    push_bytes(&mut out, status);
    let blank: Vec<u8> = vec![13u8, 10, 13, 10];
    assert(blank@ =~= crlf() + crlf());
    push_bytes(&mut out, blank.as_slice());
    out.append(&mut body);
    assert(out@ =~= response_bytes(b, status@));
    out
}

/// The answer to the control path, as `empty_response` gives it.
pub fn format_empty_response() -> (r: Vec<u8>)
    ensures
        r@ == empty_response(),
{
    let r: Vec<u8> = vec![72u8, 84, 84, 80, 47, 49, 46, 49, 32, 50, 48, 48, 32, 79, 75, 13, 10,
        67, 111, 110, 116, 101, 110, 116, 45, 76, 101, 110, 103, 116, 104, 58, 32, 48, 13, 10, 13,
        10];
    assert(decimal(0) =~= seq![48u8]);
    assert(r@ =~= empty_response());
    r
}

} // verus!
