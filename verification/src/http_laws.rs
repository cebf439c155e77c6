//! Laws of the HTTP layer stated directly over the input text: which colon
//! splits a header line, that the echo document reports the body's UTF-8
//! byte count, and that method tokens and methods correspond one to one.

use vstd::prelude::*;
use vstd::utf8::{encode_utf8, encode_scalar, char_is_scalar};
use crate::http::{echo_json, escape_quotes, header_line_effect, method_debug, method_of_upper, MethodV};
use crate::text::{decimal, find_from, lemma_find_from, lower, trim};

verus! {

/// A header line splits at its FIRST colon: the key is the lower-cased,
/// trimmed text before it (so the key itself holds no colon) and the value is
/// the trimmed text after it. A blank line ends the header block, and a line
/// without a colon changes nothing.
pub proof fn lemma_header_splits_at_first_colon(m: Map<Seq<char>, Seq<char>>, line: Seq<char>, c: int)
    ensures
        trim(line).len() == 0 ==> header_line_effect(m, line) == (true, m),
        trim(line).len() > 0 && (forall|j: int| 0 <= j < trim(line).len() ==> trim(line)[j] != ':')
            ==> header_line_effect(m, line) == (false, m),
        0 <= c < trim(line).len() && trim(line)[c] == ':'
            && (forall|j: int| 0 <= j < c ==> trim(line)[j] != ':')
            ==> header_line_effect(m, line) == (
                false,
                m.insert(lower(trim(trim(line).subrange(0, c))), trim(trim(line).subrange(c + 1, trim(line).len() as int))),
            ),
{
    let t = trim(line);
    lemma_find_from(t, ':', 0);
    let f = find_from(t, ':', 0);
    if t.len() > 0 && (forall|j: int| 0 <= j < t.len() ==> t[j] != ':') {
        if f != -1 {
            assert(t[f] == ':');
        }
    }
    if 0 <= c < t.len() && t[c] == ':' && (forall|j: int| 0 <= j < c ==> t[j] != ':') {
        if f == -1 {
            assert(t[c] != ':');
        } else if f < c {
            assert(t[f] != ':');
        } else if f > c {
            assert(t[c] != ':');
        }
        assert(f == c);
    }
}

/// The number of bytes that UTF-8 uses for one character.
pub open spec fn utf8_width(c: char) -> nat {
    let u = c as u32;
    if u <= 0x7F {
        1
    } else if u <= 0x7FF {
        2
    } else if u <= 0xFFFF {
        3
    } else {
        4
    }
}

/// The number of bytes of the UTF-8 encoding of a text, character by character.
pub open spec fn utf8_byte_count(s: Seq<char>) -> nat
    decreases s.len(),
{
    if s.len() == 0 {
        0
    } else {
        utf8_width(s[0]) + utf8_byte_count(s.drop_first())
    }
}

/// Encoding a text in UTF-8 takes one to four bytes per character: exactly
/// one for ASCII, more for anything else.
pub proof fn lemma_utf8_byte_count(s: Seq<char>)
    ensures
        encode_utf8(s).len() == utf8_byte_count(s),
        s.len() <= utf8_byte_count(s) <= 4 * s.len(),
        (forall|i: int| 0 <= i < s.len() ==> (s[i] as u32) <= 0x7F) ==> utf8_byte_count(s) == s.len(),
        (exists|i: int| 0 <= i < s.len() && (s[i] as u32) > 0x7F) ==> utf8_byte_count(s) > s.len(),
    decreases s.len(),
{
    if s.len() > 0 {
        let rest = s.drop_first();
        lemma_utf8_byte_count(rest);
        char_is_scalar(s[0]);
        assert(encode_scalar(s[0] as u32).len() == utf8_width(s[0]));
        if exists|i: int| 0 <= i < s.len() && (s[i] as u32) > 0x7F {
            let i = choose|i: int| 0 <= i < s.len() && (s[i] as u32) > 0x7F;
            if i > 0 {
                assert(rest[i - 1] == s[i]);
            }
        }
        if forall|i: int| 0 <= i < s.len() ==> (s[i] as u32) <= 0x7F {
            assert forall|i: int| 0 <= i < rest.len() implies (rest[i] as u32) <= 0x7F by {
                assert(rest[i] == s[i + 1]);
            }
        }
    }
}

/// The echo document up to the body length.
pub open spec fn echo_head(m: MethodV, path: Seq<char>, content_type: Seq<char>) -> Seq<char> {
    "{\n  \"method\": \""@ + method_debug(m) + "\",\n  \"path\": \""@ + path + "\",\n  \"content_type\": \""@
        + content_type + "\",\n  \"body_length\": "@
}

/// The echo document after the body length.
pub open spec fn echo_tail(body: Seq<char>, headers_count: nat) -> Seq<char> {
    ",\n  \"body\": \""@ + escape_quotes(body) + "\",\n  \"headers_count\": "@ + decimal(headers_count) + "\n}"@
}

/// The echo document's `body_length` is the number of bytes of the body in
/// UTF-8 (what a client announces as Content-Length), not its number of
/// characters.
pub proof fn lemma_echo_reports_byte_length(
    m: MethodV,
    path: Seq<char>,
    content_type: Seq<char>,
    body: Seq<char>,
    headers_count: nat,
)
    ensures
        echo_json(m, path, content_type, body, headers_count)
            == echo_head(m, path, content_type) + decimal(utf8_byte_count(body)) + echo_tail(body, headers_count),
{
    lemma_utf8_byte_count(body);
    assert(echo_json(m, path, content_type, body, headers_count)
        =~= echo_head(m, path, content_type) + decimal(utf8_byte_count(body)) + echo_tail(body, headers_count));
}

/// The token that names a method: the upper-case name of a known method, or
/// the token kept by an unknown one.
pub open spec fn method_token(m: MethodV) -> Seq<char> {
    match m {
        MethodV::Get => "GET"@,
        MethodV::Post => "POST"@,
        MethodV::Put => "PUT"@,
        MethodV::Delete => "DELETE"@,
        MethodV::Head => "HEAD"@,
        MethodV::Options => "OPTIONS"@,
        MethodV::Unknown(u) => u,
    }
}

/// Every upper-cased token names the method it came from: reading a token
/// and naming the method gives the token back, so distinct tokens never give
/// the same method.
pub proof fn lemma_method_token_round_trip(u: Seq<char>, v: Seq<char>)
    ensures
        method_token(method_of_upper(u)) == u,
        method_of_upper(u) == method_of_upper(v) ==> u == v,
{
}

} // verus!
