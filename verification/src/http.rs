//! An HTTP/1.1 request parser, response builder and router.
//!
//! Reading from and writing to the network is left to the caller: the parser
//! is fed the request line, then each header line, then the body bytes whose
//! count it announced.

use vstd::prelude::*;
use crate::strmap::StrMap;
use vstd::utf8::encode_utf8;
use crate::text::{decimal, debug_string, debug_text, push_char, u64_to_string, concat2, find_char, find_from, lemma_find_from, lossy_utf8, lower, parse_unsigned, parse_unsigned_spec, str_eq, string_from_chars, to_chars, to_lower, to_upper, trim, trim_bounds, trim_string, upper, utf8_lossy};

verus! {

// ------------------------------------------------------------------
// Methods
// ------------------------------------------------------------------

/// A request method.
pub enum HttpMethod {
    Get,
    Post,
    Put,
    Delete,
    Head,
    Options,
    Unknown(String),
}

/// The abstract value of a method.
pub enum MethodV {
    Get,
    Post,
    Put,
    Delete,
    Head,
    Options,
    Unknown(Seq<char>),
}

impl View for HttpMethod {
    type V = MethodV;

    open spec fn view(&self) -> MethodV {
        match self {
            HttpMethod::Get => MethodV::Get,
            HttpMethod::Post => MethodV::Post,
            HttpMethod::Put => MethodV::Put,
            HttpMethod::Delete => MethodV::Delete,
            HttpMethod::Head => MethodV::Head,
            HttpMethod::Options => MethodV::Options,
            HttpMethod::Unknown(s) => MethodV::Unknown(s@),
        }
    }
}

/// The method named by an already upper-cased token.
pub open spec fn method_of_upper(u: Seq<char>) -> MethodV {
    if u == "GET"@ {
        MethodV::Get
    } else if u == "POST"@ {
        MethodV::Post
    } else if u == "PUT"@ {
        MethodV::Put
    } else if u == "DELETE"@ {
        MethodV::Delete
    } else if u == "HEAD"@ {
        MethodV::Head
    } else if u == "OPTIONS"@ {
        MethodV::Options
    } else {
        MethodV::Unknown(u)
    }
}

impl HttpMethod {
    /// The method for an upper-cased token; any other token is kept as `Unknown`.
    pub fn from_upper(u: &str) -> (m: HttpMethod)
        ensures
            m@ == method_of_upper(u@),
    {
        if str_eq(u, "GET") {
            HttpMethod::Get
        } else if str_eq(u, "POST") {
            HttpMethod::Post
        } else if str_eq(u, "PUT") {
            HttpMethod::Put
        } else if str_eq(u, "DELETE") {
            HttpMethod::Delete
        } else if str_eq(u, "HEAD") {
            HttpMethod::Head
        } else if str_eq(u, "OPTIONS") {
            HttpMethod::Options
        } else {
            HttpMethod::Unknown(String::from_str(u))
        }
    }

    /// The method named by `s`, compared case-insensitively (by upper-casing it).
    pub fn parse(s: &str) -> (m: HttpMethod)
        ensures
            m@ == method_of_upper(upper(s@)),
    {
        let u = to_upper(s);
        HttpMethod::from_upper(u.as_str())
    }

    /// Whether two methods are the same.
    pub fn same(&self, other: &HttpMethod) -> (r: bool)
        ensures
            r == (self@ == other@),
    {
        match (self, other) {
            (HttpMethod::Get, HttpMethod::Get) => true,
            (HttpMethod::Post, HttpMethod::Post) => true,
            (HttpMethod::Put, HttpMethod::Put) => true,
            (HttpMethod::Delete, HttpMethod::Delete) => true,
            (HttpMethod::Head, HttpMethod::Head) => true,
            (HttpMethod::Options, HttpMethod::Options) => true,
            (HttpMethod::Unknown(a), HttpMethod::Unknown(b)) => str_eq(a.as_str(), b.as_str()),
            _ => false,
        }
    }

    /// A copy of this method.
    pub fn copy(&self) -> (m: HttpMethod)
        ensures
            m@ == self@,
    {
        match self {
            HttpMethod::Get => HttpMethod::Get,
            HttpMethod::Post => HttpMethod::Post,
            HttpMethod::Put => HttpMethod::Put,
            HttpMethod::Delete => HttpMethod::Delete,
            HttpMethod::Head => HttpMethod::Head,
            HttpMethod::Options => HttpMethod::Options,
            HttpMethod::Unknown(s) => HttpMethod::Unknown(String::from_str(s.as_str())),
        }
    }
}

// ------------------------------------------------------------------
// Paths and query strings
// ------------------------------------------------------------------

/// The pieces of `s[start..]` separated by `c` (at least one, possibly empty).
pub open spec fn split_from(s: Seq<char>, c: char, start: int) -> Seq<Seq<char>>
    decreases s.len() - start,
{
    let p = find_from(s, c, start);
    proof {
        if start >= 0 {
            lemma_find_from(s, c, start);
        }
    }
    if start < 0 || start > s.len() || p < start {
        seq![s.subrange(start, s.len() as int)]
    } else {
        seq![s.subrange(start, p)].add(split_from(s, c, p + 1))
    }
}

/// Records one `key=value` piece; a piece without `=` is ignored.
pub open spec fn add_pair(m: Map<Seq<char>, Seq<char>>, piece: Seq<char>) -> Map<Seq<char>, Seq<char>> {
    let e = find_from(piece, '=', 0);
    if e < 0 {
        m
    } else {
        m.insert(piece.subrange(0, e), piece.subrange(e + 1, piece.len() as int))
    }
}

/// Records the pieces in order; a later piece with the same key wins.
pub open spec fn add_pairs(m: Map<Seq<char>, Seq<char>>, pieces: Seq<Seq<char>>) -> Map<Seq<char>, Seq<char>>
    decreases pieces.len(),
{
    if pieces.len() == 0 {
        m
    } else {
        add_pairs(add_pair(m, pieces[0]), pieces.drop_first())
    }
}

/// The parameters of a query string `k1=v1&k2=v2...`.
pub open spec fn query_params(q: Seq<char>) -> Map<Seq<char>, Seq<char>> {
    add_pairs(Map::empty(), split_from(q, '&', 0))
}

/// A raw path split into the path and its query parameters.
pub open spec fn parse_path_spec(raw: Seq<char>) -> (Seq<char>, Map<Seq<char>, Seq<char>>) {
    let q = find_from(raw, '?', 0);
    if q < 0 {
        (raw, Map::empty())
    } else {
        (raw.subrange(0, q), query_params(raw.subrange(q + 1, raw.len() as int)))
    }
}

fn add_piece(params: &mut StrMap, v: &Vec<char>, lo: usize, hi: usize)
    requires
        old(params).wf(),
        lo <= hi <= v.len(),
    ensures
        final(params).wf(),
        final(params)@ == add_pair(old(params)@, v@.subrange(lo as int, hi as int)),
{
    let ghost piece = v@.subrange(lo as int, hi as int);
    let mut e = lo;
    while e < hi && v[e] != '='
        invariant
            lo <= e <= hi <= v.len(),
            forall|k: int| lo <= k < e ==> v@[k] != '=',
        decreases hi - e,
    {
        e = e + 1;
    }
    proof {
        lemma_find_from(piece, '=', 0);
        if e < hi {
            assert(piece[e - lo] == '=');
            if find_from(piece, '=', 0) != e - lo {
                assert(piece[find_from(piece, '=', 0)] == v@[lo + find_from(piece, '=', 0)]);
            }
        } else {
            if find_from(piece, '=', 0) != -1 {
                assert(piece[find_from(piece, '=', 0)] == v@[lo + find_from(piece, '=', 0)]);
            }
        }
    }
    if e < hi {
        let key = string_from_chars(v, lo, e);
        let value = string_from_chars(v, e + 1, hi);
        proof {
            assert(key@ =~= piece.subrange(0, e - lo));
            assert(value@ =~= piece.subrange(e - lo + 1, piece.len() as int));
        }
        params.insert(key, value);
    }
}

/// Splits `raw` at the first `?` into the path and its query parameters.
pub fn parse_path(raw: &str) -> (r: (String, StrMap))
    ensures
        r.1.wf(),
        r.0@ == parse_path_spec(raw@).0,
        r.1@ == parse_path_spec(raw@).1,
{
    let v = to_chars(raw);
    let mut params = StrMap::new();
    match find_char(&v, '?', 0) {
        None => (String::from_str(raw), params),
        Some(q) => {
            assert(q < v.len());
            let path = string_from_chars(&v, 0, q);
            let ghost qs = v@.subrange(q + 1, v@.len() as int);
            let mut start = q + 1;
            proof {
                lemma_find_from(v@, '?', 0);
                assert(split_from(qs, '&', 0) == split_from(qs, '&', (start - (q + 1)) as int));
            }
            loop
                invariant
                    q + 1 <= start <= v.len(),
                    v@ == raw@,
                    q == find_from(raw@, '?', 0),
                    path@ == raw@.subrange(0, q as int),
                    qs == v@.subrange(q + 1, v@.len() as int),
                    params.wf(),
                    add_pairs(params@, split_from(qs, '&', start - (q + 1))) == query_params(qs),
                decreases v.len() - start,
            {
                let ghost off = start - (q + 1);
                proof {
                    lemma_find_from(qs, '&', off);
                }
                match find_char(&v, '&', start) {
                    None => {
                        proof {
                            lemma_find_from(v@, '&', start as int);
                            if find_from(qs, '&', off) != -1 {
                                let p = find_from(qs, '&', off);
                                assert(qs[p] == v@[p + q + 1]);
                            }
                            assert(qs.subrange(off, qs.len() as int) =~= v@.subrange(start as int, v@.len() as int));
                            assert(split_from(qs, '&', off) == seq![qs.subrange(off, qs.len() as int)]);
                            assert(seq![qs.subrange(off, qs.len() as int)].drop_first() =~= Seq::<Seq<char>>::empty());
                        }
                        let ghost m0 = params@;
                        add_piece(&mut params, &v, start, v.len());
                        proof {
                            let piece = qs.subrange(off, qs.len() as int);
                            let one = seq![piece];
                            assert(one.drop_first() =~= Seq::<Seq<char>>::empty());
                            assert(add_pairs(add_pair(m0, piece), Seq::<Seq<char>>::empty()) == add_pair(m0, piece));
                            assert(add_pairs(m0, one) == add_pairs(add_pair(m0, one[0]), one.drop_first()));
                        }
                        return (path, params);
                    },
                    Some(p) => {
                        proof {
                            lemma_find_from(v@, '&', start as int);
                            let pq = find_from(qs, '&', off);
                            assert(qs[p - q - 1] == '&');
                            if pq != p - q - 1 {
                                if pq != -1 {
                                    assert(qs[pq] == v@[pq + q + 1]);
                                }
                            }
                            assert(qs.subrange(off, p - q - 1) =~= v@.subrange(start as int, p as int));
                            let rest = split_from(qs, '&', p - q);
                            assert((seq![qs.subrange(off, p - q - 1)].add(rest)).drop_first() =~= rest);
                            assert((seq![qs.subrange(off, p - q - 1)].add(rest))[0] == qs.subrange(off, p - q - 1));
                        }
                        add_piece(&mut params, &v, start, p);
                        start = p + 1;
                    },
                }
            }
        },
    }
}

// ------------------------------------------------------------------
// Request line, headers and body
// ------------------------------------------------------------------

/// `t` split at its first two spaces into three parts (as `splitn(3, ' ')`
/// gives them when it yields three).
pub open spec fn split3(t: Seq<char>) -> Option<(Seq<char>, Seq<char>, Seq<char>)> {
    let p1 = find_from(t, ' ', 0);
    if p1 < 0 {
        None
    } else {
        let p2 = find_from(t, ' ', p1 + 1);
        if p2 < 0 {
            None
        } else {
            Some((t.subrange(0, p1), t.subrange(p1 + 1, p2), t.subrange(p2 + 1, t.len() as int)))
        }
    }
}

/// A parsed request line.
pub struct RequestLine {
    pub method: HttpMethod,
    pub path: String,
    pub query_params: StrMap,
    pub version: String,
}

/// Why a request line was refused, or what it holds.
pub open spec fn request_line_ok(line: Seq<char>, r: RequestLine) -> bool {
    let t = trim(line);
    &&& split3(t) matches Some(parts)
    &&& r.method@ == method_of_upper(upper(parts.0))
    &&& r.path@ == parse_path_spec(parts.1).0
    &&& r.query_params@ == parse_path_spec(parts.1).1
    &&& r.query_params.wf()
    &&& r.version@ == parts.2
}

/// The error text for a refused request line.
pub open spec fn request_line_error(line: Seq<char>) -> Seq<char> {
    let t = trim(line);
    if t.len() == 0 {
        "空请求"@
    } else {
        "无效的请求行: "@ + t
    }
}

/// Parses `METHOD PATH VERSION` (surrounding white space ignored).
pub fn parse_request_line(line: &str) -> (r: Result<RequestLine, String>)
    ensures
        r is Ok <==> trim(line@).len() > 0 && split3(trim(line@)) is Some,
        r matches Ok(rl) ==> request_line_ok(line@, rl),
        r matches Err(e) ==> e@ == request_line_error(line@),
{
    let v = to_chars(line);
    let (lo, hi) = trim_bounds(&v);
    let ghost t = trim(line@);
    let tv = to_chars(string_from_chars(&v, lo, hi).as_str());
    assert(tv@ == t);
    if tv.len() == 0 {
        return Err(String::from_str("空请求"));
    }
    let p1 = match find_char(&tv, ' ', 0) {
        Some(p) => p,
        None => {
            let ts = string_from_chars(&tv, 0, tv.len());
            assert(ts@ =~= t);
            return Err(concat2("无效的请求行: ", ts.as_str()));
        },
    };
    let p2 = match find_char(&tv, ' ', p1 + 1) {
        Some(p) => p,
        None => {
            let ts = string_from_chars(&tv, 0, tv.len());
            assert(ts@ =~= t);
            return Err(concat2("无效的请求行: ", ts.as_str()));
        },
    };
    let m = string_from_chars(&tv, 0, p1);
    let raw_path = string_from_chars(&tv, p1 + 1, p2);
    let version = string_from_chars(&tv, p2 + 1, tv.len());
    let method = HttpMethod::parse(m.as_str());
    let (path, query_params) = parse_path(raw_path.as_str());
    Ok(RequestLine { method, path, query_params, version })
}

/// What one header line does: whether it ends the header block, and the
/// headers after it. A line without `:` is skipped; keys are lower-cased.
pub open spec fn header_line_effect(m: Map<Seq<char>, Seq<char>>, line: Seq<char>) -> (bool, Map<Seq<char>, Seq<char>>) {
    let t = trim(line);
    if t.len() == 0 {
        (true, m)
    } else {
        let c = find_from(t, ':', 0);
        if c < 0 {
            (false, m)
        } else {
            (false, m.insert(lower(trim(t.subrange(0, c))), trim(t.subrange(c + 1, t.len() as int))))
        }
    }
}

/// Applies one header line to `headers`; returns whether it was the blank
/// line that ends the header block.
pub fn apply_header_line(headers: &mut StrMap, line: &str) -> (ended: bool)
    requires
        old(headers).wf(),
    ensures
        final(headers).wf(),
        ended == header_line_effect(old(headers)@, line@).0,
        final(headers)@ == header_line_effect(old(headers)@, line@).1,
{
    let t = trim_string(line);
    let tv = to_chars(t.as_str());
    if tv.len() == 0 {
        return true;
    }
    match find_char(&tv, ':', 0) {
        None => false,
        Some(c) => {
            let k = string_from_chars(&tv, 0, c);
            let val = string_from_chars(&tv, c + 1, tv.len());
            let key = to_lower(trim_string(k.as_str()).as_str());
            let value = trim_string(val.as_str());
            headers.insert(key, value);
            false
        },
    }
}

/// How many body bytes follow the headers: the `content-length` header's
/// value, 0 without one, or an error when it is not a number.
pub open spec fn body_length_spec(h: Map<Seq<char>, Seq<char>>) -> Option<nat> {
    if h.contains_key("content-length"@) {
        parse_unsigned_spec(h["content-length"@], usize::MAX as nat)
    } else {
        Some(0)
    }
}

/// The number of body bytes announced by the headers.
pub fn body_length(headers: &StrMap) -> (r: Result<usize, String>)
    requires
        headers.wf(),
    ensures
        r is Ok <==> body_length_spec(headers@) is Some,
        r matches Ok(n) ==> body_length_spec(headers@) == Some(n as nat),
        r matches Err(e) ==> e@ == "无效的 Content-Length"@,
{
    match headers.get("content-length") {
        None => Ok(0),
        Some(v) => match parse_unsigned(v.as_str(), usize::MAX as u64) {
            Some(n) => Ok(n as usize),
            None => Err(String::from_str("无效的 Content-Length")),
        },
    }
}

/// A parsed request.
pub struct HttpRequest {
    pub method: HttpMethod,
    pub path: String,
    pub query_params: StrMap,
    pub version: String,
    pub headers: StrMap,
    pub body: String,
}

impl HttpRequest {
    /// Both maps keep their keys distinct.
    pub open spec fn wf(&self) -> bool {
        self.query_params.wf() && self.headers.wf()
    }

    /// Puts a request together from its line, its headers and the body bytes
    /// read after them (decoded as UTF-8, invalid sequences replaced).
    pub fn assemble(line: RequestLine, headers: StrMap, body: &[u8]) -> (r: HttpRequest)
        requires
            line.query_params.wf(),
            headers.wf(),
        ensures
            r.wf(),
            r.method@ == line.method@,
            r.path@ == line.path@,
            r.query_params@ == line.query_params@,
            r.version@ == line.version@,
            r.headers@ == headers@,
            r.body@ == (if body@.len() > 0 { lossy_utf8(body@) } else { Seq::empty() }),
    {
        let text = if body.len() > 0 { utf8_lossy(body) } else { String::new() };
        HttpRequest {
            method: line.method,
            path: line.path,
            query_params: line.query_params,
            version: line.version,
            headers,
            body: text,
        }
    }
}

// ------------------------------------------------------------------
// Responses
// ------------------------------------------------------------------

/// A response status.
#[derive(Clone, Copy)]
pub enum StatusCode {
    Okay,
    Created,
    BadRequest,
    NotFound,
    MethodNotAllowed,
    InternalServerError,
}

/// The status line text of a status.
pub open spec fn status_text(s: StatusCode) -> Seq<char> {
    match s {
        StatusCode::Okay => "200 OK"@,
        StatusCode::Created => "201 Created"@,
        StatusCode::BadRequest => "400 Bad Request"@,
        StatusCode::NotFound => "404 Not Found"@,
        StatusCode::MethodNotAllowed => "405 Method Not Allowed"@,
        StatusCode::InternalServerError => "500 Internal Server Error"@,
    }
}

impl StatusCode {
    /// The code and reason phrase, such as `200 OK`.
    pub fn as_str(&self) -> (r: &'static str)
        ensures
            r@ == status_text(*self),
    {
        match self {
            StatusCode::Okay => "200 OK",
            StatusCode::Created => "201 Created",
            StatusCode::BadRequest => "400 Bad Request",
            StatusCode::NotFound => "404 Not Found",
            StatusCode::MethodNotAllowed => "405 Method Not Allowed",
            StatusCode::InternalServerError => "500 Internal Server Error",
        }
    }
}

/// A response being built.
pub struct HttpResponse {
    pub status: StatusCode,
    pub headers: Vec<(String, String)>,
    pub body: String,
}

/// The abstract value of a response.
pub struct ResponseV {
    pub status: StatusCode,
    pub headers: Seq<(Seq<char>, Seq<char>)>,
    pub body: Seq<char>,
}

impl View for HttpResponse {
    type V = ResponseV;

    open spec fn view(&self) -> ResponseV {
        ResponseV {
            status: self.status,
            headers: self.headers@.map_values(|h: (String, String)| (h.0@, h.1@)),
            body: self.body@,
        }
    }
}

/// The header lines, each `key: value` and CRLF.
pub open spec fn headers_text(h: Seq<(Seq<char>, Seq<char>)>) -> Seq<char>
    decreases h.len(),
{
    if h.len() == 0 {
        Seq::empty()
    } else {
        headers_text(h.drop_last()) + h.last().0 + ": "@ + h.last().1 + "\r\n"@
    }
}

/// The full response text: status line, `Content-Length` (the body's UTF-8
/// length), the fixed `Server` and `Connection` headers, the added headers, a
/// blank line, and the body.
pub open spec fn response_text(r: ResponseV) -> Seq<char> {
    "HTTP/1.1 "@ + status_text(r.status) + "\r\n"@
        + "Content-Length: "@ + decimal(encode_utf8(r.body).len()) + "\r\n"@
        + "Server: RustHttpServer/1.0\r\n"@
        + "Connection: close\r\n"@
        + headers_text(r.headers)
        + "\r\n"@
        + r.body
}

/// The body of the 404 page.
pub const NOT_FOUND_HTML: &'static str = r#"<!DOCTYPE html>
<html>
<head><title>404 Not Found</title></head>
<body>
<h1>404 - 页面未找到</h1>
<p>您请求的页面不存在。</p>
<p><a href="/">返回首页</a></p>
</body>
</html>"#;

/// A response with one header and a body.
pub open spec fn simple_response(status: StatusCode, content_type: Seq<char>, body: Seq<char>) -> ResponseV {
    ResponseV { status, headers: seq![("Content-Type"@, content_type)], body }
}

impl HttpResponse {
    /// A response with the given status, no headers and an empty body.
    pub fn new(status: StatusCode) -> (r: HttpResponse)
        ensures
            r@ == (ResponseV { status, headers: Seq::empty(), body: Seq::empty() }),
    {
        let r = HttpResponse { status, headers: Vec::new(), body: String::new() };
        assert(r@.headers =~= Seq::empty());
        r
    }

    /// Adds a header after the existing ones.
    pub fn header(self, key: &str, value: &str) -> (r: HttpResponse)
        ensures
            r@ == (ResponseV { headers: self@.headers.push((key@, value@)), ..self@ }),
    {
        let mut s = self;
        let ghost h0 = s@.headers;
        s.headers.push((String::from_str(key), String::from_str(value)));
        assert(s@.headers =~= h0.push((key@, value@)));
        s
    }

    /// Replaces the body.
    pub fn body(self, body: &str) -> (r: HttpResponse)
        ensures
            r@ == (ResponseV { body: body@, ..self@ }),
    {
        let mut s = self;
        s.body = String::from_str(body);
        s
    }

    /// A `200 OK` HTML response.
    pub fn html(body: &str) -> (r: HttpResponse)
        ensures
            r@ == simple_response(StatusCode::Okay, "text/html; charset=utf-8"@, body@),
    {
        let r = HttpResponse::new(StatusCode::Okay).header("Content-Type", "text/html; charset=utf-8").body(body);
        assert(r@.headers =~= seq![("Content-Type"@, "text/html; charset=utf-8"@)]);
        r
    }

    /// A `200 OK` JSON response.
    pub fn json(data: &str) -> (r: HttpResponse)
        ensures
            r@ == simple_response(StatusCode::Okay, "application/json; charset=utf-8"@, data@),
    {
        let r = HttpResponse::new(StatusCode::Okay).header("Content-Type", "application/json; charset=utf-8").body(data);
        assert(r@.headers =~= seq![("Content-Type"@, "application/json; charset=utf-8"@)]);
        r
    }

    /// The `404 Not Found` HTML page.
    pub fn not_found() -> (r: HttpResponse)
        ensures
            r@ == simple_response(StatusCode::NotFound, "text/html; charset=utf-8"@, NOT_FOUND_HTML@),
    {
        let r = HttpResponse::new(StatusCode::NotFound).header("Content-Type", "text/html; charset=utf-8").body(NOT_FOUND_HTML);
        assert(r@.headers =~= seq![("Content-Type"@, "text/html; charset=utf-8"@)]);
        r
    }

    /// The response text.
    pub fn to_text(&self) -> (s: String)
        ensures
            s@ == response_text(self@),
    {
        let mut s = String::from_str("HTTP/1.1 ");
        s.append(self.status.as_str());
        s.append("\r\n");
        s.append("Content-Length: ");
        let n = self.body.as_str().as_bytes_vec().len();
        s.append(u64_to_string(n as u64).as_str());
        s.append("\r\n");
        s.append("Server: RustHttpServer/1.0\r\n");
        s.append("Connection: close\r\n");
        let ghost prefix = s@;
        let mut i: usize = 0;
        while i < self.headers.len()
            invariant
                i <= self.headers.len(),
                s@ == prefix + headers_text(self@.headers.subrange(0, i as int)),
            decreases self.headers.len() - i,
        {
            let ghost hs = self@.headers.subrange(0, i + 1);
            assert(hs.drop_last() =~= self@.headers.subrange(0, i as int));
            s.append(self.headers[i].0.as_str());
            s.append(": ");
            s.append(self.headers[i].1.as_str());
            s.append("\r\n");
            i = i + 1;
        }
        assert(self@.headers.subrange(0, self.headers.len() as int) =~= self@.headers);
        s.append("\r\n");
        s.append(self.body.as_str());
        assert(s@ =~= response_text(self@));
        s
    }

    /// The bytes to send: the response text in UTF-8.
    pub fn build(&self) -> (b: Vec<u8>)
        ensures
            b@ == encode_utf8(response_text(self@)),
    {
        let s = self.to_text();
        s.as_str().as_bytes_vec()
    }
}

// ------------------------------------------------------------------
// Handlers and routing
// ------------------------------------------------------------------

/// The home page.
pub const INDEX_HTML: &'static str = r#"<!DOCTYPE html>
<html>
<head>
    <meta charset="utf-8">
    <title>Rust HTTP 服务器</title>
    <style>
        body { font-family: Arial, sans-serif; max-width: 800px; margin: 0 auto; padding: 20px; }
        h1 { color: #b7410e; }
        a { color: #0066cc; margin-right: 15px; }
        code { background: #f4f4f4; padding: 2px 6px; border-radius: 3px; }
        .nav { margin: 20px 0; }
    </style>
</head>
<body>
    <h1>🦀 Rust HTTP 服务器</h1>
    <p>这是一个用 Rust 标准库手写的 HTTP 服务器！</p>
    <div class="nav">
        <h3>可用页面：</h3>
        <ul>
            <li><a href="/">首页</a> - 当前页面</li>
            <li><a href="/about">关于</a> - 关于本项目</li>
            <li><a href="/api/users">用户列表 API</a> - 返回 JSON</li>
            <li><a href="/api/echo">Echo API</a> - POST 请求回显</li>
        </ul>
    </div>
    <p>服务器时间由 Rust 驱动 ⚡</p>
</body>
</html>"#;

/// The about page.
pub const ABOUT_HTML: &'static str = r#"<!DOCTYPE html>
<html>
<head>
    <meta charset="utf-8">
    <title>关于 - Rust HTTP 服务器</title>
    <style>
        body { font-family: Arial, sans-serif; max-width: 800px; margin: 0 auto; padding: 20px; }
        h1 { color: #b7410e; }
    </style>
</head>
<body>
    <h1>关于本项目</h1>
    <p>这是 Learning Rust 课程的 Lesson 083 示例。</p>
    <h2>技术栈</h2>
    <ul>
        <li>语言: Rust</li>
        <li>网络: std::net (标准库)</li>
        <li>并发: std::thread (多线程)</li>
        <li>无外部依赖</li>
    </ul>
    <h2>功能特点</h2>
    <ul>
        <li>手动解析 HTTP 请求</li>
        <li>构建 HTTP 响应</li>
        <li>简单的路由分发</li>
        <li>支持 HTML 和 JSON 响应</li>
        <li>多线程处理并发请求</li>
    </ul>
    <p><a href="/">← 返回首页</a></p>
</body>
</html>"#;

/// The body of the health check.
pub const HEALTH_JSON: &'static str = r#"{"status": "ok", "service": "rust-http-server"}"#;

/// Start of the user-list document, before the page number.
pub const USERS_JSON_PAGE: &'static str = "{\n  \"page\": ";

/// Between the page number and the limit.
pub const USERS_JSON_LIMIT: &'static str = ",\n  \"limit\": ";

/// After the limit: the fixed user list.
pub const USERS_JSON_REST: &'static str = ",\n  \"total\": 3,\n  \"users\": [\n    {\"id\": 1, \"name\": \"张三\", \"email\": \"zhangsan@example.com\"},\n    {\"id\": 2, \"name\": \"李四\", \"email\": \"lisi@example.com\"},\n    {\"id\": 3, \"name\": \"王五\", \"email\": \"wangwu@example.com\"}\n  ]\n}";

/// A query parameter read as a `u32`, or `default` when it is missing or not a number.
pub open spec fn param_or(q: Map<Seq<char>, Seq<char>>, key: Seq<char>, default: nat) -> nat {
    if q.contains_key(key) && parse_unsigned_spec(q[key], u32::MAX as nat) is Some {
        parse_unsigned_spec(q[key], u32::MAX as nat)->0
    } else {
        default
    }
}

/// The user-list document for a page and limit.
pub open spec fn users_json(page: nat, limit: nat) -> Seq<char> {
    USERS_JSON_PAGE@ + decimal(page) + USERS_JSON_LIMIT@ + decimal(limit) + USERS_JSON_REST@
}

/// The `{:?}` rendering of a method.
pub open spec fn method_debug(m: MethodV) -> Seq<char> {
    match m {
        MethodV::Get => "Get"@,
        MethodV::Post => "Post"@,
        MethodV::Put => "Put"@,
        MethodV::Delete => "Delete"@,
        MethodV::Head => "Head"@,
        MethodV::Options => "Options"@,
        MethodV::Unknown(s) => "Unknown("@ + debug_text(s) + ")"@,
    }
}

/// `s` with every `"` replaced by a backslash and a quote.
pub open spec fn escape_quotes(s: Seq<char>) -> Seq<char>
    decreases s.len(),
{
    if s.len() == 0 {
        Seq::empty()
    } else if s.last() == '"' {
        escape_quotes(s.drop_last()) + seq!['\\', '"']
    } else {
        escape_quotes(s.drop_last()).push(s.last())
    }
}

/// The echo document for a request.
pub open spec fn echo_json(m: MethodV, path: Seq<char>, content_type: Seq<char>, body: Seq<char>, headers_count: nat) -> Seq<char> {
    "{\n  \"method\": \""@ + method_debug(m)
        + "\",\n  \"path\": \""@ + path
        + "\",\n  \"content_type\": \""@ + content_type
        + "\",\n  \"body_length\": "@ + decimal(encode_utf8(body).len())
        + ",\n  \"body\": \""@ + escape_quotes(body)
        + "\",\n  \"headers_count\": "@ + decimal(headers_count)
        + "\n}"@
}

/// The `{:?}` rendering of a method.
pub fn method_debug_string(m: &HttpMethod) -> (s: String)
    ensures
        s@ == method_debug(m@),
{
    match m {
        HttpMethod::Get => String::from_str("Get"),
        HttpMethod::Post => String::from_str("Post"),
        HttpMethod::Put => String::from_str("Put"),
        HttpMethod::Delete => String::from_str("Delete"),
        HttpMethod::Head => String::from_str("Head"),
        HttpMethod::Options => String::from_str("Options"),
        HttpMethod::Unknown(u) => {
            let mut s = String::from_str("Unknown(");
            s.append(debug_string(u.as_str()).as_str());
            s.append(")");
            s
        },
    }
}

/// Escapes each `"` in `s` with a backslash.
pub fn escape_quotes_string(s: &str) -> (r: String)
    ensures
        r@ == escape_quotes(s@),
{
    let v = to_chars(s);
    let mut r = String::new();
    let mut i: usize = 0;
    while i < v.len()
        invariant
            i <= v.len(),
            v@ == s@,
            r@ == escape_quotes(v@.subrange(0, i as int)),
        decreases v.len() - i,
    {
        let ghost pre = v@.subrange(0, i as int);
        let ghost next = v@.subrange(0, i + 1);
        assert(next.drop_last() =~= pre);
        if v[i] == '"' {
            push_char(&mut r, '\\');
            push_char(&mut r, '"');
            assert(r@ =~= escape_quotes(pre) + seq!['\\', '"']);
        } else {
            push_char(&mut r, v[i]);
        }
        i = i + 1;
    }
    assert(v@.subrange(0, v@.len() as int) =~= v@);
    r
}

fn param_u32(q: &StrMap, key: &str, default: u32) -> (r: u32)
    requires
        q.wf(),
    ensures
        r as nat == param_or(q@, key@, default as nat),
{
    match q.get(key) {
        None => default,
        Some(v) => match parse_unsigned(v.as_str(), u32::MAX as u64) {
            Some(n) => n as u32,
            None => default,
        },
    }
}

/// A route's handler.
#[derive(Clone, Copy)]
pub enum Handler {
    Index,
    About,
    Users,
    Echo,
    Health,
}

/// The response a handler gives to a request.
pub open spec fn handler_response(h: Handler, req: HttpRequest) -> ResponseV {
    match h {
        Handler::Index => simple_response(StatusCode::Okay, "text/html; charset=utf-8"@, INDEX_HTML@),
        Handler::About => simple_response(StatusCode::Okay, "text/html; charset=utf-8"@, ABOUT_HTML@),
        Handler::Users => simple_response(StatusCode::Okay, "application/json; charset=utf-8"@,
            users_json(param_or(req.query_params@, "page"@, 1), param_or(req.query_params@, "limit"@, 10))),
        Handler::Echo => simple_response(StatusCode::Okay, "application/json; charset=utf-8"@,
            echo_json(req.method@, req.path@,
                if req.headers@.contains_key("content-type"@) { req.headers@["content-type"@] } else { "unknown"@ },
                req.body@, req.headers@.dom().len())),
        Handler::Health => simple_response(StatusCode::Okay, "application/json; charset=utf-8"@, HEALTH_JSON@),
    }
}

/// The home page.
pub fn handle_index(_req: &HttpRequest) -> (r: HttpResponse)
    ensures
        r@ == simple_response(StatusCode::Okay, "text/html; charset=utf-8"@, INDEX_HTML@),
{
    HttpResponse::html(INDEX_HTML)
}

/// The about page.
pub fn handle_about(_req: &HttpRequest) -> (r: HttpResponse)
    ensures
        r@ == simple_response(StatusCode::Okay, "text/html; charset=utf-8"@, ABOUT_HTML@),
{
    HttpResponse::html(ABOUT_HTML)
}

/// The user list, paged by the `page` (default 1) and `limit` (default 10) parameters.
pub fn handle_users(req: &HttpRequest) -> (r: HttpResponse)
    requires
        req.wf(),
    ensures
        r@ == handler_response(Handler::Users, *req),
{
    let page = param_u32(&req.query_params, "page", 1);
    let limit = param_u32(&req.query_params, "limit", 10);
    let mut json = String::from_str(USERS_JSON_PAGE);
    json.append(u64_to_string(page as u64).as_str());
    json.append(USERS_JSON_LIMIT);
    json.append(u64_to_string(limit as u64).as_str());
    json.append(USERS_JSON_REST);
    HttpResponse::json(json.as_str())
}

/// Echoes the method, path, content type, body and header count as JSON.
pub fn handle_echo(req: &HttpRequest) -> (r: HttpResponse)
    requires
        req.wf(),
    ensures
        r@ == handler_response(Handler::Echo, *req),
{
    let content_type = match req.headers.get("content-type") {
        Some(c) => String::from_str(c.as_str()),
        None => String::from_str("unknown"),
    };
    let mut json = String::from_str("{\n  \"method\": \"");
    json.append(method_debug_string(&req.method).as_str());
    json.append("\",\n  \"path\": \"");
    json.append(req.path.as_str());
    json.append("\",\n  \"content_type\": \"");
    json.append(content_type.as_str());
    json.append("\",\n  \"body_length\": ");
    let n = req.body.as_str().as_bytes_vec().len();
    json.append(u64_to_string(n as u64).as_str());
    json.append(",\n  \"body\": \"");
    json.append(escape_quotes_string(req.body.as_str()).as_str());
    json.append("\",\n  \"headers_count\": ");
    let hc = req.headers.len();
    json.append(u64_to_string(hc as u64).as_str());
    json.append("\n}");
    HttpResponse::json(json.as_str())
}

/// The health check.
pub fn handle_health(_req: &HttpRequest) -> (r: HttpResponse)
    ensures
        r@ == simple_response(StatusCode::Okay, "application/json; charset=utf-8"@, HEALTH_JSON@),
{
    HttpResponse::json(HEALTH_JSON)
}

impl Handler {
    /// Runs the handler.
    pub fn call(&self, req: &HttpRequest) -> (r: HttpResponse)
        requires
            req.wf(),
        ensures
            r@ == handler_response(*self, *req),
    {
        match self {
            Handler::Index => handle_index(req),
            Handler::About => handle_about(req),
            Handler::Users => handle_users(req),
            Handler::Echo => handle_echo(req),
            Handler::Health => handle_health(req),
        }
    }
}

/// One route: a method, a path and its handler.
pub struct Route {
    pub method: HttpMethod,
    pub path: String,
    pub handler: Handler,
}

/// A route table, searched in registration order.
pub struct Router {
    pub routes: Vec<Route>,
}

/// The routes as values.
pub open spec fn routes_view(routes: Seq<Route>) -> Seq<(MethodV, Seq<char>, Handler)> {
    routes.map_values(|r: Route| (r.method@, r.path@, r.handler))
}

/// The handler of the first route at or after `i` that matches the method and path.
pub open spec fn first_match(rs: Seq<(MethodV, Seq<char>, Handler)>, m: MethodV, p: Seq<char>, i: int) -> Option<Handler>
    decreases rs.len() - i,
{
    if i < 0 || i >= rs.len() {
        None
    } else if rs[i].0 == m && rs[i].1 == p {
        Some(rs[i].2)
    } else {
        first_match(rs, m, p, i + 1)
    }
}

/// Whether some route has path `p`.
pub open spec fn has_path(rs: Seq<(MethodV, Seq<char>, Handler)>, p: Seq<char>) -> bool {
    exists|i: int| 0 <= i < rs.len() && rs[i].1 == p
}

impl Router {
    /// The routes as values.
    pub open spec fn table(&self) -> Seq<(MethodV, Seq<char>, Handler)> {
        routes_view(self.routes@)
    }

    /// An empty route table.
    pub fn new() -> (r: Router)
        ensures
            r.table() == Seq::<(MethodV, Seq<char>, Handler)>::empty(),
    {
        let r = Router { routes: Vec::new() };
        assert(r.table() =~= Seq::<(MethodV, Seq<char>, Handler)>::empty());
        r
    }

    fn add(self, method: HttpMethod, path: &str, handler: Handler) -> (r: Router)
        ensures
            r.table() == self.table().push((method@, path@, handler)),
    {
        let mut s = self;
        let ghost t0 = s.table();
        s.routes.push(Route { method, path: String::from_str(path), handler });
        assert(s.table() =~= t0.push((method@, path@, handler)));
        s
    }

    /// Registers a GET route.
    pub fn get(self, path: &str, handler: Handler) -> (r: Router)
        ensures
            r.table() == self.table().push((MethodV::Get, path@, handler)),
    {
        self.add(HttpMethod::Get, path, handler)
    }

    /// Registers a POST route.
    pub fn post(self, path: &str, handler: Handler) -> (r: Router)
        ensures
            r.table() == self.table().push((MethodV::Post, path@, handler)),
    {
        self.add(HttpMethod::Post, path, handler)
    }

    /// The handler of the first route matching the method and path.
    pub fn find_handler(&self, method: &HttpMethod, path: &str) -> (r: Option<Handler>)
        ensures
            r == first_match(self.table(), method@, path@, 0),
    {
        let mut i: usize = 0;
        while i < self.routes.len()
            invariant
                i <= self.routes.len(),
                first_match(self.table(), method@, path@, 0) == first_match(self.table(), method@, path@, i as int),
            decreases self.routes.len() - i,
        {
            let route = &self.routes[i];
            if route.method.same(method) && str_eq(route.path.as_str(), path) {
                return Some(route.handler);
            }
            i = i + 1;
        }
        None
    }

    /// Whether any route has this path, whatever its method.
    pub fn path_exists(&self, path: &str) -> (r: bool)
        ensures
            r == has_path(self.table(), path@),
    {
        let mut i: usize = 0;
        while i < self.routes.len()
            invariant
                i <= self.routes.len(),
                forall|k: int| 0 <= k < i ==> self.table()[k].1 != path@,
            decreases self.routes.len() - i,
        {
            if str_eq(self.routes[i].path.as_str(), path) {
                assert(self.table()[i as int].1 == path@);
                return true;
            }
            i = i + 1;
        }
        false
    }
}

/// The server's route table: `/`, `/about`, `/api/users`, `/api/echo` (GET
/// and POST) and `/health`.
pub fn server_router() -> (r: Router)
    ensures
        r.table() == seq![
            (MethodV::Get, "/"@, Handler::Index),
            (MethodV::Get, "/about"@, Handler::About),
            (MethodV::Get, "/api/users"@, Handler::Users),
            (MethodV::Get, "/api/echo"@, Handler::Echo),
            (MethodV::Post, "/api/echo"@, Handler::Echo),
            (MethodV::Get, "/health"@, Handler::Health),
        ],
{
    let r = Router::new()
        .get("/", Handler::Index)
        .get("/about", Handler::About)
        .get("/api/users", Handler::Users)
        .get("/api/echo", Handler::Echo)
        .post("/api/echo", Handler::Echo)
        .get("/health", Handler::Health);
    assert(r.table() =~= seq![
            (MethodV::Get, "/"@, Handler::Index),
            (MethodV::Get, "/about"@, Handler::About),
            (MethodV::Get, "/api/users"@, Handler::Users),
            (MethodV::Get, "/api/echo"@, Handler::Echo),
            (MethodV::Post, "/api/echo"@, Handler::Echo),
            (MethodV::Get, "/health"@, Handler::Health),
        ]);
    r
}

/// The answer to a request that parsed: the matching route's response; 405
/// when the path is routed for other methods only; 404 otherwise.
pub open spec fn routed_response(table: Seq<(MethodV, Seq<char>, Handler)>, req: HttpRequest) -> ResponseV {
    match first_match(table, req.method@, req.path@, 0) {
        Some(h) => handler_response(h, req),
        None => if has_path(table, req.path@) {
            ResponseV {
                status: StatusCode::MethodNotAllowed,
                headers: seq![("Content-Type"@, "text/plain; charset=utf-8"@), ("Allow"@, "GET, POST"@)],
                body: "405 Method Not Allowed"@,
            }
        } else {
            simple_response(StatusCode::NotFound, "text/html; charset=utf-8"@, NOT_FOUND_HTML@)
        },
    }
}

/// The answer to a request that could not be parsed.
pub open spec fn bad_request_response(e: Seq<char>) -> ResponseV {
    simple_response(StatusCode::BadRequest, "text/plain; charset=utf-8"@, "400 Bad Request: "@ + e)
}

/// Decides the response for a parse outcome.
pub fn respond(router: &Router, parsed: &Result<HttpRequest, String>) -> (r: HttpResponse)
    requires
        parsed matches Ok(req) ==> req.wf(),
    ensures
        parsed matches Ok(req) ==> r@ == routed_response(router.table(), *req),
        parsed matches Err(e) ==> r@ == bad_request_response(e@),
{
    match parsed {
        Ok(req) => match router.find_handler(&req.method, req.path.as_str()) {
            Some(h) => h.call(req),
            None => {
                if router.path_exists(req.path.as_str()) {
                    let r = HttpResponse::new(StatusCode::MethodNotAllowed)
                        .header("Content-Type", "text/plain; charset=utf-8")
                        .header("Allow", "GET, POST")
                        .body("405 Method Not Allowed");
                    assert(r@.headers =~= seq![("Content-Type"@, "text/plain; charset=utf-8"@), ("Allow"@, "GET, POST"@)]);
                    r
                } else {
                    HttpResponse::not_found()
                }
            },
        },
        Err(e) => {
            let body = concat2("400 Bad Request: ", e.as_str());
            let r = HttpResponse::new(StatusCode::BadRequest)
                .header("Content-Type", "text/plain; charset=utf-8")
                .body(body.as_str());
            assert(r@.headers =~= seq![("Content-Type"@, "text/plain; charset=utf-8"@)]);
            r
        },
    }
}

} // verus!
