//! The play server's small HTTP interface: reading a request, routing it, and the
//! bytes of each response.
//!
//! `GET /health` answers `ok`; `POST /play` takes a standard MIDI file, `POST /play-mml`
//! an MML text, and `POST /stop` stops playback. Every other path is not found.
use vstd::prelude::*;

use crate::text::{
    chars_are, decimal_string, find_bytes_from, lowercase_chars, parse_usize, split_chars,
    string_bytes, string_chars, sub_bytes, trim_chars, whitespace_tokens,
};
use vstd::utf8::{decode_utf8, encode_utf8, valid_utf8};

verus! {

broadcast use vstd::string::group_string_axioms;

/// Requests whose headers do not end within this many bytes are refused.
pub const MAX_HEADER_BYTES: usize = 16384;

/// The largest body the server accepts.
pub const MAX_BODY_BYTES: usize = 1048576;

#[derive(Clone, Copy, Debug, PartialEq, Eq, Structural)]
pub enum StatusCode {
    Okay,
    Accepted,
    NoContent,
    BadRequest,
    NotFound,
    MethodNotAllowed,
    LengthRequired,
    PayloadTooLarge,
    UnsupportedMediaType,
    RequestHeaderFieldsTooLarge,
    InternalServerError,
}

pub open spec fn spec_status_code(status: StatusCode) -> u16 {
    match status {
        StatusCode::Okay => 200,
        StatusCode::Accepted => 202,
        StatusCode::NoContent => 204,
        StatusCode::BadRequest => 400,
        StatusCode::NotFound => 404,
        StatusCode::MethodNotAllowed => 405,
        StatusCode::LengthRequired => 411,
        StatusCode::PayloadTooLarge => 413,
        StatusCode::UnsupportedMediaType => 415,
        StatusCode::RequestHeaderFieldsTooLarge => 431,
        StatusCode::InternalServerError => 500,
    }
}

pub open spec fn spec_reason(status: StatusCode) -> Seq<char> {
    match status {
        StatusCode::Okay => "OK"@,
        StatusCode::Accepted => "Accepted"@,
        StatusCode::NoContent => "No Content"@,
        StatusCode::BadRequest => "Bad Request"@,
        StatusCode::NotFound => "Not Found"@,
        StatusCode::MethodNotAllowed => "Method Not Allowed"@,
        StatusCode::LengthRequired => "Length Required"@,
        StatusCode::PayloadTooLarge => "Payload Too Large"@,
        StatusCode::UnsupportedMediaType => "Unsupported Media Type"@,
        StatusCode::RequestHeaderFieldsTooLarge => "Request Header Fields Too Large"@,
        StatusCode::InternalServerError => "Internal Server Error"@,
    }
}

impl StatusCode {
    pub fn code(self) -> (code: u16)
        ensures
            code == spec_status_code(self),
    {
        match self {
            StatusCode::Okay => 200,
            StatusCode::Accepted => 202,
            StatusCode::NoContent => 204,
            StatusCode::BadRequest => 400,
            StatusCode::NotFound => 404,
            StatusCode::MethodNotAllowed => 405,
            StatusCode::LengthRequired => 411,
            StatusCode::PayloadTooLarge => 413,
            StatusCode::UnsupportedMediaType => 415,
            StatusCode::RequestHeaderFieldsTooLarge => 431,
            StatusCode::InternalServerError => 500,
        }
    }

    pub fn reason(self) -> (reason: &'static str)
        ensures
            reason@ == spec_reason(self),
    {
        match self {
            StatusCode::Okay => "OK",
            StatusCode::Accepted => "Accepted",
            StatusCode::NoContent => "No Content",
            StatusCode::BadRequest => "Bad Request",
            StatusCode::NotFound => "Not Found",
            StatusCode::MethodNotAllowed => "Method Not Allowed",
            StatusCode::LengthRequired => "Length Required",
            StatusCode::PayloadTooLarge => "Payload Too Large",
            StatusCode::UnsupportedMediaType => "Unsupported Media Type",
            StatusCode::RequestHeaderFieldsTooLarge => "Request Header Fields Too Large",
            StatusCode::InternalServerError => "Internal Server Error",
        }
    }
}

// ---------------------------------------------------------------------------
// Responses.
// ---------------------------------------------------------------------------

/// The text before the body: status line, content type when there is one, length and
/// `Connection: close`.
pub open spec fn response_head(status: StatusCode, content_type: Option<Seq<char>>, body_len: nat) -> Seq<
    char,
> {
    "HTTP/1.1 "@ + crate::text::decimal_digits(spec_status_code(status) as nat) + " "@ + spec_reason(
        status,
    ) + "\r\n"@ + match content_type {
        Some(t) => "Content-Type: "@ + t + "\r\n"@,
        None => Seq::empty(),
    } + "Content-Length: "@ + crate::text::decimal_digits(body_len) + "\r\nConnection: close\r\n\r\n"@
}

pub open spec fn spec_response(status: StatusCode, content_type: Option<Seq<char>>, body: Seq<u8>) -> Seq<
    u8,
> {
    encode_utf8(response_head(status, content_type, body.len())) + body
}

pub open spec fn text_content_type() -> Seq<char> {
    "text/plain; charset=utf-8"@
}

/// A plain-text response.
pub open spec fn spec_text_response(status: StatusCode, message: Seq<char>) -> Seq<u8> {
    spec_response(status, Some(text_content_type()), encode_utf8(message))
}

/// Appends a response with an optional content type and a body to `out`.
pub fn write_binary_response(
    out: &mut Vec<u8>,
    status: StatusCode,
    content_type: Option<&str>,
    body: &[u8],
)
    ensures
        final(out)@ == old(out)@ + spec_response(
            status,
            match content_type {
                Some(t) => Some(t@),
                None => None,
            },
            body@,
        ),
{
    let mut head = crate::text::owned("HTTP/1.1 ");
    head.append(decimal_string(status.code() as u64).as_str());
    head.append(" ");
    head.append(status.reason());
    head.append("\r\n");
    match content_type {
        Some(t) => {
            head.append("Content-Type: ");
            head.append(t);
            head.append("\r\n");
        },
        None => {},
    }
    head.append("Content-Length: ");
    head.append(decimal_string(body.len() as u64).as_str());
    head.append("\r\nConnection: close\r\n\r\n");
    let ghost expected_head = response_head(
        status,
        match content_type {
            Some(t) => Some(t@),
            None => None,
        },
        body@.len(),
    );
    assert(head@ =~= expected_head);
    let mut bytes = string_bytes(head.as_str());
    out.append(&mut bytes);
    let mut rest = vstd::slice::slice_to_vec(body);
    out.append(&mut rest);
}

/// Appends a plain-text response.
pub fn write_text_response(out: &mut Vec<u8>, status: StatusCode, message: &str)
    ensures
        final(out)@ == old(out)@ + spec_text_response(status, message@),
{
    proof {
        reveal_strlit("text/plain; charset=utf-8");
    }
    write_binary_response(out, status, Some("text/plain; charset=utf-8"), message.as_bytes());
}

/// Appends a response without a body or content type.
pub fn write_empty_response(out: &mut Vec<u8>, status: StatusCode)
    ensures
        final(out)@ == old(out)@ + spec_response(status, None, Seq::empty()),
{
    let empty: Vec<u8> = Vec::new();
    write_binary_response(out, status, None, empty.as_slice());
}

// ---------------------------------------------------------------------------
// Requests.
// ---------------------------------------------------------------------------

/// Why a request was not read, and whether the client is told.
#[derive(Clone, Debug, PartialEq, Eq)]
pub struct RequestError {
    pub status: StatusCode,
    pub message: String,
    /// False when the connection closed before anything arrived.
    pub respond: bool,
}

pub struct RequestErrorView {
    pub status: StatusCode,
    pub message: Seq<char>,
    pub respond: bool,
}

impl View for RequestError {
    type V = RequestErrorView;

    open spec fn view(&self) -> RequestErrorView {
        RequestErrorView { status: self.status, message: self.message@, respond: self.respond }
    }
}

/// A request read whole. Header names are in lower case; names and values are
/// trimmed.
#[derive(Clone, Debug, PartialEq, Eq)]
pub struct HttpRequest {
    pub method: String,
    pub path: String,
    pub headers: Vec<(String, String)>,
    pub body: Vec<u8>,
}

pub struct HttpRequestView {
    pub method: Seq<char>,
    pub path: Seq<char>,
    pub headers: Seq<(Seq<char>, Seq<char>)>,
    pub body: Seq<u8>,
}

pub open spec fn header_pairs(headers: Seq<(String, String)>) -> Seq<(Seq<char>, Seq<char>)> {
    headers.map_values(|h: (String, String)| (h.0@, h.1@))
}

impl View for HttpRequest {
    type V = HttpRequestView;

    open spec fn view(&self) -> HttpRequestView {
        HttpRequestView {
            method: self.method@,
            path: self.path@,
            headers: header_pairs(self.headers@),
            body: self.body@,
        }
    }
}

/// The value of the first header called `name`.
pub open spec fn first_header_from(headers: Seq<(Seq<char>, Seq<char>)>, name: Seq<char>, from: int) -> Option<
    Seq<char>,
>
    decreases headers.len() - from,
{
    if from < 0 || from >= headers.len() {
        None
    } else if headers[from].0 == name {
        Some(headers[from].1)
    } else {
        first_header_from(headers, name, from + 1)
    }
}

pub open spec fn first_header(headers: Seq<(Seq<char>, Seq<char>)>, name: Seq<char>) -> Option<Seq<char>> {
    first_header_from(headers, name, 0)
}

fn find_header(headers: &Vec<(String, String)>, name: &str) -> (index: Option<usize>)
    ensures
        match index {
            Some(i) => i < headers@.len() && first_header(header_pairs(headers@), name@) == Some(
                headers@[i as int].1@,
            ),
            None => first_header(header_pairs(headers@), name@) is None,
        },
{
    let ghost pairs = header_pairs(headers@);
    let mut i: usize = 0;
    while i < headers.len()
        invariant
            0 <= i <= headers@.len(),
            pairs == header_pairs(headers@),
            first_header(pairs, name@) == first_header_from(pairs, name@, i as int),
        decreases headers.len() - i,
    {
        let key = string_chars(headers[i].0.as_str());
        if chars_are(&key, name) {
            return Some(i);
        }
        i = i + 1;
    }
    None
}

impl HttpRequest {
    /// The value of the first header called `name` (names are stored in lower case).
    pub fn header(&self, name: &str) -> (value: Option<&str>)
        ensures
            match value {
                Some(v) => first_header(header_pairs(self.headers@), name@) == Some(v@),
                None => first_header(header_pairs(self.headers@), name@) is None,
            },
    {
        match find_header(&self.headers, name) {
            Some(i) => Some(self.headers[i].1.as_str()),
            None => None,
        }
    }
}

pub open spec fn bad_request(message: Seq<char>) -> RequestErrorView {
    RequestErrorView { status: StatusCode::BadRequest, message, respond: true }
}

fn bad(message: &str) -> (e: RequestError)
    ensures
        e@ == bad_request(message@),
{
    RequestError { status: StatusCode::BadRequest, message: crate::text::owned(message), respond: true }
}

pub open spec fn header_terminator() -> Seq<u8> {
    seq![13u8, 10u8, 13u8, 10u8]
}

/// One past the blank line that ends the headers, if it has arrived.
pub open spec fn spec_find_header_end(bytes: Seq<u8>) -> Option<int> {
    match crate::text::first_match(bytes, header_terminator()) {
        Some(at) => Some(at + 4),
        None => None,
    }
}

pub fn find_header_end(bytes: &[u8]) -> (end: Option<usize>)
    ensures
        match end {
            Some(e) => spec_find_header_end(bytes@) == Some(e as int) && 4 <= e <= bytes@.len(),
            None => spec_find_header_end(bytes@) is None,
        },
{
    let n: usize = bytes.len();
    let terminator: Vec<u8> = vec![13u8, 10u8, 13u8, 10u8];
    assert(terminator@ =~= header_terminator());
    match find_bytes_from(bytes, terminator.as_slice(), 0) {
        Some(at) => {
            proof {
                crate::text::lemma_first_match_from(bytes@, terminator@, 0);
            }
            Some(at + 4)
        },
        None => None,
    }
}

/// Method and path of a request line of exactly three words, or the error text.
pub open spec fn spec_request_line(line: Seq<char>) -> Result<(Seq<char>, Seq<char>), Seq<char>> {
    let words = crate::text::tokens(line);
    if words.len() == 0 {
        Err("missing request method"@)
    } else if words.len() == 1 {
        Err("missing request path"@)
    } else if words.len() == 2 {
        Err("missing HTTP version"@)
    } else if words.len() > 3 {
        Err("malformed request line"@)
    } else {
        Ok((words[0], words[1]))
    }
}

/// A header line split at its first `:`: the trimmed name in lower case and the
/// trimmed value.
pub open spec fn spec_header_line(line: Seq<char>) -> Option<(Seq<char>, Seq<char>)> {
    match crate::text::first_match(line, seq![':']) {
        None => None,
        Some(at) => Some(
            (
                crate::text::ascii_lower(crate::text::trimmed(line.subrange(0, at))),
                crate::text::trimmed(line.subrange(at + 1, line.len() as int)),
            ),
        ),
    }
}

/// The headers of `lines[from..]`; `None` when one of them has no `:`.
pub open spec fn spec_header_lines(lines: Seq<Seq<char>>, from: int) -> Option<
    Seq<(Seq<char>, Seq<char>)>,
>
    decreases lines.len() - from,
{
    if from < 0 || from >= lines.len() {
        Some(Seq::empty())
    } else {
        match spec_header_line(lines[from]) {
            None => None,
            Some(h) => match spec_header_lines(lines, from + 1) {
                None => None,
                Some(rest) => Some(seq![h] + rest),
            },
        }
    }
}

/// What the head of a request says: method, path, headers and body length.
#[derive(Clone, Debug, PartialEq, Eq)]
pub struct RequestHead {
    pub method: String,
    pub path: String,
    pub headers: Vec<(String, String)>,
    pub content_length: usize,
}

pub struct RequestHeadView {
    pub method: Seq<char>,
    pub path: Seq<char>,
    pub headers: Seq<(Seq<char>, Seq<char>)>,
    pub content_length: usize,
}

impl View for RequestHead {
    type V = RequestHeadView;

    open spec fn view(&self) -> RequestHeadView {
        RequestHeadView {
            method: self.method@,
            path: self.path@,
            headers: header_pairs(self.headers@),
            content_length: self.content_length,
        }
    }
}

/// The head of a request: the bytes before the blank line, as UTF-8 lines.
pub open spec fn spec_parse_head(head: Seq<u8>) -> Result<RequestHeadView, RequestErrorView> {
    if !valid_utf8(head) {
        Err(bad_request("request headers must be valid UTF-8"@))
    } else {
        let lines = crate::text::split_all(decode_utf8(head), "\r\n"@);
        match spec_request_line(lines[0]) {
            Err(message) => Err(bad_request(message)),
            Ok((method, path)) => match spec_header_lines(lines, 1) {
                None => Err(bad_request("malformed request header"@)),
                Some(headers) => match first_header(headers, "content-length"@) {
                    None => Ok(RequestHeadView { method, path, headers, content_length: 0 }),
                    Some(value) => match crate::text::spec_parse_usize(value) {
                        None => Err(bad_request("invalid Content-Length"@)),
                        Some(n) => Ok(
                            RequestHeadView { method, path, headers, content_length: n },
                        ),
                    },
                },
            },
        }
    }
}

pub open spec fn prepend_headers(
    acc: Seq<(Seq<char>, Seq<char>)>,
    rest: Option<Seq<(Seq<char>, Seq<char>)>>,
) -> Option<Seq<(Seq<char>, Seq<char>)>> {
    match rest {
        None => None,
        Some(r) => Some(acc + r),
    }
}

pub open spec fn line_views(lines: Seq<Vec<char>>) -> Seq<Seq<char>> {
    lines.map_values(|l: Vec<char>| l@)
}

/// Parses the head of a request (the bytes before its blank line).
pub fn parse_head(head: &[u8]) -> (result: Result<RequestHead, RequestError>)
    ensures
        match result {
            Ok(h) => spec_parse_head(head@) == Ok::<RequestHeadView, RequestErrorView>(h@),
            Err(e) => spec_parse_head(head@) == Err::<RequestHeadView, RequestErrorView>(e@),
        },
{
    let raw = vstd::slice::slice_to_vec(head);
    let text = match crate::text::utf8_to_string(raw) {
        Some(t) => t,
        None => return Err(bad("request headers must be valid UTF-8")),
    };
    let chars = string_chars(text.as_str());
    let crlf = string_chars("\r\n");
    proof {
        reveal_strlit("\r\n");
    }
    let lines = split_chars(&chars, &crlf);
    let ghost lv = line_views(lines@);
    assert(lv == crate::text::split_all(decode_utf8(head@), "\r\n"@));
    assert(lv.len() >= 1);
    let words = whitespace_tokens(&lines[0]);
    assert(words@.map_values(|w: Vec<char>| w@) == crate::text::tokens(lv[0]));
    if words.len() == 0 {
        return Err(bad("missing request method"));
    }
    if words.len() == 1 {
        return Err(bad("missing request path"));
    }
    if words.len() == 2 {
        return Err(bad("missing HTTP version"));
    }
    if words.len() > 3 {
        return Err(bad("malformed request line"));
    }
    let method = crate::text::chars_to_string(&words[0]);
    let path = crate::text::chars_to_string(&words[1]);
    let colon: Vec<char> = vec![':'];
    assert(colon@ =~= seq![':']);
    let mut headers: Vec<(String, String)> = Vec::new();
    let mut i: usize = 1;
    while i < lines.len()
        invariant
            1 <= i <= lines@.len(),
            lv == line_views(lines@),
            colon@ == seq![':'],
            valid_utf8(head@),
            lv == crate::text::split_all(decode_utf8(head@), "\r\n"@),
            spec_request_line(lv[0]) == Ok::<(Seq<char>, Seq<char>), Seq<char>>((method@, path@)),
            spec_header_lines(lv, 1) == prepend_headers(
                header_pairs(headers@),
                spec_header_lines(lv, i as int),
            ),
        decreases lines.len() - i,
    {
        let line = &lines[i];
        let line_len: usize = line.len();
        assert(line@ == lv[i as int]);
        let at = match crate::text::find_chars_from(line, &colon, 0) {
            Some(at) => at,
            None => {
                assert(spec_header_lines(lv, i as int) is None);
                return Err(bad("malformed request header"));
            },
        };
        proof {
            crate::text::lemma_first_match_from(line@, colon@, 0);
            assert(crate::text::matches_at(line@, colon@, at as int));
        }
        let name_part = crate::text::sub_chars(line, 0, at);
        let value_part = crate::text::sub_chars(line, at + 1, line_len);
        let name = lowercase_chars(&trim_chars(&name_part));
        let value = trim_chars(&value_part);
        let ghost before = header_pairs(headers@);
        let pair = (crate::text::chars_to_string(&name), crate::text::chars_to_string(&value));
        headers.push(pair);
        assert(header_pairs(headers@) =~= before + seq![(name@, value@)]);
        proof {
            let h = (name@, value@);
            assert(spec_header_line(lv[i as int]) == Some(h));
            match spec_header_lines(lv, i + 1) {
                None => {},
                Some(rest) => {
                    assert(before + (seq![h] + rest) =~= (before + seq![h]) + rest);
                },
            }
        }
        i = i + 1;
    }
    let content_length: usize = match find_header(&headers, "content-length") {
        None => 0,
        Some(k) => {
            let value = string_chars(headers[k].1.as_str());
            match parse_usize(&value) {
                Some(n) => n,
                None => return Err(bad("invalid Content-Length")),
            }
        },
    };
    proof {
        assert(spec_header_lines(lv, lines@.len() as int) == Some(Seq::<(Seq<char>, Seq<char>)>::empty()));
        assert(header_pairs(headers@) + Seq::<(Seq<char>, Seq<char>)>::empty() =~= header_pairs(headers@));
    }
    Ok(RequestHead { method, path, headers, content_length })
}

pub open spec fn too_large_body(max_body_bytes: usize) -> RequestErrorView {
    RequestErrorView {
        status: StatusCode::PayloadTooLarge,
        message: "request body is too large; limit is "@ + crate::text::decimal_digits(
            max_body_bytes as nat,
        ) + " bytes"@,
        respond: true,
    }
}

/// Refuses a declared body longer than `max_body_bytes`.
pub fn check_body_length(content_length: usize, max_body_bytes: usize) -> (result: Result<
    (),
    RequestError,
>)
    ensures
        content_length > max_body_bytes ==> (result matches Err(e) && e@ == too_large_body(
            max_body_bytes,
        )),
        content_length <= max_body_bytes ==> result is Ok,
{
    if content_length > max_body_bytes {
        let mut message = crate::text::owned("request body is too large; limit is ");
        message.append(decimal_string(max_body_bytes as u64).as_str());
        message.append(" bytes");
        return Err(RequestError { status: StatusCode::PayloadTooLarge, message, respond: true });
    }
    Ok(())
}

/// Where reading the headers stands after `buffer` has arrived.
#[derive(Clone, Debug, PartialEq, Eq)]
pub enum HeaderProgress {
    /// The headers end at this index (one past the blank line).
    Complete(usize),
    /// The buffer is full without a blank line.
    TooLarge,
    /// More bytes are needed.
    NeedMore,
}

pub fn header_progress(buffer: &[u8]) -> (progress: HeaderProgress)
    ensures
        match progress {
            HeaderProgress::Complete(e) => spec_find_header_end(buffer@) == Some(e as int) && 4 <= e
                <= buffer@.len(),
            HeaderProgress::TooLarge => spec_find_header_end(buffer@) is None && buffer@.len()
                >= MAX_HEADER_BYTES,
            HeaderProgress::NeedMore => spec_find_header_end(buffer@) is None && buffer@.len()
                < MAX_HEADER_BYTES,
        },
{
    match find_header_end(buffer) {
        Some(e) => HeaderProgress::Complete(e),
        None => if buffer.len() >= MAX_HEADER_BYTES {
            HeaderProgress::TooLarge
        } else {
            HeaderProgress::NeedMore
        },
    }
}

pub open spec fn headers_too_large() -> RequestErrorView {
    RequestErrorView {
        status: StatusCode::RequestHeaderFieldsTooLarge,
        message: "request headers are too large"@,
        respond: true,
    }
}

/// The error for a connection that closed before its headers were complete; nobody
/// is told when nothing arrived at all.
pub open spec fn headers_cut_short(received: nat) -> RequestErrorView {
    RequestErrorView {
        status: StatusCode::BadRequest,
        message: "request ended before headers were complete"@,
        respond: received > 0,
    }
}

pub fn headers_cut_short_error(received: usize) -> (e: RequestError)
    ensures
        e@ == headers_cut_short(received as nat),
{
    RequestError {
        status: StatusCode::BadRequest,
        message: crate::text::owned("request ended before headers were complete"),
        respond: received > 0,
    }
}

/// The request that a stream delivering `input` in reads of 4096 bytes is read as:
/// headers that end within the first 16384 bytes, then as much body as they declare.
pub open spec fn spec_read_request(input: Seq<u8>, max_body_bytes: usize) -> Result<
    HttpRequestView,
    RequestErrorView,
> {
    let found = spec_find_header_end(input);
    if found is Some && found->0 <= MAX_HEADER_BYTES {
        let e = found->0;
        match spec_parse_head(input.subrange(0, e - 4)) {
            Err(err) => Err(err),
            Ok(h) => if h.content_length > max_body_bytes {
                Err(too_large_body(max_body_bytes))
            } else if input.len() - e < h.content_length {
                Err(bad_request("request ended before body was complete"@))
            } else {
                Ok(
                    HttpRequestView {
                        method: h.method,
                        path: h.path,
                        headers: h.headers,
                        body: input.subrange(e, e + h.content_length),
                    },
                )
            },
        }
    } else if input.len() >= MAX_HEADER_BYTES {
        Err(headers_too_large())
    } else {
        Err(headers_cut_short(input.len()))
    }
}

/// Reads a request from the bytes a client sent.
pub fn read_request(input: &[u8], max_body_bytes: usize) -> (result: Result<HttpRequest, RequestError>)
    ensures
        match result {
            Ok(r) => spec_read_request(input@, max_body_bytes) == Ok::<
                HttpRequestView,
                RequestErrorView,
            >(r@),
            Err(e) => spec_read_request(input@, max_body_bytes) == Err::<
                HttpRequestView,
                RequestErrorView,
            >(e@),
        },
{
    let n: usize = input.len();
    let e = match find_header_end(input) {
        Some(e) => e,
        None => {
            if n >= MAX_HEADER_BYTES {
                return Err(
                    RequestError {
                        status: StatusCode::RequestHeaderFieldsTooLarge,
                        message: crate::text::owned("request headers are too large"),
                        respond: true,
                    },
                );
            }
            return Err(headers_cut_short_error(n));
        },
    };
    if e > MAX_HEADER_BYTES {
        return Err(
            RequestError {
                status: StatusCode::RequestHeaderFieldsTooLarge,
                message: crate::text::owned("request headers are too large"),
                respond: true,
            },
        );
    }
    let head_bytes = sub_bytes(input, 0, e - 4);
    let head = match parse_head(head_bytes.as_slice()) {
        Ok(h) => h,
        Err(err) => return Err(err),
    };
    if let Err(err) = check_body_length(head.content_length, max_body_bytes) {
        return Err(err);
    }
    if n - e < head.content_length {
        return Err(bad("request ended before body was complete"));
    }
    let body = sub_bytes(input, e, e + head.content_length);
    Ok(HttpRequest { method: head.method, path: head.path, headers: head.headers, body })
}

// ---------------------------------------------------------------------------
// Content types and routes.
// ---------------------------------------------------------------------------

/// The media type of a `Content-Type` value: before any `;`, trimmed, in lower case.
pub open spec fn media_type(value: Seq<char>) -> Seq<char> {
    crate::text::ascii_lower(crate::text::trimmed(crate::text::split_all(value, seq![';'])[0]))
}

fn media_type_of(value: &str) -> (media: Vec<char>)
    ensures
        media@ == media_type(value@),
{
    let chars = string_chars(value);
    let semicolon: Vec<char> = vec![';'];
    assert(semicolon@ =~= seq![';']);
    let pieces = split_chars(&chars, &semicolon);
    assert(pieces@.map_values(|p: Vec<char>| p@).len() >= 1);
    assert(pieces@[0]@ == pieces@.map_values(|p: Vec<char>| p@)[0]);
    lowercase_chars(&trim_chars(&pieces[0]))
}

pub open spec fn spec_content_type_is_midi(value: Seq<char>) -> bool {
    let m = media_type(value);
    m == "audio/midi"@ || m == "audio/x-midi"@ || m == "application/octet-stream"@
}

/// A standard MIDI file: `audio/midi`, `audio/x-midi` or `application/octet-stream`, in
/// any case and with any parameters.
pub fn content_type_is_midi(value: &str) -> (midi: bool)
    ensures
        midi == spec_content_type_is_midi(value@),
{
    let m = media_type_of(value);
    chars_are(&m, "audio/midi") || chars_are(&m, "audio/x-midi") || chars_are(
        &m,
        "application/octet-stream",
    )
}

pub open spec fn spec_content_type_is_text(value: Seq<char>) -> bool {
    media_type(value) == "text/plain"@
}

/// Plain text: `text/plain`, in any case and with any parameters.
pub fn content_type_is_text(value: &str) -> (text: bool)
    ensures
        text == spec_content_type_is_text(value@),
{
    let m = media_type_of(value);
    chars_are(&m, "text/plain")
}

#[derive(Clone, Copy, Debug, PartialEq, Eq, Structural)]
pub enum Route {
    Health,
    Play,
    PlayMml,
    Stop,
    MethodNotAllowed,
    NotFound,
}

pub open spec fn is_known_path(path: Seq<char>) -> bool {
    path == "/health"@ || path == "/play"@ || path == "/play-mml"@ || path == "/stop"@
}

pub open spec fn spec_route(method: Seq<char>, path: Seq<char>) -> Route {
    if method == "GET"@ && path == "/health"@ {
        Route::Health
    } else if method == "POST"@ && path == "/play"@ {
        Route::Play
    } else if method == "POST"@ && path == "/play-mml"@ {
        Route::PlayMml
    } else if method == "POST"@ && path == "/stop"@ {
        Route::Stop
    } else if is_known_path(path) {
        Route::MethodNotAllowed
    } else {
        Route::NotFound
    }
}

pub fn route(method: &str, path: &str) -> (r: Route)
    ensures
        r == spec_route(method@, path@),
{
    let m = string_chars(method);
    let p = string_chars(path);
    if chars_are(&m, "GET") && chars_are(&p, "/health") {
        Route::Health
    } else if chars_are(&m, "POST") && chars_are(&p, "/play") {
        Route::Play
    } else if chars_are(&m, "POST") && chars_are(&p, "/play-mml") {
        Route::PlayMml
    } else if chars_are(&m, "POST") && chars_are(&p, "/stop") {
        Route::Stop
    } else if chars_are(&p, "/health") || chars_are(&p, "/play") || chars_are(&p, "/play-mml")
        || chars_are(&p, "/stop") {
        Route::MethodNotAllowed
    } else {
        Route::NotFound
    }
}

/// What a request asks the server to do.
#[derive(Clone, Debug, PartialEq, Eq)]
pub enum Dispatch {
    /// Answer at once with these bytes.
    Respond(Vec<u8>),
    /// Play this standard MIDI file.
    PlaySmf(Vec<u8>),
    /// Play this MML text.
    PlayMml(String),
    /// Stop playback.
    Stop,
}

pub enum DispatchView {
    Respond(Seq<u8>),
    PlaySmf(Seq<u8>),
    PlayMml(Seq<char>),
    Stop,
}

impl View for Dispatch {
    type V = DispatchView;

    open spec fn view(&self) -> DispatchView {
        match self {
            Dispatch::Respond(r) => DispatchView::Respond(r@),
            Dispatch::PlaySmf(b) => DispatchView::PlaySmf(b@),
            Dispatch::PlayMml(m) => DispatchView::PlayMml(m@),
            Dispatch::Stop => DispatchView::Stop,
        }
    }
}

pub open spec fn midi_type_text() -> Seq<char> {
    "Content-Type must be audio/midi, audio/x-midi, or application/octet-stream"@
}

pub open spec fn spec_dispatch(request: HttpRequestView) -> DispatchView {
    let content_length = first_header(request.headers, "content-length"@);
    let content_type = first_header(request.headers, "content-type"@);
    match spec_route(request.method, request.path) {
        Route::Health => DispatchView::Respond(spec_text_response(StatusCode::Okay, "ok"@)),
        Route::Play => if content_length is None {
            DispatchView::Respond(
                spec_text_response(StatusCode::LengthRequired, "Content-Length required"@),
            )
        } else if !(content_type is Some && spec_content_type_is_midi(content_type->0)) {
            DispatchView::Respond(
                spec_text_response(StatusCode::UnsupportedMediaType, midi_type_text()),
            )
        } else {
            DispatchView::PlaySmf(request.body)
        },
        Route::PlayMml => if content_length is None {
            DispatchView::Respond(
                spec_text_response(StatusCode::LengthRequired, "Content-Length required"@),
            )
        } else if !(content_type is Some && spec_content_type_is_text(content_type->0)) {
            DispatchView::Respond(
                spec_text_response(StatusCode::UnsupportedMediaType, "Content-Type must be text/plain"@),
            )
        } else if !valid_utf8(request.body) {
            DispatchView::Respond(
                spec_text_response(StatusCode::BadRequest, "request body must be valid UTF-8"@),
            )
        } else {
            DispatchView::PlayMml(decode_utf8(request.body))
        },
        Route::Stop => DispatchView::Stop,
        Route::MethodNotAllowed => DispatchView::Respond(
            spec_text_response(StatusCode::MethodNotAllowed, "method not allowed"@),
        ),
        Route::NotFound => DispatchView::Respond(
            spec_text_response(StatusCode::NotFound, "not found"@),
        ),
    }
}

fn text_response(status: StatusCode, message: &str) -> (bytes: Vec<u8>)
    ensures
        bytes@ == spec_text_response(status, message@),
{
    let mut out: Vec<u8> = Vec::new();
    write_text_response(&mut out, status, message);
    assert(out@ =~= spec_text_response(status, message@));
    out
}

/// Decides what a request asks for.
pub fn dispatch(request: HttpRequest) -> (d: Dispatch)
    ensures
        d@ == spec_dispatch(request@),
{
    let r = route(request.method.as_str(), request.path.as_str());
    match r {
        Route::Health => Dispatch::Respond(text_response(StatusCode::Okay, "ok")),
        Route::Play => {
            if request.header("content-length").is_none() {
                return Dispatch::Respond(
                    text_response(StatusCode::LengthRequired, "Content-Length required"),
                );
            }
            let midi = match request.header("content-type") {
                Some(t) => content_type_is_midi(t),
                None => false,
            };
            if !midi {
                return Dispatch::Respond(
                    text_response(
                        StatusCode::UnsupportedMediaType,
                        "Content-Type must be audio/midi, audio/x-midi, or application/octet-stream",
                    ),
                );
            }
            Dispatch::PlaySmf(request.body)
        },
        Route::PlayMml => {
            if request.header("content-length").is_none() {
                return Dispatch::Respond(
                    text_response(StatusCode::LengthRequired, "Content-Length required"),
                );
            }
            let text = match request.header("content-type") {
                Some(t) => content_type_is_text(t),
                None => false,
            };
            if !text {
                return Dispatch::Respond(
                    text_response(StatusCode::UnsupportedMediaType, "Content-Type must be text/plain"),
                );
            }
            match crate::text::utf8_to_string(request.body) {
                Some(mml) => Dispatch::PlayMml(mml),
                None => Dispatch::Respond(
                    text_response(StatusCode::BadRequest, "request body must be valid UTF-8"),
                ),
            }
        },
        Route::Stop => Dispatch::Stop,
        Route::MethodNotAllowed => Dispatch::Respond(
            text_response(StatusCode::MethodNotAllowed, "method not allowed"),
        ),
        Route::NotFound => Dispatch::Respond(text_response(StatusCode::NotFound, "not found")),
    }
}

/// The answer to a play request once the player has taken it or failed.
pub fn played_response(outcome: Result<(), String>) -> (bytes: Vec<u8>)
    ensures
        outcome is Ok ==> bytes@ == spec_text_response(StatusCode::Accepted, "accepted"@),
        outcome matches Err(m) ==> bytes@ == spec_text_response(
            StatusCode::InternalServerError,
            m@,
        ),
{
    match outcome {
        Ok(()) => text_response(StatusCode::Accepted, "accepted"),
        Err(message) => text_response(StatusCode::InternalServerError, message.as_str()),
    }
}

/// The answer to a stop request once the player has stopped or failed.
pub fn stopped_response(outcome: Result<(), String>) -> (bytes: Vec<u8>)
    ensures
        outcome is Ok ==> bytes@ == spec_response(StatusCode::NoContent, None, Seq::empty()),
        outcome matches Err(m) ==> bytes@ == spec_text_response(
            StatusCode::InternalServerError,
            m@,
        ),
{
    match outcome {
        Ok(()) => {
            let mut out: Vec<u8> = Vec::new();
            write_empty_response(&mut out, StatusCode::NoContent);
            assert(out@ =~= spec_response(StatusCode::NoContent, None, Seq::empty()));
            out
        },
        Err(message) => text_response(StatusCode::InternalServerError, message.as_str()),
    }
}

/// What one connection's bytes ask for: an error answered at once (nothing at all
/// when the client sent nothing), or what the request dispatches to.
pub open spec fn spec_serve(input: Seq<u8>, max_body_bytes: usize) -> DispatchView {
    match spec_read_request(input, max_body_bytes) {
        Err(e) => DispatchView::Respond(
            if e.respond {
                spec_text_response(e.status, e.message)
            } else {
                Seq::empty()
            },
        ),
        Ok(r) => spec_dispatch(r),
    }
}

/// Reads one connection's bytes and says what to do. A play or stop request is
/// carried out by the caller, who answers with [`played_response`] or
/// [`stopped_response`] of the player's outcome.
pub fn serve_request(input: &[u8], max_body_bytes: usize) -> (d: Dispatch)
    ensures
        d@ == spec_serve(input@, max_body_bytes),
{
    match read_request(input, max_body_bytes) {
        Err(e) => if e.respond {
            Dispatch::Respond(text_response(e.status, e.message.as_str()))
        } else {
            let nothing: Vec<u8> = Vec::new();
            assert(nothing@ =~= Seq::<u8>::empty());
            Dispatch::Respond(nothing)
        },
        Ok(request) => dispatch(request),
    }
}

/// The media type of a request's `Content-Type` header is `text/plain`.
pub open spec fn sent_as_plain_text(headers: Seq<(Seq<char>, Seq<char>)>) -> bool {
    first_header(headers, "content-type"@) matches Some(t) && media_type(t) == "text/plain"@
}


/// MML is played only from a `POST /play-mml` sent as `text/plain` (in any case, with
/// any parameters); such a post with a length but another content type, or none, is
/// answered 415 and nothing is played.
pub proof fn law_mml_is_played_only_from_plain_text(request: HttpRequestView)
    ensures
        spec_dispatch(request) is PlayMml ==> request.method == "POST"@ && request.path
            == "/play-mml"@ && sent_as_plain_text(request.headers),
        request.method == "POST"@ && request.path == "/play-mml"@ && first_header(
            request.headers,
            "content-length"@,
        ) is Some && !sent_as_plain_text(request.headers) ==> spec_dispatch(request)
            == DispatchView::Respond(
            spec_text_response(StatusCode::UnsupportedMediaType, "Content-Type must be text/plain"@),
        ),
{
    reveal_strlit("GET");
    reveal_strlit("POST");
    reveal_strlit("/health");
    reveal_strlit("/play");
    reveal_strlit("/play-mml");
    reveal_strlit("/stop");
    if request.method == "POST"@ && request.path == "/play-mml"@ {
        assert(spec_route(request.method, request.path) == Route::PlayMml);
    }
}

/// A song is played only from a `POST /play` with a length, sent as a MIDI file
/// (`audio/midi`, `audio/x-midi` or `application/octet-stream`), and it is the
/// request's body unchanged; MML played is the body's UTF-8 text.
pub proof fn law_what_is_played_is_the_body(request: HttpRequestView)
    ensures
        spec_dispatch(request) matches DispatchView::PlaySmf(smf) ==> {
            &&& request.method == "POST"@ && request.path == "/play"@
            &&& first_header(request.headers, "content-length"@) is Some
            &&& first_header(request.headers, "content-type"@) matches Some(t) && (media_type(t)
                == "audio/midi"@ || media_type(t) == "audio/x-midi"@ || media_type(t)
                == "application/octet-stream"@)
            &&& smf == request.body
        },
        spec_dispatch(request) matches DispatchView::PlayMml(mml) ==> {
            &&& first_header(request.headers, "content-length"@) is Some
            &&& valid_utf8(request.body)
            &&& mml == decode_utf8(request.body)
        },
{
    reveal_strlit("GET");
    reveal_strlit("POST");
    reveal_strlit("/health");
    reveal_strlit("/play");
    reveal_strlit("/play-mml");
    reveal_strlit("/stop");
}

/// The server answers four routes and nothing else: `GET /health`, `POST /play`,
/// `POST /play-mml` and `POST /stop`. Another method on one of those paths is 405,
/// and any other path is 404, whatever the method.
pub proof fn law_only_four_routes(method: Seq<char>, path: Seq<char>)
    ensures
        spec_route(method, path) == Route::Health <==> (method == "GET"@ && path == "/health"@),
        spec_route(method, path) == Route::Play <==> (method == "POST"@ && path == "/play"@),
        spec_route(method, path) == Route::PlayMml <==> (method == "POST"@ && path == "/play-mml"@),
        spec_route(method, path) == Route::Stop <==> (method == "POST"@ && path == "/stop"@),
        spec_route(method, path) == Route::NotFound <==> !(path == "/health"@ || path == "/play"@
            || path == "/play-mml"@ || path == "/stop"@),
        spec_dispatch(HttpRequestView { method, path, headers: seq![], body: seq![] }) is Stop <==> (
        method == "POST"@ && path == "/stop"@),
{
    reveal_strlit("GET");
    reveal_strlit("POST");
    reveal_strlit("/health");
    reveal_strlit("/play");
    reveal_strlit("/play-mml");
    reveal_strlit("/stop");
    assert("GET"@ != "POST"@) by {
        assert("GET"@[0] != "POST"@[0]);
    }
    assert("/play"@ != "/stop"@) by {
        assert("/play"@[1] != "/stop"@[1]);
    }
    assert("/play-mml"@.len() == 9 && "/stop"@.len() == 5 && "/play"@.len() == 5
        && "/health"@.len() == 7);
}

/// Of a connection's bytes, MML is played only when they hold a `POST /play-mml` sent
/// as `text/plain`.
pub proof fn law_served_mml_is_plain_text(input: Seq<u8>, max_body_bytes: usize)
    ensures
        spec_serve(input, max_body_bytes) is PlayMml ==> (spec_read_request(
            input,
            max_body_bytes,
        ) matches Ok(r) && r.path == "/play-mml"@ && sent_as_plain_text(r.headers)),
{
    if let Ok(r) = spec_read_request(input, max_body_bytes) {
        law_mml_is_played_only_from_plain_text(r);
    }
}

} // verus!
