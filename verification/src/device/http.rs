//! HTTP request building and response parsing for the device's uplink.
use vstd::prelude::*;
use crate::text::{
    byte_len, chars_of, decimal, decimal_chars, push_str, eq_ignore_ascii_case, eq_ignore_ascii_case_range, find_char, find_in, fits_bytes,
    join_lines, lemma_find_from, lines, next_line, string_from_chars, string_from_range, trim,
    trim_range, utf8_len,
};
use crate::device::error::HttpError;
use crate::device::models::{
    LambdaResponse, LambdaResponseView, APIGW_ID_CAPACITY, BODY_CAPACITY, CONTENT_LENGTH_CAPACITY,
    CONTENT_TYPE_CAPACITY, DATE_CAPACITY, REQUEST_ID_CAPACITY, TRACE_ID_CAPACITY,
};

verus! {

// ---------------------------------------------------------------------
// Request building
// ---------------------------------------------------------------------

/// Byte capacity of a GET request.
pub const GET_REQUEST_CAPACITY: usize = 128;
/// Byte capacity of a POST request.
pub const POST_REQUEST_CAPACITY: usize = 512;
/// Byte capacity of a serialized JSON body.
pub const JSON_BODY_CAPACITY: usize = 256;

/// The text of a GET request for `host` and `path`.
pub open spec fn get_request_text(host: Seq<char>, path: Seq<char>) -> Seq<char> {
    "GET "@ + path + " HTTP/1.0\r\n"@ + "Host: "@ + host + "\r\n"@
        + "User-Agent: Uplink/0.1.0 (Platform; ESP32-C3)\r\n"@ + "Accept: */*\r\n\r\n"@
}

/// The request path: the given one, or `/`.
pub open spec fn path_or_root(path: Option<&str>) -> Seq<char> {
    match path {
        Some(p) => p@,
        None => "/"@,
    }
}

/// Build an HTTP/1.0 GET request for the given host and optional path
/// (default `/`); `BufferOverflow` when it exceeds 128 bytes.
pub fn get_request(host: &str, path: Option<&str>) -> (res: Result<String, HttpError>)
    ensures
        utf8_len(get_request_text(host@, path_or_root(path))) <= GET_REQUEST_CAPACITY ==> (res matches Ok(
            r,
        ) && r@ == get_request_text(host@, path_or_root(path))),
        utf8_len(get_request_text(host@, path_or_root(path))) > GET_REQUEST_CAPACITY ==> res
            == Err::<String, HttpError>(HttpError::BufferOverflow),
{
    let p = match path {
        Some(p) => p,
        None => "/",
    };
    let mut request = String::new();
    push_str(&mut request, "GET ");
    push_str(&mut request, p);
    push_str(&mut request, " HTTP/1.0\r\n");
    push_str(&mut request, "Host: ");
    push_str(&mut request, host);
    push_str(&mut request, "\r\n");
    push_str(&mut request, "User-Agent: Uplink/0.1.0 (Platform; ESP32-C3)\r\n");
    push_str(&mut request, "Accept: */*\r\n\r\n");
    assert(request@ =~= get_request_text(host@, path_or_root(path)));
    if byte_len(request.as_str()) <= GET_REQUEST_CAPACITY {
        Ok(request)
    } else {
        Err(HttpError::BufferOverflow)
    }
}

/// The JSON body that a POST request carries: the serialized payload when
/// serialization succeeded within 256 bytes, none otherwise.
pub open spec fn effective_body(json: Option<&str>) -> Option<Seq<char>> {
    match json {
        Some(j) => if utf8_len(j@) <= JSON_BODY_CAPACITY {
            Some(j@)
        } else {
            None
        },
        None => None,
    }
}

/// The text of a POST request: headers, then, after the blank line, the
/// JSON body with its byte length as `Content-Length`, or
/// `Content-Length: 0` and no body.
pub open spec fn post_request_text(host: Seq<char>, path: Seq<char>, body: Option<Seq<char>>) -> Seq<char> {
    "POST "@ + path + " HTTP/1.1\r\n"@ + "Host: "@ + host
        + "\r\nContent-Type: application/json\r\n"@ + match body {
        Some(j) => "Content-Length: "@ + decimal(utf8_len(j)) + "\r\nConnection: close\r\n\r\n"@ + j,
        None => "Content-Length: 0\r\n\r\n"@,
    }
}

/// Create an HTTP/1.1 POST request with a JSON body.
///
/// `json` is the serialized payload, or `None` when serialization failed;
/// a payload over 256 bytes counts as failed. `BufferOverflow` when the
/// request exceeds 512 bytes.
pub fn post_request(host: &str, json: Option<&str>, path: Option<&str>) -> (res: Result<String, HttpError>)
    ensures
        ({
            let t = post_request_text(host@, path_or_root(path), effective_body(json));
            &&& utf8_len(t) <= POST_REQUEST_CAPACITY ==> (res matches Ok(r) && r@ == t)
            &&& utf8_len(t) > POST_REQUEST_CAPACITY ==> res == Err::<String, HttpError>(HttpError::BufferOverflow)
        }),
{
    let endpoint = match path {
        Some(p) => p,
        None => "/",
    };
    let mut request = String::new();
    push_str(&mut request, "POST ");
    push_str(&mut request, endpoint);
    push_str(&mut request, " HTTP/1.1\r\n");
    push_str(&mut request, "Host: ");
    push_str(&mut request, host);
    push_str(&mut request, "\r\nContent-Type: application/json\r\n");
    let ghost head = request@;
    let body: Option<&str> = match json {
        Some(j) => if byte_len(j) <= JSON_BODY_CAPACITY {
            Some(j)
        } else {
            None
        },
        None => None,
    };
    match body {
        Some(j) => {
            push_str(&mut request, "Content-Length: ");
            let digits = decimal_chars(byte_len(j));
            let d = string_from_chars(&digits);
            push_str(&mut request, d.as_str());
            push_str(&mut request, "\r\nConnection: close\r\n\r\n");
            push_str(&mut request, j);
            assert(request@ =~= head + ("Content-Length: "@ + decimal(utf8_len(j@)) + "\r\nConnection: close\r\n\r\n"@ + j@));
        },
        None => {
            push_str(&mut request, "Content-Length: 0\r\n\r\n");
        },
    }
    assert(request@ =~= post_request_text(host@, path_or_root(path), effective_body(json)));
    if byte_len(request.as_str()) <= POST_REQUEST_CAPACITY {
        Ok(request)
    } else {
        Err(HttpError::BufferOverflow)
    }
}

// ---------------------------------------------------------------------
// Response parsing: specification
// ---------------------------------------------------------------------

/// The response headers that the device keeps.
pub enum HeaderField {
    RequestId,
    ApigwId,
    TraceId,
    ContentType,
    ContentLength,
    Date,
}

/// Which kept header a (trimmed) header name denotes, compared without
/// regard to ASCII case.
pub open spec fn header_field(key: Seq<char>) -> Option<HeaderField> {
    if eq_ignore_ascii_case(key, "x-amzn-RequestId"@) {
        Some(HeaderField::RequestId)
    } else if eq_ignore_ascii_case(key, "x-amz-apigw-id"@) {
        Some(HeaderField::ApigwId)
    } else if eq_ignore_ascii_case(key, "X-Amzn-Trace-Id"@) {
        Some(HeaderField::TraceId)
    } else if eq_ignore_ascii_case(key, "content-type"@) {
        Some(HeaderField::ContentType)
    } else if eq_ignore_ascii_case(key, "content-length"@) {
        Some(HeaderField::ContentLength)
    } else if eq_ignore_ascii_case(key, "date"@) {
        Some(HeaderField::Date)
    } else {
        None
    }
}

/// Byte capacity of a kept header.
pub open spec fn field_capacity(f: HeaderField) -> nat {
    match f {
        HeaderField::RequestId => REQUEST_ID_CAPACITY as nat,
        HeaderField::ApigwId => APIGW_ID_CAPACITY as nat,
        HeaderField::TraceId => TRACE_ID_CAPACITY as nat,
        HeaderField::ContentType => CONTENT_TYPE_CAPACITY as nat,
        HeaderField::ContentLength => CONTENT_LENGTH_CAPACITY as nat,
        HeaderField::Date => DATE_CAPACITY as nat,
    }
}

/// `r` with header `f` set to `value`.
pub open spec fn set_field(r: LambdaResponseView, f: HeaderField, value: Seq<char>) -> LambdaResponseView {
    match f {
        HeaderField::RequestId => LambdaResponseView { x_amzn_request_id: value, ..r },
        HeaderField::ApigwId => LambdaResponseView { x_amz_apigw_id: value, ..r },
        HeaderField::TraceId => LambdaResponseView { x_amzn_trace_id: value, ..r },
        HeaderField::ContentType => LambdaResponseView { content_type: value, ..r },
        HeaderField::ContentLength => LambdaResponseView { content_length: value, ..r },
        HeaderField::Date => LambdaResponseView { date: value, ..r },
    }
}

/// The effect of one header line: a line `Key: Value` (split at the first
/// `:`, both sides trimmed) whose key is kept sets that field, or fails
/// when the value exceeds the field's capacity; any other line changes
/// nothing.
pub open spec fn apply_header(r: LambdaResponseView, line: Seq<char>) -> Result<LambdaResponseView, HttpError> {
    match find_char(line, ':') {
        None => Ok(r),
        Some(i) => {
            let key = trim(line.take(i));
            let value = trim(line.skip(i + 1));
            match header_field(key) {
                None => Ok(r),
                Some(f) => if utf8_len(value) <= field_capacity(f) {
                    Ok(set_field(r, f, value))
                } else {
                    Err(HttpError::Deserialization)
                },
            }
        },
    }
}

/// The header section: lines up to the first empty one are applied in
/// order (a later header wins); returns the headers and the lines after
/// the empty line, which form the body.
pub open spec fn parse_headers(r: LambdaResponseView, ls: Seq<Seq<char>>) -> Result<
    (LambdaResponseView, Seq<Seq<char>>),
    HttpError,
>
    decreases ls.len(),
{
    if ls.len() == 0 {
        Ok((r, Seq::empty()))
    } else if ls[0].len() == 0 {
        Ok((r, ls.drop_first()))
    } else {
        match apply_header(r, ls[0]) {
            Err(e) => Err(e),
            Ok(r2) => parse_headers(r2, ls.drop_first()),
        }
    }
}

/// What `parse_response` returns for a response text: the first line (the
/// status line) is skipped, the header section is parsed, and the body is
/// the remaining lines joined with `\n`; an empty response, a kept header
/// over capacity, or a body over 1024 bytes is `Deserialization`.
pub open spec fn response_spec(s: Seq<char>) -> Result<LambdaResponseView, HttpError> {
    let ls = lines(s);
    if ls.len() == 0 {
        Err(HttpError::Deserialization)
    } else {
        match parse_headers(LambdaResponseView::empty(), ls.drop_first()) {
            Err(e) => Err(e),
            Ok((r, body_lines)) => {
                let body = join_lines(body_lines);
                if utf8_len(body) <= BODY_CAPACITY {
                    Ok(LambdaResponseView { body, ..r })
                } else {
                    Err(HttpError::Deserialization)
                }
            },
        }
    }
}

// ---------------------------------------------------------------------
// Response parsing: implementation
// ---------------------------------------------------------------------

/// The names of the kept headers, as characters.
struct HeaderNames {
    request_id: Vec<char>,
    apigw_id: Vec<char>,
    trace_id: Vec<char>,
    content_type: Vec<char>,
    content_length: Vec<char>,
    date: Vec<char>,
}

impl HeaderNames {
    spec fn wf(&self) -> bool {
        &&& self.request_id@ == "x-amzn-RequestId"@
        &&& self.apigw_id@ == "x-amz-apigw-id"@
        &&& self.trace_id@ == "X-Amzn-Trace-Id"@
        &&& self.content_type@ == "content-type"@
        &&& self.content_length@ == "content-length"@
        &&& self.date@ == "date"@
    }

    fn new() -> (n: HeaderNames)
        ensures
            n.wf(),
    {
        HeaderNames {
            request_id: chars_of("x-amzn-RequestId"),
            apigw_id: chars_of("x-amz-apigw-id"),
            trace_id: chars_of("X-Amzn-Trace-Id"),
            content_type: chars_of("content-type"),
            content_length: chars_of("content-length"),
            date: chars_of("date"),
        }
    }
}

/// Which kept header `v[a..b]` names.
fn classify_key(names: &HeaderNames, v: &Vec<char>, a: usize, b: usize) -> (f: Option<HeaderField>)
    requires
        names.wf(),
        a <= b <= v.len(),
    ensures
        f == header_field(v@.subrange(a as int, b as int)),
{
    if eq_ignore_ascii_case_range(v, a, b, &names.request_id) {
        Some(HeaderField::RequestId)
    } else if eq_ignore_ascii_case_range(v, a, b, &names.apigw_id) {
        Some(HeaderField::ApigwId)
    } else if eq_ignore_ascii_case_range(v, a, b, &names.trace_id) {
        Some(HeaderField::TraceId)
    } else if eq_ignore_ascii_case_range(v, a, b, &names.content_type) {
        Some(HeaderField::ContentType)
    } else if eq_ignore_ascii_case_range(v, a, b, &names.content_length) {
        Some(HeaderField::ContentLength)
    } else if eq_ignore_ascii_case_range(v, a, b, &names.date) {
        Some(HeaderField::Date)
    } else {
        None
    }
}

/// Applies the header line `v[a..b]` to `r`.
fn apply_header_line(names: &HeaderNames, r: &mut LambdaResponse, v: &Vec<char>, a: usize, b: usize) -> (ok: bool)
    requires
        names.wf(),
        a <= b <= v.len(),
        old(r)@.headers_fit(),
    ensures
        ok ==> final(r)@.headers_fit(),
        match apply_header(old(r)@, v@.subrange(a as int, b as int)) {
            Ok(r2) => ok && final(r)@ == r2,
            Err(e) => !ok && e == HttpError::Deserialization,
        },
{
    let ghost line = v@.subrange(a as int, b as int);
    match find_in(v, ':', a, b) {
        None => true,
        Some(c) => {
            proof {
                lemma_find_from(line, ':', 0);
                assert(line.take(c - a) =~= v@.subrange(a as int, c as int));
                assert(line.skip(c - a + 1) =~= v@.subrange(c + 1, b as int));
            }
            let (ka, kb) = trim_range(v, a, c);
            let (va, vb) = trim_range(v, c + 1, b);
            match classify_key(names, v, ka, kb) {
                None => true,
                Some(f) => {
                    let cap = match f {
                        HeaderField::RequestId => REQUEST_ID_CAPACITY,
                        HeaderField::ApigwId => APIGW_ID_CAPACITY,
                        HeaderField::TraceId => TRACE_ID_CAPACITY,
                        HeaderField::ContentType => CONTENT_TYPE_CAPACITY,
                        HeaderField::ContentLength => CONTENT_LENGTH_CAPACITY,
                        HeaderField::Date => DATE_CAPACITY,
                    };
                    if !fits_bytes(v, va, vb, cap) {
                        return false;
                    }
                    let value = string_from_range(v, va, vb);
                    match f {
                        HeaderField::RequestId => r.x_amzn_request_id = value,
                        HeaderField::ApigwId => r.x_amz_apigw_id = value,
                        HeaderField::TraceId => r.x_amzn_trace_id = value,
                        HeaderField::ContentType => r.content_type = value,
                        HeaderField::ContentLength => r.content_length = value,
                        HeaderField::Date => r.date = value,
                    }
                    true
                },
            }
        },
    }
}

/// Parses the headers and body of an HTTP response.
///
/// The status line is skipped; `Key: Value` header lines up to the first
/// empty line set the kept headers (names compared without regard to ASCII
/// case, values trimmed, the last occurrence wins, other lines ignored);
/// the remaining lines, joined with `\n`, form the body.
pub fn parse_response(response: &str) -> (res: Result<LambdaResponse, HttpError>)
    ensures
        match response_spec(response@) {
            Ok(view) => res matches Ok(r) && r@ == view,
            Err(e) => res == Err::<LambdaResponse, HttpError>(e),
        },
        res matches Ok(r) ==> r@.wf(),
{
    let v = chars_of(response);
    if v.len() == 0 {
        return Err(HttpError::Deserialization);
    }
    let names = HeaderNames::new();
    let (_, first) = next_line(&v, 0);
    assert(v@.skip(0) =~= v@);
    let ghost all = lines(v@);
    assert(all.drop_first() =~= lines(v@.skip(first as int)));
    let mut r = LambdaResponse::new_empty();
    let mut pos = first;
    let mut in_headers = true;
    // Header section.
    while in_headers && pos < v.len()
        invariant
            names.wf(),
            v@ == response@,
            first <= pos <= v.len(),
            all == lines(v@),
            all.len() > 0,
            r@.headers_fit(),
            r@.body == Seq::<char>::empty(),
            in_headers ==> parse_headers(LambdaResponseView::empty(), all.drop_first())
                == parse_headers(r@, lines(v@.skip(pos as int))),
            !in_headers ==> parse_headers(LambdaResponseView::empty(), all.drop_first())
                == Ok::<(LambdaResponseView, Seq<Seq<char>>), HttpError>((r@, lines(v@.skip(pos as int)))),
        decreases v.len() - pos,
    {
        let (e, n) = next_line(&v, pos);
        let ghost rest = lines(v@.skip(pos as int));
        assert(rest[0] == v@.subrange(pos as int, e as int));
        assert(rest.drop_first() =~= lines(v@.skip(n as int)));
        let ghost r_before = r@;
        if e == pos {
            in_headers = false;
        } else {
            assert(rest[0].len() > 0);
            if !apply_header_line(&names, &mut r, &v, pos, e) {
                assert(parse_headers(r_before, rest) == match apply_header(r_before, rest[0]) {
                    Err(e) => Err(e),
                    Ok(r2) => parse_headers(r2, rest.drop_first()),
                });

                return Err(HttpError::Deserialization);
            }
        }
        pos = n;
    }
    if in_headers {
        assert(v@.skip(pos as int) =~= Seq::<char>::empty());
        assert(lines(v@.skip(pos as int)) =~= Seq::<Seq<char>>::empty());
    }
    // Body: the remaining lines joined with '\n'.
    let ghost body_lines = lines(v@.skip(pos as int));
    let mut body: Vec<char> = Vec::new();
    let mut any = false;
    let ghost mut done: Seq<Seq<char>> = Seq::empty();
    while pos < v.len()
        invariant
            pos <= v.len(),
            body_lines == done + lines(v@.skip(pos as int)),
            body@ == join_lines(done),
            any == (done.len() > 0),
        decreases v.len() - pos,
    {
        let (e, n) = next_line(&v, pos);
        let ghost line = v@.subrange(pos as int, e as int);
        if any {
            body.push('\n');
        }
        let mut i = pos;
        while i < e
            invariant
                pos <= i <= e <= v.len(),
                body@ == (if any { join_lines(done) + seq!['\n'] } else { join_lines(done) })
                    + v@.subrange(pos as int, i as int),
            decreases e - i,
        {
            body.push(v[i]);
            assert(v@.subrange(pos as int, i + 1) =~= v@.subrange(pos as int, i as int).push(v@[i as int]));
            i += 1;
        }
        proof {
            let d2 = done.push(line);
            assert(d2.drop_last() =~= done);
            if !any {
                assert(done =~= Seq::<Seq<char>>::empty());
                assert(body@ =~= join_lines(d2));
            } else {
                assert(body@ =~= join_lines(d2));
            }
            assert(done + lines(v@.skip(pos as int)) =~= d2 + lines(v@.skip(n as int)));
            done = d2;
        }
        any = true;
        pos = n;
    }
    proof {
        assert(v@.skip(pos as int) =~= Seq::<char>::empty());
        assert(lines(v@.skip(pos as int)) =~= Seq::<Seq<char>>::empty());
        assert(done =~= body_lines);
    }
    if !fits_bytes(&body, 0, body.len(), BODY_CAPACITY) {
        assert(body@.subrange(0, body@.len() as int) =~= body@);
        return Err(HttpError::Deserialization);
    }
    assert(body@.subrange(0, body@.len() as int) =~= body@);
    r.body = string_from_chars(&body);
    Ok(r)
}

} // verus!
