//! The captive portal's HTTP request parsing and responses.
use vstd::prelude::*;
use crate::pattern::push_u64;
use crate::text::{
    append_chars_within, append_within, chars_of, decimal, is_ws, is_ws_exec, lemma_decimal_len,
    lemma_ascii_utf8_len, lemma_decimal_ascii, lemma_utf8_len_concat, byte_len, char_width, chars_eq,
    lines, next_line, push_char, push_decimal_within, string_from_range, utf8_len, BoundedString,
};

verus! {

// ---------------------------------------------------------------------
// Request parsing
// ---------------------------------------------------------------------

/// The first line of `s` (empty when `s` is empty).
pub open spec fn first_line(s: Seq<char>) -> Seq<char> {
    if lines(s).len() > 0 {
        lines(s)[0]
    } else {
        Seq::empty()
    }
}

/// The first index at or after `i` that is not whitespace (or the end).
pub open spec fn skip_ws(s: Seq<char>, i: int) -> int
    decreases s.len() - i,
{
    if i < 0 || i >= s.len() || !is_ws(s[i]) {
        i
    } else {
        skip_ws(s, i + 1)
    }
}

/// The first index at or after `i` that is whitespace (or the end).
pub open spec fn word_end(s: Seq<char>, i: int) -> int
    decreases s.len() - i,
{
    if i < 0 || i >= s.len() || is_ws(s[i]) {
        i
    } else {
        word_end(s, i + 1)
    }
}

/// The first whitespace-separated word of `s[i..]`, and where it ends.
pub open spec fn word_at(s: Seq<char>, i: int) -> (Seq<char>, int) {
    let a = skip_ws(s, i);
    let e = word_end(s, a);
    (s.subrange(a, e), e)
}

/// Method and path of a request: the first two whitespace-separated words
/// of its first line; the method defaults to empty and the path to `/`.
pub open spec fn request_line_spec(request: Seq<char>) -> (Seq<char>, Seq<char>) {
    let l = first_line(request);
    let (m, e) = word_at(l, 0);
    let (p, _) = word_at(l, e);
    (m, if p.len() > 0 {
        p
    } else {
        "/"@
    })
}

proof fn lemma_skip_ws(s: Seq<char>, i: int)
    requires
        0 <= i <= s.len(),
    ensures
        i <= skip_ws(s, i) <= s.len(),
    decreases s.len() - i,
{
    if i < s.len() && is_ws(s[i]) {
        lemma_skip_ws(s, i + 1);
    }
}

proof fn lemma_word_end(s: Seq<char>, i: int)
    requires
        0 <= i <= s.len(),
    ensures
        i <= word_end(s, i) <= s.len(),
    decreases s.len() - i,
{
    if i < s.len() && !is_ws(s[i]) {
        lemma_word_end(s, i + 1);
    }
}

/// The word of `v[from..to]` starting at or after `i`: its bounds.
fn word_in(v: &Vec<char>, from: usize, to: usize, i: usize) -> (r: (usize, usize))
    requires
        from <= i <= to <= v.len(),
    ensures
        ({
            let s = v@.subrange(from as int, to as int);
            &&& from + skip_ws(s, i - from) == r.0
            &&& from + word_end(s, r.0 - from) == r.1
            &&& i <= r.0 <= r.1 <= to
        }),
{
    let ghost s = v@.subrange(from as int, to as int);
    let mut a = i;
    while a < to && is_ws_exec(v[a])
        invariant
            from <= i <= a <= to <= v.len(),
            s == v@.subrange(from as int, to as int),
            skip_ws(s, i - from) == skip_ws(s, a - from),
        decreases to - a,
    {
        a += 1;
    }
    let mut e = a;
    while e < to && !is_ws_exec(v[e])
        invariant
            from <= a <= e <= to <= v.len(),
            s == v@.subrange(from as int, to as int),
            word_end(s, a - from) == word_end(s, e - from),
        decreases to - e,
    {
        e += 1;
    }
    (a, e)
}

/// Extract HTTP method and path from the first request line:
/// `"GET /api/status HTTP/1.0\r\n..."` gives `("GET", "/api/status")`.
pub fn parse_request_line(request: &str) -> (r: (String, String))
    ensures
        r.0@ == request_line_spec(request@).0,
        r.1@ == request_line_spec(request@).1,
{
    let v = chars_of(request);
    let (lend, _) = if v.len() > 0 {
        next_line(&v, 0)
    } else {
        (0, 0)
    };
    proof {
        assert(v@.skip(0) =~= v@);
        if v.len() == 0 {
            assert(lines(v@) =~= Seq::<Seq<char>>::empty());
        }
        assert(first_line(request@) =~= v@.subrange(0, lend as int));
    }
    let ghost l = v@.subrange(0, lend as int);
    let (ma, me) = word_in(&v, 0, lend, 0);
    let (pa, pe) = word_in(&v, 0, lend, me);
    let method = string_from_range(&v, ma, me);
    assert(method@ =~= l.subrange(ma as int, me as int));
    let path = if pa < pe {
        string_from_range(&v, pa, pe)
    } else {
        crate::text::to_string("/")
    };
    assert(pa < pe ==> path@ =~= l.subrange(pa as int, pe as int));
    (method, path)
}

/// Whether `s[i..i + 4]` is `"\r\n\r\n"`.
pub open spec fn blank_line_at(s: Seq<char>, i: int) -> bool {
    0 <= i && i + 4 <= s.len() && s[i] == '\r' && s[i + 1] == '\n' && s[i + 2] == '\r' && s[i + 3]
        == '\n'
}

/// The first index at or after `i` where `"\r\n\r\n"` starts.
pub open spec fn find_blank_line(s: Seq<char>, i: int) -> Option<int>
    decreases s.len() - i,
{
    if i < 0 || i + 4 > s.len() {
        None
    } else if blank_line_at(s, i) {
        Some(i)
    } else {
        find_blank_line(s, i + 1)
    }
}

/// The body of a request: what follows the first `"\r\n\r\n"`, or empty.
pub open spec fn body_spec(request: Seq<char>) -> Seq<char> {
    match find_blank_line(request, 0) {
        Some(i) => request.skip(i + 4),
        None => Seq::empty(),
    }
}

/// Extract the body after the `\r\n\r\n` header separator.
pub fn extract_body(request: &str) -> (b: String)
    ensures
        b@ == body_spec(request@),
{
    let v = chars_of(request);
    let mut i: usize = 0;
    while i <= v.len() && v.len() - i >= 4
        invariant
            i <= v.len(),
            v@ == request@,
            find_blank_line(v@, 0) == find_blank_line(v@, i as int),
        decreases v.len() - i,
    {
        if v[i] == '\r' && v[i + 1] == '\n' && v[i + 2] == '\r' && v[i + 3] == '\n' {
            let b = string_from_range(&v, i + 4, v.len());
            assert(b@ =~= v@.skip(i + 4));
            return b;
        }
        i += 1;
    }
    String::new()
}

// ---------------------------------------------------------------------
// Response building
// ---------------------------------------------------------------------

/// Byte capacity of the portal's response headers and JSON bodies.
pub const RESPONSE_CAPACITY: usize = 256;

/// Firmware version reported by the status endpoint.
pub const FW_VERSION: &'static str = "0.1.0";

/// Write `n` as decimal digits into `s`; each digit is appended only if it
/// fits. The digit buffer holds seven digits, so `n` is below 10^7.
pub fn write_usize(s: &mut BoundedString, n: usize)
    requires
        old(s).wf(),
        n < 10000000,
    ensures
        final(s).wf(),
        final(s).capacity() == old(s).capacity(),
        final(s)@ == append_chars_within(old(s)@, decimal(n as nat), old(s).capacity()),
{
    push_decimal_within(s, n);
}

/// `acc` with `text` appended when it fits in the response capacity.
pub open spec fn app(acc: Seq<char>, text: Seq<char>) -> Seq<char> {
    append_within(acc, text, RESPONSE_CAPACITY as nat)
}

/// `acc` with the digits of `n` appended, as many as fit.
pub open spec fn app_num(acc: Seq<char>, n: nat) -> Seq<char> {
    append_chars_within(acc, decimal(n), RESPONSE_CAPACITY as nat)
}

/// The HTTP 200 header for a body of the given type and length.
pub open spec fn response_header_spec(content_type: Seq<char>, content_length: nat, extra: Option<Seq<char>>) -> Seq<char> {
    let a = app_num(
        app(app(app(Seq::empty(), "HTTP/1.0 200 OK\r\nContent-Type: "@), content_type), "\r\nContent-Length: "@),
        content_length,
    );
    let b = app(a, "\r\nConnection: close\r\n"@);
    let c = match extra {
        Some(x) => app(b, x),
        None => b,
    };
    app(c, "\r\n"@)
}

/// When the whole header fits, every piece is appended.
proof fn lemma_response_header_fits(ct: Seq<char>, n: nat, extra: Option<Seq<char>>)
    ensures
        ({
            let x = match extra {
                Some(x) => x,
                None => Seq::empty(),
            };
            let full = "HTTP/1.0 200 OK\r\nContent-Type: "@ + ct + "\r\nContent-Length: "@ + decimal(n)
                + "\r\nConnection: close\r\n"@ + x + "\r\n"@;
            utf8_len(full) <= RESPONSE_CAPACITY ==> response_header_spec(ct, n, extra) == full
        }),
{
    let x = match extra {
        Some(x) => x,
        None => Seq::empty(),
    };
    let p1 = "HTTP/1.0 200 OK\r\nContent-Type: "@;
    let p2 = "\r\nContent-Length: "@;
    let p3 = "\r\nConnection: close\r\n"@;
    let p4 = "\r\n"@;
    let d = decimal(n);
    let s1 = p1 + ct;
    let s2 = s1 + p2;
    let s3 = s2 + d;
    let s4 = s3 + p3;
    let s5 = s4 + x;
    let s6 = s5 + p4;
    lemma_utf8_len_concat(p1, ct);
    lemma_utf8_len_concat(s1, p2);
    lemma_utf8_len_concat(s2, d);
    lemma_utf8_len_concat(s3, p3);
    lemma_utf8_len_concat(s4, x);
    lemma_utf8_len_concat(s5, p4);
    lemma_utf8_len_concat(Seq::empty(), p1);
    lemma_decimal_ascii(n);
    lemma_ascii_utf8_len(d);
    if utf8_len(s6) <= RESPONSE_CAPACITY {
        assert(Seq::<char>::empty() + p1 =~= p1);
        if extra is None {
            assert(s4 + x =~= s4);
        }
    }
}

/// Build an HTTP 200 response header; each piece is kept only if it fits in
/// 256 bytes. The length is below 10^7.
pub fn build_response_header(content_type: &str, content_length: usize, extra_headers: Option<&str>) -> (h: String)
    requires
        content_length < 10000000,
    ensures
        h@ == response_header_spec(
            content_type@,
            content_length as nat,
            match extra_headers {
                Some(x) => Some(x@),
                None => None,
            },
        ),
        utf8_len(h@) <= RESPONSE_CAPACITY,
        utf8_len("HTTP/1.0 200 OK\r\nContent-Type: "@ + content_type@ + "\r\nContent-Length: "@ + decimal(
            content_length as nat,
        ) + "\r\nConnection: close\r\n"@ + match extra_headers {
            Some(x) => x@,
            None => Seq::empty(),
        } + "\r\n"@) <= RESPONSE_CAPACITY ==> h@ == "HTTP/1.0 200 OK\r\nContent-Type: "@ + content_type@
            + "\r\nContent-Length: "@ + decimal(content_length as nat) + "\r\nConnection: close\r\n"@
            + match extra_headers {
            Some(x) => x@,
            None => Seq::empty(),
        } + "\r\n"@,
{
    let mut h = BoundedString::new();
    h.push_str("HTTP/1.0 200 OK\r\nContent-Type: ");
    h.push_str(content_type);
    h.push_str("\r\nContent-Length: ");
    write_usize(&mut h, content_length);
    h.push_str("\r\nConnection: close\r\n");
    match extra_headers {
        Some(extra) => {
            h.push_str(extra);
        },
        None => {},
    }
    h.push_str("\r\n");
    proof {
        lemma_response_header_fits(content_type@, content_length as nat, match extra_headers {
            Some(x) => Some(x@),
            None => None,
        });
    }
    h.into_string()
}


/// The HTTP 302 redirect to `location`.
pub open spec fn redirect_spec(location: Seq<char>) -> Seq<char> {
    app(
        app(app(Seq::empty(), "HTTP/1.0 302 Found\r\nLocation: "@), location),
        "\r\nContent-Length: 0\r\nConnection: close\r\n\r\n"@,
    )
}

/// Build an HTTP 302 redirect response.
pub fn build_redirect(location: &str) -> (h: String)
    ensures
        h@ == redirect_spec(location@),
        utf8_len(h@) <= RESPONSE_CAPACITY,
        utf8_len("HTTP/1.0 302 Found\r\nLocation: "@ + location@ + "\r\nContent-Length: 0\r\nConnection: close\r\n\r\n"@)
            <= RESPONSE_CAPACITY ==> h@ == "HTTP/1.0 302 Found\r\nLocation: "@ + location@
            + "\r\nContent-Length: 0\r\nConnection: close\r\n\r\n"@,
{
    let mut h = BoundedString::new();
    h.push_str("HTTP/1.0 302 Found\r\nLocation: ");
    h.push_str(location);
    h.push_str("\r\nContent-Length: 0\r\nConnection: close\r\n\r\n");
    proof {
        let p1 = "HTTP/1.0 302 Found\r\nLocation: "@;
        let p2 = "\r\nContent-Length: 0\r\nConnection: close\r\n\r\n"@;
        lemma_utf8_len_concat(Seq::empty(), p1);
        lemma_utf8_len_concat(p1, location@);
        lemma_utf8_len_concat(p1 + location@, p2);
        assert(Seq::<char>::empty() + p1 =~= p1);
    }
    h.into_string()
}

/// The error response with status `status` and JSON body `{"error":"<message>"}`.
pub open spec fn error_response_spec(status: nat, message: Seq<char>) -> Seq<char> {
    let a = app_num(app(Seq::empty(), "HTTP/1.0 "@), status);
    let b = app(a, " Error\r\nContent-Type: application/json\r\nConnection: close\r\nContent-Length: "@);
    let c = app_num(b, 12 + utf8_len(message));
    app(app(app(c, "\r\n\r\n{\"error\":\""@), message), "\"}"@)
}

/// Build an HTTP error response with a JSON body `{"error":"<message>"}`
/// whose byte length is the `Content-Length`. The length is below 10^7.
pub fn build_error_response(status: u16, message: &str) -> (h: String)
    requires
        12 + utf8_len(message@) < 10000000,
    ensures
        h@ == error_response_spec(status as nat, message@),
        utf8_len(h@) <= RESPONSE_CAPACITY,
        utf8_len("HTTP/1.0 "@ + decimal(status as nat)
            + " Error\r\nContent-Type: application/json\r\nConnection: close\r\nContent-Length: "@
            + decimal(12 + utf8_len(message@)) + "\r\n\r\n{\"error\":\""@ + message@ + "\"}"@)
            <= RESPONSE_CAPACITY ==> h@ == "HTTP/1.0 "@ + decimal(status as nat)
            + " Error\r\nContent-Type: application/json\r\nConnection: close\r\nContent-Length: "@
            + decimal(12 + utf8_len(message@)) + "\r\n\r\n{\"error\":\""@ + message@ + "\"}"@,
{
    let mut h = BoundedString::new();
    h.push_str("HTTP/1.0 ");
    write_usize(&mut h, status as usize);
    h.push_str(" Error\r\nContent-Type: application/json\r\nConnection: close\r\nContent-Length: ");
    let body_len = 10 + byte_len(message) + 2;
    write_usize(&mut h, body_len);
    h.push_str("\r\n\r\n{\"error\":\"");
    h.push_str(message);
    h.push_str("\"}");
    proof {
        let p1 = "HTTP/1.0 "@;
        let d1 = decimal(status as nat);
        let p2 = " Error\r\nContent-Type: application/json\r\nConnection: close\r\nContent-Length: "@;
        let d2 = decimal(12 + utf8_len(message@));
        let p3 = "\r\n\r\n{\"error\":\""@;
        let p4 = "\"}"@;
        let s1 = p1 + d1;
        let s2 = s1 + p2;
        let s3 = s2 + d2;
        let s4 = s3 + p3;
        let s5 = s4 + message@;
        lemma_utf8_len_concat(Seq::empty(), p1);
        lemma_utf8_len_concat(p1, d1);
        lemma_utf8_len_concat(s1, p2);
        lemma_utf8_len_concat(s2, d2);
        lemma_utf8_len_concat(s3, p3);
        lemma_utf8_len_concat(s4, message@);
        lemma_utf8_len_concat(s5, p4);
        lemma_decimal_ascii(status as nat);
        lemma_ascii_utf8_len(d1);
        lemma_decimal_ascii(12 + utf8_len(message@));
        lemma_ascii_utf8_len(d2);
        assert(Seq::<char>::empty() + p1 =~= p1);
    }
    h.into_string()
}

/// The status JSON body of the portal.
pub open spec fn status_json_spec(device_id: Seq<char>, ip: Seq<char>, state: Seq<char>) -> Seq<char> {
    let a = app(app(app(Seq::empty(), "{\"device_id\":\""@), device_id), "\",\"fw_version\":\""@);
    let b = app(app(app(a, FW_VERSION@), "\",\"ip\":\""@), ip);
    app(app(app(b, "\",\"state\":\""@), state), "\"}"@)
}

/// Build the JSON body for `GET /api/status`.
pub fn build_status_json(device_id: &str, ip: &str, state: &str) -> (b: String)
    ensures
        b@ == status_json_spec(device_id@, ip@, state@),
        utf8_len(b@) <= RESPONSE_CAPACITY,
        utf8_len("{\"device_id\":\""@ + device_id@ + "\",\"fw_version\":\""@ + FW_VERSION@ + "\",\"ip\":\""@
            + ip@ + "\",\"state\":\""@ + state@ + "\"}"@) <= RESPONSE_CAPACITY ==> b@ == "{\"device_id\":\""@
            + device_id@ + "\",\"fw_version\":\""@ + FW_VERSION@ + "\",\"ip\":\""@ + ip@ + "\",\"state\":\""@
            + state@ + "\"}"@,
{
    let mut body = BoundedString::new();
    body.push_str("{\"device_id\":\"");
    body.push_str(device_id);
    body.push_str("\",\"fw_version\":\"");
    body.push_str(FW_VERSION);
    body.push_str("\",\"ip\":\"");
    body.push_str(ip);
    body.push_str("\",\"state\":\"");
    body.push_str(state);
    body.push_str("\"}");
    proof {
        let p1 = "{\"device_id\":\""@;
        let p2 = "\",\"fw_version\":\""@;
        let p3 = "\",\"ip\":\""@;
        let p4 = "\",\"state\":\""@;
        let p5 = "\"}"@;
        let s1 = p1 + device_id@;
        let s2 = s1 + p2;
        let s3 = s2 + FW_VERSION@;
        let s4 = s3 + p3;
        let s5 = s4 + ip@;
        let s6 = s5 + p4;
        let s7 = s6 + state@;
        lemma_utf8_len_concat(Seq::empty(), p1);
        lemma_utf8_len_concat(p1, device_id@);
        lemma_utf8_len_concat(s1, p2);
        lemma_utf8_len_concat(s2, FW_VERSION@);
        lemma_utf8_len_concat(s3, p3);
        lemma_utf8_len_concat(s4, ip@);
        lemma_utf8_len_concat(s5, p4);
        lemma_utf8_len_concat(s6, state@);
        lemma_utf8_len_concat(s7, p5);
        assert(Seq::<char>::empty() + p1 =~= p1);
    }
    body.into_string()
}

/// The JSON response for `POST /api/configure`.
pub open spec fn configure_response_spec(ok: bool, message: Seq<char>) -> Seq<char> {
    let a = app(app(Seq::empty(), "{\"ok\":"@), if ok {
        "true"@
    } else {
        "false"@
    });
    app(app(app(a, ",\"message\":\""@), message), "\"}"@)
}

/// Build the JSON response for `POST /api/configure`.
pub fn build_configure_response(ok: bool, message: &str) -> (b: String)
    ensures
        b@ == configure_response_spec(ok, message@),
        utf8_len(b@) <= RESPONSE_CAPACITY,
        utf8_len("{\"ok\":"@ + (if ok {
            "true"@
        } else {
            "false"@
        }) + ",\"message\":\""@ + message@ + "\"}"@) <= RESPONSE_CAPACITY ==> b@ == "{\"ok\":"@ + (if ok {
            "true"@
        } else {
            "false"@
        }) + ",\"message\":\""@ + message@ + "\"}"@,
{
    let mut body = BoundedString::new();
    body.push_str("{\"ok\":");
    let word = if ok {
        "true"
    } else {
        "false"
    };
    body.push_str(word);
    body.push_str(",\"message\":\"");
    body.push_str(message);
    body.push_str("\"}");
    proof {
        let p1 = "{\"ok\":"@;
        let w = word@;
        let p2 = ",\"message\":\""@;
        let p3 = "\"}"@;
        let s1 = p1 + w;
        let s2 = s1 + p2;
        let s3 = s2 + message@;
        lemma_utf8_len_concat(Seq::empty(), p1);
        lemma_utf8_len_concat(p1, w);
        lemma_utf8_len_concat(s1, p2);
        lemma_utf8_len_concat(s2, message@);
        lemma_utf8_len_concat(s3, p3);
        assert(Seq::<char>::empty() + p1 =~= p1);
    }
    body.into_string()
}

/// Format IPv4 octets as a dotted-decimal string.
pub fn format_ip_octets(octets: [u8; 4]) -> (s: String)
    ensures
        s@ == decimal(octets@[0] as nat) + seq!['.'] + decimal(octets@[1] as nat) + seq!['.']
            + decimal(octets@[2] as nat) + seq!['.'] + decimal(octets@[3] as nat),
{
    let mut s = String::new();
    push_u64(&mut s, octets[0] as u64);
    push_char(&mut s, '.');
    push_u64(&mut s, octets[1] as u64);
    push_char(&mut s, '.');
    push_u64(&mut s, octets[2] as u64);
    push_char(&mut s, '.');
    push_u64(&mut s, octets[3] as u64);
    proof {
        assert(Seq::<char>::empty() + decimal(octets@[0] as nat) =~= decimal(octets@[0] as nat));
    }
    s
}

/// What the portal serves for a request.
#[derive(Debug, Clone, Copy, PartialEq, Eq, Structural)]
pub enum PortalRoute {
    /// `GET /` or `GET /index.html`: the portal page.
    Index,
    /// `GET` of a path ending in `.js`: the portal script.
    Script,
    /// `GET` of a path ending in `.wasm`: the compressed portal module.
    Wasm,
    /// `GET /api/status`: the device status JSON.
    Status,
    /// `POST /api/configure`: store WiFi credentials.
    Configure,
    /// Anything else: redirect to the portal (captive portal behavior).
    Redirect,
}

/// Whether `s` ends with `suffix`.
pub open spec fn ends_with(s: Seq<char>, suffix: Seq<char>) -> bool {
    suffix.len() <= s.len() && s.skip(s.len() - suffix.len()) == suffix
}

/// The route for a request method and path, checked in this order: the
/// index page, scripts, modules, the status API, the configure API, and the
/// redirect for everything else.
pub open spec fn route_spec(method: Seq<char>, path: Seq<char>) -> PortalRoute {
    if method == "GET"@ && (path == "/"@ || path == "/index.html"@) {
        PortalRoute::Index
    } else if method == "GET"@ && ends_with(path, ".js"@) {
        PortalRoute::Script
    } else if method == "GET"@ && ends_with(path, ".wasm"@) {
        PortalRoute::Wasm
    } else if method == "GET"@ && path == "/api/status"@ {
        PortalRoute::Status
    } else if method == "POST"@ && path == "/api/configure"@ {
        PortalRoute::Configure
    } else {
        PortalRoute::Redirect
    }
}

/// Whether `v` ends with `w`.
fn ends_with_exec(v: &Vec<char>, w: &Vec<char>) -> (r: bool)
    ensures
        r == ends_with(v@, w@),
{
    if w.len() > v.len() {
        return false;
    }
    let off = v.len() - w.len();
    let mut i: usize = 0;
    while i < w.len()
        invariant
            off == v.len() - w.len(),
            w.len() <= v.len(),
            i <= w.len(),
            forall|k: int| 0 <= k < i ==> v@[off + k] == w@[k],
        decreases w.len() - i,
    {
        if v[off + i] != w[i] {
            assert(v@.skip(off as int)[i as int] != w@[i as int]);
            return false;
        }
        i += 1;
    }
    assert(v@.skip(off as int) =~= w@);
    true
}

/// Decide what the portal serves for a request method and path.
pub fn route_request(method: &str, path: &str) -> (r: PortalRoute)
    ensures
        r == route_spec(method@, path@),
{
    let m = chars_of(method);
    let p = chars_of(path);
    let is_get = chars_eq(&m, &chars_of("GET"));
    if is_get && (chars_eq(&p, &chars_of("/")) || chars_eq(&p, &chars_of("/index.html"))) {
        PortalRoute::Index
    } else if is_get && ends_with_exec(&p, &chars_of(".js")) {
        PortalRoute::Script
    } else if is_get && ends_with_exec(&p, &chars_of(".wasm")) {
        PortalRoute::Wasm
    } else if is_get && chars_eq(&p, &chars_of("/api/status")) {
        PortalRoute::Status
    } else if chars_eq(&m, &chars_of("POST")) && chars_eq(&p, &chars_of("/api/configure")) {
        PortalRoute::Configure
    } else {
        PortalRoute::Redirect
    }
}

/// The portal's static files.
#[derive(Debug, Clone, Copy, PartialEq, Eq, Structural)]
pub enum PortalAsset {
    /// `index.html`.
    Index,
    /// The portal script.
    Script,
    /// The compressed portal module.
    Wasm,
}

/// What the portal writes back.
pub enum PortalReply {
    /// A header, then the file's bytes in chunks.
    Asset(String, PortalAsset),
    /// These texts, in order.
    Texts(Vec<String>),
    /// The body decodes into WiFi credentials or not; `configure_reply`
    /// says what is written then.
    Configure,
}

/// The texts of a list of strings.
pub open spec fn texts_of(v: Seq<String>) -> Seq<Seq<char>> {
    v.map_values(|s: String| s@)
}

/// The portal's header for a file of `len` bytes.
pub open spec fn asset_header(a: PortalAsset, len: nat) -> Seq<char> {
    match a {
        PortalAsset::Index => response_header_spec("text/html"@, len, None),
        PortalAsset::Script => response_header_spec("application/javascript"@, len, None),
        PortalAsset::Wasm => response_header_spec("application/wasm"@, len, Some("Content-Encoding: gzip\r\n"@)),
    }
}

/// The portal's reply to a route: the files with their headers, the
/// status JSON with its header, the configure step, or a redirect to the
/// portal.
pub open spec fn reply_spec(route: PortalRoute, asset_len: nat, device_id: Seq<char>, ip: Seq<char>, r: PortalReply) -> bool {
    match route {
        PortalRoute::Index => r matches PortalReply::Asset(h, a) && a == PortalAsset::Index && h@ == asset_header(a, asset_len),
        PortalRoute::Script => r matches PortalReply::Asset(h, a) && a == PortalAsset::Script && h@ == asset_header(a, asset_len),
        PortalRoute::Wasm => r matches PortalReply::Asset(h, a) && a == PortalAsset::Wasm && h@ == asset_header(a, asset_len),
        PortalRoute::Status => {
            let body = status_json_spec(device_id, ip, "ap_mode"@);
            r matches PortalReply::Texts(v) && texts_of(v@) =~= seq![
                response_header_spec("application/json"@, utf8_len(body), None),
                body,
            ]
        },
        PortalRoute::Configure => r is Configure,
        PortalRoute::Redirect => r matches PortalReply::Texts(v) && texts_of(v@) =~= seq![redirect_spec("http://192.168.4.1/"@)],
    }
}

/// The portal's reply to a route; `asset_len` is the length of the file
/// the route serves.
pub fn portal_reply(route: PortalRoute, asset_len: usize, device_id: &str, ip: &str) -> (r: PortalReply)
    requires
        asset_len < 10000000,
    ensures
        reply_spec(route, asset_len as nat, device_id@, ip@, r),
{
    match route {
        PortalRoute::Index => PortalReply::Asset(build_response_header("text/html", asset_len, None), PortalAsset::Index),
        PortalRoute::Script => PortalReply::Asset(
            build_response_header("application/javascript", asset_len, None),
            PortalAsset::Script,
        ),
        PortalRoute::Wasm => PortalReply::Asset(
            build_response_header("application/wasm", asset_len, Some("Content-Encoding: gzip\r\n")),
            PortalAsset::Wasm,
        ),
        PortalRoute::Status => {
            let body = build_status_json(device_id, ip, "ap_mode");
            let n = byte_len(body.as_str());
            let header = build_response_header("application/json", n, None);
            let mut v: Vec<String> = Vec::new();
            v.push(header);
            v.push(body);
            PortalReply::Texts(v)
        },
        PortalRoute::Configure => PortalReply::Configure,
        PortalRoute::Redirect => {
            let mut v: Vec<String> = Vec::new();
            v.push(build_redirect("http://192.168.4.1/"));
            PortalReply::Texts(v)
        },
    }
}

/// What the portal writes once the configure body decoded (with the
/// network's name) or not, and the message it logs.
pub fn configure_reply(ssid: Option<&str>) -> (r: (Option<String>, Vec<String>))
    ensures
        match ssid {
            Some(name) => {
                let body = configure_response_spec(true, "Configuration saved. Rebooting..."@);
                (r.0 matches Some(m) && m@ == "WiFi config received: ssid="@ + name@) && texts_of(r.1@) =~= seq![
                    response_header_spec("application/json"@, utf8_len(body), None),
                    body,
                ]
            },
            None => r.0 is None && texts_of(r.1@) =~= seq![error_response_spec(400, "Invalid JSON"@)],
        },
{
    let mut v: Vec<String> = Vec::new();
    match ssid {
        Some(name) => {
            let mut m = String::new();
            crate::text::push_str(&mut m, "WiFi config received: ssid=");
            crate::text::push_str(&mut m, name);
            let resp = build_configure_response(true, "Configuration saved. Rebooting...");
            let n = byte_len(resp.as_str());
            v.push(build_response_header("application/json", n, None));
            v.push(resp);
            (Some(m), v)
        },
        None => {
            proof {
                reveal_strlit("Invalid JSON");
                lemma_ascii_utf8_len("Invalid JSON"@);
            }
            v.push(build_error_response(400, "Invalid JSON"));
            (None, v)
        },
    }
}

} // verus!
