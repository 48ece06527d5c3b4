//! What the request builders write, the portal's request parser reads back.
use vstd::prelude::*;
use crate::text::{decimal, find_char, find_from, is_ws, lines, strip_cr, utf8_len};
use crate::device::server::{
    blank_line_at, body_spec, find_blank_line, first_line, request_line_spec, skip_ws, word_at, word_end,
};
use crate::device::http::{get_request_text, post_request_text};

verus! {

/// The first `c` at or after `i` is at `j` when `s[j] == c` and no `c`
/// stands in `s[i..j]`.
proof fn lemma_find_from_at(s: Seq<char>, c: char, i: int, j: int)
    requires
        0 <= i <= j < s.len(),
        s[j] == c,
        forall|k: int| i <= k < j ==> s[k] != c,
    ensures
        find_from(s, c, i) == Some(j),
    decreases j - i,
{
    if i < j {
        lemma_find_from_at(s, c, i + 1, j);
    }
}

/// A word that starts at `i` ends at `j` when `s[i..j]` holds no
/// whitespace and `s[j]` is whitespace or the end.
proof fn lemma_word_end_at(s: Seq<char>, i: int, j: int)
    requires
        0 <= i <= j <= s.len(),
        forall|k: int| i <= k < j ==> !is_ws(#[trigger] s[k]),
        j == s.len() || is_ws(s[j]),
    ensures
        word_end(s, i) == j,
    decreases j - i,
{
    if i < j {
        lemma_word_end_at(s, i + 1, j);
    }
}

/// The first line of `s` when its first `\n` stands at `i`.
proof fn lemma_first_line_at(s: Seq<char>, i: int)
    requires
        0 <= i < s.len(),
        find_char(s, '\n') == Some(i),
    ensures
        first_line(s) == strip_cr(s.take(i)),
{
    assert(lines(s) == seq![strip_cr(s.take(i))] + lines(s.skip(i + 1)));
}

/// The request line of `"<method> <path> <rest>\r\n..."`: its method and
/// path, where method, path and rest hold no whitespace and the method
/// and path are not empty.
proof fn lemma_request_line_of(s: Seq<char>, method: Seq<char>, path: Seq<char>, rest: Seq<char>, after: Seq<char>)
    requires
        method.len() > 0,
        path.len() > 0,
        forall|k: int| 0 <= k < method.len() ==> !is_ws(#[trigger] method[k]),
        forall|k: int| 0 <= k < path.len() ==> !is_ws(#[trigger] path[k]),
        forall|k: int| 0 <= k < rest.len() ==> !is_ws(#[trigger] rest[k]),
        s == method + " "@ + path + " "@ + rest + "\r\n"@ + after,
    ensures
        request_line_spec(s) == (method, path),
{
    reveal_strlit(" ");
    reveal_strlit("\r\n");
    let m = method.len() as int;
    let n = path.len() as int;
    let line = method + " "@ + path + " "@ + rest;
    let lr = line + "\r\n"@;
    assert(s == lr + after);
    let eol = line.len() as int + 1;
    assert(is_ws('\r') && is_ws(' ') && is_ws('\n'));
    assert forall|k: int| 0 <= k < line.len() implies !is_ws(#[trigger] line[k]) || line[k] == ' ' by {
        if k < m {
            assert(line[k] == method[k]);
        } else if k == m {
        } else if k < m + 1 + n {
            assert(line[k] == path[k - m - 1]);
        } else if k == m + 1 + n {
        } else {
            assert(line[k] == rest[k - m - 2 - n]);
        }
    }
    assert forall|k: int| 0 <= k < eol implies s[k] != '\n' by {
        if k < line.len() {
            assert(s[k] == line[k]);
        } else {
            assert(s[k] == '\r');
        }
    }
    assert(s[eol] == '\n');
    lemma_find_from_at(s, '\n', 0, eol);
    lemma_first_line_at(s, eol);
    assert(s.take(eol).last() == '\r');
    assert(first_line(s) =~= line);
    assert forall|k: int| 0 <= k < m implies !is_ws(#[trigger] line[k]) by {
        assert(line[k] == method[k]);
    }
    assert(line[m] == ' ');
    lemma_word_end_at(line, 0, m);
    assert(!is_ws(line[0]));
    assert(skip_ws(line, 0) == 0);
    assert(word_at(line, 0).0 =~= method);
    assert(line[m + 1] == path[0]);
    assert(skip_ws(line, m + 1) == m + 1);
    assert(skip_ws(line, m) == m + 1);
    assert forall|k: int| m + 1 <= k < m + 1 + n implies !is_ws(#[trigger] line[k]) by {
        assert(line[k] == path[k - m - 1]);
    }
    assert(line[m + 1 + n] == ' ');
    lemma_word_end_at(line, m + 1, m + 1 + n);
    assert(word_at(line, m).0 =~= path);
}

/// A GET request built for a path with no whitespace in it is read back by
/// the portal as method `GET` and that path.
pub proof fn lemma_get_request_line(host: Seq<char>, path: Seq<char>)
    requires
        path.len() > 0,
        forall|k: int| 0 <= k < path.len() ==> !is_ws(#[trigger] path[k]),
    ensures
        request_line_spec(get_request_text(host, path)) == ("GET"@, path),
{
    reveal_strlit("GET");
    reveal_strlit("GET ");
    reveal_strlit(" HTTP/1.0\r\n");
    reveal_strlit(" ");
    reveal_strlit("HTTP/1.0");
    reveal_strlit("\r\n");
    let after = "Host: "@ + host + "\r\n"@ + "User-Agent: Uplink/0.1.0 (Platform; ESP32-C3)\r\n"@
        + "Accept: */*\r\n\r\n"@;
    let s = get_request_text(host, path);
    assert(s =~= "GET"@ + " "@ + path + " "@ + "HTTP/1.0"@ + "\r\n"@ + after);
    lemma_request_line_of(s, "GET"@, path, "HTTP/1.0"@, after);
}

/// A POST request built for a path with no whitespace in it is read back by
/// the portal as method `POST` and that path, with or without a body.
pub proof fn lemma_post_request_line(host: Seq<char>, path: Seq<char>, body: Option<Seq<char>>)
    requires
        path.len() > 0,
        forall|k: int| 0 <= k < path.len() ==> !is_ws(#[trigger] path[k]),
    ensures
        request_line_spec(post_request_text(host, path, body)) == ("POST"@, path),
{
    reveal_strlit("POST");
    reveal_strlit("POST ");
    reveal_strlit(" HTTP/1.1\r\n");
    reveal_strlit(" ");
    reveal_strlit("HTTP/1.1");
    reveal_strlit("\r\n");
    let s = post_request_text(host, path, body);
    let after = s.skip(("POST "@ + path + " HTTP/1.1\r\n"@).len() as int);
    assert(s =~= "POST"@ + " "@ + path + " "@ + "HTTP/1.1"@ + "\r\n"@ + after);
    lemma_request_line_of(s, "POST"@, path, "HTTP/1.1"@, after);
}

/// Whether `t` holds no carriage return.
pub open spec fn no_cr(t: Seq<char>) -> bool {
    forall|k: int| 0 <= k < t.len() ==> t[k] != '\r'
}

/// The first blank line at or after `i` starts at `j` when one starts at
/// `j` and none in `[i, j)`.
proof fn lemma_find_blank_line_at(s: Seq<char>, i: int, j: int)
    requires
        0 <= i <= j,
        blank_line_at(s, j),
        forall|k: int| i <= k < j ==> !blank_line_at(s, k),
    ensures
        find_blank_line(s, i) == Some(j),
    decreases j - i,
{
    if i < j {
        lemma_find_blank_line_at(s, i + 1, j);
    }
}

/// No blank line starts inside a line `a` without carriage returns that
/// stands at `off`, nor at its line break, when the next line does not
/// start with a carriage return.
proof fn lemma_line_has_no_blank(s: Seq<char>, off: int, a: Seq<char>)
    requires
        0 <= off,
        off + a.len() + 3 <= s.len(),
        s.subrange(off, off + a.len()) == a,
        no_cr(a),
        s[off + a.len()] == '\r' && s[off + a.len() + 1] == '\n' && s[off + a.len() + 2] != '\r',
    ensures
        forall|k: int| off <= k < off + a.len() + 2 ==> !blank_line_at(s, k),
{
    assert forall|k: int| off <= k < off + a.len() + 2 implies !blank_line_at(s, k) by {
        if k < off + a.len() {
            assert(s[k] == s.subrange(off, off + a.len())[k - off]);
        }
    }
}

/// The body of a request whose header lines hold no carriage return and
/// are not empty, ended by a blank line: what follows the blank line.
proof fn lemma_body_after_headers(
    s: Seq<char>,
    a0: Seq<char>,
    a1: Seq<char>,
    a2: Seq<char>,
    a3: Seq<char>,
    a4: Seq<char>,
    body: Seq<char>,
)
    requires
        a0.len() > 0 && a1.len() > 0 && a2.len() > 0 && a3.len() > 0 && a4.len() > 0,
        no_cr(a0) && no_cr(a1) && no_cr(a2) && no_cr(a3) && no_cr(a4),
        s == a0 + "\r\n"@ + a1 + "\r\n"@ + a2 + "\r\n"@ + a3 + "\r\n"@ + a4 + "\r\n\r\n"@ + body,
    ensures
        body_spec(s) == body,
{
    reveal_strlit("\r\n");
    reveal_strlit("\r\n\r\n");
    let o1 = a0.len() as int + 2;
    let o2 = o1 + a1.len() + 2;
    let o3 = o2 + a2.len() + 2;
    let o4 = o3 + a3.len() + 2;
    let e = o4 + a4.len();
    assert(s.subrange(0, a0.len() as int) =~= a0);
    assert(s.subrange(o1, o1 + a1.len()) =~= a1);
    assert(s.subrange(o2, o2 + a2.len()) =~= a2);
    assert(s.subrange(o3, o3 + a3.len()) =~= a3);
    assert(s.subrange(o4, e) =~= a4);
    assert(s[o1] == a1[0] && s[o2] == a2[0] && s[o3] == a3[0] && s[o4] == a4[0]);
    lemma_line_has_no_blank(s, 0, a0);
    lemma_line_has_no_blank(s, o1, a1);
    lemma_line_has_no_blank(s, o2, a2);
    lemma_line_has_no_blank(s, o3, a3);
    assert forall|k: int| o4 <= k < e implies !blank_line_at(s, k) by {
        assert(s[k] == s.subrange(o4, e)[k - o4]);
    }
    assert(blank_line_at(s, e));
    lemma_find_blank_line_at(s, 0, e);
    assert(s.skip(e + 4) =~= body);
}

/// Joined text without carriage returns holds none.
proof fn lemma_no_cr_add(a: Seq<char>, b: Seq<char>)
    requires
        no_cr(a) && no_cr(b),
    ensures
        no_cr(a + b),
{
    assert forall|k: int| 0 <= k < (a + b).len() implies (a + b)[k] != '\r' by {
        if k >= a.len() {
            assert((a + b)[k] == b[k - a.len()]);
        }
    }
}

/// Decimal digits hold no carriage return.
proof fn lemma_decimal_no_cr(n: nat)
    ensures
        no_cr(decimal(n)),
        decimal(n).len() > 0,
    decreases n,
{
    if n >= 10 {
        lemma_decimal_no_cr(n / 10);
        assert forall|k: int| 0 <= k < decimal(n).len() implies decimal(n)[k] != '\r' by {
            if k < decimal(n / 10).len() {
                assert(decimal(n)[k] == decimal(n / 10)[k]);
            }
        }
    }
}

/// The body of a POST request built with a JSON body is read back as that
/// body, when host and path hold no carriage return.
pub proof fn lemma_post_request_body(host: Seq<char>, path: Seq<char>, json: Seq<char>)
    requires
        no_cr(host),
        no_cr(path),
    ensures
        body_spec(post_request_text(host, path, Some(json))) == json,
{
    reveal_strlit("POST ");
    reveal_strlit(" HTTP/1.1");
    reveal_strlit(" HTTP/1.1\r\n");
    reveal_strlit("Host: ");
    reveal_strlit("\r\nContent-Type: application/json\r\n");
    reveal_strlit("Content-Type: application/json");
    reveal_strlit("Content-Length: ");
    reveal_strlit("\r\nConnection: close\r\n\r\n");
    reveal_strlit("Connection: close");
    reveal_strlit("\r\n");
    reveal_strlit("\r\n\r\n");
    let dec = decimal(utf8_len(json));
    lemma_decimal_no_cr(utf8_len(json));
    assert(no_cr("POST "@));
    assert(no_cr(" HTTP/1.1"@));
    assert(no_cr("Host: "@));
    assert(no_cr("Content-Type: application/json"@));
    assert(no_cr("Content-Length: "@));
    assert(no_cr("Connection: close"@));
    lemma_no_cr_add("POST "@, path);
    lemma_no_cr_add("POST "@ + path, " HTTP/1.1"@);
    lemma_no_cr_add("Host: "@, host);
    lemma_no_cr_add("Content-Length: "@, dec);
    let a0 = "POST "@ + path + " HTTP/1.1"@;
    let a1 = "Host: "@ + host;
    let a2 = "Content-Type: application/json"@;
    let a3 = "Content-Length: "@ + dec;
    let a4 = "Connection: close"@;
    let s = post_request_text(host, path, Some(json));
    assert(s =~= a0 + "\r\n"@ + a1 + "\r\n"@ + a2 + "\r\n"@ + a3 + "\r\n"@ + a4 + "\r\n\r\n"@ + json);
    lemma_body_after_headers(s, a0, a1, a2, a3, a4, json);
}

} // verus!
