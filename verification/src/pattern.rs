//! Substring search, prefix stripping, trimming a given character,
//! replacing, joining, and decimal text of integers.
use vstd::prelude::*;
use crate::text::{chars_of, decimal, digit_char, push_char, push_str, string_from_range, to_string, trim, trim_range};

verus! {

/// Whether `s` contains `pat` starting at index `i`.
pub open spec fn contains_at(s: Seq<char>, pat: Seq<char>, i: int) -> bool {
    0 <= i && i + pat.len() <= s.len() && s.subrange(i, i + pat.len()) == pat
}

/// Whether `s` contains `pat`.
pub open spec fn contains_text(s: Seq<char>, pat: Seq<char>) -> bool {
    exists|i: int| contains_at(s, pat, i)
}

/// Whether `v` contains `pat`.
pub fn contains_chars(v: &Vec<char>, pat: &Vec<char>) -> (r: bool)
    ensures
        r == contains_text(v@, pat@),
{
    if pat.len() > v.len() {
        assert forall|i: int| !contains_at(v@, pat@, i) by {}
        return false;
    }
    let mut i: usize = 0;
    while i <= v.len() - pat.len()
        invariant
            pat.len() <= v.len(),
            i <= v.len() - pat.len() + 1,
            forall|k: int| 0 <= k < i ==> !contains_at(v@, pat@, k),
        decreases v.len() - pat.len() + 1 - i,
    {
        let mut j: usize = 0;
        let mut same = true;
        while j < pat.len()
            invariant
                pat.len() <= v.len(),
                i <= v.len() - pat.len(),
                j <= pat.len(),
                same == forall|k: int| 0 <= k < j ==> v@[i + k] == pat@[k],
            decreases pat.len() - j,
        {
            if v[i + j] != pat[j] {
                same = false;
            }
            j += 1;
        }
        if same {
            assert(v@.subrange(i as int, i + pat.len()) =~= pat@);
            assert(contains_at(v@, pat@, i as int));
            return true;
        }
        assert(!contains_at(v@, pat@, i as int)) by {
            let k = choose|k: int| 0 <= k < pat.len() && v@[i + k] != pat@[k];
            assert(v@.subrange(i as int, i + pat.len())[k] != pat@[k]);
        }
        i += 1;
    }
    assert forall|k: int| !contains_at(v@, pat@, k) by {
        if 0 <= k && k + pat.len() <= v.len() {
            assert(k < i);
        }
    }
    false
}

/// Whether `s` contains `pat` (std's `str::contains` with a `&str`).
pub fn str_contains(s: &str, pat: &str) -> (r: bool)
    ensures
        r == contains_text(s@, pat@),
{
    contains_chars(&chars_of(s), &chars_of(pat))
}

/// `s` without the prefix `p`, when it starts with it (`str::strip_prefix`).
pub open spec fn strip_prefix_spec(s: Seq<char>, p: Seq<char>) -> Option<Seq<char>> {
    if p.len() <= s.len() && s.take(p.len() as int) == p {
        Some(s.skip(p.len() as int))
    } else {
        None
    }
}

/// Whether `v[a..]` starts with `p`.
pub fn starts_with_at(v: &Vec<char>, a: usize, p: &Vec<char>) -> (r: bool)
    requires
        a <= v.len(),
    ensures
        r == (a + p.len() <= v.len() && v@.subrange(a as int, a + p.len()) == p@),
{
    if p.len() > v.len() - a {
        return false;
    }
    let mut j: usize = 0;
    while j < p.len()
        invariant
            a + p.len() <= v.len(),
            j <= p.len(),
            forall|k: int| 0 <= k < j ==> v@[a + k] == p@[k],
        decreases p.len() - j,
    {
        if v[a + j] != p[j] {
            assert(v@.subrange(a as int, a + p.len())[j as int] != p@[j as int]);
            return false;
        }
        j += 1;
    }
    assert(v@.subrange(a as int, a + p.len()) =~= p@);
    true
}

/// `s` without the prefix `p`, or `None` when `s` does not start with it.
pub fn strip_prefix(s: &str, p: &str) -> (r: Option<String>)
    ensures
        match strip_prefix_spec(s@, p@) {
            Some(t) => r matches Some(u) && u@ == t,
            None => r is None,
        },
{
    let v = chars_of(s);
    let pv = chars_of(p);
    if starts_with_at(&v, 0, &pv) {
        assert(v@.subrange(0, pv.len() as int) =~= v@.take(pv.len() as int));
        let t = string_from_range(&v, pv.len(), v.len());
        assert(v@.subrange(pv.len() as int, v.len() as int) =~= v@.skip(pv.len() as int));
        Some(t)
    } else {
        assert(pv.len() <= v.len() ==> v@.subrange(0, pv.len() as int) =~= v@.take(pv.len() as int));
        None
    }
}

/// `s` without every trailing `c` (`str::trim_end_matches` with a `char`).
pub open spec fn trim_end_char(s: Seq<char>, c: char) -> Seq<char>
    decreases s.len(),
{
    if s.len() > 0 && s.last() == c {
        trim_end_char(s.drop_last(), c)
    } else {
        s
    }
}

/// `s` without every leading `c` (`str::trim_start_matches` with a `char`).
pub open spec fn trim_start_char(s: Seq<char>, c: char) -> Seq<char>
    decreases s.len(),
{
    if s.len() > 0 && s[0] == c {
        trim_start_char(s.drop_first(), c)
    } else {
        s
    }
}

/// `s` without every leading and trailing `c` (`str::trim_matches`).
pub open spec fn trim_char(s: Seq<char>, c: char) -> Seq<char> {
    trim_end_char(trim_start_char(s, c), c)
}

/// Bounds of `trim_char(v[a..b], c)`.
fn trim_char_range(v: &Vec<char>, c: char, start: bool, end: bool) -> (r: (usize, usize))
    ensures
        r.0 <= r.1 <= v.len(),
        start && end ==> v@.subrange(r.0 as int, r.1 as int) == trim_char(v@, c),
        !start && end ==> v@.subrange(r.0 as int, r.1 as int) == trim_end_char(v@, c),
{
    let mut a: usize = 0;
    assert(v@.subrange(0, v.len() as int) =~= v@);
    if start {
        while a < v.len() && v[a] == c
            invariant
                a <= v.len(),
                trim_start_char(v@, c) == trim_start_char(v@.subrange(a as int, v.len() as int), c),
            decreases v.len() - a,
        {
            assert(v@.subrange(a as int, v.len() as int).drop_first() =~= v@.subrange(a + 1, v.len() as int));
            a += 1;
        }
        assert(trim_start_char(v@.subrange(a as int, v.len() as int), c) == v@.subrange(a as int, v.len() as int));
    }
    let ghost tail = v@.subrange(a as int, v.len() as int);
    assert(!start ==> v@.subrange(0, v.len() as int) =~= v@);
    let mut b: usize = v.len();
    if end {
        while b > a && v[b - 1] == c
            invariant
                a <= b <= v.len(),
                trim_end_char(v@.subrange(a as int, v.len() as int), c) == trim_end_char(v@.subrange(a as int, b as int), c),
            decreases b - a,
        {
            assert(v@.subrange(a as int, b as int).drop_last() =~= v@.subrange(a as int, b - 1));
            b -= 1;
        }
        assert(trim_end_char(v@.subrange(a as int, b as int), c) == v@.subrange(a as int, b as int));
    }
    assert(end ==> v@.subrange(a as int, b as int) == trim_end_char(tail, c));
    (a, b)
}

/// `s` without every trailing `c`.
pub fn trim_end_matches(s: &str, c: char) -> (t: String)
    ensures
        t@ == trim_end_char(s@, c),
{
    let v = chars_of(s);
    let (a, b) = trim_char_range(&v, c, false, true);
    string_from_range(&v, a, b)
}

/// `s` without every leading and trailing `c`.
pub fn trim_matches(s: &str, c: char) -> (t: String)
    ensures
        t@ == trim_char(s@, c),
{
    let v = chars_of(s);
    let (a, b) = trim_char_range(&v, c, true, true);
    string_from_range(&v, a, b)
}

/// `s` with every non-overlapping occurrence of `from`, found left to
/// right, replaced by `to` (`str::replace` with a non-empty pattern).
pub open spec fn replace_spec(s: Seq<char>, from: Seq<char>, to: Seq<char>) -> Seq<char>
    decreases s.len(),
{
    if from.len() == 0 || s.len() == 0 {
        s
    } else if from.len() <= s.len() && s.take(from.len() as int) == from {
        to + replace_spec(s.skip(from.len() as int), from, to)
    } else {
        seq![s[0]] + replace_spec(s.skip(1), from, to)
    }
}

/// Replaces every occurrence of a non-empty `from` in `s` by `to`.
pub fn replace(s: &str, from: &str, to: &str) -> (r: String)
    requires
        from@.len() > 0,
    ensures
        r@ == replace_spec(s@, from@, to@),
{
    let v = chars_of(s);
    let fv = chars_of(from);
    let mut out = String::new();
    let mut i: usize = 0;
    assert(v@.skip(0) =~= v@);
    assert(out@ + replace_spec(v@, fv@, to@) =~= replace_spec(v@, fv@, to@));
    while i < v.len()
        invariant
            i <= v.len(),
            fv@ == from@,
            fv.len() > 0,
            out@ + replace_spec(v@.skip(i as int), fv@, to@) == replace_spec(v@, fv@, to@),
        decreases v.len() - i,
    {
        let ghost rest = v@.skip(i as int);
        if starts_with_at(&v, i, &fv) {
            assert(rest.take(fv.len() as int) =~= v@.subrange(i as int, i + fv.len()));
            assert(rest.skip(fv.len() as int) =~= v@.skip(i + fv.len()));
            push_str(&mut out, to);
            assert(out@ + replace_spec(v@.skip(i + fv.len()), fv@, to@) =~= (out@.subrange(0, out@.len() - to@.len())) + replace_spec(rest, fv@, to@));
            i += fv.len();
        } else {
            assert(fv.len() <= rest.len() ==> rest.take(fv.len() as int) =~= v@.subrange(i as int, i + fv.len()));
            assert(rest.skip(1) =~= v@.skip(i + 1));
            assert(rest[0] == v@[i as int]);
            let ghost before = out@;
            push_char(&mut out, v[i]);
            assert(out@ + replace_spec(v@.skip(i + 1), fv@, to@) =~= before + replace_spec(rest, fv@, to@));
            i += 1;
        }
    }
    assert(v@.skip(i as int) =~= Seq::<char>::empty());
    assert(out@ + Seq::<char>::empty() =~= out@);
    out
}

/// The parts joined with `sep` between neighbours (`slice::join`).
pub open spec fn join_spec(parts: Seq<Seq<char>>, sep: Seq<char>) -> Seq<char>
    decreases parts.len(),
{
    if parts.len() == 0 {
        Seq::empty()
    } else if parts.len() == 1 {
        parts[0]
    } else {
        join_spec(parts.drop_last(), sep) + sep + parts.last()
    }
}

/// The texts of a list of strings.
pub open spec fn texts_of(v: Seq<String>) -> Seq<Seq<char>> {
    v.map_values(|s: String| s@)
}

/// The texts of a list of string slices.
pub open spec fn strs_of(v: Seq<&str>) -> Seq<Seq<char>> {
    v.map_values(|s: &str| s@)
}

/// Joins strings with `sep` between neighbours.
pub fn join_strings(parts: &Vec<String>, sep: &str) -> (r: String)
    ensures
        r@ == join_spec(texts_of(parts@), sep@),
{
    let mut out = String::new();
    let mut i: usize = 0;
    while i < parts.len()
        invariant
            i <= parts.len(),
            out@ == join_spec(texts_of(parts@.take(i as int)), sep@),
        decreases parts.len() - i,
    {
        let ghost before = texts_of(parts@.take(i as int));
        assert(texts_of(parts@.take(i + 1)).drop_last() =~= before);
        assert(texts_of(parts@.take(i + 1)).last() == parts@[i as int]@);
        if i > 0 {
            push_str(&mut out, sep);
        } else {
            assert(texts_of(parts@.take(1)) =~= seq![parts@[0]@]);
        }
        push_str(&mut out, parts[i].as_str());
        i += 1;
    }
    assert(parts@.take(parts.len() as int) =~= parts@);
    out
}

/// Joins string slices with `sep` between neighbours.
pub fn join_strs(parts: &[&str], sep: &str) -> (r: String)
    ensures
        r@ == join_spec(strs_of(parts@), sep@),
{
    let mut out = String::new();
    let mut i: usize = 0;
    while i < parts.len()
        invariant
            i <= parts@.len(),
            out@ == join_spec(strs_of(parts@.take(i as int)), sep@),
        decreases parts@.len() - i,
    {
        let ghost before = strs_of(parts@.take(i as int));
        assert(strs_of(parts@.take(i + 1)).drop_last() =~= before);
        assert(strs_of(parts@.take(i + 1)).last() == parts@[i as int]@);
        if i > 0 {
            push_str(&mut out, sep);
        } else {
            assert(strs_of(parts@.take(1)) =~= seq![parts@[0]@]);
        }
        push_str(&mut out, parts[i]);
        i += 1;
    }
    assert(parts@.take(parts@.len() as int) =~= parts@);
    out
}

/// The decimal text of an integer, with a leading `-` when negative.
pub open spec fn int_text(n: int) -> Seq<char> {
    if n < 0 {
        seq!['-'] + decimal((-n) as nat)
    } else {
        decimal(n as nat)
    }
}

/// The decimal digits of `n`.
fn decimal_u64(n: u64) -> (v: Vec<char>)
    ensures
        v@ == decimal(n as nat),
    decreases n,
{
    let d = (n % 10) as u8;
    let c = if d == 0 {
        '0'
    } else if d == 1 {
        '1'
    } else if d == 2 {
        '2'
    } else if d == 3 {
        '3'
    } else if d == 4 {
        '4'
    } else if d == 5 {
        '5'
    } else if d == 6 {
        '6'
    } else if d == 7 {
        '7'
    } else if d == 8 {
        '8'
    } else {
        '9'
    };
    assert(c == digit_char((n % 10) as nat));
    if n < 10 {
        let mut v = Vec::new();
        v.push(c);
        assert(v@ =~= seq![digit_char(n as nat)]);
        v
    } else {
        let mut v = decimal_u64(n / 10);
        v.push(c);
        v
    }
}

/// Appends the decimal text of `n`.
pub fn push_u64(s: &mut String, n: u64)
    ensures
        final(s)@ == old(s)@ + decimal(n as nat),
{
    let v = decimal_u64(n);
    let t = string_from_range(&v, 0, v.len());
    assert(v@.subrange(0, v.len() as int) =~= v@);
    push_str(s, t.as_str());
}

/// Appends the decimal text of `n`, with a `-` when negative.
pub fn push_i64(s: &mut String, n: i64)
    requires
        n > i64::MIN,
    ensures
        final(s)@ == old(s)@ + int_text(n as int),
{
    if n < 0 {
        push_char(s, '-');
        push_u64(s, (-n) as u64);
    } else {
        push_u64(s, n as u64);
    }
}

/// `prefix` followed by the decimal text of `n`.
pub fn text_with_number(prefix: &str, n: u64) -> (t: String)
    ensures
        t@ == prefix@ + decimal(n as nat),
{
    let mut t = to_string(prefix);
    push_u64(&mut t, n);
    t
}

/// Whether a text is empty.
pub fn is_empty_text(s: &str) -> (b: bool)
    ensures
        b == (s@.len() == 0),
{
    chars_of(s).len() == 0
}

/// The text without leading and trailing whitespace (`str::trim`).
pub fn trim_text(s: &str) -> (t: String)
    ensures
        t@ == trim(s@),
{
    let v = chars_of(s);
    let (a, b) = trim_range(&v, 0, v.len());
    assert(v@.subrange(0, v.len() as int) =~= v@);
    string_from_range(&v, a, b)
}

} // verus!
