//! Text primitives shared by the parsers and builders: the UTF-8 byte length
//! of a character sequence, conversions between `&str`, `Vec<char>` and
//! `String`, and appending with a byte capacity.
use vstd::prelude::*;
use vstd::utf8::*;
use vstd::string::StringSliceAdditionalSpecFns;

verus! {

/// Number of bytes of the UTF-8 encoding of one character.
pub open spec fn char_width(c: char) -> nat {
    if (c as u32) < 0x80 {
        1
    } else if (c as u32) < 0x800 {
        2
    } else if (c as u32) < 0x10000 {
        3
    } else {
        4
    }
}

/// Number of bytes of the UTF-8 encoding of a character sequence.
pub open spec fn utf8_len(s: Seq<char>) -> nat
    decreases s.len(),
{
    if s.len() == 0 {
        0
    } else {
        char_width(s[0]) + utf8_len(s.drop_first())
    }
}

/// The byte length is additive over concatenation.
pub proof fn lemma_utf8_len_concat(a: Seq<char>, b: Seq<char>)
    ensures
        utf8_len(a + b) == utf8_len(a) + utf8_len(b),
    decreases a.len(),
{
    if a.len() == 0 {
        assert(a + b =~= b);
    } else {
        assert((a + b).drop_first() =~= a.drop_first() + b);
        lemma_utf8_len_concat(a.drop_first(), b);
    }
}

/// The byte length of a sequence with one more character.
pub proof fn lemma_utf8_len_push(a: Seq<char>, c: char)
    ensures
        utf8_len(a.push(c)) == utf8_len(a) + char_width(c),
{
    lemma_utf8_len_concat(a, seq![c]);
    assert(a.push(c) =~= a + seq![c]);
    assert(seq![c].drop_first() =~= Seq::<char>::empty());
    assert(utf8_len(seq![c]) == char_width(c) + utf8_len(seq![c].drop_first()));
}

/// Every character takes at least one byte.
pub proof fn lemma_utf8_len_ge_len(a: Seq<char>)
    ensures
        utf8_len(a) >= a.len(),
    decreases a.len(),
{
    if a.len() > 0 {
        lemma_utf8_len_ge_len(a.drop_first());
    }
}

/// `utf8_len` agrees with the length of vstd's UTF-8 encoding.
pub proof fn lemma_encode_utf8_len(s: Seq<char>)
    ensures
        encode_utf8(s).len() == utf8_len(s),
    decreases s.len(),
{
    if s.len() > 0 {
        let v = s[0] as u32;
        char_is_scalar(s[0]);
        lemma_encode_utf8_len(s.drop_first());
        assert(encode_scalar(v).len() == char_width(s[0]));
    }
}

/// The byte length of a `&str`, as `str::len` reports it, in terms of its characters.
pub proof fn lemma_str_len(s: &str)
    ensures
        s.spec_bytes().len() == utf8_len(s@),
{
    lemma_encode_utf8_len(s@);
}

/// Byte width of one character, computed.
pub fn char_width_exec(c: char) -> (w: usize)
    ensures
        w == char_width(c),
{
    let v: u32 = c as u32;
    if v < 0x80 {
        1
    } else if v < 0x800 {
        2
    } else if v < 0x10000 {
        3
    } else {
        4
    }
}

/// The byte length of a string slice.
pub fn byte_len(s: &str) -> (n: usize)
    ensures
        n == utf8_len(s@),
{
    proof {
        lemma_str_len(s);
    }
    s.as_bytes().len()
}

/// Appends one character to a `String` (std's `String::push`).
#[verifier::external_body]
pub(crate) fn push_char(s: &mut String, c: char)
    ensures
        final(s)@ == old(s)@.push(c),
{
    s.push(c);
}

/// Appends a string slice to a `String`.
pub(crate) fn push_str(s: &mut String, t: &str)
    ensures
        final(s)@ == old(s)@ + t@,
{
    s.append(t);
}

/// The characters of a string slice, in order.
pub fn chars_of(s: &str) -> (v: Vec<char>)
    ensures
        v@ == s@,
{
    let mut v: Vec<char> = Vec::new();
    for c in it: s.chars()
        invariant
            v@ == it.seq().take(it.index() as int),
            it.seq() == s@,
    {
        v.push(c);
    }
    v
}

/// A `String` holding the characters `v[from..to]`.
pub fn string_from_range(v: &Vec<char>, from: usize, to: usize) -> (s: String)
    requires
        from <= to <= v.len(),
    ensures
        s@ == v@.subrange(from as int, to as int),
{
    let mut s = String::new();
    let mut i = from;
    while i < to
        invariant
            from <= i <= to <= v.len(),
            s@ == v@.subrange(from as int, i as int),
        decreases to - i,
    {
        push_char(&mut s, v[i]);
        assert(v@.subrange(from as int, i + 1) =~= v@.subrange(from as int, i as int).push(v@[i as int]));
        i += 1;
    }
    s
}

/// A `String` holding all characters of `v`.
pub fn string_from_chars(v: &Vec<char>) -> (s: String)
    ensures
        s@ == v@,
{
    let s = string_from_range(v, 0, v.len());
    assert(v@.subrange(0, v@.len() as int) =~= v@);
    s
}

/// A `String` with the characters of a string slice.
pub fn to_string(t: &str) -> (s: String)
    ensures
        s@ == t@,
{
    t.to_owned()
}


/// Unicode `White_Space`, the set that `char::is_whitespace`, `str::trim`
/// and `str::split_whitespace` use.
pub open spec fn is_ws(c: char) -> bool {
    let v = c as u32;
    (0x9 <= v && v <= 0xD) || v == 0x20 || v == 0x85 || v == 0xA0 || v == 0x1680
        || (0x2000 <= v && v <= 0x200A) || v == 0x2028 || v == 0x2029 || v == 0x202F
        || v == 0x205F || v == 0x3000
}

/// `s` without its leading whitespace.
pub open spec fn trim_start(s: Seq<char>) -> Seq<char>
    decreases s.len(),
{
    if s.len() > 0 && is_ws(s[0]) {
        trim_start(s.drop_first())
    } else {
        s
    }
}

/// `s` without its trailing whitespace.
pub open spec fn trim_end(s: Seq<char>) -> Seq<char>
    decreases s.len(),
{
    if s.len() > 0 && is_ws(s.last()) {
        trim_end(s.drop_last())
    } else {
        s
    }
}

/// `s` without leading and trailing whitespace (`str::trim`).
pub open spec fn trim(s: Seq<char>) -> Seq<char> {
    trim_end(trim_start(s))
}

/// Code of a character with ASCII upper case letters mapped to lower case.
pub open spec fn lower_code(c: char) -> u32 {
    if 0x41 <= (c as u32) && (c as u32) <= 0x5A {
        ((c as u32) + 32) as u32
    } else {
        c as u32
    }
}

/// ASCII case-insensitive equality (`str::eq_ignore_ascii_case`).
pub open spec fn eq_ignore_ascii_case(a: Seq<char>, b: Seq<char>) -> bool {
    a.len() == b.len() && forall|i: int| 0 <= i < a.len() ==> lower_code(#[trigger] a[i]) == lower_code(b[i])
}

/// Index of the first `c` in `s` at or after `i`.
pub open spec fn find_from(s: Seq<char>, c: char, i: int) -> Option<int>
    decreases s.len() - i,
{
    if i < 0 || i >= s.len() {
        None
    } else if s[i] == c {
        Some(i)
    } else {
        find_from(s, c, i + 1)
    }
}

/// Index of the first `c` in `s`.
pub open spec fn find_char(s: Seq<char>, c: char) -> Option<int> {
    find_from(s, c, 0)
}

/// A line with one trailing carriage return removed.
pub open spec fn strip_cr(line: Seq<char>) -> Seq<char> {
    if line.len() > 0 && line.last() == '\r' {
        line.drop_last()
    } else {
        line
    }
}

/// The lines of `s` as `str::lines` yields them: split after each `\n`, the
/// `\n` (and a `\r` before it) removed; a final line without `\n` is kept
/// as it is, and no empty line follows a final `\n`.
pub open spec fn lines(s: Seq<char>) -> Seq<Seq<char>>
    decreases s.len(),
{
    if s.len() == 0 {
        Seq::empty()
    } else {
        match find_char(s, '\n') {
            None => seq![s],
            Some(i) => if 0 <= i < s.len() {
                seq![strip_cr(s.take(i))] + lines(s.skip(i + 1))
            } else {
                seq![s]
            },
        }
    }
}

/// Lines joined with `\n` between them.
pub open spec fn join_lines(ls: Seq<Seq<char>>) -> Seq<char>
    decreases ls.len(),
{
    if ls.len() == 0 {
        Seq::empty()
    } else if ls.len() == 1 {
        ls[0]
    } else {
        join_lines(ls.drop_last()) + seq!['\n'] + ls.last()
    }
}

/// `find_from` returns an index in range that holds `c`, and no `c` lies before it.
pub proof fn lemma_find_from(s: Seq<char>, c: char, i: int)
    requires
        0 <= i,
    ensures
        match find_from(s, c, i) {
            Some(j) => i <= j < s.len() && s[j] == c && forall|k: int| i <= k < j ==> s[k] != c,
            None => forall|k: int| i <= k < s.len() ==> s[k] != c,
        },
    decreases s.len() - i,
{
    if i < s.len() && s[i] != c {
        lemma_find_from(s, c, i + 1);
    }
}

/// Whitespace test for one character.
pub fn is_ws_exec(c: char) -> (b: bool)
    ensures
        b == is_ws(c),
{
    let v: u32 = c as u32;
    (0x9 <= v && v <= 0xD) || v == 0x20 || v == 0x85 || v == 0xA0 || v == 0x1680
        || (0x2000 <= v && v <= 0x200A) || v == 0x2028 || v == 0x2029 || v == 0x202F
        || v == 0x205F || v == 0x3000
}

/// Bounds `(a2, b2)` of the trimmed part of `v[a..b]`.
pub fn trim_range(v: &Vec<char>, a: usize, b: usize) -> (r: (usize, usize))
    requires
        a <= b <= v.len(),
    ensures
        a <= r.0 <= r.1 <= b,
        v@.subrange(r.0 as int, r.1 as int) == trim(v@.subrange(a as int, b as int)),
{
    let mut i = a;
    while i < b && is_ws_exec(v[i])
        invariant
            a <= i <= b <= v.len(),
            trim_start(v@.subrange(a as int, b as int)) == trim_start(v@.subrange(i as int, b as int)),
        decreases b - i,
    {
        assert(v@.subrange(i as int, b as int).drop_first() =~= v@.subrange(i + 1, b as int));
        i += 1;
    }
    assert(trim_start(v@.subrange(i as int, b as int)) == v@.subrange(i as int, b as int));
    let mut j = b;
    while j > i && is_ws_exec(v[j - 1])
        invariant
            a <= i <= j <= b <= v.len(),
            trim_end(v@.subrange(i as int, b as int)) == trim_end(v@.subrange(i as int, j as int)),
        decreases j - i,
    {
        assert(v@.subrange(i as int, j as int).drop_last() =~= v@.subrange(i as int, j - 1));
        j -= 1;
    }
    (i, j)
}

/// Position of the first `c` in `v[from..to]`, counted from the start of `v`.
pub fn find_in(v: &Vec<char>, c: char, from: usize, to: usize) -> (r: Option<usize>)
    requires
        from <= to <= v.len(),
    ensures
        match find_char(v@.subrange(from as int, to as int), c) {
            Some(i) => r == Some((from + i) as usize),
            None => r is None,
        },
{
    let ghost s = v@.subrange(from as int, to as int);
    let mut i = from;
    while i < to
        invariant
            from <= i <= to <= v.len(),
            s == v@.subrange(from as int, to as int),
            find_from(s, c, 0) == find_from(s, c, i - from),
        decreases to - i,
    {
        if v[i] == c {
            return Some(i);
        }
        i += 1;
    }
    None
}

/// The line of `v` that starts at `pos`: it ends before `e`, and the next
/// line starts at `n`.
pub fn next_line(v: &Vec<char>, pos: usize) -> (r: (usize, usize))
    requires
        pos < v.len(),
    ensures
        pos <= r.0 <= r.1 <= v.len(),
        pos < r.1,
        lines(v@.skip(pos as int)) == seq![v@.subrange(pos as int, r.0 as int)] + lines(
            v@.skip(r.1 as int),
        ),
{
    let ghost s = v@.skip(pos as int);
    let found = find_in(v, '\n', pos, v.len());
    assert(v@.subrange(pos as int, v.len() as int) =~= s);
    proof {
        lemma_find_from(s, '\n', 0);
    }
    match found {
        Some(k) => {
            let ghost i = k - pos;
            assert(s.take(i) =~= v@.subrange(pos as int, k as int));
            assert(s.skip(i + 1) =~= v@.skip(k + 1));
            let e = if k > pos && v[k - 1] == '\r' {
                assert(v@.subrange(pos as int, k as int).drop_last() =~= v@.subrange(pos as int, k - 1));
                k - 1
            } else {
                k
            };
            (e, k + 1)
        },
        None => {
            assert(v@.subrange(pos as int, v.len() as int) =~= s);
            assert(v@.skip(v.len() as int) =~= Seq::<char>::empty());
            assert(lines(Seq::<char>::empty()) =~= Seq::<Seq<char>>::empty());
            assert(seq![s] + Seq::<Seq<char>>::empty() =~= seq![s]);
            (v.len(), v.len())
        },
    }
}

/// Code of `c` with ASCII upper case mapped to lower case.
pub fn lower_code_exec(c: char) -> (r: u32)
    ensures
        r == lower_code(c),
{
    let v: u32 = c as u32;
    if 0x41 <= v && v <= 0x5A {
        v + 32
    } else {
        v
    }
}

/// ASCII case-insensitive comparison of `v[a..b]` with `w`.
pub fn eq_ignore_ascii_case_range(v: &Vec<char>, a: usize, b: usize, w: &Vec<char>) -> (r: bool)
    requires
        a <= b <= v.len(),
    ensures
        r == eq_ignore_ascii_case(v@.subrange(a as int, b as int), w@),
{
    let ghost s = v@.subrange(a as int, b as int);
    if b - a != w.len() {
        return false;
    }
    let mut i: usize = 0;
    while i < w.len()
        invariant
            a <= b <= v.len(),
            b - a == w.len(),
            s == v@.subrange(a as int, b as int),
            i <= w.len(),
            forall|k: int| 0 <= k < i ==> lower_code(#[trigger] s[k]) == lower_code(w@[k]),
        decreases w.len() - i,
    {
        if lower_code_exec(v[a + i]) != lower_code_exec(w[i]) {
            assert(lower_code(s[i as int]) != lower_code(w@[i as int]));
            return false;
        }
        i += 1;
    }
    true
}


/// Whether `v[from..to]` takes at most `cap` bytes in UTF-8.
pub fn fits_bytes(v: &Vec<char>, from: usize, to: usize, cap: usize) -> (r: bool)
    requires
        from <= to <= v.len(),
    ensures
        r == (utf8_len(v@.subrange(from as int, to as int)) <= cap),
{
    let mut i = from;
    let mut n: usize = 0;
    while i < to
        invariant
            from <= i <= to <= v.len(),
            n <= cap,
            n == utf8_len(v@.subrange(from as int, i as int)),
        decreases to - i,
    {
        let w = char_width_exec(v[i]);
        proof {
            assert(v@.subrange(from as int, i + 1) =~= v@.subrange(from as int, i as int).push(v@[i as int]));
            lemma_utf8_len_push(v@.subrange(from as int, i as int), v@[i as int]);
        }
        if w > cap - n {
            proof {
                lemma_utf8_len_concat(v@.subrange(from as int, i + 1), v@.subrange(i + 1, to as int));
                assert(v@.subrange(from as int, i + 1) + v@.subrange(i + 1, to as int) =~= v@.subrange(from as int, to as int));
            }
            return false;
        }
        n = n + w;
        i += 1;
    }
    true
}


/// The decimal digit character for `d < 10`.
pub open spec fn digit_char(d: nat) -> char {
    if d == 0 {
        '0'
    } else if d == 1 {
        '1'
    } else if d == 2 {
        '2'
    } else if d == 3 {
        '3'
    } else if d == 4 {
        '4'
    } else if d == 5 {
        '5'
    } else if d == 6 {
        '6'
    } else if d == 7 {
        '7'
    } else if d == 8 {
        '8'
    } else {
        '9'
    }
}

/// The decimal representation of `n`, without leading zeros.
pub open spec fn decimal(n: nat) -> Seq<char>
    decreases n,
{
    if n < 10 {
        seq![digit_char(n)]
    } else {
        decimal(n / 10).push(digit_char(n % 10))
    }
}

/// Decimal digits are ASCII, one byte each.
pub proof fn lemma_decimal_ascii(n: nat)
    ensures
        utf8_len(decimal(n)) == decimal(n).len(),
        decimal(n).len() >= 1,
        forall|i: int| 0 <= i < decimal(n).len() ==> (#[trigger] decimal(n)[i] as u32) < 0x80,
    decreases n,
{
    if n < 10 {
        assert(seq![digit_char(n)].drop_first() =~= Seq::<char>::empty());
        assert(utf8_len(seq![digit_char(n)]) == char_width(digit_char(n)) + utf8_len(seq![digit_char(n)].drop_first()));
    } else {
        lemma_decimal_ascii(n / 10);
        lemma_utf8_len_push(decimal(n / 10), digit_char(n % 10));
    }
}

/// Number of digits of `n`.
pub proof fn lemma_decimal_len(n: nat)
    ensures
        n < 10 ==> decimal(n).len() == 1,
        10 <= n < 100 ==> decimal(n).len() == 2,
        100 <= n < 1000 ==> decimal(n).len() == 3,
        n < 10000 ==> decimal(n).len() <= 4,
        n < 100000 ==> decimal(n).len() <= 5,
        n < 1000000 ==> decimal(n).len() <= 6,
        n < 10000000 ==> decimal(n).len() <= 7,
    decreases n,
{
    if n >= 10 {
        lemma_decimal_len(n / 10);
    }
}

/// Digit character for `d < 10`.
fn digit_char_exec(d: usize) -> (c: char)
    requires
        d < 10,
    ensures
        c == digit_char(d as nat),
{
    let c = match d {
        0 => '0',
        1 => '1',
        2 => '2',
        3 => '3',
        4 => '4',
        5 => '5',
        6 => '6',
        7 => '7',
        8 => '8',
        _ => '9',
    };
    assert(c == digit_char(d as nat));
    c
}

/// The decimal representation of `n` as characters.
pub fn decimal_chars(n: usize) -> (v: Vec<char>)
    ensures
        v@ == decimal(n as nat),
    decreases n,
{
    if n < 10 {
        let mut v = Vec::new();
        v.push(digit_char_exec(n));
        assert(v@ =~= seq![digit_char(n as nat)]);
        v
    } else {
        let mut v = decimal_chars(n / 10);
        v.push(digit_char_exec(n % 10));
        v
    }
}

/// `acc` with `t` appended when the result fits in `cap` bytes; `acc`
/// unchanged otherwise (appending a whole string to a fixed-capacity string).
pub open spec fn append_within(acc: Seq<char>, t: Seq<char>, cap: nat) -> Seq<char> {
    if utf8_len(acc) + utf8_len(t) <= cap {
        acc + t
    } else {
        acc
    }
}

/// `acc` with as many of the single-byte characters `t` appended, one at a
/// time, as fit in `cap` bytes.
pub open spec fn append_chars_within(acc: Seq<char>, t: Seq<char>, cap: nat) -> Seq<char> {
    if utf8_len(acc) + t.len() <= cap {
        acc + t
    } else if utf8_len(acc) <= cap {
        acc + t.take(cap - utf8_len(acc))
    } else {
        acc
    }
}

/// Capacity in bytes of a `BoundedString`.
pub const BOUNDED_CAPACITY: usize = 256;

/// heapless's fixed-capacity string, as an opaque type.
#[verifier::external_type_specification]
#[verifier::external_body]
pub struct ExHeaplessString<const N: usize>(heapless::String<N>);

/// The characters that a heapless string of 256 bytes holds.
pub uninterp spec fn buffer_text(s: heapless::String<256>) -> Seq<char>;

/// An empty heapless string (heapless's `String::new`).
#[verifier::external_body]
fn buffer_new() -> (s: heapless::String<256>)
    ensures
        buffer_text(s) == Seq::<char>::empty(),
{
    heapless::String::new()
}

/// The text of a heapless string (heapless's `String::as_str`).
#[verifier::external_body]
fn buffer_str(s: &heapless::String<256>) -> (t: &str)
    ensures
        t@ == buffer_text(*s),
{
    s.as_str()
}

/// Appends `t` (heapless's `String::push_str`): when its bytes fit in the
/// 256 bytes it is appended and the call succeeds; otherwise the string is
/// left as it was and the call fails.
#[verifier::external_body]
fn buffer_push_str(s: &mut heapless::String<256>, t: &str) -> (r: Result<(), ()>)
    ensures
        utf8_len(buffer_text(*old(s))) + utf8_len(t@) <= 256 ==> r is Ok && buffer_text(*final(s)) == buffer_text(
            *old(s),
        ) + t@,
        utf8_len(buffer_text(*old(s))) + utf8_len(t@) > 256 ==> r is Err && buffer_text(*final(s)) == buffer_text(
            *old(s),
        ),
{
    s.push_str(t)
}

/// Appends `c` (heapless's `String::push`): when its bytes fit in the 256
/// bytes it is appended and the call succeeds; otherwise the string is left
/// as it was and the call fails.
#[verifier::external_body]
fn buffer_push(s: &mut heapless::String<256>, c: char) -> (r: Result<(), ()>)
    ensures
        utf8_len(buffer_text(*old(s))) + char_width(c) <= 256 ==> r is Ok && buffer_text(*final(s)) == buffer_text(
            *old(s),
        ).push(c),
        utf8_len(buffer_text(*old(s))) + char_width(c) > 256 ==> r is Err && buffer_text(*final(s)) == buffer_text(
            *old(s),
        ),
{
    s.push(c)
}

/// A string of at most 256 bytes, held in heapless's `String<256>`:
/// appending fails, and leaves the string unchanged, when the result would
/// not fit.
pub struct BoundedString {
    text: heapless::String<256>,
}

impl View for BoundedString {
    type V = Seq<char>;

    closed spec fn view(&self) -> Seq<char> {
        buffer_text(self.text)
    }
}

impl BoundedString {
    /// The byte capacity.
    pub closed spec fn capacity(&self) -> nat {
        BOUNDED_CAPACITY as nat
    }

    /// The text fits the capacity.
    pub closed spec fn wf(&self) -> bool {
        utf8_len(buffer_text(self.text)) <= BOUNDED_CAPACITY
    }

    /// An empty string.
    pub fn new() -> (s: BoundedString)
        ensures
            s.wf(),
            s@ == Seq::<char>::empty(),
            s.capacity() == BOUNDED_CAPACITY,
    {
        BoundedString { text: buffer_new() }
    }

    /// The text.
    pub fn as_str(&self) -> (t: &str)
        ensures
            t@ == self@,
    {
        buffer_str(&self.text)
    }

    /// The byte length.
    pub fn len(&self) -> (n: usize)
        requires
            self.wf(),
        ensures
            n == utf8_len(self@),
    {
        byte_len(buffer_str(&self.text))
    }

    /// The text, as a `String`.
    pub fn into_string(self) -> (t: String)
        requires
            self.wf(),
        ensures
            t@ == self@,
            utf8_len(t@) <= self.capacity(),
    {
        to_string(buffer_str(&self.text))
    }

    /// Appends `t` if it fits; returns whether it did.
    pub fn push_str(&mut self, t: &str) -> (ok: bool)
        requires
            old(self).wf(),
        ensures
            final(self).wf(),
            final(self).capacity() == old(self).capacity(),
            final(self)@ == append_within(old(self)@, t@, old(self).capacity()),
            ok == (utf8_len(old(self)@) + utf8_len(t@) <= old(self).capacity()),
    {
        let r = buffer_push_str(&mut self.text, t);
        proof {
            lemma_utf8_len_concat(old(self)@, t@);
        }
        r.is_ok()
    }

    /// Appends the character `c` if it fits; returns whether it did.
    pub fn push(&mut self, c: char) -> (ok: bool)
        requires
            old(self).wf(),
        ensures
            final(self).wf(),
            final(self).capacity() == old(self).capacity(),
            final(self)@ == append_within(old(self)@, seq![c], old(self).capacity()),
            ok == (utf8_len(old(self)@) + char_width(c) <= old(self).capacity()),
    {
        proof {
            assert(seq![c].drop_first() =~= Seq::<char>::empty());
            assert(utf8_len(seq![c]) == char_width(c) + utf8_len(seq![c].drop_first()));
            lemma_utf8_len_push(buffer_text(self.text), c);
            assert(buffer_text(self.text).push(c) =~= buffer_text(self.text) + seq![c]);
        }
        let r = buffer_push(&mut self.text, c);
        r.is_ok()
    }
}


/// Appends the single-byte characters `t` to `s` one at a time, each only
/// if it fits.
pub fn push_chars_within(s: &mut BoundedString, t: &Vec<char>)
    requires
        old(s).wf(),
        forall|i: int| 0 <= i < t@.len() ==> (#[trigger] t@[i] as u32) < 0x80,
    ensures
        final(s).wf(),
        final(s).capacity() == old(s).capacity(),
        final(s)@ == append_chars_within(old(s)@, t@, old(s).capacity()),
{
    let ghost start = s@;
    proof {
        lemma_utf8_len_ge_len(t@);
    }
    let mut i: usize = 0;
    while i < t.len()
        invariant
            s.wf(),
            s.capacity() == old(s).capacity(),
            start == old(s)@,
            i <= t.len(),
            forall|k: int| 0 <= k < t@.len() ==> (#[trigger] t@[k] as u32) < 0x80,
            s@ == append_chars_within(start, t@.take(i as int), s.capacity()),
        decreases t.len() - i,
    {
        let ghost before = s@;
        let c = t[i];
        s.push(c);
        proof {
            let cap = s.capacity();
            let ti = t@.take(i as int);
            let ti1 = t@.take(i + 1);
            assert(ti1 =~= ti.push(c));
            assert(char_width(c) == 1);
            assert(seq![c].drop_first() =~= Seq::<char>::empty());
            assert(utf8_len(seq![c]) == char_width(c) + utf8_len(seq![c].drop_first()));
            if utf8_len(start) + ti.len() <= cap {
                assert(before == start + ti);
                lemma_utf8_len_concat(start, ti);
                lemma_ascii_utf8_len(ti);
                lemma_ascii_utf8_len(ti1);
                if utf8_len(start) + ti1.len() <= cap {
                    assert(s@ =~= start + ti1);
                } else {
                    assert(s@ == before);
                    assert(ti1.take(cap - utf8_len(start)) =~= ti);
                }
            } else if utf8_len(start) <= cap {
                let kept = ti.take(cap - utf8_len(start));
                assert(before == start + kept);
                lemma_ascii_utf8_len(kept);
                lemma_utf8_len_concat(start, kept);
                assert(s@ == before);
                assert(ti1.take(cap - utf8_len(start)) =~= kept);
            } else {
                assert(false);
            }
        }
        i += 1;
    }
    assert(t@.take(t@.len() as int) =~= t@);
}

/// A sequence of single-byte characters takes one byte per character.
pub proof fn lemma_ascii_utf8_len(t: Seq<char>)
    requires
        forall|i: int| 0 <= i < t.len() ==> (#[trigger] t[i] as u32) < 0x80,
    ensures
        utf8_len(t) == t.len(),
    decreases t.len(),
{
    if t.len() > 0 {
        assert(forall|i: int| 0 <= i < t.drop_first().len() ==> #[trigger] t.drop_first()[i] == t[i + 1]);
        lemma_ascii_utf8_len(t.drop_first());
    }
}

/// Appends the decimal digits of `n` to `s`, each only if it fits.
pub fn push_decimal_within(s: &mut BoundedString, n: usize)
    requires
        old(s).wf(),
    ensures
        final(s).wf(),
        final(s).capacity() == old(s).capacity(),
        final(s)@ == append_chars_within(old(s)@, decimal(n as nat), old(s).capacity()),
{
    let d = decimal_chars(n);
    proof {
        lemma_decimal_ascii(n as nat);
    }
    push_chars_within(s, &d);
}
/// End bound of `trim_end(v[a..b])`.
pub fn trim_end_range(v: &Vec<char>, a: usize, b: usize) -> (e: usize)
    requires
        a <= b <= v.len(),
    ensures
        a <= e <= b,
        v@.subrange(a as int, e as int) == trim_end(v@.subrange(a as int, b as int)),
{
    let mut j = b;
    while j > a && is_ws_exec(v[j - 1])
        invariant
            a <= j <= b <= v.len(),
            trim_end(v@.subrange(a as int, b as int)) == trim_end(v@.subrange(a as int, j as int)),
        decreases j - a,
    {
        assert(v@.subrange(a as int, j as int).drop_last() =~= v@.subrange(a as int, j - 1));
        j -= 1;
    }
    j
}


/// Whether two character vectors are equal.
pub fn chars_eq(v: &Vec<char>, w: &Vec<char>) -> (r: bool)
    ensures
        r == (v@ == w@),
{
    if v.len() != w.len() {
        return false;
    }
    let mut i: usize = 0;
    while i < w.len()
        invariant
            v.len() == w.len(),
            i <= w.len(),
            forall|k: int| 0 <= k < i ==> v@[k] == w@[k],
        decreases w.len() - i,
    {
        if v[i] != w[i] {
            return false;
        }
        i += 1;
    }
    assert(v@ =~= w@);
    true
}

} // verus!
