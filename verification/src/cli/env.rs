//! Parsing of bash-style `.env` files.
use vstd::prelude::*;
use vstd::hash_map::StringHashMap;
use crate::text::{
    chars_of, find_char, find_in, lemma_find_from, lines, next_line, string_from_range, trim, trim_end,
    trim_end_range, trim_range,
};

verus! {

/// `s` without one pair of matching surrounding quotes (`"…"` or `'…'`).
pub open spec fn strip_quotes_spec(s: Seq<char>) -> Seq<char> {
    if s.len() >= 2 && ((s[0] == '"' && s.last() == '"') || (s[0] == '\'' && s.last() == '\'')) {
        s.subrange(1, s.len() - 1)
    } else {
        s
    }
}

/// Index of the first `" #"` in `s` at or after `i`.
pub open spec fn find_comment(s: Seq<char>, i: int) -> Option<int>
    decreases s.len() - i,
{
    if i < 0 || i + 2 > s.len() {
        None
    } else if s[i] == ' ' && s[i + 1] == '#' {
        Some(i)
    } else {
        find_comment(s, i + 1)
    }
}

/// `s` cut before the first `" #"` and trimmed at the end; unchanged when
/// there is none.
pub open spec fn strip_inline_comment_spec(s: Seq<char>) -> Seq<char> {
    match find_comment(s, 0) {
        Some(i) => trim_end(s.take(i)),
        None => s,
    }
}

/// The entry that one line of a `.env` file defines: blank lines, `#`
/// comments, lines without `=` and lines with an empty key define none;
/// otherwise the trimmed key before the first `=`, and the trimmed value
/// after it with surrounding quotes and then an inline comment removed.
pub open spec fn env_entry(line: Seq<char>) -> Option<(Seq<char>, Seq<char>)> {
    let t = trim(line);
    if t.len() == 0 || t[0] == '#' {
        None
    } else {
        match find_char(t, '=') {
            None => None,
            Some(i) => {
                let key = trim(t.take(i));
                if key.len() == 0 {
                    None
                } else {
                    Some((key, strip_inline_comment_spec(strip_quotes_spec(trim(t.skip(i + 1))))))
                }
            },
        }
    }
}

/// The variables that lines define, a later line overriding an earlier one.
pub open spec fn env_map(ls: Seq<Seq<char>>) -> Map<Seq<char>, Seq<char>>
    decreases ls.len(),
{
    if ls.len() == 0 {
        Map::empty()
    } else {
        match env_entry(ls.last()) {
            Some((k, v)) => env_map(ls.drop_last()).insert(k, v),
            None => env_map(ls.drop_last()),
        }
    }
}

/// Removes one pair of matching surrounding quotes.
pub fn strip_quotes(s: &str) -> (r: String)
    ensures
        r@ == strip_quotes_spec(s@),
{
    let v = chars_of(s);
    let (a, b) = strip_quotes_range(&v, 0, v.len());
    assert(v@.subrange(0, v.len() as int) =~= v@);
    string_from_range(&v, a, b)
}

/// Bounds of `strip_quotes_spec(v[a..b])` within `v`.
fn strip_quotes_range(v: &Vec<char>, a: usize, b: usize) -> (r: (usize, usize))
    requires
        a <= b <= v.len(),
    ensures
        a <= r.0 <= r.1 <= b,
        v@.subrange(r.0 as int, r.1 as int) == strip_quotes_spec(v@.subrange(a as int, b as int)),
{
    let ghost s = v@.subrange(a as int, b as int);
    if b - a >= 2 && ((v[a] == '"' && v[b - 1] == '"') || (v[a] == '\'' && v[b - 1] == '\'')) {
        assert(v@.subrange(a + 1, b - 1) =~= s.subrange(1, s.len() - 1));
        (a + 1, b - 1)
    } else {
        (a, b)
    }
}

/// Cuts at the first `" #"` and trims the end.
pub fn strip_inline_comment(s: &str) -> (r: String)
    ensures
        r@ == strip_inline_comment_spec(s@),
{
    let v = chars_of(s);
    let (a, b) = strip_comment_range(&v, 0, v.len());
    assert(v@.subrange(0, v.len() as int) =~= v@);
    string_from_range(&v, a, b)
}

/// Bounds of `strip_inline_comment_spec(v[a..b])` within `v`.
fn strip_comment_range(v: &Vec<char>, a: usize, b: usize) -> (r: (usize, usize))
    requires
        a <= b <= v.len(),
    ensures
        a <= r.0 <= r.1 <= b,
        v@.subrange(r.0 as int, r.1 as int) == strip_inline_comment_spec(v@.subrange(a as int, b as int)),
{
    let ghost s = v@.subrange(a as int, b as int);
    let mut i = a;
    while i < b && b - i >= 2
        invariant
            a <= i <= b <= v.len(),
            s == v@.subrange(a as int, b as int),
            find_comment(s, 0) == find_comment(s, i - a),
        decreases b - i,
    {
        if v[i] == ' ' && v[i + 1] == '#' {
            let e = trim_end_range(v, a, i);
            assert(s.take(i - a) =~= v@.subrange(a as int, i as int));
            return (a, e);
        }
        i += 1;
    }
    (a, b)
}

/// Bounds of the key and value of the entry that line `v[a..b]` defines.
fn env_entry_range(v: &Vec<char>, a: usize, b: usize) -> (r: Option<(usize, usize, usize, usize)>)
    requires
        a <= b <= v.len(),
    ensures
        match env_entry(v@.subrange(a as int, b as int)) {
            None => r is None,
            Some((k, val)) => r matches Some((ka, kb, va, vb)) && ka <= kb <= v.len() && va <= vb
                <= v.len() && v@.subrange(ka as int, kb as int) == k && v@.subrange(va as int, vb as int)
                == val,
        },
{
    let ghost line = v@.subrange(a as int, b as int);
    let (ta, tb) = trim_range(v, a, b);
    let ghost t = v@.subrange(ta as int, tb as int);
    if ta == tb || v[ta] == '#' {
        return None;
    }
    let eq = match find_in(v, '=', ta, tb) {
        None => return None,
        Some(e) => e,
    };
    proof {
        lemma_find_from(t, '=', 0);
        assert(t.take(eq - ta) =~= v@.subrange(ta as int, eq as int));
        assert(t.skip(eq - ta + 1) =~= v@.subrange(eq + 1, tb as int));
    }
    let (ka, kb) = trim_range(v, ta, eq);
    if ka == kb {
        return None;
    }
    let (va, vb) = trim_range(v, eq + 1, tb);
    let (qa, qb) = strip_quotes_range(v, va, vb);
    let (ca, cb) = strip_comment_range(v, qa, qb);
    Some((ka, kb, ca, cb))
}

/// The map `m` holds exactly the entries of `e`, by their characters.
pub open spec fn holds_entries(m: Map<Seq<char>, String>, e: Map<Seq<char>, Seq<char>>) -> bool {
    &&& forall|k: Seq<char>| #[trigger] m.contains_key(k) <==> e.contains_key(k)
    &&& forall|k: Seq<char>| #[trigger] m.contains_key(k) ==> m[k]@ == e[k]
}

/// Parse a bash-style `.env` text into a map: `#` comments, `KEY=VALUE`,
/// single- and double-quoted values, inline comments after `" #"`, and
/// blank lines. A later definition of a key overrides an earlier one.
pub fn parse_env(contents: &str) -> (m: StringHashMap<String>)
    ensures
        holds_entries(m@, env_map(lines(contents@))),
        m@.dom() == env_map(lines(contents@)).dom(),
{
    let v = chars_of(contents);
    let mut m: StringHashMap<String> = StringHashMap::new();
    let mut pos: usize = 0;
    let ghost mut done: Seq<Seq<char>> = Seq::empty();
    assert(v@.skip(0) =~= v@);
    while pos < v.len()
        invariant
            v@ == contents@,
            pos <= v.len(),
            done + lines(v@.skip(pos as int)) == lines(v@),
            holds_entries(m@, env_map(done)),
        decreases v.len() - pos,
    {
        let (e, n) = next_line(&v, pos);
        let ghost line = v@.subrange(pos as int, e as int);
        match env_entry_range(&v, pos, e) {
            Some((ka, kb, va, vb)) => {
                let key = string_from_range(&v, ka, kb);
                let value = string_from_range(&v, va, vb);
                m.insert(key, value);
            },
            None => {},
        }
        proof {
            let d2 = done.push(line);
            assert(d2.drop_last() =~= done);
            assert(d2.last() == line);
            assert(done + lines(v@.skip(pos as int)) =~= d2 + lines(v@.skip(n as int)));
            done = d2;
        }
        pos = n;
    }
    proof {
        assert(v@.skip(pos as int) =~= Seq::<char>::empty());
        assert(lines(v@.skip(pos as int)) =~= Seq::<Seq<char>>::empty());
        assert(done =~= lines(v@));
        assert(m@.dom() =~= env_map(lines(contents@)).dom());
    }
    m
}

} // verus!

verus! {

/// The variables that name/value assignments define, in order: a later
/// assignment of a name overrides an earlier one.
pub open spec fn vars_map(vs: Seq<(String, String)>) -> Map<Seq<char>, Seq<char>>
    decreases vs.len(),
{
    if vs.len() == 0 {
        Map::empty()
    } else {
        vars_map(vs.drop_last()).insert(vs.last().0@, vs.last().1@)
    }
}

/// Parse a `.env` text into its assignments, in line order; they define
/// the same variables as `parse_env`'s map.
pub fn parse_env_vars(contents: &str) -> (vs: Vec<(String, String)>)
    ensures
        vars_map(vs@) == env_map(lines(contents@)),
{
    let v = chars_of(contents);
    let mut vs: Vec<(String, String)> = Vec::new();
    let mut pos: usize = 0;
    let ghost mut done: Seq<Seq<char>> = Seq::empty();
    assert(v@.skip(0) =~= v@);
    assert(vars_map(vs@) =~= env_map(done));
    while pos < v.len()
        invariant
            v@ == contents@,
            pos <= v.len(),
            done + lines(v@.skip(pos as int)) == lines(v@),
            vars_map(vs@) == env_map(done),
        decreases v.len() - pos,
    {
        let (e, n) = next_line(&v, pos);
        let ghost line = v@.subrange(pos as int, e as int);
        let ghost before = vs@;
        match env_entry_range(&v, pos, e) {
            Some((ka, kb, va, vb)) => {
                let key = string_from_range(&v, ka, kb);
                let value = string_from_range(&v, va, vb);
                vs.push((key, value));
                assert(vs@.drop_last() =~= before);
            },
            None => {},
        }
        proof {
            let d2 = done.push(line);
            assert(d2.drop_last() =~= done);
            assert(d2.last() == line);
            assert(done + lines(v@.skip(pos as int)) =~= d2 + lines(v@.skip(n as int)));
            done = d2;
        }
        pos = n;
    }
    proof {
        assert(v@.skip(pos as int) =~= Seq::<char>::empty());
        assert(lines(v@.skip(pos as int)) =~= Seq::<Seq<char>>::empty());
        assert(done =~= lines(v@));
    }
    vs
}

/// The value of a variable, if it is defined.
pub fn lookup_var(vs: &Vec<(String, String)>, key: &str) -> (r: Option<String>)
    ensures
        match r {
            Some(s) => vars_map(vs@).contains_key(key@) && s@ == vars_map(vs@)[key@],
            None => !vars_map(vs@).contains_key(key@),
        },
{
    let kv = chars_of(key);
    let mut found: Option<String> = None;
    let mut i: usize = 0;
    while i < vs.len()
        invariant
            i <= vs.len(),
            kv@ == key@,
            match found {
                Some(s) => vars_map(vs@.take(i as int)).contains_key(key@) && s@ == vars_map(vs@.take(i as int))[key@],
                None => !vars_map(vs@.take(i as int)).contains_key(key@),
            },
        decreases vs.len() - i,
    {
        assert(vs@.take(i + 1).drop_last() =~= vs@.take(i as int));
        if crate::text::chars_eq(&chars_of(vs[i].0.as_str()), &kv) {
            found = Some(vs[i].1.clone());
        }
        i += 1;
    }
    assert(vs@.take(vs.len() as int) =~= vs@);
    found
}

/// `vs` with one more assignment at the end.
pub fn with_var(vs: &Vec<(String, String)>, key: &str, value: &str) -> (r: Vec<(String, String)>)
    ensures
        vars_map(r@) == vars_map(vs@).insert(key@, value@),
{
    let mut r = copy_vars(vs);
    let ghost before = r@;
    r.push((crate::text::to_string(key), crate::text::to_string(value)));
    assert(r@.drop_last() =~= before);
    r
}

/// A copy of the assignments, same names and values in the same order.
pub fn copy_vars(vs: &Vec<(String, String)>) -> (r: Vec<(String, String)>)
    ensures
        r@.len() == vs@.len(),
        forall|i: int| 0 <= i < vs@.len() ==> (#[trigger] r@[i]).0@ == vs@[i].0@ && r@[i].1@ == vs@[i].1@,
        vars_map(r@) == vars_map(vs@),
{
    let mut r: Vec<(String, String)> = Vec::new();
    let mut i: usize = 0;
    while i < vs.len()
        invariant
            i <= vs.len(),
            r@.len() == i,
            forall|k: int| 0 <= k < i ==> (#[trigger] r@[k]).0@ == vs@[k].0@ && r@[k].1@ == vs@[k].1@,
            vars_map(r@) == vars_map(vs@.take(i as int)),
        decreases vs.len() - i,
    {
        let ghost before = r@;
        r.push((vs[i].0.clone(), vs[i].1.clone()));
        assert(r@.drop_last() =~= before);
        assert(vs@.take(i + 1).drop_last() =~= vs@.take(i as int));
        i += 1;
    }
    assert(vs@.take(vs.len() as int) =~= vs@);
    r
}

/// Later assignments override earlier ones: the variables of `a` followed
/// by `b` are those of `a` updated by those of `b`.
pub proof fn lemma_vars_map_append(a: Seq<(String, String)>, b: Seq<(String, String)>)
    ensures
        vars_map(a + b) == vars_map(a).union_prefer_right(vars_map(b)),
    decreases b.len(),
{
    if b.len() == 0 {
        assert(a + b =~= a);
        assert(vars_map(a).union_prefer_right(Map::empty()) =~= vars_map(a));
    } else {
        lemma_vars_map_append(a, b.drop_last());
        assert((a + b).drop_last() =~= a + b.drop_last());
        assert((a + b).last() == b.last());
        assert(vars_map(a + b) =~= vars_map(a).union_prefer_right(vars_map(b)));
    }
}

/// The environment of a command: the process's variables with `overrides`
/// applied on top.
pub fn make_env(process: &Vec<(String, String)>, overrides: &Vec<(String, String)>) -> (r: Vec<(String, String)>)
    ensures
        vars_map(r@) == vars_map(process@).union_prefer_right(vars_map(overrides@)),
{
    let mut r = copy_vars(process);
    let ghost start = r@;
    let mut i: usize = 0;
    while i < overrides.len()
        invariant
            i <= overrides.len(),
            vars_map(start) == vars_map(process@),
            vars_map(r@) == vars_map(start + overrides@.take(i as int)),
        decreases overrides.len() - i,
    {
        let ghost before = r@;
        r.push((overrides[i].0.clone(), overrides[i].1.clone()));
        proof {
            assert(vars_map(r@) == vars_map(before).insert(overrides@[i as int].0@, overrides@[i as int].1@)) by {
                assert(r@.drop_last() =~= before);
            }
            let nxt = start + overrides@.take(i + 1);
            assert(nxt.drop_last() =~= start + overrides@.take(i as int));
            assert(nxt.last() == overrides@[i as int]);
        }
        i += 1;
    }
    proof {
        assert(overrides@.take(overrides.len() as int) =~= overrides@);
        lemma_vars_map_append(start, overrides@);
    }
    r
}

/// A copy of a list of strings.
pub fn copy_strings(v: &Vec<String>) -> (r: Vec<String>)
    ensures
        crate::pattern::texts_of(r@) == crate::pattern::texts_of(v@),
{
    let mut r: Vec<String> = Vec::new();
    let mut i: usize = 0;
    while i < v.len()
        invariant
            i <= v.len(),
            crate::pattern::texts_of(r@) == crate::pattern::texts_of(v@.take(i as int)),
        decreases v.len() - i,
    {
        let ghost before = r@;
        let x = v[i].clone();
        r.push(x);
        assert(crate::pattern::texts_of(r@) =~= crate::pattern::texts_of(before).push(v@[i as int]@));
        assert(crate::pattern::texts_of(v@.take(i + 1)) =~= crate::pattern::texts_of(v@.take(i as int)).push(v@[i as int]@));
        i += 1;
    }
    assert(v@.take(v.len() as int) =~= v@);
    r
}

} // verus!
