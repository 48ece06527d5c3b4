//! The host's Rust target triple, from the output of `rustc -vV`.
use vstd::prelude::*;
use crate::cli::error::CliError;
use crate::pattern::{starts_with_at, strip_prefix_spec};
use crate::text::{chars_of, lines, next_line, string_from_range, to_string, trim, trim_range};

verus! {

/// The trimmed rest of the first line that starts with `host: `.
pub open spec fn host_line(ls: Seq<Seq<char>>) -> Option<Seq<char>>
    decreases ls.len(),
{
    if ls.len() == 0 {
        None
    } else {
        match strip_prefix_spec(ls[0], "host: "@) {
            Some(t) => Some(trim(t)),
            None => host_line(ls.drop_first()),
        }
    }
}

/// The host target triple named by `rustc -vV`'s output, or a
/// configuration error when no line names it.
pub fn host_target_from(stdout: &str) -> (r: Result<String, CliError>)
    ensures
        match host_line(lines(stdout@)) {
            Some(t) => r matches Ok(s) && s@ == t,
            None => r matches Err(CliError::Config(m)) && m@ == "could not determine host target from `rustc -vV`"@,
        },
{
    let v = chars_of(stdout);
    let p = chars_of("host: ");
    let mut pos: usize = 0;
    assert(v@.skip(0) =~= v@);
    while pos < v.len()
        invariant
            v@ == stdout@,
            p@ == "host: "@,
            pos <= v.len(),
            host_line(lines(v@.skip(pos as int))) == host_line(lines(v@)),
        decreases v.len() - pos,
    {
        let (e, n) = next_line(&v, pos);
        let ghost line = v@.subrange(pos as int, e as int);
        let ghost rest = lines(v@.skip(n as int));
        assert((seq![line] + rest)[0] == line);
        assert((seq![line] + rest).drop_first() =~= rest);
        if e - pos >= p.len() && starts_with_at(&v, pos, &p) {
            assert(line.take(p.len() as int) =~= v@.subrange(pos as int, pos + p.len()));
            assert(line.skip(p.len() as int) =~= v@.subrange(pos + p.len(), e as int));
            let (a, b) = trim_range(&v, pos + p.len(), e);
            return Ok(string_from_range(&v, a, b));
        }
        assert(p.len() <= line.len() ==> line.take(p.len() as int) =~= v@.subrange(pos as int, pos + p.len()));
        pos = n;
    }
    assert(v@.skip(pos as int) =~= Seq::<char>::empty());
    assert(lines(Seq::<char>::empty()) =~= Seq::<Seq<char>>::empty());
    Err(CliError::Config(to_string("could not determine host target from `rustc -vV`")))
}

} // verus!
