//! Character-level helpers on strings, stated over their `Seq<char>` views.

use vstd::prelude::*;
use vstd::std_specs::iter::IteratorSpec;

verus! {

/// The characters of `s`, in order.
pub(crate) fn chars_of(s: &str) -> (r: Vec<char>)
    ensures
        r@ == s@,
{
    broadcast use vstd::string::group_string_axioms;

    let mut it = s.chars();
    let mut out: Vec<char> = Vec::new();
    loop
        invariant
            out@ + it.remaining() == s@,
            it.decrease() is Some,
        decreases it.decrease()->0,
    {
        match it.next() {
            Some(c) => {
                out.push(c);
            },
            None => {
                assert(out@ =~= s@);
                return out;
            },
        }
    }
}

/// Relies on `String::from_iter` over `&char`: the string made of the
/// characters of `v`, in order.
#[verifier::external_body]
pub(crate) fn string_of(v: &Vec<char>) -> (r: String)
    ensures
        r@ == v@,
{
    String::from_iter(v.iter())
}

/// Whether `s` begins with `p`.
pub open spec fn has_prefix(s: Seq<char>, p: Seq<char>) -> bool {
    p.len() <= s.len() && s.subrange(0, p.len() as int) == p
}

/// Whether `s` ends with `p`.
pub open spec fn has_suffix(s: Seq<char>, p: Seq<char>) -> bool {
    p.len() <= s.len() && s.subrange(s.len() - p.len(), s.len() as int) == p
}

pub(crate) fn same_chars(a: &Vec<char>, b: &Vec<char>) -> (r: bool)
    ensures
        r == (a@ == b@),
{
    if a.len() != b.len() {
        return false;
    }
    let mut i: usize = 0;
    while i < a.len()
        invariant
            a.len() == b.len(),
            i <= a.len(),
            a@.subrange(0, i as int) == b@.subrange(0, i as int),
        decreases a.len() - i,
    {
        if a[i] != b[i] {
            assert(a@.subrange(0, i as int + 1)[i as int] != b@.subrange(0, i as int + 1)[i as int]);
            return false;
        }
        assert(a@.subrange(0, i as int + 1) =~= a@.subrange(0, i as int).push(a[i as int]));
        assert(b@.subrange(0, i as int + 1) =~= b@.subrange(0, i as int).push(b[i as int]));
        i = i + 1;
    }
    assert(a@ =~= a@.subrange(0, i as int));
    assert(b@ =~= b@.subrange(0, i as int));
    true
}

/// Whether the characters `s[from..]` begin with `p`.
pub(crate) fn prefix_at(s: &Vec<char>, from: usize, p: &Vec<char>) -> (r: bool)
    requires
        from <= s.len(),
    ensures
        r == has_prefix(s@.subrange(from as int, s.len() as int), p@),
{
    let ghost rest = s@.subrange(from as int, s.len() as int);
    if p.len() > s.len() - from {
        return false;
    }
    let mut i: usize = 0;
    while i < p.len()
        invariant
            from + p.len() <= s.len(),
            rest == s@.subrange(from as int, s.len() as int),
            i <= p.len(),
            rest.subrange(0, i as int) == p@.subrange(0, i as int),
        decreases p.len() - i,
    {
        if s[from + i] != p[i] {
            assert(rest.subrange(0, p.len() as int)[i as int] != p@[i as int]);
            return false;
        }
        assert(rest.subrange(0, i as int + 1) =~= rest.subrange(0, i as int).push(s@[from + i]));
        assert(p@.subrange(0, i as int + 1) =~= p@.subrange(0, i as int).push(p@[i as int]));
        i = i + 1;
    }
    assert(p@ =~= p@.subrange(0, i as int));
    true
}

pub(crate) fn starts_with(s: &Vec<char>, p: &Vec<char>) -> (r: bool)
    ensures
        r == has_prefix(s@, p@),
{
    let r = prefix_at(s, 0, p);
    assert(s@.subrange(0, s.len() as int) =~= s@);
    r
}

pub(crate) fn ends_with(s: &Vec<char>, p: &Vec<char>) -> (r: bool)
    ensures
        r == has_suffix(s@, p@),
{
    if p.len() > s.len() {
        return false;
    }
    let from = s.len() - p.len();
    let r = prefix_at(s, from, p);
    assert(s@.subrange(from as int, s.len() as int).subrange(0, p.len() as int) =~= s@.subrange(
        from as int,
        s.len() as int,
    ));
    r
}

/// Appends the characters of `s` to `out`.
pub(crate) fn append_chars(out: &mut Vec<char>, s: &str)
    ensures
        final(out)@ == old(out)@ + s@,
{
    let cs = chars_of(s);
    let mut i: usize = 0;
    while i < cs.len()
        invariant
            cs@ == s@,
            i <= cs.len(),
            out@ == old(out)@ + s@.subrange(0, i as int),
        decreases cs.len() - i,
    {
        out.push(cs[i]);
        assert(out@ =~= old(out)@ + s@.subrange(0, i as int + 1));
        i = i + 1;
    }
    assert(s@.subrange(0, i as int) =~= s@);
}

} // verus!
