//! SPDX identifiers: derivation and sanitising.

use crate::text::{append_chars, chars_of, string_of};
use vstd::prelude::*;

verus! {

/// Whether `c` may stand in an SPDX identifier: `[A-Za-z0-9.-]`.
pub open spec fn is_id_char(c: char) -> bool {
    ('a' <= c && c <= 'z') || ('A' <= c && c <= 'Z') || ('0' <= c && c <= '9') || c == '-'
        || c == '.'
}

/// Whether every character of `s` may stand in an SPDX identifier.
pub open spec fn is_legal_id(s: Seq<char>) -> bool {
    forall|i: int| 0 <= i < s.len() ==> is_id_char(#[trigger] s[i])
}

/// `c` itself when it is legal, `-` otherwise.
pub open spec fn sanitize_char(c: char) -> char {
    if is_id_char(c) {
        c
    } else {
        '-'
    }
}

/// `s` with every character outside the legal set replaced by `-`.
pub open spec fn sanitized(s: Seq<char>) -> Seq<char> {
    Seq::new(s.len(), |i: int| sanitize_char(s[i]))
}

fn is_id_char_exec(c: char) -> (r: bool)
    ensures
        r == is_id_char(c),
{
    ('a' <= c && c <= 'z') || ('A' <= c && c <= 'Z') || ('0' <= c && c <= '9') || c == '-'
        || c == '.'
}

/// Replaces every character of `s` outside `[A-Za-z0-9.-]` with `-`.
pub fn sanitize(s: &str) -> (r: String)
    ensures
        r@ == sanitized(s@),
        is_legal_id(r@),
{
    let cs = chars_of(s);
    let mut out: Vec<char> = Vec::new();
    let mut i: usize = 0;
    while i < cs.len()
        invariant
            cs@ == s@,
            i <= cs.len(),
            out@ == sanitized(s@).subrange(0, i as int),
        decreases cs.len() - i,
    {
        let c = cs[i];
        if is_id_char_exec(c) {
            out.push(c);
        } else {
            out.push('-');
        }
        i = i + 1;
        assert(out@ =~= sanitized(s@).subrange(0, i as int));
    }
    assert(out@ =~= sanitized(s@));
    string_of(&out)
}

/// Sanitising an identifier that is already legal leaves it unchanged.
pub proof fn lemma_sanitize_legal_unchanged(s: Seq<char>)
    requires
        is_legal_id(s),
    ensures
        sanitized(s) == s,
{
    assert(sanitized(s) =~= s);
}

/// Sanitising is idempotent: a sanitised string is legal, and sanitising it
/// again returns it unchanged.
pub proof fn lemma_sanitize_idempotent(s: Seq<char>)
    ensures
        is_legal_id(sanitized(s)),
        sanitized(sanitized(s)) == sanitized(s),
{
    lemma_sanitize_legal_unchanged(sanitized(s));
}

/// The prefix of every package identifier.
pub open spec fn package_prefix() -> Seq<char> {
    seq!['S', 'P', 'D', 'X', 'R', 'e', 'f', '-']
}

/// The prefix of every file identifier.
pub open spec fn file_prefix() -> Seq<char> {
    package_prefix() + seq!['F', 'i', 'l', 'e', '-']
}

/// The identifier of the package `name` at `version`:
/// `SPDXRef-<name>-<version>`, sanitised.
pub open spec fn package_id_of(name: Seq<char>, version: Seq<char>) -> Seq<char> {
    sanitized(package_prefix() + name + seq!['-'] + version)
}

/// `part` followed by `-`, or nothing.
pub open spec fn dashed(part: Option<Seq<char>>) -> Seq<char> {
    match part {
        Some(p) => p + seq!['-'],
        None => Seq::empty(),
    }
}

/// The identifier of the file at `path` (relative to its package's root) of
/// the package `name` at `version`, where those are known:
/// `SPDXRef-File-[<name>-][<version>-]<path>`, sanitised.
pub open spec fn file_id_of(
    name: Option<Seq<char>>,
    version: Option<Seq<char>>,
    path: Seq<char>,
) -> Seq<char> {
    sanitized(file_prefix() + dashed(name) + dashed(version) + path)
}

/// The view of an optional string.
pub open spec fn opt_view(s: Option<&str>) -> Option<Seq<char>> {
    match s {
        Some(t) => Some(t@),
        None => None,
    }
}

fn prefix_chars() -> (r: Vec<char>)
    ensures
        r@ == package_prefix(),
{
    let r = vec!['S', 'P', 'D', 'X', 'R', 'e', 'f', '-'];
    assert(r@ =~= package_prefix());
    r
}

/// The identifier of the package `name` at `version`.
pub fn package_id(name: &str, version: &str) -> (r: String)
    ensures
        r@ == package_id_of(name@, version@),
        is_legal_id(r@),
{
    let mut v = prefix_chars();
    append_chars(&mut v, name);
    v.push('-');
    append_chars(&mut v, version);
    assert(v@ =~= package_prefix() + name@ + seq!['-'] + version@);
    let raw = string_of(&v);
    sanitize(raw.as_str())
}

/// The identifier of a file at `path`, relative to the root of the package
/// `name` at `version` where those are given.
pub fn file_id(name: Option<&str>, version: Option<&str>, path: &str) -> (r: String)
    ensures
        r@ == file_id_of(opt_view(name), opt_view(version), path@),
        is_legal_id(r@),
{
    let mut v = prefix_chars();
    v.push('F');
    v.push('i');
    v.push('l');
    v.push('e');
    v.push('-');
    assert(v@ =~= file_prefix());
    let ghost start = v@;
    match name {
        Some(n) => {
            append_chars(&mut v, n);
            v.push('-');
        },
        None => {},
    }
    assert(v@ =~= start + dashed(opt_view(name)));
    let ghost mid = v@;
    match version {
        Some(n) => {
            append_chars(&mut v, n);
            v.push('-');
        },
        None => {},
    }
    assert(v@ =~= mid + dashed(opt_view(version)));
    append_chars(&mut v, path);
    assert(v@ =~= file_prefix() + dashed(opt_view(name)) + dashed(opt_view(version)) + path@);
    let raw = string_of(&v);
    sanitize(raw.as_str())
}

} // verus!
