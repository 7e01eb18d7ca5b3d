//! Dependency-listing files: each line is `<key>: <input> <input> ...`, and a
//! compiled unit's source inputs are the tokens after the first line that
//! begins with its key.

use crate::text::{chars_of, has_prefix, prefix_at, starts_with, string_of};
use vstd::prelude::*;

verus! {

/// The characters that separate the tokens of a listing line.
pub open spec fn is_space(c: char) -> bool {
    c == ' ' || c == '\t' || c == '\r' || c == '\n' || c == '\x0C'
}

/// The lines of `s` (split on `\n`), where `cur` is the part of the current
/// line that has already been read.
pub open spec fn split_lines(s: Seq<char>, cur: Seq<char>) -> Seq<Seq<char>>
    decreases s.len(),
{
    if s.len() == 0 {
        seq![cur]
    } else if s[0] == '\n' {
        seq![cur] + split_lines(s.drop_first(), Seq::empty())
    } else {
        split_lines(s.drop_first(), cur.push(s[0]))
    }
}

/// The lines of `s`.
pub open spec fn lines_of(s: Seq<char>) -> Seq<Seq<char>> {
    split_lines(s, Seq::empty())
}

/// The first of `lines` that begins with `key`.
pub open spec fn first_with_prefix(lines: Seq<Seq<char>>, key: Seq<char>) -> Option<Seq<char>>
    decreases lines.len(),
{
    if lines.len() == 0 {
        None
    } else if has_prefix(lines[0], key) {
        Some(lines[0])
    } else {
        first_with_prefix(lines.drop_first(), key)
    }
}

/// The whitespace-separated tokens of `s`, where `cur` is the part of the
/// current token that has already been read.
pub open spec fn split_tokens(s: Seq<char>, cur: Seq<char>) -> Seq<Seq<char>>
    decreases s.len(),
{
    if s.len() == 0 {
        if cur.len() == 0 {
            Seq::empty()
        } else {
            seq![cur]
        }
    } else if is_space(s[0]) {
        (if cur.len() == 0 {
            Seq::empty()
        } else {
            seq![cur]
        }) + split_tokens(s.drop_first(), Seq::empty())
    } else {
        split_tokens(s.drop_first(), cur.push(s[0]))
    }
}

/// The whitespace-separated tokens of `s`.
pub open spec fn tokens_of(s: Seq<char>) -> Seq<Seq<char>> {
    split_tokens(s, Seq::empty())
}

/// The source inputs that `text` lists under `key`: the tokens of the first
/// line that begins with `key`, but the first (the key itself); none where no
/// line begins with `key`.
pub open spec fn listed_inputs(text: Seq<char>, key: Seq<char>) -> Seq<Seq<char>> {
    match first_with_prefix(lines_of(text), key) {
        None => Seq::empty(),
        Some(line) => {
            let t = tokens_of(line);
            if t.len() == 0 {
                Seq::empty()
            } else {
                t.drop_first()
            }
        },
    }
}

/// The views of a vector of strings.
pub open spec fn views(v: Seq<String>) -> Seq<Seq<char>> {
    v.map_values(|s: String| s@)
}

proof fn lemma_split_lines_step(s: Seq<char>, i: int, cur: Seq<char>)
    requires
        0 <= i < s.len(),
    ensures
        s[i] == '\n' ==> split_lines(s.subrange(i, s.len() as int), cur) == seq![cur]
            + split_lines(s.subrange(i + 1, s.len() as int), Seq::empty()),
        s[i] != '\n' ==> split_lines(s.subrange(i, s.len() as int), cur) == split_lines(
            s.subrange(i + 1, s.len() as int),
            cur.push(s[i]),
        ),
{
    assert(s.subrange(i, s.len() as int).drop_first() =~= s.subrange(i + 1, s.len() as int));
}

proof fn lemma_split_tokens_step(s: Seq<char>, i: int, cur: Seq<char>)
    requires
        0 <= i < s.len(),
    ensures
        is_space(s[i]) ==> split_tokens(s.subrange(i, s.len() as int), cur) == (if cur.len()
            == 0 {
            Seq::<Seq<char>>::empty()
        } else {
            seq![cur]
        }) + split_tokens(s.subrange(i + 1, s.len() as int), Seq::empty()),
        !is_space(s[i]) ==> split_tokens(s.subrange(i, s.len() as int), cur) == split_tokens(
            s.subrange(i + 1, s.len() as int),
            cur.push(s[i]),
        ),
{
    assert(s.subrange(i, s.len() as int).drop_first() =~= s.subrange(i + 1, s.len() as int));
}

proof fn lemma_first_with_prefix_cons(line: Seq<char>, rest: Seq<Seq<char>>, key: Seq<char>)
    ensures
        first_with_prefix(seq![line] + rest, key) == if has_prefix(line, key) {
            Some(line)
        } else {
            first_with_prefix(rest, key)
        },
{
    assert((seq![line] + rest).drop_first() =~= rest);
}

/// Whitespace-separated tokens of `line`.
pub(crate) fn tokens(line: &Vec<char>) -> (r: Vec<String>)
    ensures
        views(r@) == tokens_of(line@),
{
    let ghost s = line@;
    let mut out: Vec<String> = Vec::new();
    let mut cur: Vec<char> = Vec::new();
    let mut i: usize = 0;
    assert(s.subrange(0, s.len() as int) =~= s);
    while i < line.len()
        invariant
            s == line@,
            i <= line.len(),
            views(out@) + split_tokens(s.subrange(i as int, s.len() as int), cur@) == tokens_of(s),
        decreases line.len() - i,
    {
        let c = line[i];
        proof {
            lemma_split_tokens_step(s, i as int, cur@);
        }
        if c == ' ' || c == '\t' || c == '\r' || c == '\n' || c == '\x0C' {
            if cur.len() > 0 {
                let t = string_of(&cur);
                let ghost before = views(out@);
                out.push(t);
                assert(views(out@) =~= before + seq![cur@]);
                assert(before + seq![cur@] + split_tokens(
                    s.subrange(i as int + 1, s.len() as int),
                    Seq::empty(),
                ) =~= before + (seq![cur@] + split_tokens(
                    s.subrange(i as int + 1, s.len() as int),
                    Seq::empty(),
                )));
                cur = Vec::new();
                assert(cur@ =~= Seq::<char>::empty());
            } else {
                assert(cur@ =~= Seq::<char>::empty());
                assert(Seq::<Seq<char>>::empty() + split_tokens(
                    s.subrange(i as int + 1, s.len() as int),
                    Seq::empty(),
                ) =~= split_tokens(s.subrange(i as int + 1, s.len() as int), Seq::empty()));
            }
        } else {
            cur.push(c);
        }
        i = i + 1;
    }
    assert(s.subrange(i as int, s.len() as int) =~= Seq::<char>::empty());
    if cur.len() > 0 {
        let t = string_of(&cur);
        let ghost before = views(out@);
        out.push(t);
        assert(views(out@) =~= before + seq![cur@]);
    } else {
        assert(views(out@) =~= views(out@) + Seq::<Seq<char>>::empty());
    }
    out
}

/// The first line of `text` that begins with `key`, if any.
fn find_line(text: &Vec<char>, key: &Vec<char>) -> (r: Option<Vec<char>>)
    ensures
        match r {
            None => first_with_prefix(lines_of(text@), key@) is None,
            Some(l) => first_with_prefix(lines_of(text@), key@) == Some(l@),
        },
{
    let ghost s = text@;
    let mut start: usize = 0;
    let mut i: usize = 0;
    assert(s.subrange(0, s.len() as int) =~= s);
    assert(s.subrange(0, 0) =~= Seq::<char>::empty());
    while i < text.len()
        invariant
            s == text@,
            start <= i <= text.len(),
            first_with_prefix(lines_of(s), key@) == first_with_prefix(
                split_lines(s.subrange(i as int, s.len() as int), s.subrange(start as int, i as int)),
                key@,
            ),
        decreases text.len() - i,
    {
        proof {
            lemma_split_lines_step(s, i as int, s.subrange(start as int, i as int));
        }
        if text[i] == '\n' {
            let ghost line = s.subrange(start as int, i as int);
            proof {
                lemma_first_with_prefix_cons(
                    line,
                    split_lines(s.subrange(i as int + 1, s.len() as int), Seq::empty()),
                    key@,
                );
            }
            let m = prefix_at(text, start, key);
            if m && key.len() <= i - start {
                let mut l: Vec<char> = Vec::new();
                let mut j: usize = start;
                while j < i
                    invariant
                        start <= j <= i < text.len(),
                        s == text@,
                        l@ == s.subrange(start as int, j as int),
                    decreases i - j,
                {
                    l.push(text[j]);
                    assert(l@ =~= s.subrange(start as int, j as int + 1));
                    j = j + 1;
                }
                assert(has_prefix(line, key@)) by {
                    assert(line.subrange(0, key@.len() as int) =~= s.subrange(
                        start as int,
                        s.len() as int,
                    ).subrange(0, key@.len() as int));
                }
                return Some(l);
            }
            proof {
                if has_prefix(line, key@) {
                    assert(line.subrange(0, key@.len() as int) =~= s.subrange(
                        start as int,
                        s.len() as int,
                    ).subrange(0, key@.len() as int));
                }
            }
            i = i + 1;
            start = i;
            assert(s.subrange(start as int, i as int) =~= Seq::<char>::empty());
        } else {
            assert(s.subrange(start as int, i as int).push(s[i as int]) =~= s.subrange(
                start as int,
                i as int + 1,
            ));
            i = i + 1;
        }
    }
    assert(s.subrange(i as int, s.len() as int) =~= Seq::<char>::empty());
    let ghost line = s.subrange(start as int, i as int);
    proof {
        lemma_first_with_prefix_cons(line, Seq::empty(), key@);
        assert(seq![line] + Seq::<Seq<char>>::empty() =~= seq![line]);
    }
    let m = prefix_at(text, start, key);
    proof {
        if has_prefix(line, key@) || m {
            assert(s.subrange(start as int, s.len() as int) =~= line);
        }
        assert(first_with_prefix(Seq::<Seq<char>>::empty(), key@) is None);
    }
    if m {
        let mut l: Vec<char> = Vec::new();
        let mut j: usize = start;
        while j < i
            invariant
                start <= j <= i == text.len(),
                s == text@,
                l@ == s.subrange(start as int, j as int),
            decreases i - j,
        {
            l.push(text[j]);
            assert(l@ =~= s.subrange(start as int, j as int + 1));
            j = j + 1;
        }
        Some(l)
    } else {
        None
    }
}

/// The source inputs that the listing `text` records under `key`, in the
/// order listed. A listing with no line for `key` yields none.
pub fn listing_entries(text: &str, key: &str) -> (r: Vec<String>)
    ensures
        views(r@) == listed_inputs(text@, key@),
{
    let t = chars_of(text);
    let k = chars_of(key);
    match find_line(&t, &k) {
        None => Vec::new(),
        Some(line) => {
            let mut toks = tokens(&line);
            if toks.len() == 0 {
                toks
            } else {
                let ghost all = views(toks@);
                toks.remove(0);
                assert(views(toks@) =~= all.drop_first());
                toks
            }
        },
    }
}

proof fn lemma_none_with_prefix(lines: Seq<Seq<char>>, key: Seq<char>)
    requires
        forall|i: int| 0 <= i < lines.len() ==> !has_prefix(#[trigger] lines[i], key),
    ensures
        first_with_prefix(lines, key) is None,
    decreases lines.len(),
{
    if lines.len() > 0 {
        assert(forall|i: int|
            0 <= i < lines.drop_first().len() ==> #[trigger] lines.drop_first()[i] == lines[i + 1]);
        lemma_none_with_prefix(lines.drop_first(), key);
    }
}

/// A listing none of whose lines begins with `key` lists no input under it.
pub proof fn lemma_no_matching_line_lists_nothing(text: Seq<char>, key: Seq<char>)
    requires
        forall|i: int|
            0 <= i < lines_of(text).len() ==> !has_prefix(#[trigger] lines_of(text)[i], key),
    ensures
        listed_inputs(text, key) == Seq::<Seq<char>>::empty(),
{
    lemma_none_with_prefix(lines_of(text), key);
}

/// The index of the last `c` in `s`, or -1 where `s` holds none.
pub open spec fn last_index(s: Seq<char>, c: char) -> int
    decreases s.len(),
{
    if s.len() == 0 {
        -1
    } else if s.last() == c {
        s.len() - 1
    } else {
        last_index(s.drop_last(), c)
    }
}

proof fn lemma_last_index(s: Seq<char>, c: char, k: int)
    requires
        k == -1 || (0 <= k < s.len() && s[k] == c),
        forall|j: int| k < j < s.len() ==> s[j] != c,
    ensures
        last_index(s, c) == k,
    decreases s.len(),
{
    if s.len() > 0 && s.len() - 1 != k {
        lemma_last_index(s.drop_last(), c, k);
    }
}

/// Where the last component of `path` (after its last `/`) begins.
pub open spec fn name_start(path: Seq<char>) -> int {
    last_index(path, '/') + 1
}

/// The last component of `path`, with its extension (from its last `.`, where
/// that is not its first character) removed.
pub open spec fn stem_of(name: Seq<char>) -> Seq<char> {
    let d = last_index(name, '.');
    if d > 0 {
        name.subrange(0, d)
    } else {
        name
    }
}

/// `name` without a leading `lib`.
pub open spec fn strip_lib(name: Seq<char>) -> Seq<char> {
    if has_prefix(name, seq!['l', 'i', 'b']) {
        name.subrange(3, name.len() as int)
    } else {
        name
    }
}

/// The listing of an executable at `path`: the same path with its extension
/// replaced by `.d`.
pub open spec fn executable_listing(path: Seq<char>) -> Seq<char> {
    let n = name_start(path);
    path.subrange(0, n) + stem_of(path.subrange(n, path.len() as int)) + seq!['.', 'd']
}

/// The listing of a compiled unit whose descriptor is at `path`: beside it,
/// named as the descriptor without its `lib` prefix and with its extension
/// replaced by `.d`.
pub open spec fn descriptor_listing(path: Seq<char>) -> Seq<char> {
    let n = name_start(path);
    path.subrange(0, n) + stem_of(strip_lib(path.subrange(n, path.len() as int))) + seq![
        '.',
        'd',
    ]
}

fn find_last(s: &Vec<char>, c: char) -> (r: Option<usize>)
    ensures
        match r {
            None => last_index(s@, c) == -1,
            Some(k) => last_index(s@, c) == k as int && k < s.len(),
        },
{
    let mut i: usize = s.len();
    while i > 0
        invariant
            i <= s.len(),
            forall|j: int| i <= j < s.len() ==> s@[j] != c,
        decreases i,
    {
        if s[i - 1] == c {
            proof {
                lemma_last_index(s@, c, i - 1);
            }
            return Some(i - 1);
        }
        i = i - 1;
    }
    proof {
        lemma_last_index(s@, c, -1);
    }
    None
}

pub(crate) fn copy_range(s: &Vec<char>, from: usize, to: usize, out: &mut Vec<char>)
    requires
        from <= to <= s.len(),
    ensures
        final(out)@ == old(out)@ + s@.subrange(from as int, to as int),
{
    let mut j: usize = from;
    while j < to
        invariant
            from <= j <= to <= s.len(),
            out@ == old(out)@ + s@.subrange(from as int, j as int),
        decreases to - j,
    {
        out.push(s[j]);
        assert(out@ =~= old(out)@ + s@.subrange(from as int, j as int + 1));
        j = j + 1;
    }
}

fn listing_path(path: &str, drop_lib: bool) -> (r: String)
    ensures
        drop_lib ==> r@ == descriptor_listing(path@),
        !drop_lib ==> r@ == executable_listing(path@),
{
    let p = chars_of(path);
    let n: usize = match find_last(&p, '/') {
        None => 0,
        Some(k) => k + 1,
    };
    let mut name: Vec<char> = Vec::new();
    copy_range(&p, n, p.len(), &mut name);
    assert(name@ =~= path@.subrange(n as int, path@.len() as int));
    let lib: Vec<char> = vec!['l', 'i', 'b'];
    let mut base: Vec<char> = Vec::new();
    if drop_lib && starts_with(&name, &lib) {
        copy_range(&name, 3, name.len(), &mut base);
    } else {
        copy_range(&name, 0, name.len(), &mut base);
    }
    assert(lib@ =~= seq!['l', 'i', 'b']);
    assert(name@.subrange(0, name@.len() as int) =~= name@);
    let dot = find_last(&base, '.');
    let mut out: Vec<char> = Vec::new();
    copy_range(&p, 0, n, &mut out);
    let cut: usize = match dot {
        None => 0,
        Some(k) => k,
    };
    if cut > 0 {
        copy_range(&base, 0, cut, &mut out);
    } else {
        copy_range(&base, 0, base.len(), &mut out);
        assert(base@.subrange(0, base@.len() as int) =~= base@);
    }
    out.push('.');
    out.push('d');
    proof {
        assert(Seq::<char>::empty() + p@.subrange(0, n as int) =~= p@.subrange(0, n as int));
    }
    assert(out@ =~= if drop_lib {
        descriptor_listing(path@)
    } else {
        executable_listing(path@)
    });
    string_of(&out)
}

/// Where the listing of the executable at `path` lies.
pub fn executable_listing_path(path: &str) -> (r: String)
    ensures
        r@ == executable_listing(path@),
{
    listing_path(path, false)
}

/// Where the listing of the compiled unit whose descriptor is at `path` lies.
pub fn descriptor_listing_path(path: &str) -> (r: String)
    ensures
        r@ == descriptor_listing(path@),
{
    listing_path(path, true)
}

} // verus!
