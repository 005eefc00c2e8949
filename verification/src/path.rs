//! Path text: separators, trimming and splitting into components.

use vstd::prelude::*;
use vstd::string::*;

verus! {

/// The two characters that separate the components of a path.
pub open spec fn is_separator(c: char) -> bool {
    c == '/' || c == '\\'
}

/// `s` without its leading separators.
pub open spec fn trim_start(s: Seq<char>) -> Seq<char>
    decreases s.len(),
{
    if s.len() > 0 && is_separator(s[0]) {
        trim_start(s.skip(1))
    } else {
        s
    }
}

/// `s` without its trailing separators.
pub open spec fn trim_end(s: Seq<char>) -> Seq<char>
    decreases s.len(),
{
    if s.len() > 0 && is_separator(s.last()) {
        trim_end(s.drop_last())
    } else {
        s
    }
}

/// `s` without the separators at either end.
pub open spec fn trim(s: Seq<char>) -> Seq<char> {
    trim_end(trim_start(s))
}

/// The pieces of `s` between its separators, in order. A text with `n`
/// separators has `n + 1` pieces, some of which may be empty.
pub open spec fn split(s: Seq<char>) -> Seq<Seq<char>>
    decreases s.len(),
{
    if s.len() == 0 {
        seq![Seq::empty()]
    } else if is_separator(s.last()) {
        split(s.drop_last()).push(Seq::empty())
    } else {
        let before = split(s.drop_last());
        before.drop_last().push(before.last().push(s.last()))
    }
}

/// The components that a path names: none for a path that is empty once
/// trimmed (the root), else the pieces of the trimmed path.
pub open spec fn path_components(path: Seq<char>) -> Seq<Seq<char>> {
    let trimmed = trim(path);
    if trimmed.len() == 0 {
        Seq::empty()
    } else {
        split(trimmed)
    }
}

/// The texts that a vector of strings holds.
pub open spec fn texts(v: Seq<String>) -> Seq<Seq<char>> {
    Seq::new(v.len(), |i: int| v[i]@)
}

/// Whether `ch` separates path components.
pub fn is_path_sep(ch: char) -> (r: bool)
    ensures
        r == is_separator(ch),
{
    ch == '/' || ch == '\\'
}

/// Skipping as many leading separators as there are gives `trim_start`.
proof fn lemma_trim_start(s: Seq<char>, a: int)
    requires
        0 <= a <= s.len(),
        forall|k: int| 0 <= k < a ==> is_separator(#[trigger] s[k]),
        a < s.len() ==> !is_separator(s[a]),
    ensures
        trim_start(s) == s.skip(a),
    decreases a,
{
    if a == 0 {
        assert(s.skip(0) =~= s);
    } else {
        let rest = s.skip(1);
        assert forall|k: int| 0 <= k < a - 1 implies is_separator(#[trigger] rest[k]) by {
            assert(rest[k] == s[k + 1]);
        }
        lemma_trim_start(rest, a - 1);
        assert(rest.skip(a - 1) =~= s.skip(a));
    }
}

/// Dropping as many trailing separators as there are gives `trim_end`.
proof fn lemma_trim_end(s: Seq<char>, b: int)
    requires
        0 <= b <= s.len(),
        forall|k: int| b <= k < s.len() ==> is_separator(#[trigger] s[k]),
        0 < b ==> !is_separator(s[b - 1]),
    ensures
        trim_end(s) == s.take(b),
    decreases s.len() - b,
{
    if b == s.len() {
        assert(s.take(b) =~= s);
    } else {
        let rest = s.drop_last();
        lemma_trim_end(rest, b);
        assert(rest.take(b) =~= s.take(b));
    }
}

/// The characters of `s`, in order.
fn chars_of(s: &str) -> (v: Vec<char>)
    ensures
        v@ == s@,
{
    broadcast use group_string_axioms;

    let mut v: Vec<char> = Vec::new();
    for c in it: s.chars()
        invariant
            it.seq() == s@,
            v@ == s@.take(it.index() as int),
    {
        v.push(c);
    }
    v
}

/// Splits a path into the components it names, in order. A path made of
/// separators alone, or of nothing, names the root and has no component.
pub fn components(path: &str) -> (out: Vec<String>)
    ensures
        texts(out@) == path_components(path@),
{
    let chars = chars_of(path);
    let n = chars.len();
    let mut start: usize = 0;
    while start < n && is_path_sep(chars[start])
        invariant
            start <= n == chars.len(),
            forall|k: int| 0 <= k < start ==> is_separator(#[trigger] chars@[k]),
        decreases n - start,
    {
        start += 1;
    }
    let mut end: usize = n;
    while end > start && is_path_sep(chars[end - 1])
        invariant
            start <= end <= n == chars.len(),
            forall|k: int| end <= k < n ==> is_separator(#[trigger] chars@[k]),
        decreases end,
    {
        end -= 1;
    }
    let ghost trimmed = path@.subrange(start as int, end as int);
    proof {
        lemma_trim_start(path@, start as int);
        let tail = path@.skip(start as int);
        assert forall|k: int| end - start <= k < tail.len() implies is_separator(
            #[trigger] tail[k],
        ) by {
            assert(tail[k] == chars@[k + start]);
        }
        if end > start {
            assert(tail[end - start - 1] == chars@[end - 1]);
        }
        lemma_trim_end(tail, end - start);
        assert(tail.take(end - start) =~= trimmed);
        assert(trim(path@) == trimmed);
    }
    let mut out: Vec<String> = Vec::new();
    if start == end {
        assert(texts(out@) =~= Seq::<Seq<char>>::empty());
        return out;
    }
    let mut from: usize = start;
    let mut i: usize = start;
    proof {
        assert(trimmed.take(0) =~= Seq::<char>::empty());
        assert(path@.subrange(from as int, i as int) =~= Seq::<char>::empty());
        assert(texts(out@).push(path@.subrange(from as int, i as int)) =~= seq![
            Seq::<char>::empty(),
        ]);
    }
    while i < end
        invariant
            start <= from <= i <= end <= n == chars.len(),
            chars@ == path@,
            trimmed == path@.subrange(start as int, end as int),
            split(trimmed.take(i - start)) == texts(out@).push(
                path@.subrange(from as int, i as int),
            ),
        decreases end - i,
    {
        let ghost before = split(trimmed.take(i - start));
        let ghost piece = path@.subrange(from as int, i as int);
        let ghost next = trimmed.take(i + 1 - start);
        proof {
            assert(next.drop_last() =~= trimmed.take(i - start));
            assert(next.last() == chars@[i as int]);
            assert(before.last() == piece);
            assert(before.drop_last() =~= texts(out@));
        }
        if is_path_sep(chars[i]) {
            let component = path.substring_char(from, i).to_owned();
            let ghost old_out = out@;
            out.push(component);
            from = i + 1;
            proof {
                assert(texts(out@) =~= texts(old_out).push(piece));
                assert(path@.subrange(from as int, i + 1) =~= Seq::<char>::empty());
            }
        } else {
            proof {
                assert(path@.subrange(from as int, i + 1) =~= piece.push(chars@[i as int]));
            }
        }
        i += 1;
    }
    let component = path.substring_char(from, end).to_owned();
    let ghost old_out = out@;
    out.push(component);
    proof {
        assert(trimmed.take(end - start) =~= trimmed);
        assert(texts(out@) =~= texts(old_out).push(path@.subrange(from as int, end as int)));
    }
    out
}

} // verus!
