//! Character-level text utilities: substring containment, prefix and suffix
//! tests, and splitting a text into its lines.  The classifier predicates and
//! the comment normalizer are built on these.

use vstd::prelude::*;

verus! {

/// `needle` occurs as a contiguous run of characters inside `hay`.
pub open spec fn contains_seq(hay: Seq<char>, needle: Seq<char>) -> bool {
    exists|i: int|
        0 <= i && i + needle.len() <= hay.len() && #[trigger] hay.subrange(i, i + needle.len())
            == needle
}

/// `hay` begins with `needle`.
pub open spec fn starts_with_seq(hay: Seq<char>, needle: Seq<char>) -> bool {
    needle.len() <= hay.len() && hay.subrange(0, needle.len() as int) == needle
}

/// `hay` ends with `needle`.
pub open spec fn ends_with_seq(hay: Seq<char>, needle: Seq<char>) -> bool {
    needle.len() <= hay.len() && hay.subrange(
        hay.len() - needle.len(),
        hay.len() as int,
    ) == needle
}

/// Compares `needle` against the characters of `hay` starting at `at`.
fn match_at(hay: &str, needle: &str, at: usize) -> (b: bool)
    requires
        hay@.len() <= usize::MAX,
        at + needle@.len() <= hay@.len(),
    ensures
        b == (hay@.subrange(at as int, at + needle@.len()) == needle@),
{
    let m = needle.unicode_len();
    let mut j: usize = 0;
    while j < m
        invariant
            hay@.len() <= usize::MAX,
            at + m <= hay@.len(),
            m == needle@.len(),
            j <= m,
            forall|k: int| 0 <= k < j ==> hay@[at + k] == needle@[k],
        decreases m - j,
    {
        if hay.get_char(at + j) != needle.get_char(j) {
            assert(hay@.subrange(at as int, at + m) != needle@) by {
                assert(hay@.subrange(at as int, at + m as int)[j as int] == hay@[at + j]);
            }
            return false;
        }
        j += 1;
    }
    assert(hay@.subrange(at as int, at + m) =~= needle@);
    true
}

/// Substring search by direct comparison at every admissible offset.
pub fn str_contains(hay: &str, needle: &str) -> (b: bool)
    ensures
        b == contains_seq(hay@, needle@),
{
    let h = hay.unicode_len();
    let m = needle.unicode_len();
    if m > h {
        assert(!contains_seq(hay@, needle@));
        return false;
    }
    if m == 0 {
        assert(contains_seq(hay@, needle@)) by {
            assert(hay@.subrange(0, 0 + needle@.len() as int) =~= needle@);
        }
        return true;
    }
    let mut i: usize = 0;
    while i <= h - m
        invariant
            0 < m <= h,
            h == hay@.len(),
            m == needle@.len(),
            i <= h - m + 1,
            forall|k: int| 0 <= k < i ==> #[trigger] hay@.subrange(k, k + m) != needle@,
        decreases h - m + 1 - i,
    {
        if match_at(hay, needle, i) {
            assert(hay@.subrange(i as int, i + m) == needle@);
            return true;
        }
        i += 1;
    }
    assert(forall|k: int|
        0 <= k && k + needle@.len() <= hay@.len() ==> #[trigger] hay@.subrange(k, k + m)
            != needle@);
    false
}

pub fn str_starts_with(hay: &str, needle: &str) -> (b: bool)
    ensures
        b == starts_with_seq(hay@, needle@),
{
    let h = hay.unicode_len();
    let m = needle.unicode_len();
    if m > h {
        return false;
    }
    match_at(hay, needle, 0)
}

pub fn str_ends_with(hay: &str, needle: &str) -> (b: bool)
    ensures
        b == ends_with_seq(hay@, needle@),
{
    let h = hay.unicode_len();
    let m = needle.unicode_len();
    if m > h {
        return false;
    }
    match_at(hay, needle, h - m)
}

/// `t` holds at least one line break.
pub open spec fn has_newline(t: Seq<char>) -> bool {
    exists|i: int| 0 <= i < t.len() && t[i] == '\n'
}

/// The lines of `t`, in order, without their terminating line breaks.  A text
/// without a line break is a single line; every line break separates two
/// lines, so a text of n line breaks has n + 1 lines.
pub open spec fn split_lines_seq(t: Seq<char>) -> Seq<Seq<char>>
    decreases t.len(),
{
    if t.len() == 0 {
        seq![Seq::<char>::empty()]
    } else if t[0] == '\n' {
        seq![Seq::<char>::empty()] + split_lines_seq(t.drop_first())
    } else {
        let rest = split_lines_seq(t.drop_first());
        seq![seq![t[0]] + rest[0]] + rest.drop_first()
    }
}

pub proof fn lemma_split_lines_len(t: Seq<char>)
    ensures
        split_lines_seq(t).len() >= 1,
    decreases t.len(),
{
    if t.len() != 0 {
        lemma_split_lines_len(t.drop_first());
    }
}

/// A text without a line break is its own single line.
pub proof fn lemma_split_lines_whole(t: Seq<char>)
    requires
        !has_newline(t),
    ensures
        split_lines_seq(t) == seq![t],
    decreases t.len(),
{
    if t.len() == 0 {
        assert(split_lines_seq(t) =~~= seq![t]);
    } else {
        assert(t[0] != '\n');
        assert(!has_newline(t.drop_first())) by {
            if has_newline(t.drop_first()) {
                let i = choose|i: int|
                    0 <= i < t.drop_first().len() && t.drop_first()[i] == '\n';
                assert(t[i + 1] == '\n');
            }
        }
        lemma_split_lines_whole(t.drop_first());
        lemma_split_lines_len(t.drop_first());
        let rest = split_lines_seq(t.drop_first());
        assert(rest[0] == t.drop_first());
        assert(seq![t[0]] + rest[0] =~= t);
        assert(rest.drop_first() =~= Seq::<Seq<char>>::empty());
        assert(split_lines_seq(t) =~~= seq![t]);
    }
}

/// Splitting off a first line: a break-free prefix followed by a line break
/// contributes exactly one line, and the remainder is split on its own.
pub proof fn lemma_split_lines_chunk(s: Seq<char>, rest: Seq<char>)
    requires
        !has_newline(s),
    ensures
        split_lines_seq(s + seq!['\n'] + rest) == seq![s] + split_lines_seq(rest),
    decreases s.len(),
{
    let t = s + seq!['\n'] + rest;
    if s.len() == 0 {
        assert(t =~= seq!['\n'] + rest);
        assert(t[0] == '\n');
        assert(t.drop_first() =~= rest);
        assert(split_lines_seq(t) =~~= seq![s] + split_lines_seq(rest));
    } else {
        assert(t[0] == s[0]);
        assert(t[0] != '\n');
        assert(!has_newline(s.drop_first())) by {
            if has_newline(s.drop_first()) {
                let i = choose|i: int|
                    0 <= i < s.drop_first().len() && s.drop_first()[i] == '\n';
                assert(s[i + 1] == '\n');
            }
        }
        assert(t.drop_first() =~= s.drop_first() + seq!['\n'] + rest);
        lemma_split_lines_chunk(s.drop_first(), rest);
        let inner = split_lines_seq(t.drop_first());
        assert(inner == seq![s.drop_first()] + split_lines_seq(rest));
        lemma_split_lines_len(rest);
        assert(inner[0] == s.drop_first());
        assert(seq![t[0]] + inner[0] =~= s);
        assert(inner.drop_first() =~= split_lines_seq(rest));
        assert(split_lines_seq(t) =~~= seq![s] + split_lines_seq(rest));
    }
}

/// No line produced by the split still holds a line break.
pub proof fn lemma_split_lines_line_free(t: Seq<char>)
    ensures
        forall|j: int|
            0 <= j < split_lines_seq(t).len() ==> !has_newline(#[trigger] split_lines_seq(t)[j]),
    decreases t.len(),
{
    if t.len() == 0 {
    } else if t[0] == '\n' {
        lemma_split_lines_chunk(Seq::<char>::empty(), t.drop_first());
        lemma_split_lines_line_free(t.drop_first());
    } else {
        let rest = split_lines_seq(t.drop_first());
        lemma_split_lines_len(t.drop_first());
        lemma_split_lines_line_free(t.drop_first());
        let first = seq![t[0]] + rest[0];
        assert(!has_newline(first)) by {
            if has_newline(first) {
                let i = choose|i: int| 0 <= i < first.len() && first[i] == '\n';
                if i > 0 {
                    assert(rest[0][i - 1] == '\n');
                }
            }
        }
        assert(forall|j: int|
            0 <= j < split_lines_seq(t).len() ==> !has_newline(
                #[trigger] split_lines_seq(t)[j],
            )) by {
            assert(forall|j: int|
                1 <= j < split_lines_seq(t).len() ==> #[trigger] split_lines_seq(t)[j]
                    == rest[j]);
        }
    }
}

/// Splits `text` at every line break.
pub fn split_lines(text: &str) -> (r: Vec<String>)
    ensures
        r.deep_view() == split_lines_seq(text@),
{
    let n = text.unicode_len();
    let mut r: Vec<String> = Vec::new();
    let mut start: usize = 0;
    let mut i: usize = 0;
    proof {
        assert(text@.subrange(0, n as int) =~= text@);
        assert(r.deep_view() =~= Seq::<Seq<char>>::empty());
        assert(Seq::<Seq<char>>::empty() + split_lines_seq(text@) =~= split_lines_seq(text@));
    }
    while i < n
        invariant
            n == text@.len(),
            start <= i <= n,
            !has_newline(text@.subrange(start as int, i as int)),
            split_lines_seq(text@) == r.deep_view() + split_lines_seq(
                text@.subrange(start as int, n as int),
            ),
        decreases n - i,
    {
        if text.get_char(i) == '\n' {
            let ghost prefix = text@.subrange(start as int, i as int);
            let ghost remainder = text@.subrange(i + 1, n as int);
            proof {
                assert(text@.subrange(start as int, n as int) =~= prefix + seq!['\n']
                    + remainder);
                lemma_split_lines_chunk(prefix, remainder);
            }
            let line = String::from_str(text.substring_char(start, i));
            let ghost prev = r.deep_view();
            r.push(line);
            proof {
                assert(r.deep_view() =~= prev.push(prefix));
                assert(prev.push(prefix) =~= prev + seq![prefix]);
            }
            start = i + 1;
        }
        proof {
            assert(!has_newline(text@.subrange(start as int, i + 1))) by {
                let sub = text@.subrange(start as int, i + 1);
                if has_newline(sub) {
                    let k = choose|k: int| 0 <= k < sub.len() && sub[k] == '\n';
                    if k < sub.len() - 1 {
                        assert(text@.subrange(start as int, i as int)[k] == '\n');
                    }
                }
            }
        }
        i += 1;
    }
    proof {
        lemma_split_lines_whole(text@.subrange(start as int, n as int));
    }
    let line = String::from_str(text.substring_char(start, n));
    let ghost prev = r.deep_view();
    r.push(line);
    proof {
        assert(r.deep_view() =~= prev.push(text@.subrange(start as int, n as int)));
        assert(r.deep_view() =~= split_lines_seq(text@));
    }
    r
}

} // verus!
