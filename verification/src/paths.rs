//! Module path handling: which files are eligible source modules, and the
//! path arithmetic (final component, stem, parent, joining) that output-path
//! computation is built on.  Paths are plain character strings with `/` as
//! the separator.

use vstd::prelude::*;

use crate::text::{ends_with_seq, str_ends_with};

verus! {

/// The index of the last occurrence of `c` in `p`, or -1 when `c` does not
/// occur.
pub open spec fn last_index_of(p: Seq<char>, c: char) -> int
    decreases p.len(),
{
    if p.len() == 0 {
        -1
    } else if p.last() == c {
        p.len() - 1
    } else {
        last_index_of(p.drop_last(), c)
    }
}

pub proof fn lemma_last_index_of(p: Seq<char>, c: char)
    ensures
        -1 <= last_index_of(p, c) < p.len(),
        last_index_of(p, c) >= 0 ==> p[last_index_of(p, c)] == c,
        forall|j: int| last_index_of(p, c) < j < p.len() ==> p[j] != c,
    decreases p.len(),
{
    if p.len() > 0 && p.last() != c {
        lemma_last_index_of(p.drop_last(), c);
        assert forall|j: int| last_index_of(p, c) < j < p.len() implies p[j] != c by {
            if j < p.len() - 1 {
                assert(p.drop_last()[j] != c);
                assert(p[j] == p.drop_last()[j]);
            }
        }
    }
}

/// Drops what the final component ignores: trailing separators, and
/// trailing current-directory components (a lone `.`, or `/.` at the end,
/// repeatedly).  This is how the standard path reading finds the final
/// component: `foo/`, `foo/.` and `foo/.//` all end in the component `foo`.
/// A path of nothing but separators and current-directory components trims
/// to empty.
pub open spec fn trim_tail(p: Seq<char>) -> Seq<char>
    decreases p.len(),
{
    if p.len() == 0 {
        p
    } else if p.last() == '/' {
        trim_tail(p.drop_last())
    } else if p.len() == 1 && p.last() == '.' {
        Seq::empty()
    } else if p.len() >= 2 && p.last() == '.' && p[p.len() - 2] == '/' {
        trim_tail(p.drop_last())
    } else {
        p
    }
}

/// One trimming step applies at position `e` of `p`: the character before it
/// is a separator, or a dot that begins its own component.
pub open spec fn spec_tail_rule(p: Seq<char>, e: int) -> bool {
    ||| p[e - 1] == '/'
    ||| (p[e - 1] == '.' && (e == 1 || p[e - 2] == '/'))
}

fn tail_rule_applies(s: &str, e: usize) -> (b: bool)
    requires
        1 <= e <= s@.len(),
        s@.len() <= usize::MAX,
    ensures
        b == spec_tail_rule(s@, e as int),
{
    let c = s.get_char(e - 1);
    if c == '/' {
        true
    } else if c == '.' {
        e == 1 || s.get_char(e - 2) == '/'
    } else {
        false
    }
}

/// Computes how much of `s` is left once its tail is trimmed: the result is
/// the length of `trim_tail` of `s`, which is a prefix of `s`.
pub fn trim_path_end(s: &str) -> (e: usize)
    ensures
        e <= s@.len(),
        s@.take(e as int) == trim_tail(s@),
{
    let n = s.unicode_len();
    let mut e: usize = n;
    proof {
        assert(s@.take(n as int) =~= s@);
    }
    while e > 0 && tail_rule_applies(s, e)
        invariant
            n == s@.len(),
            e <= n,
            trim_tail(s@.take(e as int)) == trim_tail(s@),
        decreases e,
    {
        proof {
            let t = s@.take(e as int);
            assert(t.last() == s@[e - 1]);
            assert(t.drop_last() =~= s@.take(e - 1));
            if t.last() == '/' {
            } else if e == 1 {
                assert(s@.take(0) =~= Seq::<char>::empty());
                assert(trim_tail(s@.take(0)) == Seq::<char>::empty());
            } else {
                assert(t[t.len() - 2] == s@[e - 2]);
            }
        }
        e -= 1;
    }
    proof {
        let t = s@.take(e as int);
        if e == 0 {
            assert(t =~= Seq::<char>::empty());
        } else {
            assert(t.last() == s@[e - 1]);
            if t.len() >= 2 {
                assert(t[t.len() - 2] == s@[e - 2]);
            }
            assert(trim_tail(t) == t);
        }
    }
    e
}

/// The final component of a path: everything after the last separator.
pub open spec fn file_name_of(p: Seq<char>) -> Seq<char> {
    p.subrange(last_index_of(p, '/') + 1, p.len() as int)
}

/// The final component without its extension: everything before the last
/// dot, unless the dot is absent or leading.
pub open spec fn file_stem_of(name: Seq<char>) -> Seq<char> {
    let k = last_index_of(name, '.');
    if k <= 0 {
        name
    } else {
        name.subrange(0, k)
    }
}

/// Everything before the last separator; the whole separator for a
/// top-level absolute path, and empty when there is no separator.
pub open spec fn parent_of(p: Seq<char>) -> Seq<char> {
    let k = last_index_of(p, '/');
    if k == -1 {
        Seq::empty()
    } else if k == 0 {
        seq!['/']
    } else {
        p.subrange(0, k)
    }
}

/// Joins a parent path and a child name with a single separator.
pub open spec fn join_path(parent: Seq<char>, child: Seq<char>) -> Seq<char> {
    if parent.len() == 0 {
        child
    } else if parent.last() == '/' {
        parent + child
    } else {
        parent + seq!['/'] + child
    }
}

/// A path names an eligible source module iff its final component — read
/// with trailing separators and current-directory components ignored — has
/// the extension `.rs` with a nonempty stem, and does not already carry the
/// derived output suffix `.rs.txt` written by previous runs.
pub open spec fn spec_is_valid_module(p: Seq<char>) -> bool {
    let q = trim_tail(p);
    &&& ends_with_seq(q, ".rs"@)
    &&& q.len() > 3
    &&& q[q.len() - 4] != '/'
    &&& !ends_with_seq(q, ".rs.txt"@)
}

/// Handles module path resolution and manipulation.
pub struct ModulePath {
    pub path: String,
}

impl ModulePath {
    /// Creates a new ModulePath from a path string.
    pub fn new(path: &str) -> (r: Self)
        ensures
            r.path@ == path@,
    {
        Self { path: String::from_str(path) }
    }

    /// Checks if this is a valid Rust module path.
    pub fn is_valid_module(&self) -> (r: bool)
        ensures
            r == spec_is_valid_module(self.path@),
    {
        let p = self.path.as_str();
        let e = trim_path_end(p);
        let q = p.substring_char(0, e);
        proof {
            assert(q@ == trim_tail(self.path@));
        }
        if !str_ends_with(q, ".rs") {
            return false;
        }
        if e <= 3 {
            return false;
        }
        if q.get_char(e - 4) == '/' {
            return false;
        }
        !str_ends_with(q, ".rs.txt")
    }
}

/// Finds the last occurrence of `c` in `s`.
pub fn find_last(s: &str, c: char) -> (r: Option<usize>)
    ensures
        match r {
            Option::Some(k) => k as int == last_index_of(s@, c),
            Option::None => last_index_of(s@, c) == -1,
        },
{
    let n = s.unicode_len();
    let mut i: usize = n;
    while i > 0
        invariant
            n == s@.len(),
            i <= n,
            forall|j: int| i <= j < n ==> s@[j] != c,
        decreases i,
    {
        i -= 1;
        if s.get_char(i) == c {
            proof {
                lemma_last_index_of(s@, c);
                let k = last_index_of(s@, c);
                if k < i {
                    assert(s@[i as int] != c);
                }
                if k > i {
                    assert(s@[k] != c);
                }
            }
            return Some(i);
        }
    }
    proof {
        lemma_last_index_of(s@, c);
        let k = last_index_of(s@, c);
        if k >= 0 {
            assert(s@[k] != c);
        }
    }
    None
}

} // verus!
