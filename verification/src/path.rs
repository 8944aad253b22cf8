//! Final component of a `/`-separated path.

use vstd::prelude::*;
use vstd::string::StrSliceExecFns;

verus! {

/// The character that separates the components of a path.
pub const SEPARATOR: char = '/';

/// No character of `s` is the separator.
pub open spec fn separator_free(s: Seq<char>) -> bool {
    forall|i: int| 0 <= i < s.len() ==> s[i] != SEPARATOR
}

/// Index just behind the last separator of `s`, or 0 where `s` has none.
pub open spec fn basename_start(s: Seq<char>) -> int
    decreases s.len(),
{
    if s.len() == 0 {
        0
    } else if s.last() == SEPARATOR {
        s.len() as int
    } else {
        basename_start(s.drop_last())
    }
}

/// What follows the last separator of `s`; all of `s` where it has none.
pub open spec fn basename_of(s: Seq<char>) -> Seq<char> {
    s.skip(basename_start(s))
}

/// `basename_start(s)` lies within `s`, nothing from there on is a
/// separator, and the character before it, if there is one, is a separator.
pub proof fn lemma_basename_start(s: Seq<char>)
    ensures
        0 <= basename_start(s) <= s.len(),
        separator_free(s.skip(basename_start(s))),
        basename_start(s) > 0 ==> s[basename_start(s) - 1] == SEPARATOR,
    decreases s.len(),
{
    if s.len() > 0 && s.last() != SEPARATOR {
        let front = s.drop_last();
        lemma_basename_start(front);
        let k = basename_start(s);
        assert forall|i: int| 0 <= i < s.skip(k).len() implies s.skip(k)[i] != SEPARATOR by {
            if k + i < front.len() {
                assert(front.skip(k)[i] == s[k + i]);
            }
        }
    }
}

/// A path whose last separator stands at index `last` has as its basename
/// exactly what follows that separator.
pub proof fn lemma_basename_after_last_separator(path: Seq<char>, last: int)
    requires
        0 <= last < path.len(),
        path[last] == SEPARATOR,
        separator_free(path.skip(last + 1)),
    ensures
        basename_of(path) == path.skip(last + 1),
{
    let k = basename_start(path);
    lemma_basename_start(path);
    if k <= last {
        assert(path.skip(k)[last - k] == SEPARATOR);
    } else if k > last + 1 {
        assert(path.skip(last + 1)[k - 1 - (last + 1)] == SEPARATOR);
    }
}

/// A path without a separator is its own basename.
pub proof fn lemma_basename_without_separator(path: Seq<char>)
    requires
        separator_free(path),
    ensures
        basename_of(path) == path,
{
    let k = basename_start(path);
    lemma_basename_start(path);
    if k > 0 {
        assert(path[k - 1] == SEPARATOR);
    }
    assert(path.skip(0) == path);
}

/// The final component of `path`: what follows its last `/`, or the whole
/// of `path` where it holds no `/`.
pub fn basename(path: &str) -> (base: &str)
    ensures
        base@ == basename_of(path@),
{
    let mut start: usize = 0;
    let mut seen: usize = 0;
    let n = path.unicode_len();
    for c in it: path.chars()
        invariant
            n == path@.len(),
            seen == it.index(),
            it.seq() == path@,
            start <= seen <= n,
            start == basename_start(path@.take(seen as int)),
    {
        assert(c == path@[seen as int]);
        assert(path@.take(seen + 1).drop_last() == path@.take(seen as int));
        seen = seen + 1;
        if c == SEPARATOR {
            start = seen;
        }
    }
    assert(path@.take(n as int) == path@);
    path.substring_char(start, n)
}

} // verus!
