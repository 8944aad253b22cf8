//! The label under which an invocation is reported: the program's basename,
//! a space, and the arguments joined by single spaces.

use crate::path::{basename, basename_of};
use vstd::prelude::*;
use vstd::string::StringExecFns;

verus! {

/// `parts` written one after another with a single space between neighbours.
pub open spec fn joined(parts: Seq<Seq<char>>) -> Seq<char>
    decreases parts.len(),
{
    if parts.len() == 0 {
        Seq::empty()
    } else if parts.len() == 1 {
        parts[0]
    } else {
        joined(parts.drop_last()) + seq![' '] + parts.last()
    }
}

/// The label of `program` run with `args`. The space behind the basename is
/// there even where `args` is empty.
pub open spec fn label_of(program: Seq<char>, args: Seq<Seq<char>>) -> Seq<char> {
    basename_of(program) + seq![' '] + joined(args)
}

/// Joins `parts` with single spaces.
pub fn join_with_spaces(parts: &Vec<String>) -> (text: String)
    ensures
        text@ == joined(parts.deep_view()),
{
    let mut text = String::new();
    let mut i: usize = 0;
    while i < parts.len()
        invariant
            i <= parts.len(),
            text@ == joined(parts.deep_view().take(i as int)),
        decreases parts.len() - i,
    {
        proof {
            let before = parts.deep_view().take(i as int);
            let after = parts.deep_view().take(i + 1);
            assert(after.drop_last() == before);
            assert(after.last() == parts[i as int]@);
            if i == 0 {
                assert(Seq::<char>::empty() + parts[i as int]@ == parts[i as int]@);
            }
        }
        if i > 0 {
            text.append(" ");
            proof {
                reveal_strlit(" ");
                assert(" "@ == seq![' ']);
            }
        }
        text.append(parts[i].as_str());
        i = i + 1;
    }
    assert(parts.deep_view().take(i as int) == parts.deep_view());
    text
}

/// The label of `program` run with `args`.
pub fn command_label(program: &str, args: &Vec<String>) -> (label: String)
    ensures
        label@ == label_of(program@, args.deep_view()),
{
    let mut label = String::from_str(basename(program));
    label.append(" ");
    proof {
        reveal_strlit(" ");
        assert(" "@ == seq![' ']);
    }
    let rest = join_with_spaces(args);
    label.append(rest.as_str());
    label
}

} // verus!
