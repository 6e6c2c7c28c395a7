//! Text as sequences of characters: the views that contracts speak of, and
//! the joining of relative paths.

use vstd::prelude::*;
use vstd::string::*;

verus! {

/// The separator between the components of a path.
pub open spec fn separator() -> Seq<char> {
    seq!['/']
}

/// `base`, a separator, then `rel`.
pub open spec fn join_spec(base: Seq<char>, rel: Seq<char>) -> Seq<char> {
    base + separator() + rel
}

/// The text of each string of a vector, in order.
pub open spec fn texts(v: Seq<String>) -> Seq<Seq<char>> {
    Seq::new(v.len(), |i: int| v[i]@)
}

/// The text of an optional string.
pub open spec fn opt_text(o: Option<String>) -> Option<Seq<char>> {
    match o {
        Some(s) => Some(s@),
        None => None,
    }
}

/// Joins a relative path onto a base path with a single separator. Nothing is
/// normalised: an empty base or an empty relative part still gets its separator.
pub fn join(base: &str, rel: &str) -> (path: String)
    ensures
        path@ == join_spec(base@, rel@),
{
    proof {
        reveal_strlit("/");
        assert("/"@ =~= separator());
    }
    let mut path = base.to_owned();
    path.append("/");
    path.append(rel);
    path
}

} // verus!
