//! Identity labels ("Artist - Album") and the loose match that decides that
//! a surface already shows an identity.
use vstd::prelude::*;
use crate::text::{concat, contains, contains_spec, lowercase, lowered};

verus! {

/// The label of an identity: artist, " - ", album.
pub open spec fn label_spec(artist: Seq<char>, album: Seq<char>) -> Seq<char> {
    artist + " - "@ + album
}

/// Label of the identity (`artist`, `album`).
pub fn identity_label(artist: &str, album: &str) -> (r: String)
    ensures
        r@ == label_spec(artist@, album@),
{
    let head = concat(artist, " - ");
    concat(head.as_str(), album)
}

/// Loose match: equal, equal up to case, or one contains the other.
pub open spec fn loosely_equal_spec(a: Seq<char>, b: Seq<char>) -> bool {
    a == b || lowered(a) == lowered(b) || contains_spec(a, b) || contains_spec(b, a)
}

/// Whether two labels loosely name the same identity.
pub fn loosely_equal(a: &str, b: &str) -> (r: bool)
    ensures
        r == loosely_equal_spec(a@, b@),
{
    proof {
        if a@ == b@ {
            assert(a@.subrange(0, b@.len() as int) =~= b@);
        }
    }
    if contains(a, b) || contains(b, a) {
        return true;
    }
    let la = lowercase(a);
    let lb = lowercase(b);
    la == lb
}

} // verus!
