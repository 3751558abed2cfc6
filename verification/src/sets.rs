//! A small fact about sequences viewed as sets, shared by the modules
//! that keep duplicate-free vectors as their set representation.

use vstd::prelude::*;

verus! {

/// Appending an element to a sequence inserts it into the set of the
/// sequence's members.
pub proof fn lemma_push_to_set<A>(s: Seq<A>, x: A)
    ensures
        s.push(x).to_set() == s.to_set().insert(x),
{
    assert forall|y: A| s.push(x).to_set().contains(y) implies s.to_set().insert(x).contains(
        y,
    ) by {
        let m = choose|m: int| 0 <= m < s.push(x).len() && s.push(x)[m] == y;
        if m < s.len() {
            assert(s[m] == y);
        }
    }
    assert forall|y: A| s.to_set().insert(x).contains(y) implies s.push(x).to_set().contains(
        y,
    ) by {
        if y == x {
            assert(s.push(x)[s.len() as int] == y);
        } else {
            let m = choose|m: int| 0 <= m < s.len() && s[m] == y;
            assert(s.push(x)[m] == y);
        }
    }
    assert(s.push(x).to_set() =~= s.to_set().insert(x));
}

} // verus!
