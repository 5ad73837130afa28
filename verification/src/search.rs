//! First-match search over a sequence, shared by the bind-table and
//! hint-table lookups.

use vstd::prelude::*;

verus! {

/// The first element of `s` satisfying `p`, if any.
pub open spec fn find_first<A>(s: Seq<A>, p: spec_fn(A) -> bool) -> Option<A>
    decreases s.len(),
{
    if s.len() == 0 {
        None
    } else if p(s[0]) {
        Some(s[0])
    } else {
        find_first(s.drop_first(), p)
    }
}

/// Skipping past a non-matching element leaves the first match unchanged.
pub proof fn lemma_find_first_step<A>(s: Seq<A>, p: spec_fn(A) -> bool, i: int)
    requires
        0 <= i < s.len(),
        !p(s[i]),
    ensures
        find_first(s.skip(i), p) == find_first(s.skip(i + 1), p),
{
    assert(s.skip(i).drop_first() =~= s.skip(i + 1));
    assert(s.skip(i)[0] == s[i]);
}

/// A matching element at the front of the remaining suffix is the first match.
pub proof fn lemma_find_first_found<A>(s: Seq<A>, p: spec_fn(A) -> bool, i: int)
    requires
        0 <= i < s.len(),
        p(s[i]),
    ensures
        find_first(s.skip(i), p) == Some(s[i]),
{
    assert(s.skip(i)[0] == s[i]);
}

} // verus!
