//! Small sequence-to-set lemmas shared by the accumulator proofs.

use vstd::prelude::*;

verus! {

/// Extending a prefix by one element inserts that element into the prefix's
/// set.
pub proof fn lemma_to_set_step<A>(s: Seq<A>, k: int)
    requires
        0 <= k < s.len(),
    ensures
        s.subrange(0, k + 1).to_set() == s.subrange(0, k).to_set().insert(s[k]),
{
    let a = s.subrange(0, k + 1);
    let b = s.subrange(0, k);
    assert forall|x: A| a.to_set().contains(x) implies b.to_set().insert(s[k]).contains(x) by {
        let i = choose|i: int| 0 <= i < a.len() && a[i] == x;
        if i < k {
            assert(b[i] == x);
        }
    };
    assert forall|x: A| b.to_set().insert(s[k]).contains(x) implies a.to_set().contains(x) by {
        if b.to_set().contains(x) {
            let i = choose|i: int| 0 <= i < b.len() && b[i] == x;
            assert(a[i] == x);
        } else {
            assert(a[k] == s[k]);
        }
    };
    assert(a.to_set() =~= b.to_set().insert(s[k]));
}

} // verus!
