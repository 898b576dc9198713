//! Small helpers for the integer-indexed arenas.

use vstd::prelude::*;

verus! {

/// `newer` holds every entry of `older`, in place, and possibly more.
pub open spec fn seq_extends<T>(older: Seq<T>, newer: Seq<T>) -> bool {
    &&& older.len() <= newer.len()
    &&& (forall|j: int| 0 <= j < older.len() ==> newer[j] == older[j])
}

/// Replaces the element at `i` with `value` and hands back the old element.
pub fn vec_replace<T>(v: &mut Vec<T>, i: usize, value: T) -> (r: T)
    requires
        i < old(v).len(),
    ensures
        final(v)@ == old(v)@.update(i as int, value),
        r == old(v)@[i as int],
{
    v.push(value);
    let r = v.swap_remove(i);
    proof {
        assert(v@ =~= old(v)@.update(i as int, value));
    }
    r
}

/// Copies a list of arena indices.
pub fn copy_ids(v: &Vec<usize>) -> (r: Vec<usize>)
    ensures
        r@ == v@,
{
    let mut r: Vec<usize> = Vec::new();
    let mut i: usize = 0;
    while i < v.len()
        invariant
            i <= v.len(),
            r@ == v@.subrange(0, i as int),
        decreases v.len() - i,
    {
        r.push(v[i]);
        proof {
            assert(r@ =~= v@.subrange(0, (i + 1) as int));
        }
        i = i + 1;
    }
    proof {
        assert(r@ =~= v@);
    }
    r
}

} // verus!
