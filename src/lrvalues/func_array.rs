//! Assignment to an element of a slice through a mutable reference.
use vstd::prelude::*;

verus! {

/// Writes `v` into the first element of `r`, leaving the other elements as
/// they were.
///
/// `r[0]` is a place expression (an index), and it is mutable because the
/// slice is reached through a `&mut` reference. Indexing an empty slice
/// panics, so `r` must hold at least one element.
pub fn do_assign(r: &mut [i32], v: i32)
    requires
        old(r)@.len() > 0,
    ensures
        final(r)@ == old(r)@.update(0, v),
{
    r[0] = v;
}

} // verus!
