//! Assignment through a mutable reference to a local variable.
//!
//! Forgetting `&mut` at the call site (`do_assign(x, t)`) is a type error, as
//! is forgetting to dereference the parameter inside (`r = v`). Passing
//! `x + y` directly while `x` is mutably borrowed (`do_assign(&mut x, x + y)`)
//! is refused by the borrow checker, hence the temporary in the callers.
use vstd::prelude::*;

verus! {

/// Writes `v` into the place that `r` refers to.
///
/// `*r` is a place expression (a dereference), and it is mutable because `r`
/// is a `&mut` reference.
pub fn do_assign(r: &mut i32, v: i32)
    ensures
        *final(r) == v,
{
    *r = v;
}

} // verus!
