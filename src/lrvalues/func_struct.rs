//! Assignment to a field of a struct through a mutable reference.
use vstd::prelude::*;

verus! {

/// A small record with an integer and a boolean field.
#[derive(Debug, PartialEq, Eq, Structural)]
pub struct S {
    pub i: i32,
    pub b: bool,
}

/// Writes `v` into the field `i` of the struct that `r` refers to; the field
/// `b` is left as it was.
///
/// `r.i` is a place expression (a field access), and it is mutable because the
/// whole struct is reached through a `&mut` reference.
pub fn do_assign(r: &mut S, v: i32)
    ensures
        *final(r) == (S { i: v, b: old(r).b }),
{
    r.i = v;
}

} // verus!
