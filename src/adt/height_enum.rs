//! A contrived model of a height as an algebraic data type, for pattern
//! matching.
//!
//! A `match` is an expression: every arm yields the same type, and the arms
//! together must cover every variant (a wildcard `_` covers the rest). Arms may
//! bind fields in nested patterns, carry a guard (`if f > 7`), or join several
//! patterns with `|` when each binds the same names at the same types.
use vstd::prelude::*;

verus! {

/// A height in imperial units. Enums support three kinds of variants.
#[derive(Debug, Clone, Copy, PartialEq, Eq, Structural)]
pub enum Imperial {
    /// A struct-like variant, with named fields.
    Mixed { feet: i32, inches: i32 },
    /// A tuple-like variant, with unnamed fields.
    Inches(i32),
    /// A variant with no fields.
    NoHeight,
}

/// A height in either unit system.
///
/// Enums can hold other enums, and type names live in a namespace apart from
/// variant names: `Height::Imperial` holds an `Imperial`.
#[derive(Debug, Clone, Copy, PartialEq, Eq, Structural)]
pub enum Height {
    Imperial(Imperial),
    Metric { centimeters: i32 },
}

} // verus!
