//! Small, verified examples of Rust's algebraic data types and of its
//! assignment rules.

pub mod adt;
pub mod lrvalues;
