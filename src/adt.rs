//! # Algebraic data types and pattern matching
//!
//! Enums are one of several ways to define new types in Rust; others are
//! structs, type aliases and, less commonly, unions.

pub mod height_enum;
