//! # Assignment semantics
//!
//! Rust only allows assignments to mutable place expressions.
//!
//! Place expressions are what other languages call l-values, and can be
//! identified syntactically: only variables, array indexes, field accesses
//! and dereferences are place expressions.
//!
//! Mutability is determined by the type system together with the syntactic
//! context. For a variable it is whether the variable was bound with `mut`.
//! For an aggregate, the mutability of the whole gives the mutability of its
//! parts.
//!
//! A value expression (an array or struct literal, say) is promoted to a
//! temporary in a place-expression context, and temporaries are mutable, so
//! assigning to a field or an element of a literal compiles; the write is
//! simply lost with the temporary.

pub mod func_array;
pub mod func_struct;
pub mod func_var;
