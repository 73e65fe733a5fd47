//! Type-coercion pass for a relational query optimizer.
//!
//! Given a logical query plan whose expressions may combine columns or
//! literals of mismatched primitive types, the pass rewrites the plan so that
//! every binary operator and function call receives operands of a single
//! common type, inserting explicit `CAST` nodes where needed.  The rewrite is
//! bottom-up, never mutates its input, and fails fast on pairs of types that
//! have no lossless common supertype.

pub mod builder;
pub mod coercion;
pub mod datatypes;
pub mod display;
pub mod error;
pub mod expr;
pub mod laws;
pub mod plan;
pub mod registry;
pub mod supertype;
