//! Width-tagged unsigned-integer expressions and the coercion of untyped
//! integer expressions into them.

pub mod bigint;
pub mod coerce;
pub mod debug;
pub mod expr;
pub mod laws;
pub mod render;
pub mod text;
pub mod types;
pub mod uint;
