//! A derivation engine for annotation-driven trait implementations.
//!
//! Given the structural description of a record or tagged-union type
//! ([`model::TypeDecl`]), the engine synthesizes the shape of a trait
//! implementation: a zero-argument constructor driven by per-field
//! `#[default(...)]` annotations ([`default_gen::expand`]), or an
//! element-wise binary operator ([`add_like::expand`]).  The engine never
//! touches source text or tokens: it consumes a parsed declaration and
//! returns a structured code fragment, which a thin unverified layer
//! renders back into tokens.

pub mod model;
pub mod names;
pub mod attrs;
pub mod descriptor;
pub mod fragment;
pub mod default_gen;
pub mod add_like;
pub mod laws;
