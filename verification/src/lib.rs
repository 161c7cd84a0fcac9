//! Manhattan (L1) distance over loosely typed boundary vectors.
//!
//! A host runtime hands the engine two values whose shapes and element
//! types are not statically known. The engine validates them, coerces the
//! elements to numbers, and reduces the pair to a single distance, or
//! refuses the call with a typed error.

pub mod engine;
pub mod laws;
pub mod value;
