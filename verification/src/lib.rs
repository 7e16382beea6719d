//! Teaching snippets on module design, stated and proved with Verus.
//!
//! The crate collects small, independent examples of the classic cohesion
//! and coupling categories.  Each module pairs a "problem" shape with its
//! refactored "solution"; the functions themselves are small string and
//! integer computations, and every one carries a contract that pins its
//! result down exactly.

pub mod cohesion;
pub mod coupling;
pub mod text;
