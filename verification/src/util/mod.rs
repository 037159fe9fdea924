//! Units, vectors and small shared types.

pub mod si;
pub mod utils;
