//! Null-aware, vectorized string-to-value dispatch kernels.
//!
//! The crate applies caller-supplied row-level parsers to columnar text
//! operands (full columns or broadcast scalars), supports an ordered
//! fallback chain of candidate parse attempts per row, and fails
//! atomically: the first unrecoverable failure aborts the whole call.
//! A format-aware temporal parser built on `chrono` is provided as the
//! canonical row-level operation.

pub mod errors;
pub mod fallback;
pub mod kernel;
pub mod operand;
pub mod parsers;
pub mod temporal;
pub mod unary;
