//! Arithmetic kernels for arrays of integers with nulls.
//!
//! An array is viewed as a sequence of slots, each with a stored value and a validity flag. The
//! kernels take two arrays of one length and combine them slot by slot; a slot of the result is
//! valid where both operands are.

pub mod arithmetic;
pub mod array;
pub mod bitmap;
pub mod datatypes;
pub mod error;
mod identities;
pub mod integer;
pub mod laws;
pub mod outcomes;
pub mod simd;
mod util;
pub mod vectorized;
