//! Signed-difference byte counting.
//!
//! Every counter in this crate computes the same quantity over a byte
//! buffer: the number of occurrences of a "positive" byte minus the number
//! of occurrences of a "negative" byte (in the fixed-byte variants, ASCII
//! `'s'` and `'p'`).  The variants differ only in coding style — a plain
//! loop, an iterator-shaped loop, a lane-chunked counter, and a two-pass
//! variant that materializes boolean match masks — and each one is proved
//! to return exactly the value of the single mathematical definition in
//! [`model`].

pub mod implementations;
pub mod lanes;
pub mod model;

pub use implementations::count_for_loop;
pub use implementations::count_iter;
pub use implementations::count_scalar;
pub use implementations::count_scalar_range;
pub use implementations::count_simd;
pub use implementations::emulate_numpy::nonzeros;
pub use implementations::emulate_numpy::rust_emulate_numpy;
pub use implementations::emulate_numpy::vec_eq;
pub use implementations::emulate_numpy::vec_eq_only_prefix;
pub use implementations::emulate_numpy::vec_eq_only_simd;
pub use implementations::emulate_numpy::vec_eq_simd;
pub use implementations::rust_for_loop::rust_for_loop;
