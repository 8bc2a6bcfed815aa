//! Bounds-checked bulk operations on a mutable region: an overlap-safe block
//! copy and a byte fill. Every index and length is validated before the
//! region is touched, so a rejected request leaves the region unchanged.
pub mod bounds;
pub mod region;

pub use bounds::{validate_copy, CopyError};
pub use region::{checked_copy, copy, write_bytes};
