//! A type-erased byte container: a growable buffer holding the raw byte
//! images of fixed-layout values, appended in order and later reinterpreted
//! as typed values or read out as raw bytes.

pub mod fixed;
pub mod ints;
pub mod store;

pub use crate::fixed::FixedBytes;
pub use crate::fixed::concat_bytes;
pub use crate::store::UntypedBytes;
