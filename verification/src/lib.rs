//! A one-directional encoder for a length-prefixed binary format.
//!
//! Values append their own byte representation to an [`SszStream`]; every
//! variable-sized write is preceded by a four-byte big-endian header.

pub mod big_endian;
pub mod byte_buffer;
pub mod ethereum;
pub mod integers;
pub mod length;
pub mod stream;

pub use crate::length::{encode_length, LENGTH_BYTES};
pub use crate::stream::{encode, Encodable, SszStream};
