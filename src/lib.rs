//! Hexadecimal text for byte fields of a serialization framework.
//!
//! `serialize` turns a byte sequence into lowercase hex text, `deserialize`
//! and `deserialize_array` turn hex text back into bytes and translate every
//! failure of the hex codec into a field-level error of this crate.

mod adapter;
mod codec;
pub mod error;
pub mod laws;
pub mod model;

pub use adapter::{deserialize, deserialize_array, serialize};
pub use error::{DeError, LengthNote};
