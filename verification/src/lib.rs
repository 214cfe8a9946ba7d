//! Deterministic fixed-length textual identifiers derived from 128-bit unique identifiers.
//!
//! An identifier's sixteen bytes are hashed with a seeded non-cryptographic hash, the hash
//! value is rendered in base 10, and the digits are cut or padded to a target length.

pub mod decimal;
pub mod encoder;
pub mod hash;
pub mod identifier;
pub mod length;

pub use crate::encoder::{encode, encode_hash, encode_with, EncoderConfig};
pub use crate::hash::{gx_hash_uid128, gx_hash_uid64, hash_identifier, hash_uid, HashWidth};
pub use crate::identifier::Identifier;
pub use crate::length::{
    limit_variable_string_length_v1, limit_variable_string_length_v2, PadStrategy, FILLER,
    TARGET_LENGTH,
};
