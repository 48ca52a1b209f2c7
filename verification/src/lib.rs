//! Types for building the bytes that an offline signer signs.

pub mod hashing;
pub mod signed_payload;
