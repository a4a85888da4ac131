//! Streaming Merkle–Damgård hashing: SHA-224/256/384/512/512-224/512-256,
//! RIPEMD-160 and MD4, with verified buffering, padding and compression.

pub mod engine;
pub mod md4;
pub mod ripemd;
pub mod sha2;
pub mod words;
