//! Packet-processing pipeline for a per-connection codec context: DEFLATE
//! compression, AES-256-CFB8 stream encryption, and a truncated SHA-256
//! integrity tag over a monotonically increasing packet counter.

pub mod bytes;
pub mod digest;
pub mod cipher;
pub mod compression;
pub mod codec;
pub mod pipeline;
pub mod bridge;
