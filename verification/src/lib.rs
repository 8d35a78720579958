//! Verified core of the proof-wrapping pipeline: the byte layout and the hash
//! of a SNARK wrapper verification key, and the decisions that drive the
//! proving phases (RISC wrapper, compression, SNARK wrapper).
pub mod field_bytes;
pub mod keccak;
pub mod pipeline;
pub mod prove_flow;
pub mod vk_hash;

pub use pipeline::L1_VERIFIER_DOMAIN_SIZE_LOG;
pub use vk_hash::calculate_verification_key_hash;
