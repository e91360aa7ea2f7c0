//! Deterministic private-key derivation from a simulated Intel TDX sealing
//! key: capability checks, measurement retrieval, per-byte sealing-key
//! transform, SHA-256 derivation, and hex/base64 presentation.
pub mod caps;
pub mod encoding;
pub mod error;
pub mod keys;
pub mod pipeline;
