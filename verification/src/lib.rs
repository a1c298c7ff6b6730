//! Post-quantum key encapsulation (ML-KEM, X-Wing) and signatures (ML-DSA, SLH-DSA)
//! over byte strings, with keys kept as seeds or encodings.
//!
//! - `kem`: the four key encapsulation mechanisms, their operations and key objects.
//! - `sig`: the three ML-DSA parameter sets, their operations and key objects.
//! - `slh`: the twelve SLH-DSA parameter sets, their selection by name, and key objects.
//! - `laws`: properties that span several operations.
//! - `text`: decimal rendering and string helpers for messages.
//! - `kem_backend`, `mldsa_backend`, `slh_backend`: the calls into the RustCrypto crates,
//!   each behind a contract.
pub mod kem;
pub mod kem_backend;
pub mod laws;
pub mod mldsa_backend;
pub mod sig;
pub mod slh;
pub mod slh_backend;
pub mod text;
