//! Schnorr-style signing over secp256k1 with an Ethereum-style address of the
//! nonce commitment bound into the challenge.
pub mod error;
pub mod hashing;
pub mod keys;
pub mod scalar;
pub mod signer;
