use vstd::prelude::*;

verus! {

/// Why a key could not be read or a signature could not be made.
#[derive(Debug, Clone, Copy, PartialEq, Eq, Structural)]
pub enum SignError {
    /// The 32 bytes given as a secret key are 0 or not below the curve order.
    InvalidSecretKey,
    /// The challenge is 0 or not below the curve order, or k + x·e is 0 mod n.
    ScalarTweakFailure,
}

} // verus!
