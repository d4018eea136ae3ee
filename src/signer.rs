use vstd::prelude::*;
use crate::error::SignError;
use crate::hashing::{address, address_of, challenge, signer_challenge};
use crate::keys::{compressed, public_point_of, PublicKey, SecretKey};
use crate::scalar::{add_mod_order, be_value, curve_order, mul_mod_order, valid_secret};
use vstd::arithmetic::div_mod::lemma_add_mod_noop_right;

verus! {

/// The challenge e of a signature by secret x with nonce k on a message.
pub open spec fn challenge_of(x: Seq<u8>, k: Seq<u8>, message: Seq<u8>) -> Seq<u8> {
    signer_challenge(public_point_of(k), public_point_of(x), message)
}

/// The response s = k + x·e mod n of a signature by secret x with nonce k.
pub open spec fn response_of(x: Seq<u8>, k: Seq<u8>, message: Seq<u8>) -> nat {
    add_mod_order(k, mul_mod_order(x, challenge_of(x, k, message)))
}

/// Signing succeeds where the challenge lies in [1, n - 1] and the response is
/// not 0.
pub open spec fn sign_succeeds(x: Seq<u8>, k: Seq<u8>, message: Seq<u8>) -> bool {
    let e = challenge_of(x, k, message);
    &&& 0 < be_value(e) < curve_order()
    &&& response_of(x, k, message) != 0
}

/// `sig` is the triple (R, s, e) for secret x, nonce k and a message: R the
/// compressed encoding of k·G, e the challenge, s = k + x·e mod n.
pub open spec fn is_signature(
    x: Seq<u8>,
    k: Seq<u8>,
    message: Seq<u8>,
    sig: ([u8; 33], [u8; 32], [u8; 32]),
) -> bool {
    &&& sig.0@ == compressed(public_point_of(k))
    &&& sig.2@ == challenge_of(x, k, message)
    &&& be_value(sig.1@) == response_of(x, k, message)
}

/// What signing a message with secret x and nonce k returns: the signature
/// where it succeeds, else the tweak failure.
pub open spec fn signing_outcome(
    x: Seq<u8>,
    k: Seq<u8>,
    message: Seq<u8>,
    r: Result<([u8; 33], [u8; 32], [u8; 32]), SignError>,
) -> bool {
    match r {
        Ok(sig) => sign_succeeds(x, k, message) && is_signature(x, k, message, sig),
        Err(e) => e == SignError::ScalarTweakFailure && !sign_succeeds(x, k, message),
    }
}

/// A signature (R, s, e) made by secret x with nonce k satisfies
/// s = k + x·e (mod n), where R encodes k·G and e is the challenge on R, the
/// signer's key x·G and the message. Multiplied by G this is s·G = R + e·X.
pub proof fn lemma_signature_relation(
    x: Seq<u8>,
    k: Seq<u8>,
    message: Seq<u8>,
    sig: ([u8; 33], [u8; 32], [u8; 32]),
)
    requires
        signing_outcome(x, k, message, Ok(sig)),
    ensures
        be_value(sig.1@) == (be_value(k) + be_value(x) * be_value(sig.2@)) % curve_order(),
        sig.0@ == compressed(public_point_of(k)),
        sig.2@ == signer_challenge(public_point_of(k), public_point_of(x), message),
{
    lemma_add_mod_noop_right(
        be_value(k) as int,
        (be_value(x) * be_value(sig.2@)) as int,
        curve_order() as int,
    );
}

/// Signs messages with a borrowed secret key and the public key derived from it.
pub struct Signer<'a> {
    priv_key: &'a SecretKey,
    pub_key: PublicKey,
}

/// A producer of Schnorr-style signatures (R, s, e).
pub trait TSigner {
    /// `r` is what signing `message` with the nonce `nonce` gives.
    spec fn signs_with(
        &self,
        nonce: Seq<u8>,
        message: Seq<u8>,
        r: Result<([u8; 33], [u8; 32], [u8; 32]), SignError>,
    ) -> bool;

    /// Signs `message` with a fresh random nonce k: R = k·G compressed,
    /// e = Keccak-256(address(R) ‖ parity ‖ x-only key ‖ message) and
    /// s = k + x·e mod n.
    fn schnorr_sign(&self, message: &[u8]) -> (r: Result<([u8; 33], [u8; 32], [u8; 32]), SignError>)
        ensures
            exists|k: Seq<u8>| valid_secret(k) && #[trigger] self.signs_with(k, message@, r),
            r matches Ok(sig) ==> sig.0[0] == 2 || sig.0[0] == 3,
    ;
}

impl<'a> Signer<'a> {
    #[verifier::type_invariant]
    spec fn inv(&self) -> bool {
        self.pub_key@ == public_point_of(self.priv_key@)
    }

    /// The secret scalar's 32 big-endian bytes.
    pub closed spec fn secret(&self) -> Seq<u8> {
        self.priv_key@
    }

    /// A signer for `priv_key`, with its public key x·G.
    pub fn new(priv_key: &'a SecretKey) -> (r: Self)
        ensures
            r.secret() == priv_key@,
    {
        Signer { priv_key, pub_key: priv_key.public_key() }
    }

    /// The address of the signer's public key.
    pub fn address(&self) -> (r: [u8; 20])
        ensures
            r@ == address(public_point_of(self.secret())),
    {
        proof {
            use_type_invariant(self);
        }
        address_of(&self.pub_key)
    }

    /// Signs `message` with the nonce `nonce`; fails, with no partial result,
    /// where the challenge is not a non-zero scalar below n or the response is 0.
    /// The challenge digest is used as a scalar as it stands: one of n or more
    /// is rejected, never reduced mod n.
    pub fn sign_with_nonce(&self, nonce: &SecretKey, message: &[u8]) -> (r: Result<
        ([u8; 33], [u8; 32], [u8; 32]),
        SignError,
    >)
        ensures
            signing_outcome(self.secret(), nonce@, message@, r),
    {
        proof {
            use_type_invariant(self);
        }
        let (x_only, parity) = self.pub_key.x_only_public_key();
        let r_pub = nonce.public_key();
        let e = challenge(&r_pub, &x_only, parity, message);
        let xe = match self.priv_key.mul_tweak(e) {
            Some(v) => v,
            None => return Err(SignError::ScalarTweakFailure),
        };
        let xe_bytes = xe.secret_bytes();
        let s = match nonce.add_tweak(xe_bytes) {
            Some(v) => v,
            None => return Err(SignError::ScalarTweakFailure),
        };
        Ok((r_pub.serialize(), s.secret_bytes(), e))
    }
}

impl<'a> TSigner for Signer<'a> {
    open spec fn signs_with(
        &self,
        nonce: Seq<u8>,
        message: Seq<u8>,
        r: Result<([u8; 33], [u8; 32], [u8; 32]), SignError>,
    ) -> bool {
        signing_outcome(self.secret(), nonce, message, r)
    }

    fn schnorr_sign(&self, message: &[u8]) -> (r: Result<([u8; 33], [u8; 32], [u8; 32]), SignError>) {
        let k = SecretKey::random();
        let r = self.sign_with_nonce(&k, message);
        assert(self.signs_with(k@, message@, r));
        r
    }
}

} // verus!
