use vstd::prelude::*;
use crate::error::SignError;
use crate::scalar::{add_mod_order, be_value, curve_order, mul_mod_order, valid_secret};

verus! {

/// The 65-byte uncompressed encoding (0x04, x, y) of the point d·G, for the
/// secret scalar d whose 32 big-endian bytes are `secret`.
pub uninterp spec fn public_point_of(secret: Seq<u8>) -> Seq<u8>;

/// The 32-byte big-endian x coordinate of an uncompressed point encoding.
pub open spec fn x_coordinate(point: Seq<u8>) -> Seq<u8> {
    point.subrange(1, 33)
}

/// 1 where the y coordinate of an uncompressed point encoding is odd, else 0.
pub open spec fn y_parity(point: Seq<u8>) -> u8 {
    (point[64] % 2) as u8
}

/// The 33-byte compressed encoding of a point: 0x02 or 0x03 by the parity of
/// y, then x.
pub open spec fn compressed(point: Seq<u8>) -> Seq<u8> {
    seq![(2 + y_parity(point)) as u8] + x_coordinate(point)
}

/// A secp256k1 secret scalar x with 0 < x < n, held as 32 big-endian bytes.
pub struct SecretKey {
    bytes: [u8; 32],
}

/// A secp256k1 public point, held as its 65-byte uncompressed encoding.
pub struct PublicKey {
    point: [u8; 65],
}

/// Relies on secp256k1::SecretKey::from_slice: it accepts exactly the 32-byte
/// strings whose big-endian value lies in [1, n - 1].
#[verifier::external_body]
fn is_valid_secret(bytes: &[u8; 32]) -> (r: bool)
    ensures
        r == valid_secret(bytes@),
{
    secp256k1::SecretKey::from_slice(bytes).is_ok()
}

/// Relies on secp256k1::SecretKey::new over the operating system's random
/// source: it draws 32 bytes until they are a valid secret scalar. It panics
/// only where the operating system yields no randomness.
#[verifier::external_body]
fn random_secret_bytes() -> (r: [u8; 32])
    ensures
        valid_secret(r@),
{
    secp256k1::SecretKey::new(&mut secp256k1::rand::rngs::OsRng).secret_bytes()
}

/// Relies on secp256k1::PublicKey::from_secret_key and serialize_uncompressed:
/// the point x·G, encoded as 0x04 followed by x and y.
#[verifier::external_body]
fn public_point(secret: &[u8; 32]) -> (r: [u8; 65])
    requires
        valid_secret(secret@),
    ensures
        r@ == public_point_of(secret@),
        r[0] == 4,
{
    let sk = secp256k1::SecretKey::from_slice(secret).unwrap();
    let secp = secp256k1::Secp256k1::signing_only();
    secp256k1::PublicKey::from_secret_key(&secp, &sk).serialize_uncompressed()
}

/// Relies on secp256k1::SecretKey::mul_tweak, with the tweak read by
/// secp256k1::Scalar::from_be_bytes: the product x·t mod n, which fails exactly
/// where t is 0 or not below n. What it returns is a `SecretKey`, which holds a
/// valid scalar.
#[verifier::external_body]
fn mul_tweak(secret: &[u8; 32], tweak: [u8; 32]) -> (r: Option<[u8; 32]>)
    requires
        valid_secret(secret@),
    ensures
        r is Some <==> 0 < be_value(tweak@) < curve_order(),
        r matches Some(p) ==> valid_secret(p@),
        r matches Some(p) ==> be_value(p@) == mul_mod_order(secret@, tweak@),
{
    let sk = secp256k1::SecretKey::from_slice(secret).ok()?;
    let t = secp256k1::Scalar::from_be_bytes(tweak).ok()?;
    sk.mul_tweak(&t).ok().map(|p| p.secret_bytes())
}

/// Relies on secp256k1::SecretKey::add_tweak, with the tweak read by
/// secp256k1::Scalar::from_be_bytes: the sum k + t mod n, which fails exactly
/// where t is not below n or the sum is 0. What it returns is a `SecretKey`,
/// which holds a valid scalar.
#[verifier::external_body]
fn add_tweak(secret: &[u8; 32], tweak: [u8; 32]) -> (r: Option<[u8; 32]>)
    requires
        valid_secret(secret@),
    ensures
        r is Some <==> (be_value(tweak@) < curve_order() && add_mod_order(secret@, be_value(tweak@)) != 0),
        r matches Some(p) ==> valid_secret(p@),
        r matches Some(p) ==> be_value(p@) == add_mod_order(secret@, be_value(tweak@)),
{
    let sk = secp256k1::SecretKey::from_slice(secret).ok()?;
    let t = secp256k1::Scalar::from_be_bytes(tweak).ok()?;
    sk.add_tweak(&t).ok().map(|p| p.secret_bytes())
}

impl SecretKey {
    #[verifier::type_invariant]
    spec fn inv(&self) -> bool {
        valid_secret(self.bytes@)
    }

    /// The scalar's 32 big-endian bytes.
    pub closed spec fn view(&self) -> Seq<u8> {
        self.bytes@
    }

    /// Reads a secret scalar from 32 big-endian bytes; fails unless the value
    /// lies in [1, n - 1].
    pub fn from_bytes(bytes: [u8; 32]) -> (r: Result<SecretKey, SignError>)
        ensures
            r is Ok <==> valid_secret(bytes@),
            r matches Ok(k) ==> k@ == bytes@,
            r matches Err(e) ==> e == SignError::InvalidSecretKey,
    {
        if is_valid_secret(&bytes) {
            Ok(SecretKey { bytes })
        } else {
            Err(SignError::InvalidSecretKey)
        }
    }

    /// A fresh secret scalar from the operating system's random source.
    pub fn random() -> (r: SecretKey)
        ensures
            valid_secret(r@),
    {
        SecretKey { bytes: random_secret_bytes() }
    }

    /// The scalar's 32 big-endian bytes.
    pub fn secret_bytes(&self) -> (r: [u8; 32])
        ensures
            r@ == self@,
            valid_secret(r@),
    {
        proof {
            use_type_invariant(self);
        }
        self.bytes
    }

    /// The public point x·G.
    pub fn public_key(&self) -> (r: PublicKey)
        ensures
            r@ == public_point_of(self@),
            r@[0] == 4,
    {
        proof {
            use_type_invariant(self);
        }
        PublicKey { point: public_point(&self.bytes) }
    }

    /// The scalar x·t mod n; `None` where t is 0 or not below n.
    pub fn mul_tweak(&self, tweak: [u8; 32]) -> (r: Option<SecretKey>)
        ensures
            r is Some <==> 0 < be_value(tweak@) < curve_order(),
            r matches Some(p) ==> be_value(p@) == mul_mod_order(self@, tweak@),
    {
        proof {
            use_type_invariant(self);
        }
        match mul_tweak(&self.bytes, tweak) {
            Some(p) => Some(SecretKey { bytes: p }),
            None => None,
        }
    }

    /// The scalar k + t mod n; `None` where t is not below n or the sum is 0.
    pub fn add_tweak(&self, tweak: [u8; 32]) -> (r: Option<SecretKey>)
        ensures
            r is Some <==> be_value(tweak@) < curve_order() && add_mod_order(
                self@,
                be_value(tweak@),
            ) != 0,
            r matches Some(p) ==> be_value(p@) == add_mod_order(self@, be_value(tweak@)),
    {
        proof {
            use_type_invariant(self);
        }
        match add_tweak(&self.bytes, tweak) {
            Some(p) => Some(SecretKey { bytes: p }),
            None => None,
        }
    }
}

impl PublicKey {
    /// The 65-byte uncompressed encoding.
    pub closed spec fn view(&self) -> Seq<u8> {
        self.point@
    }

    /// The 65-byte uncompressed encoding: 0x04, x, y.
    pub fn serialize_uncompressed(&self) -> (r: [u8; 65])
        ensures
            r@ == self@,
    {
        self.point
    }

    /// The 33-byte compressed encoding: 0x02 or 0x03 by the parity of y, then x.
    pub fn serialize(&self) -> (r: [u8; 33])
        ensures
            r@ == compressed(self@),
    {
        let mut out = [0u8; 33];
        out[0] = 2 + self.point[64] % 2;
        let mut i: usize = 0;
        while i < 32
            invariant
                0 <= i <= 32,
                self.point@.len() == 65,
                out@.len() == 33,
                out[0] == 2 + self.point[64] % 2,
                forall|j: int| 1 <= j < i + 1 ==> #[trigger] out@[j] == self.point@[j],
            decreases 32 - i,
        {
            out[i + 1] = self.point[i + 1];
            i = i + 1;
        }
        assert(out@ =~= compressed(self@));
        out
    }

    /// The x coordinate, 32 bytes big-endian, and the parity of y (1 if odd).
    pub fn x_only_public_key(&self) -> (r: ([u8; 32], u8))
        ensures
            r.0@ == x_coordinate(self@),
            r.1 == y_parity(self@),
    {
        let mut x = [0u8; 32];
        let mut i: usize = 0;
        while i < 32
            invariant
                0 <= i <= 32,
                self.point@.len() == 65,
                x@.len() == 32,
                forall|j: int| 0 <= j < i ==> #[trigger] x@[j] == self.point@[j + 1],
            decreases 32 - i,
        {
            x[i] = self.point[i + 1];
            i = i + 1;
        }
        assert(x@ =~= x_coordinate(self@));
        (x, self.point[64] % 2)
    }
}

} // verus!
