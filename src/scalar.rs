use vstd::prelude::*;

verus! {

/// The order n of the secp256k1 group.
pub open spec fn curve_order() -> nat {
    115792089237316195423570985008687907852837564279074904382605163141518161494337nat
}

/// The number that a byte string denotes, read big-endian.
pub open spec fn be_value(b: Seq<u8>) -> nat
    decreases b.len(),
{
    if b.len() == 0 {
        0
    } else {
        be_value(b.drop_last()) * 256 + b.last() as nat
    }
}

/// A 32-byte string that encodes a scalar in [1, n - 1].
pub open spec fn valid_secret(b: Seq<u8>) -> bool {
    b.len() == 32 && 0 < be_value(b) && be_value(b) < curve_order()
}

/// x * e mod n.
pub open spec fn mul_mod_order(x: Seq<u8>, e: Seq<u8>) -> nat {
    (be_value(x) * be_value(e)) % curve_order()
}

/// k + t mod n.
pub open spec fn add_mod_order(k: Seq<u8>, t: nat) -> nat {
    (be_value(k) + t) % curve_order()
}

} // verus!
