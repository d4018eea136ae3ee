use vstd::prelude::*;
use crate::keys::{PublicKey, y_parity, x_coordinate};

verus! {

/// The Keccak-256 digest of a byte string.
pub uninterp spec fn keccak256_of(data: Seq<u8>) -> Seq<u8>;

/// Relies on keccak_hash::keccak_256: it writes the 32-byte Keccak-256 digest of
/// `data` into the output buffer.
#[verifier::external_body]
pub(crate) fn keccak256(data: &[u8]) -> (r: [u8; 32])
    ensures
        r@ == keccak256_of(data@),
{
    let mut out = [0u8; 32];
    keccak_hash::keccak_256(data, &mut out);
    out
}

/// The address of a point, given its 65-byte uncompressed encoding: the last 20
/// bytes of the Keccak-256 digest of x and y (the encoding without its leading
/// format byte).
pub open spec fn address(point: Seq<u8>) -> Seq<u8> {
    keccak256_of(point.subrange(1, 65)).subrange(12, 32)
}

/// The bytes hashed into the challenge: the address of the commitment point R,
/// the parity of the signer's y coordinate as one byte, the signer's x
/// coordinate, and the whole message.
pub open spec fn challenge_input(
    r_address: Seq<u8>,
    signer_x_only: Seq<u8>,
    signer_parity: u8,
    message: Seq<u8>,
) -> Seq<u8> {
    r_address + seq![signer_parity] + signer_x_only + message
}

/// The challenge e: the Keccak-256 digest of the challenge input.
pub open spec fn challenge_digest(
    r_point: Seq<u8>,
    signer_x_only: Seq<u8>,
    signer_parity: u8,
    message: Seq<u8>,
) -> Seq<u8> {
    keccak256_of(challenge_input(address(r_point), signer_x_only, signer_parity, message))
}

/// The challenge of a signer, given the signer's uncompressed point encoding.
pub open spec fn signer_challenge(r_point: Seq<u8>, signer_point: Seq<u8>, message: Seq<u8>) -> Seq<u8> {
    challenge_digest(r_point, x_coordinate(signer_point), y_parity(signer_point), message)
}

/// The 20-byte address of a public key.
pub fn address_of(pubkey: &PublicKey) -> (r: [u8; 20])
    ensures
        r@ == address(pubkey@),
{
    let point = pubkey.serialize_uncompressed();
    let mut payload: Vec<u8> = Vec::new();
    let mut i: usize = 1;
    while i < 65
        invariant
            1 <= i <= 65,
            point@ == pubkey@,
            point@.len() == 65,
            payload@ =~= point@.subrange(1, i as int),
        decreases 65 - i,
    {
        payload.push(point[i]);
        i = i + 1;
    }
    let digest = keccak256(payload.as_slice());
    let mut out = [0u8; 20];
    let mut j: usize = 0;
    while j < 20
        invariant
            0 <= j <= 20,
            digest@.len() == 32,
            out@.len() == 20,
            forall|t: int| 0 <= t < j ==> #[trigger] out@[t] == digest@[t + 12],
        decreases 20 - j,
    {
        out[j] = digest[j + 12];
        j = j + 1;
    }
    assert(out@ =~= address(pubkey@));
    out
}

/// The challenge e for the commitment point R, the signer's x coordinate and
/// parity, and the message: the Keccak-256 digest of R's address, the parity
/// byte, the x coordinate and the message, taken whole.
pub fn challenge(
    r_pub: &PublicKey,
    signer_x_only: &[u8; 32],
    signer_parity: u8,
    message: &[u8],
) -> (r: [u8; 32])
    ensures
        r@ == challenge_digest(r_pub@, signer_x_only@, signer_parity, message@),
{
    let addr = address_of(r_pub);
    let mut data: Vec<u8> = Vec::new();
    let mut i: usize = 0;
    while i < 20
        invariant
            0 <= i <= 20,
            addr@.len() == 20,
            data@ =~= addr@.subrange(0, i as int),
        decreases 20 - i,
    {
        data.push(addr[i]);
        i = i + 1;
    }
    data.push(signer_parity);
    let ghost head = data@;
    assert(head =~= addr@ + seq![signer_parity]);
    let mut i: usize = 0;
    while i < 32
        invariant
            0 <= i <= 32,
            signer_x_only@.len() == 32,
            data@ =~= head + signer_x_only@.subrange(0, i as int),
        decreases 32 - i,
    {
        data.push(signer_x_only[i]);
        i = i + 1;
    }
    let ghost mid = data@;
    assert(mid =~= head + signer_x_only@);
    let mut i: usize = 0;
    while i < message.len()
        invariant
            0 <= i <= message@.len(),
            data@ =~= mid + message@.subrange(0, i as int),
        decreases message@.len() - i,
    {
        data.push(message[i]);
        i = i + 1;
    }
    assert(data@ =~= challenge_input(address(r_pub@), signer_x_only@, signer_parity, message@));
    keccak256(data.as_slice())
}

/// Address derivation is a function of the point alone: two public keys with
/// the same point have the same address.
pub proof fn lemma_address_deterministic(p: PublicKey, q: PublicKey)
    requires
        p@ == q@,
    ensures
        address(p@) == address(q@),
{
}

/// The challenge binds the message whole: the hashed input is the 53 bytes of
/// address, parity and x coordinate, followed by every byte of the message, for
/// a message of any length, the empty one included.
pub proof fn lemma_message_kept_whole(
    r_address: Seq<u8>,
    signer_x_only: Seq<u8>,
    signer_parity: u8,
    message: Seq<u8>,
)
    requires
        r_address.len() == 20,
        signer_x_only.len() == 32,
    ensures
        challenge_input(r_address, signer_x_only, signer_parity, message).len() == 53 + message.len(),
        challenge_input(r_address, signer_x_only, signer_parity, message).subrange(53, 53 + message.len() as int) == message,
{
    let data = challenge_input(r_address, signer_x_only, signer_parity, message);
    assert(data.subrange(53, 53 + message.len() as int) =~= message);
}

} // verus!
