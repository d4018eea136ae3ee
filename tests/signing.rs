use schnorr_signer::error::SignError;
use schnorr_signer::hashing::{address_of, challenge};
use schnorr_signer::keys::SecretKey;
use schnorr_signer::signer::{Signer, TSigner};

fn key_of(last: u8) -> SecretKey {
    let mut b = [0u8; 32];
    b[31] = last;
    SecretKey::from_bytes(b).unwrap()
}

fn hex(bytes: &[u8]) -> String {
    let mut out = String::new();
    for b in bytes {
        out.push_str(&format!("{:02x}", b));
    }
    out
}

const ORDER: [u8; 32] = [
    0xFF, 0xFF, 0xFF, 0xFF, 0xFF, 0xFF, 0xFF, 0xFF, 0xFF, 0xFF, 0xFF, 0xFF, 0xFF, 0xFF, 0xFF, 0xFE,
    0xBA, 0xAE, 0xDC, 0xE6, 0xAF, 0x48, 0xA0, 0x3B, 0xBF, 0xD2, 0x5E, 0x8C, 0xD0, 0x36, 0x41, 0x41,
];

/// Checks s·G == R + e·X with the curve arithmetic of secp256k1.
fn relation_holds(x: &SecretKey, sig: &([u8; 33], [u8; 32], [u8; 32])) -> bool {
    let secp = secp256k1::Secp256k1::new();
    let r = secp256k1::PublicKey::from_slice(&sig.0).unwrap();
    let s = secp256k1::SecretKey::from_slice(&sig.1).unwrap();
    let s_g = secp256k1::PublicKey::from_secret_key(&secp, &s);
    let x_pub = secp256k1::PublicKey::from_slice(&x.public_key().serialize_uncompressed()).unwrap();
    let e = secp256k1::Scalar::from_be_bytes(sig.2).unwrap();
    let e_x = x_pub.mul_tweak(&secp, &e).unwrap();
    s_g == r.combine(&e_x).unwrap()
}

#[test]
fn address_of_generator_is_fixed() {
    let one = key_of(1);
    let addr = address_of(&one.public_key());
    assert_eq!(hex(&addr), "7e5f4552091a69125d5dfcb7b8c2659029395bdf");
    assert_eq!(Signer::new(&one).address(), addr);
    assert_eq!(address_of(&one.public_key()), addr);
}

#[test]
fn generator_encodings() {
    let g = key_of(1).public_key();
    let x = "79be667ef9dcbbac55a06295ce870b07029bfcdb2dce28d959f2815b16f81798";
    let uncompressed = g.serialize_uncompressed();
    assert_eq!(uncompressed[0], 4);
    assert_eq!(hex(&uncompressed[1..33]), x);
    assert_eq!(
        hex(&uncompressed[33..]),
        "483ada7726a3c4655da4fbfc0e1108a8fd17b448a68554199c47d08ffb10d4b8"
    );
    let c = g.serialize();
    assert_eq!(c[0], 2);
    assert_eq!(hex(&c[1..]), x);
    let (xo, parity) = g.x_only_public_key();
    assert_eq!(hex(&xo), x);
    assert_eq!(parity, 0);
}

#[test]
fn odd_y_gives_prefix_three_and_parity_one() {
    let mut found = false;
    for i in 1u8..32 {
        let p = key_of(i).public_key();
        let full = p.serialize_uncompressed();
        let odd = full[64] % 2;
        assert_eq!(p.serialize()[0], 2 + odd);
        assert_eq!(p.x_only_public_key().1, odd);
        found = found || odd == 1;
    }
    assert!(found);
}

#[test]
fn addresses_of_distinct_keys_differ() {
    let a = SecretKey::random();
    let b = SecretKey::random();
    assert_ne!(a.secret_bytes(), b.secret_bytes());
    assert_ne!(address_of(&a.public_key()), address_of(&b.public_key()));
}

#[test]
fn secret_key_bounds() {
    assert_eq!(SecretKey::from_bytes([0u8; 32]).err(), Some(SignError::InvalidSecretKey));
    assert_eq!(SecretKey::from_bytes(ORDER).err(), Some(SignError::InvalidSecretKey));
    assert_eq!(SecretKey::from_bytes([0xFF; 32]).err(), Some(SignError::InvalidSecretKey));
    let mut below = ORDER;
    below[31] = 0x40;
    assert_eq!(SecretKey::from_bytes(below).unwrap().secret_bytes(), below);
    assert_eq!(key_of(1).secret_bytes()[31], 1);
}

#[test]
fn scalar_tweaks() {
    let three = key_of(3);
    let mut two = [0u8; 32];
    two[31] = 2;
    assert_eq!(three.mul_tweak(two).unwrap().secret_bytes(), key_of(6).secret_bytes());
    assert_eq!(three.add_tweak(two).unwrap().secret_bytes(), key_of(5).secret_bytes());
    assert!(three.mul_tweak([0u8; 32]).is_none());
    assert!(three.mul_tweak(ORDER).is_none());
    assert!(three.add_tweak(ORDER).is_none());
    // 3 + (n - 3) is 0 mod n.
    let mut minus_three = ORDER;
    minus_three[31] = 0x41 - 3;
    assert!(three.add_tweak(minus_three).is_none());
    // 3 + (n - 1) is 2 mod n.
    let mut minus_one = ORDER;
    minus_one[31] = 0x40;
    assert_eq!(three.add_tweak(minus_one).unwrap().secret_bytes(), two);
}

#[test]
fn challenge_hashes_address_parity_key_and_message() {
    let r = key_of(7).public_key();
    let signer = key_of(1).public_key();
    let (xo, parity) = signer.x_only_public_key();
    let e = challenge(&r, &xo, parity, b"hello world");
    let mut data = Vec::new();
    data.extend_from_slice(&address_of(&r));
    data.push(parity);
    data.extend_from_slice(&xo);
    data.extend_from_slice(b"hello world");
    let mut expected = [0u8; 32];
    keccak_hash::keccak_256(&data, &mut expected);
    assert_eq!(e, expected);
    assert_ne!(challenge(&r, &xo, parity, b"hello worle"), e);
}

#[test]
fn fixed_nonce_signature_is_exact() {
    let x = key_of(1);
    let k = key_of(2);
    let signer = Signer::new(&x);
    let sig = signer.sign_with_nonce(&k, b"hello world").unwrap();
    assert_eq!(sig, signer.sign_with_nonce(&k, b"hello world").unwrap());
    assert_eq!(sig.0, k.public_key().serialize());
    let (xo, parity) = x.public_key().x_only_public_key();
    assert_eq!(sig.2, challenge(&k.public_key(), &xo, parity, b"hello world"));
    // With x = 1, s = k + e mod n.
    let expected_s = k.add_tweak(sig.2).unwrap();
    assert_eq!(sig.1, expected_s.secret_bytes());
    assert!(relation_holds(&x, &sig));
}

#[test]
fn signature_shape() {
    let x = SecretKey::random();
    let sig = Signer::new(&x).schnorr_sign(b"some message").unwrap();
    assert!(sig.0[0] == 2 || sig.0[0] == 3);
    assert_eq!(sig.0.len(), 33);
    assert_eq!(sig.1.len(), 32);
    assert_eq!(sig.2.len(), 32);
    assert!(relation_holds(&x, &sig));
}

#[test]
fn hello_world_twice_uses_fresh_nonces() {
    let x = key_of(1);
    let signer = Signer::new(&x);
    let a = signer.schnorr_sign(b"hello world").unwrap();
    let b = signer.schnorr_sign(b"hello world").unwrap();
    assert_ne!(a.0, b.0);
    assert_ne!(a.1, b.1);
    assert!(relation_holds(&x, &a));
    assert!(relation_holds(&x, &b));
}

#[test]
fn empty_message_signs() {
    let x = SecretKey::random();
    let sig = Signer::new(&x).schnorr_sign(b"").unwrap();
    assert!(relation_holds(&x, &sig));
}

#[test]
fn large_message_is_hashed_whole() {
    let x = key_of(5);
    let k = key_of(9);
    let signer = Signer::new(&x);
    let mut message = vec![0x5au8; 10 * 1024 * 1024];
    let whole = signer.sign_with_nonce(&k, &message).unwrap();
    assert!(relation_holds(&x, &whole));
    let last = message.len() - 1;
    message[last] = 0x5b;
    let changed = signer.sign_with_nonce(&k, &message).unwrap();
    assert_ne!(whole.2, changed.2);
    assert_eq!(whole.0, changed.0);
}
