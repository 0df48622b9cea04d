use lorenz::hex::parse_hex32;
use lorenz::x25519::secret_parse_hex32;
use lorenz::{EphemeralKey, Error, PublicKey, UserSecretKey};
use ring::hkdf;
use rustc_hex::FromHexError;

const ALICE_PRIVATE: &str = "77076d0a7318a57d3c16c17251b26645df4c2f87ebc0992ab177fba51db92c2a";
const ALICE_PUBLIC: &str = "8520f0098930a754748b7ddcb43ef75a0dbf3a0d26381af4eba4a98eaa9b4e6a";
const BOB_PRIVATE: &str = "5dab087e624a8a4b79e17f8b83800ee66f3bb1292618b6fd1c2f8b27ff88e0eb";
const BOB_PUBLIC: &str = "de9edb7d7b7dc1b4d35b61c2ece435373f8343c85b78674dadfc7e146f882b4f";
const SHARED_POINT: &str = "4a5d9d5ba4ce2de1728e3bf480350f25e07e21c947d19e3376f09b3c1e161742";

fn bytes32(hex: &str) -> [u8; 32] {
    parse_hex32(hex).unwrap()
}

#[test]
fn parse_hex32_reads_both_forms() {
    let plain = parse_hex32(ALICE_PUBLIC).unwrap();
    let prefixed = parse_hex32(&format!("0x{}", ALICE_PUBLIC)).unwrap();
    assert_eq!(plain, prefixed);
    assert_eq!(plain[0], 0x85);
    assert_eq!(plain[1], 0x20);
    assert_eq!(plain[31], 0x6a);
    let upper = parse_hex32(&ALICE_PUBLIC.to_uppercase()).unwrap();
    assert_eq!(upper, plain);
}

#[test]
fn parse_hex32_rejects_bad_text() {
    assert!(matches!(parse_hex32("abcd"), Err(FromHexError::InvalidHexLength)));
    assert!(matches!(parse_hex32(&format!("{}00", ALICE_PUBLIC)), Err(FromHexError::InvalidHexLength)));
    let bad = format!("zz{}", &ALICE_PUBLIC[2..]);
    assert!(matches!(parse_hex32(&bad), Err(FromHexError::InvalidHexCharacter(_, _))));
    let spaced = format!("{} {}", &ALICE_PUBLIC[..31], &ALICE_PUBLIC[32..]);
    assert_eq!(spaced.len(), 64);
    assert!(parse_hex32(&spaced).is_err());
}

#[test]
fn secret_parse_hex32_errors() {
    assert_eq!(secret_parse_hex32("0x1234").err(), Some(Error::BadKeyLength));
    let bad = format!("{}g", &ALICE_PRIVATE[..63]);
    assert_eq!(secret_parse_hex32(&bad).err(), Some(Error::BadKey));
    let parsed = secret_parse_hex32(&format!("0x{}", ALICE_PRIVATE)).unwrap();
    assert_eq!(parsed.as_bytes(), &bytes32(ALICE_PRIVATE)[..]);
}

#[test]
fn public_points_match_known_answers() {
    let alice = UserSecretKey::from_hex(ALICE_PRIVATE).unwrap();
    assert_eq!(alice.get_public().as_bytes(), &bytes32(ALICE_PUBLIC));
    let bob: UserSecretKey = BOB_PRIVATE.parse().unwrap();
    assert_eq!(bob.get_public().as_bytes(), &bytes32(BOB_PUBLIC));
    assert_eq!(alice.to_bytes(), bytes32(ALICE_PRIVATE));
    assert_eq!(PublicKey::from_hex(BOB_PUBLIC).unwrap().as_bytes(), &bytes32(BOB_PUBLIC));
    assert_eq!(PublicKey::from_hex("nothex").err(), Some(Error::BadKey));
}

struct Length(usize);

impl hkdf::KeyType for Length {
    fn len(&self) -> usize {
        self.0
    }
}

fn expected_long_derivation(point: &[u8], len: usize) -> Vec<u8> {
    let prk = hkdf::Salt::new(hkdf::HKDF_SHA256, b"Lorenz").extract(point);
    let mut out = vec![0u8; len];
    prk.expand(&[], Length(len)).unwrap().fill(&mut out).unwrap();
    out
}

fn expected_derivation(point: &[u8]) -> [u8; 32] {
    let prk = hkdf::Salt::new(hkdf::HKDF_SHA256, b"Lorenz").extract(point);
    let mut out = [0u8; 32];
    prk.expand(&[], hkdf::HKDF_SHA256).unwrap().fill(&mut out).unwrap();
    out
}

#[test]
fn derived_secret_is_hkdf_of_the_shared_point() {
    let alice = UserSecretKey::from_hex(ALICE_PRIVATE).unwrap();
    let bob_public = PublicKey::from_hex(BOB_PUBLIC).unwrap();
    let derived = alice.derive_secret(&bob_public, 32);
    let expected = expected_derivation(&bytes32(SHARED_POINT));
    assert_eq!(derived.as_bytes(), &expected[..]);
    assert_ne!(derived.as_bytes(), &bytes32(SHARED_POINT)[..]);
    let shorter = alice.derive_secret(&bob_public, 16);
    assert_eq!(shorter.as_bytes(), &expected[..16]);
}

#[test]
fn both_sides_derive_the_same_secret() {
    let ephemeral = EphemeralKey::new().unwrap();
    let user = UserSecretKey::new().unwrap();
    let sent = ephemeral.derive_secret(&user.get_public(), 32);
    let received = user.derive_secret(&ephemeral.get_public(), 32);
    assert_eq!(sent.as_bytes(), received.as_bytes());
    assert_eq!(sent.len(), 32);
}

#[test]
fn ephemeral_key_from_bytes() {
    let from_trait = EphemeralKey::from(bytes32(ALICE_PRIVATE));
    let from_fn = EphemeralKey::from_bytes(bytes32(ALICE_PRIVATE));
    assert_eq!(from_trait.get_public().as_bytes(), &bytes32(ALICE_PUBLIC));
    assert_eq!(from_fn.get_public().as_bytes(), &bytes32(ALICE_PUBLIC));
}

#[test]
fn fresh_user_keys_differ() {
    let a = UserSecretKey::new().unwrap();
    let b = UserSecretKey::new().unwrap();
    assert_ne!(a.to_bytes(), b.to_bytes());
    assert_ne!(a.get_public().as_bytes(), b.get_public().as_bytes());
}

#[test]
fn keys_print_as_lower_case_hex() {
    let alice = UserSecretKey::from_hex(&ALICE_PRIVATE.to_uppercase()).unwrap();
    assert_eq!(alice.to_hex(), ALICE_PRIVATE);
    assert_eq!(alice.get_public().to_hex(), ALICE_PUBLIC);
    assert_eq!(PublicKey::from_bytes([0x0f; 32]).to_hex(), "0f".repeat(32));
}

#[test]
fn long_derivations_agree_and_match_hkdf() {
    let alice = UserSecretKey::from_hex(ALICE_PRIVATE).unwrap();
    let bob = UserSecretKey::from_hex(BOB_PRIVATE).unwrap();
    let from_alice = alice.derive_secret(&bob.get_public(), 100);
    let from_bob = bob.derive_secret(&alice.get_public(), 100);
    assert_eq!(from_alice.as_bytes(), from_bob.as_bytes());
    assert_eq!(from_alice.as_bytes(), &expected_long_derivation(&bytes32(SHARED_POINT), 100)[..]);
    let longest = alice.derive_secret(&bob.get_public(), 8160);
    assert_eq!(longest.len(), 8160);
    assert_eq!(&longest.as_bytes()[..100], from_alice.as_bytes());
    assert_eq!(alice.derive_secret(&bob.get_public(), 0).len(), 0);
}
