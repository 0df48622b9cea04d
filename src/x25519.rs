//! X25519 key pairs and the wrapping keys derived from their agreement.
use crate::error::Error;
use crate::hex::{
    array32, decode_hex, encode_hex, hex_encoded, key_from_hex, parse_hex32, strip_prefix,
    without_prefix,
};
use crate::secret::{os_random_32, wipe_array, Secret};
use ring::hkdf;
use vstd::prelude::*;
use vstd::string::StringSliceAdditionalSpecFns;
use x25519_dalek::{PublicKey as DalekPublic, StaticSecret};

verus! {

/// Length of a private scalar and of a public point.
pub const POINT_LEN: usize = 32;

/// Most bytes one derivation gives: 255 blocks of HKDF-SHA256.
pub const MAX_DERIVED_LEN: usize = 8160;

/// The public point of the private scalar `secret` (clamped as X25519 does).
pub uninterp spec fn x25519_public_of(secret: Seq<u8>) -> Seq<u8>;

/// The Diffie-Hellman point that `secret` and the public point `peer` agree on.
pub uninterp spec fn x25519_shared(secret: Seq<u8>, peer: Seq<u8>) -> Seq<u8>;

/// The first `len` bytes of HKDF-SHA256 output for `salt` and input key
/// material `ikm`, with empty info.
pub uninterp spec fn hkdf_sha256_output(salt: Seq<u8>, ikm: Seq<u8>, len: nat) -> Seq<u8>;

/// The fixed, public salt of every derivation: the bytes of "Lorenz".
pub open spec fn kdf_salt() -> Seq<u8> {
    seq![0x4cu8, 0x6fu8, 0x72u8, 0x65u8, 0x6eu8, 0x7au8]
}

/// The `len` bytes that `secret` derives against the public point `peer`.
pub open spec fn shared_secret(secret: Seq<u8>, peer: Seq<u8>, len: nat) -> Seq<u8> {
    hkdf_sha256_output(kdf_salt(), x25519_shared(secret, peer), len)
}

/// Relies on x25519_dalek's `PublicKey::from(&StaticSecret)`: the public
/// point of a private scalar.
#[verifier::external_body]
fn x25519_public(secret: &[u8; 32]) -> (r: [u8; 32])
    ensures
        r@ == x25519_public_of(secret@),
{
    DalekPublic::from(&StaticSecret::from(*secret)).to_bytes()
}

/// Relies on x25519_dalek's `StaticSecret::diffie_hellman`: each side of an
/// exchange, holding its own scalar and the other's public point, computes
/// the same point, as the crate's documentation shows.
#[verifier::external_body]
fn x25519_agree(secret: &[u8; 32], peer: &[u8; 32]) -> (r: [u8; 32])
    ensures
        r@ == x25519_shared(secret@, peer@),
        forall|other: Seq<u8>|
            other.len() == POINT_LEN && #[trigger] x25519_public_of(other) == peer@ ==> r@
                == x25519_shared(other, x25519_public_of(secret@)),
{
    StaticSecret::from(*secret).diffie_hellman(&DalekPublic::from(*peer)).to_bytes()
}

/// An HKDF output length, as ring asks for one.
pub struct OkmLen(usize);

impl hkdf::KeyType for OkmLen {
    fn len(&self) -> usize {
        self.0
    }
}

/// Relies on ring's `hkdf::Salt::extract`, then `Prk::expand` with
/// `HKDF_SHA256` and empty info, then `Okm::fill`; ring documents that
/// expansion fails only for more than 255 blocks of 32 bytes.
#[verifier::external_body]
fn hkdf_sha256(salt: &[u8], ikm: &[u8], len: usize) -> (r: Vec<u8>)
    requires
        len <= MAX_DERIVED_LEN,
    ensures
        r@ == hkdf_sha256_output(salt@, ikm@, len as nat),
        r@.len() == len,
{
    let prk = hkdf::Salt::new(hkdf::HKDF_SHA256, salt).extract(ikm);
    let mut out = vec![0u8; len];
    let okm = prk.expand(&[], OkmLen(len)).expect("at most 255 blocks");
    okm.fill(&mut out).expect("the buffer has the requested length");
    out
}

/// `len` bytes derived from the agreement of `secret` with `peer`.
fn derive(secret: &[u8; 32], peer: &[u8; 32], len: usize) -> (r: Secret)
    requires
        len <= MAX_DERIVED_LEN,
    ensures
        r@ == shared_secret(secret@, peer@, len as nat),
        r@.len() == len,
        forall|other: Seq<u8>|
            other.len() == POINT_LEN && #[trigger] x25519_public_of(other) == peer@ ==> r@
                == shared_secret(other, x25519_public_of(secret@), len as nat),
{
    let salt: Vec<u8> = vec![0x4cu8, 0x6fu8, 0x72u8, 0x65u8, 0x6eu8, 0x7au8];
    assert(salt@ =~= kdf_salt());
    let mut point = x25519_agree(secret, peer);
    let out = Secret::from_vec(hkdf_sha256(salt.as_slice(), point.as_slice(), len));
    wipe_array(&mut point);
    out
}

/// A public point, as the 32 bytes that carry it.
#[derive(Clone, Copy, Debug)]
pub struct PublicKey {
    bytes: [u8; 32],
}

impl View for PublicKey {
    type V = Seq<u8>;

    closed spec fn view(&self) -> Seq<u8> {
        self.bytes@
    }
}

impl PublicKey {
    /// The point carried by `bytes`.
    pub fn from_bytes(bytes: [u8; 32]) -> (r: PublicKey)
        ensures
            r@ == bytes@,
    {
        PublicKey { bytes }
    }

    /// The bytes of the point.
    pub fn as_bytes(&self) -> (r: &[u8; 32])
        ensures
            r@ == self@,
            r@.len() == POINT_LEN,
    {
        &self.bytes
    }

    /// The point as 64 lower-case hexadecimal characters.
    pub fn to_hex(&self) -> (r: String)
        ensures
            r@ == hex_encoded(self@),
    {
        encode_hex(self.bytes.as_slice())
    }

    /// Reads a point from 64 hexadecimal characters, optionally after `0x`.
    pub fn from_hex(hex: &str) -> (r: Result<PublicKey, Error>)
        ensures
            match r {
                Ok(k) => key_from_hex(hex.spec_bytes()) == Some(k@),
                Err(e) => key_from_hex(hex.spec_bytes()) is None && e == Error::BadKey,
            },
    {
        match parse_hex32(hex) {
            Ok(bytes) => Ok(PublicKey::from_bytes(bytes)),
            Err(_) => Err(Error::BadKey),
        }
    }
}

/// The single-use key pair of one encryption; wiped when dropped.
pub struct EphemeralKey {
    secret: [u8; 32],
}

impl View for EphemeralKey {
    type V = Seq<u8>;

    closed spec fn view(&self) -> Seq<u8> {
        self.secret@
    }
}

impl EphemeralKey {
    /// A fresh scalar from the operating system's generator.
    pub fn new() -> (r: Result<EphemeralKey, Error>)
        ensures
            r is Ok ==> r->Ok_0@.len() == POINT_LEN,
            r is Err ==> r->Err_0 == Error::RandomGenerationFailed,
    {
        match os_random_32() {
            Ok(secret) => Ok(EphemeralKey { secret }),
            Err(_) => Err(Error::RandomGenerationFailed),
        }
    }

    /// The key whose scalar is `bytes`.
    pub fn from_bytes(bytes: [u8; 32]) -> (r: EphemeralKey)
        ensures
            r@ == bytes@,
    {
        EphemeralKey { secret: bytes }
    }

    /// `len` bytes agreed with the holder of `other`'s private scalar.
    pub fn derive_secret(&self, other: &PublicKey, len: usize) -> (r: Secret)
        requires
            len <= MAX_DERIVED_LEN,
        ensures
            r@ == shared_secret(self@, other@, len as nat),
            r@.len() == len,
            forall|s: Seq<u8>|
                s.len() == POINT_LEN && #[trigger] x25519_public_of(s) == other@ ==> r@
                    == shared_secret(s, x25519_public_of(self@), len as nat),
    {
        derive(&self.secret, &other.bytes, len)
    }

    /// The public point of the key.
    pub fn get_public(&self) -> (r: PublicKey)
        ensures
            r@ == x25519_public_of(self@),
    {
        PublicKey { bytes: x25519_public(&self.secret) }
    }
}

impl From<[u8; 32]> for EphemeralKey {
    fn from(bytes: [u8; 32]) -> (r: EphemeralKey) {
        EphemeralKey { secret: bytes }
    }
}

impl vstd::std_specs::convert::FromSpecImpl<[u8; 32]> for EphemeralKey {
    open spec fn obeys_from_spec() -> bool {
        true
    }

    closed spec fn from_spec(v: [u8; 32]) -> EphemeralKey {
        EphemeralKey { secret: v }
    }
}

impl Drop for EphemeralKey {
    fn drop(&mut self)
        ensures
            final(self)@ == Seq::new(32, |_i: int| 0u8),
        opens_invariants none
        no_unwind
    {
        wipe_array(&mut self.secret);
    }
}

/// A recipient's long-lived private key; wiped when dropped.
pub struct UserSecretKey {
    secret: [u8; 32],
}

impl View for UserSecretKey {
    type V = Seq<u8>;

    closed spec fn view(&self) -> Seq<u8> {
        self.secret@
    }
}

impl UserSecretKey {
    /// A fresh scalar from the operating system's generator.
    pub fn new() -> (r: Result<UserSecretKey, Error>)
        ensures
            r is Ok ==> r->Ok_0@.len() == POINT_LEN,
            r is Err ==> r->Err_0 == Error::RandomGenerationFailed,
    {
        match os_random_32() {
            Ok(secret) => Ok(UserSecretKey { secret }),
            Err(_) => Err(Error::RandomGenerationFailed),
        }
    }

    /// The key whose scalar is `bytes`.
    pub fn from_bytes(bytes: [u8; 32]) -> (r: UserSecretKey)
        ensures
            r@ == bytes@,
    {
        UserSecretKey { secret: bytes }
    }

    /// Reads a key from 64 hexadecimal characters, optionally after `0x`.
    pub fn from_hex(hex: &str) -> (r: Result<UserSecretKey, Error>)
        ensures
            match r {
                Ok(k) => key_from_hex(hex.spec_bytes()) == Some(k@),
                Err(e) => key_from_hex(hex.spec_bytes()) is None && (e == Error::BadKeyLength
                    || e == Error::BadKey),
            },
    {
        match secret_parse_hex32(hex) {
            Ok(bytes) => Ok(UserSecretKey { secret: array32(bytes.as_bytes()) }),
            Err(e) => Err(e),
        }
    }

    /// The scalar as 64 lower-case hexadecimal characters, for the holder to
    /// store; the caller should wipe the text when done with it.
    pub fn to_hex(&self) -> (r: String)
        ensures
            r@ == hex_encoded(self@),
    {
        encode_hex(self.secret.as_slice())
    }

    /// A copy of the scalar, for the holder to store.
    pub fn to_bytes(&self) -> (r: [u8; 32])
        ensures
            r@ == self@,
    {
        self.secret
    }

    /// `len` bytes agreed with the holder of `other`'s private scalar.
    pub fn derive_secret(&self, other: &PublicKey, len: usize) -> (r: Secret)
        requires
            len <= MAX_DERIVED_LEN,
        ensures
            r@ == shared_secret(self@, other@, len as nat),
            r@.len() == len,
            forall|s: Seq<u8>|
                s.len() == POINT_LEN && #[trigger] x25519_public_of(s) == other@ ==> r@
                    == shared_secret(s, x25519_public_of(self@), len as nat),
    {
        derive(&self.secret, &other.bytes, len)
    }

    /// The public point of the key.
    pub fn get_public(&self) -> (r: PublicKey)
        ensures
            r@ == x25519_public_of(self@),
    {
        PublicKey { bytes: x25519_public(&self.secret) }
    }
}

/// An ephemeral key always holds a full scalar.
pub proof fn lemma_ephemeral_key_len(key: &EphemeralKey)
    ensures
        key@.len() == POINT_LEN,
{
}

/// A private key always holds a full scalar.
pub proof fn lemma_user_key_len(key: &UserSecretKey)
    ensures
        key@.len() == POINT_LEN,
{
}

impl std::str::FromStr for UserSecretKey {
    type Err = Error;

    fn from_str(hex: &str) -> (r: Result<UserSecretKey, Error>) {
        UserSecretKey::from_hex(hex)
    }
}

impl Drop for UserSecretKey {
    fn drop(&mut self)
        ensures
            final(self)@ == Seq::new(32, |_i: int| 0u8),
        opens_invariants none
        no_unwind
    {
        wipe_array(&mut self.secret);
    }
}

/// Reads a private scalar from 64 hexadecimal characters, optionally after
/// `0x`, into a buffer that is wiped when dropped.
pub fn secret_parse_hex32(hex: &str) -> (r: Result<Secret, Error>)
    ensures
        match r {
            Ok(s) => key_from_hex(hex.spec_bytes()) == Some(s@),
            Err(e) => key_from_hex(hex.spec_bytes()) is None,
        },
        r is Err ==> (r->Err_0 == Error::BadKeyLength <==> without_prefix(hex.spec_bytes()).len()
            != 64),
        r is Err ==> (r->Err_0 == Error::BadKeyLength || r->Err_0 == Error::BadKey),
{
    let body = strip_prefix(hex);
    if body.as_bytes().len() != 64 {
        return Err(Error::BadKeyLength);
    }
    let decoded = match decode_hex(body) {
        Ok(v) => Secret::from_vec(v),
        Err(e) => return Err(Error::bad_key(e)),
    };
    if decoded.len() != 32 {
        return Err(Error::BadKey);
    }
    Ok(decoded)
}

} // verus!
