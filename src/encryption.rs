//! The authenticated symmetric layer: a blob is `ciphertext ‖ tag ‖ nonce`.
use crate::error::Error;
use ring::aead::{Aad, LessSafeKey, Nonce, UnboundKey, AES_256_GCM, CHACHA20_POLY1305};
use ring::error::Unspecified;
use ring::rand::{SecureRandom, SystemRandom};
use vstd::prelude::*;
use vstd::string::StringSliceAdditionalSpecFns;
use vstd::utf8::encode_utf8;

verus! {

/// Length of a symmetric key, for both schemes.
pub const KEY_LEN: usize = 32;

/// Length of an authentication tag, for both schemes.
pub const TAG_LEN: usize = 16;

/// Length of a nonce, for both schemes.
pub const NONCE_LEN: usize = 12;

/// Bytes a blob holds beyond its plaintext: the tag and the nonce.
pub const BLOB_OVERHEAD: usize = 28;

/// Longest input AES-256-GCM seals under one nonce: 2^32 - 2 blocks of 16 bytes.
pub const AES_256_GCM_MAX_INPUT: u64 = 68719476704;

/// Longest input ChaCha20-Poly1305 seals under one nonce: 2^32 - 1 blocks of 64 bytes.
pub const CHACHA20_POLY1305_MAX_INPUT: u64 = 274877906880;

#[verifier::external_type_specification]
#[verifier::external_body]
pub struct ExUnspecified(Unspecified);

/// The two AEAD schemes; sender and recipients agree on one out of band.
#[derive(Debug, Clone, Copy, PartialEq, Eq, Structural)]
pub enum Scheme {
    AES256GCM,
    Chacha20Poly1305,
}

/// What AES-256-GCM under `key` and `nonce` makes of `plaintext`, with an empty
/// associated data: the ciphertext followed by the tag.
pub uninterp spec fn aes_256_gcm_sealed(key: Seq<u8>, nonce: Seq<u8>, plaintext: Seq<u8>) -> Seq<u8>;

/// What opening `sealed` with AES-256-GCM under `key` and `nonce` gives:
/// the plaintext, or `None` where the tag does not verify.
pub uninterp spec fn aes_256_gcm_opened(key: Seq<u8>, nonce: Seq<u8>, sealed: Seq<u8>) -> Option<Seq<u8>>;

/// What ChaCha20-Poly1305 under `key` and `nonce` makes of `plaintext`.
pub uninterp spec fn chacha20_poly1305_sealed(key: Seq<u8>, nonce: Seq<u8>, plaintext: Seq<u8>) -> Seq<u8>;

/// What opening `sealed` with ChaCha20-Poly1305 under `key` and `nonce` gives.
pub uninterp spec fn chacha20_poly1305_opened(key: Seq<u8>, nonce: Seq<u8>, sealed: Seq<u8>) -> Option<Seq<u8>>;

/// Ciphertext and tag of `plaintext` under the scheme.
pub open spec fn sealed(scheme: Scheme, key: Seq<u8>, nonce: Seq<u8>, plaintext: Seq<u8>) -> Seq<u8> {
    match scheme {
        Scheme::AES256GCM => aes_256_gcm_sealed(key, nonce, plaintext),
        Scheme::Chacha20Poly1305 => chacha20_poly1305_sealed(key, nonce, plaintext),
    }
}

/// The plaintext that `sealed` authenticates to under the scheme, if any.
pub open spec fn opened(scheme: Scheme, key: Seq<u8>, nonce: Seq<u8>, sealed: Seq<u8>) -> Option<Seq<u8>> {
    match scheme {
        Scheme::AES256GCM => aes_256_gcm_opened(key, nonce, sealed),
        Scheme::Chacha20Poly1305 => chacha20_poly1305_opened(key, nonce, sealed),
    }
}

/// Longest plaintext the scheme seals.
pub open spec fn max_input(scheme: Scheme) -> nat {
    match scheme {
        Scheme::AES256GCM => AES_256_GCM_MAX_INPUT as nat,
        Scheme::Chacha20Poly1305 => CHACHA20_POLY1305_MAX_INPUT as nat,
    }
}

/// The trailing nonce of a blob.
pub open spec fn blob_nonce(blob: Seq<u8>) -> Seq<u8> {
    blob.subrange(blob.len() - NONCE_LEN, blob.len() as int)
}

/// A blob without its trailing nonce: ciphertext and tag.
pub open spec fn blob_sealed(blob: Seq<u8>) -> Seq<u8> {
    blob.subrange(0, blob.len() - NONCE_LEN)
}

/// `blob` is `plaintext` sealed under `key`, followed by the nonce used.
pub open spec fn is_blob_of(scheme: Scheme, key: Seq<u8>, plaintext: Seq<u8>, blob: Seq<u8>) -> bool {
    &&& blob.len() == plaintext.len() + BLOB_OVERHEAD
    &&& blob_sealed(blob) == sealed(scheme, key, blob_nonce(blob), plaintext)
}

/// What decrypting `blob` under `key` gives.
pub open spec fn decryption(scheme: Scheme, key: Seq<u8>, blob: Seq<u8>) -> Result<Seq<u8>, Error> {
    if key.len() != KEY_LEN {
        Err(Error::BadKeyLength)
    } else if blob.len() < BLOB_OVERHEAD {
        Err(Error::MalformedBlob)
    } else {
        match opened(scheme, key, blob_nonce(blob), blob_sealed(blob)) {
            Some(p) => Ok(p),
            None => Err(Error::DecryptionFailed),
        }
    }
}

/// The bytes of a byte-vector result.
pub open spec fn bytes_of(r: Result<Vec<u8>, Error>) -> Result<Seq<u8>, Error> {
    match r {
        Ok(v) => Ok(v@),
        Err(e) => Err(e),
    }
}

impl Scheme {
    /// Key length of the scheme.
    pub fn key_len(self) -> (r: usize)
        ensures
            r == KEY_LEN,
    {
        KEY_LEN
    }

    /// Tag length of the scheme.
    pub fn tag_len(self) -> (r: usize)
        ensures
            r == TAG_LEN,
    {
        TAG_LEN
    }

    /// Nonce length of the scheme.
    pub fn nonce_len(self) -> (r: usize)
        ensures
            r == NONCE_LEN,
    {
        NONCE_LEN
    }

    /// Size of a file key once wrapped: key, tag and nonce (60 bytes).
    pub fn get_encrypted_key_size(self) -> (r: usize)
        ensures
            r == KEY_LEN + TAG_LEN + NONCE_LEN,
            r == 60,
    {
        self.key_len() + self.tag_len() + self.nonce_len()
    }
}

/// The lower-case form of `s`, as Unicode defines it.
pub uninterp spec fn lowercase_of(s: Seq<char>) -> Seq<char>;

/// Relies on std's `str::to_lowercase`: the result depends on the characters
/// alone.
#[verifier::external_body]
fn to_lowercase(s: &str) -> (r: String)
    ensures
        r@ == lowercase_of(s@),
{
    s.to_lowercase()
}

/// The scheme a lower-case name selects: "aes" or "aes256" for AES-256-GCM;
/// "chacha", "chacha20" or "chacha20poly1305" for ChaCha20-Poly1305.
pub open spec fn scheme_named(name: Seq<u8>) -> Option<Scheme> {
    if name == seq![0x61u8, 0x65, 0x73] || name == seq![0x61u8, 0x65, 0x73, 0x32, 0x35, 0x36] {
        Some(Scheme::AES256GCM)
    } else if name == seq![0x63u8, 0x68, 0x61, 0x63, 0x68, 0x61] || name == seq![
        0x63u8,
        0x68,
        0x61,
        0x63,
        0x68,
        0x61,
        0x32,
        0x30,
    ] || name == seq![
        0x63u8,
        0x68,
        0x61,
        0x63,
        0x68,
        0x61,
        0x32,
        0x30,
        0x70,
        0x6f,
        0x6c,
        0x79,
        0x31,
        0x33,
        0x30,
        0x35,
    ] {
        Some(Scheme::Chacha20Poly1305)
    } else {
        None
    }
}

/// Whether two byte strings are equal.
fn bytes_equal(a: &[u8], b: &[u8]) -> (r: bool)
    ensures
        r == (a@ == b@),
{
    if a.len() != b.len() {
        return false;
    }
    let mut i: usize = 0;
    while i < a.len()
        invariant
            0 <= i <= a@.len(),
            a@.len() == b@.len(),
            forall|j: int| 0 <= j < i ==> a@[j] == b@[j],
        decreases a@.len() - i,
    {
        if a[i] != b[i] {
            return false;
        }
        i = i + 1;
    }
    assert(a@ =~= b@);
    true
}

impl Scheme {
    /// The scheme that a name already in lower case selects.
    pub fn from_lowercase_name(name: &str) -> (r: Option<Scheme>)
        ensures
            r == scheme_named(name.spec_bytes()),
    {
        let name = name.as_bytes();
        let aes: Vec<u8> = vec![0x61u8, 0x65, 0x73];
        let aes256: Vec<u8> = vec![0x61u8, 0x65, 0x73, 0x32, 0x35, 0x36];
        let chacha: Vec<u8> = vec![0x63u8, 0x68, 0x61, 0x63, 0x68, 0x61];
        let chacha20: Vec<u8> = vec![0x63u8, 0x68, 0x61, 0x63, 0x68, 0x61, 0x32, 0x30];
        let chacha20poly1305: Vec<u8> = vec![
            0x63u8,
            0x68,
            0x61,
            0x63,
            0x68,
            0x61,
            0x32,
            0x30,
            0x70,
            0x6f,
            0x6c,
            0x79,
            0x31,
            0x33,
            0x30,
            0x35,
        ];
        if bytes_equal(name, aes.as_slice()) || bytes_equal(name, aes256.as_slice()) {
            Some(Scheme::AES256GCM)
        } else if bytes_equal(name, chacha.as_slice()) || bytes_equal(name, chacha20.as_slice())
            || bytes_equal(name, chacha20poly1305.as_slice()) {
            Some(Scheme::Chacha20Poly1305)
        } else {
            None
        }
    }

    /// The scheme a name selects, in any case ("AES", "ChaCha20", ...).
    pub fn from_name(mode: &str) -> (r: Option<Scheme>)
        ensures
            r == scheme_named(encode_utf8(lowercase_of(mode@))),
    {
        let lowered = to_lowercase(mode);
        Scheme::from_lowercase_name(lowered.as_str())
    }
}

/// Relies on ring's `SystemRandom::fill`: fills a nonce from the operating
/// system's generator, or reports that it could not.
#[verifier::external_body]
fn random_nonce() -> (r: Result<[u8; 12], Unspecified>) {
    let mut nonce = [0u8; 12];
    SystemRandom::new().fill(&mut nonce)?;
    Ok(nonce)
}

/// Relies on ring's `LessSafeKey::seal_in_place_append_tag` with `AES_256_GCM`:
/// the tag is appended to the ciphertext, and opening it gives the plaintext
/// back. It fails only where `UnboundKey::new` rejects the key length,
/// `Nonce::try_assume_unique_for_key` the nonce length, or the GCM context an
/// input above its limit.
#[verifier::external_body]
fn seal_aes_256_gcm(key: &[u8], nonce: &[u8], data: Vec<u8>) -> (r: Result<Vec<u8>, Unspecified>)
    ensures
        r is Ok ==> r->Ok_0@ == aes_256_gcm_sealed(key@, nonce@, data@),
        r is Ok ==> r->Ok_0@.len() == data@.len() + TAG_LEN,
        r is Ok ==> aes_256_gcm_opened(key@, nonce@, r->Ok_0@) == Some(data@),
        r is Ok <==> (key@.len() == KEY_LEN && nonce@.len() == NONCE_LEN && data@.len() <= AES_256_GCM_MAX_INPUT),
{
    let key = LessSafeKey::new(UnboundKey::new(&AES_256_GCM, key)?);
    let nonce = Nonce::try_assume_unique_for_key(nonce)?;
    let mut data = data;
    key.seal_in_place_append_tag(nonce, Aad::empty(), &mut data)?;
    Ok(data)
}

/// Relies on ring's `LessSafeKey::open_in_place` with `AES_256_GCM`: the
/// plaintext is the input without its tag, and only a verified tag gives one.
#[verifier::external_body]
fn open_aes_256_gcm(key: &[u8], nonce: &[u8], data: Vec<u8>) -> (r: Result<Vec<u8>, Unspecified>)
    ensures
        r is Ok <==> aes_256_gcm_opened(key@, nonce@, data@) is Some,
        r is Ok ==> aes_256_gcm_opened(key@, nonce@, data@) == Some(r->Ok_0@),
        r is Ok ==> r->Ok_0@.len() + TAG_LEN == data@.len(),
{
    let key = LessSafeKey::new(UnboundKey::new(&AES_256_GCM, key)?);
    let nonce = Nonce::try_assume_unique_for_key(nonce)?;
    let mut data = zeroize::Zeroizing::new(data);
    let plaintext = key.open_in_place(nonce, Aad::empty(), &mut data)?;
    Ok(plaintext.to_vec())
}

/// Relies on ring's `LessSafeKey::seal_in_place_append_tag` with
/// `CHACHA20_POLY1305`: as for AES-256-GCM; the input limit is the one that
/// `check_input_lengths` applies.
#[verifier::external_body]
fn seal_chacha20_poly1305(key: &[u8], nonce: &[u8], data: Vec<u8>) -> (r: Result<Vec<u8>, Unspecified>)
    ensures
        r is Ok ==> r->Ok_0@ == chacha20_poly1305_sealed(key@, nonce@, data@),
        r is Ok ==> r->Ok_0@.len() == data@.len() + TAG_LEN,
        r is Ok ==> chacha20_poly1305_opened(key@, nonce@, r->Ok_0@) == Some(data@),
        r is Ok <==> (key@.len() == KEY_LEN && nonce@.len() == NONCE_LEN && data@.len() <= CHACHA20_POLY1305_MAX_INPUT),
{
    let key = LessSafeKey::new(UnboundKey::new(&CHACHA20_POLY1305, key)?);
    let nonce = Nonce::try_assume_unique_for_key(nonce)?;
    let mut data = data;
    key.seal_in_place_append_tag(nonce, Aad::empty(), &mut data)?;
    Ok(data)
}

/// Relies on ring's `LessSafeKey::open_in_place` with `CHACHA20_POLY1305`: as
/// for AES-256-GCM.
#[verifier::external_body]
fn open_chacha20_poly1305(key: &[u8], nonce: &[u8], data: Vec<u8>) -> (r: Result<Vec<u8>, Unspecified>)
    ensures
        r is Ok <==> chacha20_poly1305_opened(key@, nonce@, data@) is Some,
        r is Ok ==> chacha20_poly1305_opened(key@, nonce@, data@) == Some(r->Ok_0@),
        r is Ok ==> r->Ok_0@.len() + TAG_LEN == data@.len(),
{
    let key = LessSafeKey::new(UnboundKey::new(&CHACHA20_POLY1305, key)?);
    let nonce = Nonce::try_assume_unique_for_key(nonce)?;
    let mut data = zeroize::Zeroizing::new(data);
    let plaintext = key.open_in_place(nonce, Aad::empty(), &mut data)?;
    Ok(plaintext.to_vec())
}

/// Seals under the scheme's algorithm.
fn seal(scheme: Scheme, key: &[u8], nonce: &[u8], data: Vec<u8>) -> (r: Result<Vec<u8>, Unspecified>)
    ensures
        r is Ok ==> r->Ok_0@ == sealed(scheme, key@, nonce@, data@),
        r is Ok ==> r->Ok_0@.len() == data@.len() + TAG_LEN,
        r is Ok ==> opened(scheme, key@, nonce@, r->Ok_0@) == Some(data@),
        r is Ok <==> (key@.len() == KEY_LEN && nonce@.len() == NONCE_LEN && data@.len() <= max_input(scheme)),
{
    match scheme {
        Scheme::AES256GCM => seal_aes_256_gcm(key, nonce, data),
        Scheme::Chacha20Poly1305 => seal_chacha20_poly1305(key, nonce, data),
    }
}

/// Opens under the scheme's algorithm.
fn open(scheme: Scheme, key: &[u8], nonce: &[u8], data: Vec<u8>) -> (r: Result<Vec<u8>, Unspecified>)
    ensures
        r is Ok <==> opened(scheme, key@, nonce@, data@) is Some,
        r is Ok ==> opened(scheme, key@, nonce@, data@) == Some(r->Ok_0@),
        r is Ok ==> r->Ok_0@.len() + TAG_LEN == data@.len(),
{
    match scheme {
        Scheme::AES256GCM => open_aes_256_gcm(key, nonce, data),
        Scheme::Chacha20Poly1305 => open_chacha20_poly1305(key, nonce, data),
    }
}

/// Seals `data` under `key` with a fresh random nonce, giving
/// `ciphertext ‖ tag ‖ nonce`, which decrypts back to `data`.
pub fn encrypt_data(key: &[u8], data: Vec<u8>, scheme: Scheme) -> (r: Result<Vec<u8>, Error>)
    ensures
        key@.len() != KEY_LEN ==> r == Err::<Vec<u8>, Error>(Error::BadKeyLength),
        key@.len() == KEY_LEN ==> match r {
            Ok(blob) => is_blob_of(scheme, key@, data@, blob@) && decryption(scheme, key@, blob@)
                == Ok::<Seq<u8>, Error>(data@),
            Err(e) => e == Error::RandomGenerationFailed || (e == Error::EncryptionFailed
                && data@.len() > max_input(scheme)),
        },
        data@.len() > max_input(scheme) ==> r is Err,
{
    if key.len() != scheme.key_len() {
        return Err(Error::BadKeyLength);
    }
    let nonce = match random_nonce() {
        Ok(n) => n,
        Err(_) => return Err(Error::RandomGenerationFailed),
    };
    let mut blob = match seal(scheme, key, nonce.as_slice(), data) {
        Ok(s) => s,
        Err(_) => return Err(Error::EncryptionFailed),
    };
    let ghost body = blob@;
    blob.extend_from_slice(nonce.as_slice());
    assert(blob_sealed(blob@) =~= body);
    assert(blob_nonce(blob@) =~= nonce@);
    Ok(blob)
}

/// Splits off the trailing nonce and opens the rest under `key`.
pub fn decrypt_data(key: &[u8], data: Vec<u8>, scheme: Scheme) -> (r: Result<Vec<u8>, Error>)
    ensures
        bytes_of(r) == decryption(scheme, key@, data@),
        r is Ok ==> r->Ok_0@.len() + BLOB_OVERHEAD == data@.len(),
{
    if key.len() != scheme.key_len() {
        return Err(Error::BadKeyLength);
    }
    if data.len() < BLOB_OVERHEAD {
        return Err(Error::MalformedBlob);
    }
    let mut data = data;
    let ghost blob = data@;
    let nonce = data.split_off(data.len() - scheme.nonce_len());
    assert(nonce@ =~= blob_nonce(blob));
    assert(data@ =~= blob_sealed(blob));
    match open(scheme, key, nonce.as_slice(), data) {
        Ok(p) => Ok(p),
        Err(_) => Err(Error::DecryptionFailed),
    }
}

} // verus!
