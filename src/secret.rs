//! Owned key material that is wiped when it goes out of scope.
use crate::error::Error;
use rand_os::rand_core::{Error as RandError, RngCore};
use rand_os::OsRng;
use vstd::prelude::*;
use zeroize::Zeroize;

verus! {

#[verifier::external_type_specification]
#[verifier::external_body]
pub struct ExRandError(RandError);

/// Relies on rand_os's `OsRng::try_fill_bytes`: 32 bytes from the operating
/// system's generator, or the error it reported.
#[verifier::external_body]
pub(crate) fn os_random_32() -> (r: Result<[u8; 32], RandError>) {
    let mut bytes = [0u8; 32];
    OsRng.try_fill_bytes(&mut bytes)?;
    Ok(bytes)
}

/// Relies on zeroize's `Zeroize` for `Vec<u8>`: the whole allocation is
/// overwritten with zeros by writes the compiler keeps, then the length is 0.
#[verifier::external_body]
fn wipe_vec(v: &mut Vec<u8>)
    ensures
        final(v)@.len() == 0,
    opens_invariants none
    no_unwind
{
    v.zeroize();
}

/// Relies on zeroize's `Zeroize` for `[u8; 32]`: every byte is overwritten
/// with zero by writes the compiler keeps.
#[verifier::external_body]
pub(crate) fn wipe_array(a: &mut [u8; 32])
    ensures
        final(a)@ == Seq::new(32, |_i: int| 0u8),
    opens_invariants none
    no_unwind
{
    a.zeroize();
}

/// A buffer of key material, owned by one holder and wiped when dropped.
pub struct Secret {
    bytes: Vec<u8>,
}

impl View for Secret {
    type V = Seq<u8>;

    closed spec fn view(&self) -> Seq<u8> {
        self.bytes@
    }
}

impl Secret {
    /// Takes ownership of bytes that were computed elsewhere.
    pub fn from_vec(vec: Vec<u8>) -> (r: Secret)
        ensures
            r@ == vec@,
    {
        Secret { bytes: vec }
    }

    /// 32 bytes from the operating system's generator.
    pub fn generate32() -> (r: Result<Secret, Error>)
        ensures
            r is Ok ==> r->Ok_0@.len() == 32,
            r is Err ==> r->Err_0 == Error::RandomGenerationFailed,
    {
        match os_random_32() {
            Ok(bytes) => {
                let mut bytes = bytes;
                let secret = Secret::from_vec(vstd::slice::slice_to_vec(bytes.as_slice()));
                wipe_array(&mut bytes);
                Ok(secret)
            },
            Err(_) => Err(Error::RandomGenerationFailed),
        }
    }

    /// Gives the bytes up without wiping them. Care is required: the caller
    /// owns unprotected key material from here on.
    pub fn into_vec(self) -> (r: Vec<u8>)
        ensures
            r@ == self@,
    {
        let mut s = self;
        let mut out: Vec<u8> = Vec::new();
        std::mem::swap(&mut out, &mut s.bytes);
        out
    }

    /// Read-only view of the bytes.
    pub fn as_bytes(&self) -> (r: &[u8])
        ensures
            r@ == self@,
    {
        self.bytes.as_slice()
    }

    /// Number of bytes held.
    pub fn len(&self) -> (r: usize)
        ensures
            r == self@.len(),
    {
        self.bytes.len()
    }
}

impl Clone for Secret {
    /// An explicit copy, which is wiped on its own when dropped.
    fn clone(&self) -> (r: Secret)
        ensures
            r@ == self@,
    {
        Secret { bytes: self.bytes.clone() }
    }
}

impl Drop for Secret {
    fn drop(&mut self)
        ensures
            final(self)@.len() == 0,
        opens_invariants none
        no_unwind
    {
        wipe_vec(&mut self.bytes);
    }
}

} // verus!
