use vstd::prelude::*;

verus! {

/// Every way an operation of this library can fail.
#[derive(Debug, Clone, Copy, PartialEq, Eq, Structural)]
pub enum Error {
    /// The operating system's random source reported an error.
    RandomGenerationFailed,
    /// A symmetric key did not have the scheme's key length.
    BadKeyLength,
    /// A public or private key could not be read.
    BadKey,
    /// An envelope is shorter than its header and declared slots require.
    MalformedEnvelope,
    /// A cipher blob is shorter than its tag and nonce.
    MalformedBlob,
    /// The AEAD refused to seal the input.
    EncryptionFailed,
    /// Authentication failed: wrong key, wrong scheme or altered bytes.
    DecryptionFailed,
    /// No wrapped-key slot of an envelope opened under the recipient's key.
    RecipientNotFound,
    /// More recipients were given than the one-byte count can hold.
    RecipientCountOverflow,
}

/// The text that describes an error to a person.
pub open spec fn message_of(e: Error) -> Seq<char> {
    match e {
        Error::RandomGenerationFailed => "Lorenz Error RNG: the system's random source failed"@,
        Error::BadKeyLength => "Lorenz Error: Key isn't the right length"@,
        Error::BadKey => "Lorenz Error: Couldn't read the key"@,
        Error::MalformedEnvelope => "Lorenz Error: The encrypted file is truncated or malformed"@,
        Error::MalformedBlob => "Lorenz Error: Encrypted data is too short"@,
        Error::EncryptionFailed => "Lorenz Error: Failed Encrypting data"@,
        Error::DecryptionFailed => "Lorenz Error: Failed Decrypting data"@,
        Error::RecipientNotFound => "Lorenz Error: Couldn't find the right key"@,
        Error::RecipientCountOverflow => "Lorenz Error: At most 255 recipients are supported"@,
    }
}

impl Error {
    /// The text that describes the error to a person.
    pub fn message(&self) -> (r: &'static str)
        ensures
            r@ == message_of(*self),
    {
        match self {
            Error::RandomGenerationFailed => "Lorenz Error RNG: the system's random source failed",
            Error::BadKeyLength => "Lorenz Error: Key isn't the right length",
            Error::BadKey => "Lorenz Error: Couldn't read the key",
            Error::MalformedEnvelope => "Lorenz Error: The encrypted file is truncated or malformed",
            Error::MalformedBlob => "Lorenz Error: Encrypted data is too short",
            Error::EncryptionFailed => "Lorenz Error: Failed Encrypting data",
            Error::DecryptionFailed => "Lorenz Error: Failed Decrypting data",
            Error::RecipientNotFound => "Lorenz Error: Couldn't find the right key",
            Error::RecipientCountOverflow => "Lorenz Error: At most 255 recipients are supported",
        }
    }

    /// Maps any error to `BadKeyLength` (for use with `map_err`).
    pub fn key_length<E>(_e: E) -> (r: Error)
        ensures
            r == Error::BadKeyLength,
    {
        Error::BadKeyLength
    }

    /// Maps any error to `BadKey` (for use with `map_err`).
    pub fn bad_key<E>(_e: E) -> (r: Error)
        ensures
            r == Error::BadKey,
    {
        Error::BadKey
    }
}

} // verus!
