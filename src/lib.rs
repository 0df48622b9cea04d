//! Multi-recipient hybrid file encryption: X25519 key agreement, HKDF-derived
//! wrapping keys, AEAD-sealed file keys and a compact binary envelope.

pub mod encryption;
pub mod error;
pub mod hex;
pub mod logic;
pub mod secret;
pub mod x25519;

pub use encryption::Scheme;
pub use error::Error;
pub use logic::{decrypt_file_with_keys, encrypt_file_with_keys};
pub use secret::Secret;
pub use x25519::{EphemeralKey, PublicKey, UserSecretKey};
