use lorenz::encryption::{decrypt_data, encrypt_data};
use lorenz::{Error, Scheme, Secret};
use ring::aead::{Aad, LessSafeKey, Nonce, UnboundKey, AES_256_GCM, CHACHA20_POLY1305};

fn key() -> Vec<u8> {
    (0u8..32).collect()
}

#[test]
fn wrapped_key_size_is_sixty() {
    assert_eq!(Scheme::AES256GCM.get_encrypted_key_size(), 60);
    assert_eq!(Scheme::Chacha20Poly1305.get_encrypted_key_size(), 60);
    assert_eq!(Scheme::AES256GCM.key_len(), 32);
    assert_eq!(Scheme::Chacha20Poly1305.tag_len(), 16);
    assert_eq!(Scheme::Chacha20Poly1305.nonce_len(), 12);
}

#[test]
fn blob_is_plaintext_plus_tag_and_nonce() {
    for scheme in [Scheme::AES256GCM, Scheme::Chacha20Poly1305] {
        let blob = encrypt_data(&key(), b"hello world".to_vec(), scheme).unwrap();
        assert_eq!(blob.len(), 11 + 16 + 12);
        assert_ne!(&blob[..11], b"hello world");
        assert_eq!(decrypt_data(&key(), blob, scheme).unwrap(), b"hello world");
    }
}

#[test]
fn empty_plaintext_round_trips() {
    let blob = encrypt_data(&key(), Vec::new(), Scheme::AES256GCM).unwrap();
    assert_eq!(blob.len(), 28);
    assert_eq!(decrypt_data(&key(), blob, Scheme::AES256GCM).unwrap(), Vec::<u8>::new());
}

#[test]
fn blob_opens_with_ring_directly() {
    for (scheme, algorithm) in [(Scheme::AES256GCM, &AES_256_GCM), (Scheme::Chacha20Poly1305, &CHACHA20_POLY1305)] {
        let mut blob = encrypt_data(&key(), b"cross check".to_vec(), scheme).unwrap();
        let nonce = blob.split_off(blob.len() - 12);
        let opening = LessSafeKey::new(UnboundKey::new(algorithm, &key()).unwrap());
        let nonce = Nonce::try_assume_unique_for_key(&nonce).unwrap();
        let plain = opening.open_in_place(nonce, Aad::empty(), &mut blob).unwrap();
        assert_eq!(plain, b"cross check");
    }
}

#[test]
fn nonces_differ_between_calls() {
    let first = encrypt_data(&key(), b"same".to_vec(), Scheme::Chacha20Poly1305).unwrap();
    let second = encrypt_data(&key(), b"same".to_vec(), Scheme::Chacha20Poly1305).unwrap();
    assert_ne!(first[first.len() - 12..], second[second.len() - 12..]);
    assert_ne!(first, second);
}

#[test]
fn wrong_key_length_is_rejected() {
    assert_eq!(encrypt_data(&[0u8; 31], b"x".to_vec(), Scheme::AES256GCM), Err(Error::BadKeyLength));
    assert_eq!(decrypt_data(&[0u8; 33], vec![0u8; 40], Scheme::AES256GCM), Err(Error::BadKeyLength));
}

#[test]
fn short_blob_is_malformed() {
    assert_eq!(decrypt_data(&key(), vec![0u8; 27], Scheme::AES256GCM), Err(Error::MalformedBlob));
    assert_eq!(decrypt_data(&key(), Vec::new(), Scheme::Chacha20Poly1305), Err(Error::MalformedBlob));
}

#[test]
fn wrong_key_or_scheme_fails_authentication() {
    let blob = encrypt_data(&key(), b"guarded".to_vec(), Scheme::AES256GCM).unwrap();
    assert_eq!(decrypt_data(&[7u8; 32], blob.clone(), Scheme::AES256GCM), Err(Error::DecryptionFailed));
    assert_eq!(decrypt_data(&key(), blob.clone(), Scheme::Chacha20Poly1305), Err(Error::DecryptionFailed));
    let mut altered = blob;
    altered[0] ^= 1;
    assert_eq!(decrypt_data(&key(), altered, Scheme::AES256GCM), Err(Error::DecryptionFailed));
}

#[test]
fn scheme_names_in_any_case() {
    assert_eq!(Scheme::from_name("AES"), Some(Scheme::AES256GCM));
    assert_eq!(Scheme::from_name("aes256"), Some(Scheme::AES256GCM));
    assert_eq!(Scheme::from_name("ChaCha"), Some(Scheme::Chacha20Poly1305));
    assert_eq!(Scheme::from_name("CHACHA20"), Some(Scheme::Chacha20Poly1305));
    assert_eq!(Scheme::from_name("ChaCha20Poly1305"), Some(Scheme::Chacha20Poly1305));
    assert_eq!(Scheme::from_name("des"), None);
    assert_eq!(Scheme::from_name(""), None);
    assert_eq!(Scheme::from_lowercase_name("AES"), None);
    assert_eq!(Scheme::from_lowercase_name("aes"), Some(Scheme::AES256GCM));
}

#[test]
fn secret_keeps_its_bytes() {
    let s = Secret::from_vec(vec![1, 2, 3]);
    assert_eq!(s.as_bytes(), &[1, 2, 3]);
    assert_eq!(s.len(), 3);
    let copy = s.clone();
    assert_eq!(copy.as_bytes(), s.as_bytes());
    assert_eq!(s.into_vec(), vec![1, 2, 3]);
}

#[test]
fn generated_secrets_are_fresh() {
    let a = Secret::generate32().unwrap();
    let b = Secret::generate32().unwrap();
    assert_eq!(a.len(), 32);
    assert_eq!(b.len(), 32);
    assert_ne!(a.as_bytes(), b.as_bytes());
}

#[test]
fn error_mappers() {
    assert_eq!(Error::key_length("anything"), Error::BadKeyLength);
    assert_eq!(Error::bad_key(17u32), Error::BadKey);
}

#[test]
fn error_messages() {
    assert_eq!(Error::RecipientNotFound.message(), "Lorenz Error: Couldn't find the right key");
    assert_eq!(Error::BadKeyLength.message(), "Lorenz Error: Key isn't the right length");
    assert_eq!(Error::DecryptionFailed.message(), "Lorenz Error: Failed Decrypting data");
    assert_ne!(Error::MalformedEnvelope.message(), Error::MalformedBlob.message());
}
