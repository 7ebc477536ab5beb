use resolution_protocol::encodings::Base64;
use resolution_protocol::envelope::Envelope;
use resolution_protocol::keys::{encrypt_then_decrypt, SharedSecret, SymmetricKey};
use resolution_protocol::records::SymmetricRecord;
use resolution_protocol::Error;

#[test]
fn encrypt_decrypt_round_trip() {
    let key = SymmetricKey::generate();
    let plaintext: Vec<u8> = b"hello".to_vec();
    let envelope = key.encrypt(&plaintext).unwrap();
    assert_eq!(key.decrypt(&envelope).unwrap(), plaintext);
}

#[test]
fn encrypt_decrypt_empty_plaintext() {
    let key = SymmetricKey::generate();
    let plaintext: Vec<u8> = Vec::new();
    let envelope = key.encrypt(&plaintext).unwrap();
    assert_eq!(key.decrypt(&envelope).unwrap(), plaintext);
}

#[test]
fn encrypt_decrypt_large_plaintext() {
    let key = SymmetricKey::generate();
    let plaintext: Vec<u8> = (0..10_000).map(|i| (i % 251) as u8).collect();
    let envelope = key.encrypt(&plaintext).unwrap();
    assert_eq!(key.decrypt(&envelope).unwrap(), plaintext);
}

#[test]
fn round_trip_law_function() {
    let key = SymmetricKey::generate();
    let plaintext: Vec<u8> = b"law".to_vec();
    assert_eq!(encrypt_then_decrypt(&key, &plaintext).unwrap(), plaintext);
}

#[test]
fn fresh_nonce_on_every_call() {
    // Encrypting the same plaintext twice must give different nonces and
    // different ciphertexts.
    let key = SymmetricKey::generate();
    let plaintext: Vec<u8> = b"repeat".to_vec();
    let first = key.encrypt(&plaintext).unwrap();
    let second = key.encrypt(&plaintext).unwrap();
    assert_ne!(first.as_bytes(), second.as_bytes());

    let first_record = first.decode().unwrap();
    let second_record = second.decode().unwrap();
    assert_ne!(first_record.nonce, second_record.nonce);
    assert_ne!(first_record.sym_ct, second_record.sym_ct);
}

#[test]
fn decrypt_with_wrong_key_fails() {
    let key = SymmetricKey::generate();
    let other = SymmetricKey::generate();
    let envelope = key.encrypt(&b"secret".to_vec()).unwrap();
    assert_eq!(other.decrypt(&envelope), Err(Error::AuthenticationError));
}

#[test]
fn tamper_detection_every_bit() {
    // Flipping any single bit of the envelope (nonce or ciphertext) must
    // make decryption fail, never return altered plaintext.
    let key = SymmetricKey::generate();
    let envelope = key.encrypt(&b"tamper me".to_vec()).unwrap();
    let bytes = envelope.as_bytes().clone();
    for byte_index in 0..bytes.len() {
        for bit in 0..8 {
            let mut mutated = bytes.clone();
            mutated[byte_index] ^= 1u8 << bit;
            let reparsed = Envelope::<SymmetricRecord>::from_untrusted_bytes(mutated).unwrap();
            assert_eq!(key.decrypt(&reparsed), Err(Error::AuthenticationError));
        }
    }
}

fn from_bytes_err(bytes: Vec<u8>) -> Error {
    match SharedSecret::from_bytes(bytes) {
        Ok(_) => panic!("expected the construction to fail"),
        Err(e) => e,
    }
}

#[test]
fn shared_secret_length_is_validated() {
    assert_eq!(
        from_bytes_err(vec![0; 31]),
        Error::BadLength { expected: 32, got: 31 }
    );
    assert_eq!(
        from_bytes_err(vec![0; 33]),
        Error::BadLength { expected: 32, got: 33 }
    );
    match SharedSecret::from_bytes(vec![0; 32]) {
        Ok(ok) => assert_eq!(ok.as_bytes().len(), 32),
        Err(_) => panic!("32 bytes must be accepted"),
    }
}

#[test]
fn shared_secret_generate_is_32_bytes_and_fresh() {
    let first = SharedSecret::generate();
    let second = SharedSecret::generate();
    assert_eq!(first.as_bytes().len(), 32);
    assert_ne!(first.as_bytes(), second.as_bytes());
}

#[test]
fn shared_secret_converts_to_symmetric_key() {
    let secret = SharedSecret::from_bytes(vec![7; 32]).unwrap();
    let twin = SharedSecret::from_bytes(vec![7; 32]).unwrap();
    let key = secret.into_symmetric_key();
    let same_key = twin.into_symmetric_key();
    let envelope = key.encrypt(&b"derived".to_vec()).unwrap();
    assert_eq!(same_key.decrypt(&envelope).unwrap(), b"derived".to_vec());
}

#[test]
fn key_exports_and_reimports_through_base64() {
    let key = SymmetricKey::generate();
    let text = key.to_base64();
    let reimported = SymmetricKey::from_base64(&text).unwrap();
    let envelope = key.encrypt(&b"textual boundary".to_vec()).unwrap();
    assert_eq!(
        reimported.decrypt(&envelope).unwrap(),
        b"textual boundary".to_vec()
    );
}

#[test]
fn key_import_rejects_bad_text_and_bad_length() {
    let not_base64 = Base64::from_string(String::from("!!!"));
    assert!(matches!(
        SymmetricKey::from_base64(&not_base64),
        Err(Error::Base64DecodingError)
    ));

    let three_bytes = Base64::new(&vec![1, 2, 3]);
    assert!(matches!(
        SymmetricKey::from_base64(&three_bytes),
        Err(Error::BadLength { expected: 32, got: 3 })
    ));
}
