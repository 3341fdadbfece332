use fhe_boundary::{
    decrypt, decrypt_value, encrypt, encrypt_value, provision_client_key, supports_encryption,
    Configuration, FheError,
};
use tfhe::prelude::FheEncrypt;

#[test]
fn round_trip_sample_value() {
    let config = Configuration::new();
    let key = provision_client_key(&config);
    let bytes = encrypt(200, &key);
    assert_eq!(decrypt(&bytes, &key), Ok(200));
}

#[test]
fn round_trip_boundary_values() {
    let config = Configuration::new();
    let key = provision_client_key(&config);
    let low = encrypt(0, &key);
    assert_eq!(decrypt(&low, &key), Ok(0));
    let high = encrypt(255, &key);
    assert_eq!(decrypt(&high, &key), Ok(255));
}

#[test]
fn round_trip_all_values() {
    let config = Configuration::new();
    let key = provision_client_key(&config);
    for v in 0..=255u8 {
        let bytes = encrypt(v, &key);
        assert_eq!(decrypt(&bytes, &key), Ok(v));
    }
}

#[test]
fn garbage_input_fails_decode() {
    assert_eq!(decrypt_value(b"not-a-ciphertext"), Err(FheError::Decode));
    let config = Configuration::new();
    let key = provision_client_key(&config);
    assert_eq!(decrypt(b"not-a-ciphertext", &key), Err(FheError::Decode));
    assert_eq!(decrypt(b"", &key), Err(FheError::Decode));
}

#[test]
fn independent_encryptions_differ() {
    assert_ne!(encrypt_value(5), encrypt_value(5));
    let config = Configuration::new();
    let key = provision_client_key(&config);
    assert_ne!(encrypt(5, &key), encrypt(5, &key));
}

#[test]
fn mismatched_key_fails_or_mismatches() {
    let config = Configuration::new();
    let k1 = provision_client_key(&config);
    let k2 = provision_client_key(&config);
    let mut all_match = true;
    for v in [3u8, 77, 150, 201] {
        let bytes = encrypt(v, &k1);
        if decrypt(&bytes, &k2) != Ok(v) {
            all_match = false;
        }
    }
    assert!(!all_match);
}

#[test]
fn boundary_calls_never_share_keys() {
    // The serialized bytes are well formed, so decryption under the fresh,
    // unrelated key must not fail with a decode error; the recovered value
    // carries no guarantee. With four values, all four matching by chance is
    // all but impossible, so a silent pass-through of the plaintext would be
    // caught here.
    let mut hits: usize = 0;
    for v in [13u8, 99, 170, 233] {
        let bytes = encrypt_value(v);
        let r = decrypt_value(&bytes);
        assert_ne!(r, Err(FheError::Decode));
        if r == Ok(v) {
            hits += 1;
        }
    }
    assert!(hits < 4);
}

#[test]
fn decode_is_idempotent() {
    let config = Configuration::new();
    let key = provision_client_key(&config);
    let bytes = encrypt(42, &key);
    let first = decrypt(&bytes, &key);
    let second = decrypt(&bytes, &key);
    assert_eq!(first, second);
    assert_eq!(first, Ok(42));
}

#[test]
fn keys_without_pbs_parameters_are_rejected() {
    // A key assembled from raw parts around a wopbs-only parameter set has no
    // PBS parameters; encryption is not offered for it, and decryption under
    // it must report an error, never abort.
    let shortint_key = tfhe::shortint::ClientKey::new(
        tfhe::shortint::parameters::WOPBS_PARAM_MESSAGE_2_CARRY_2_KS_PBS,
    );
    let integer_key = tfhe::integer::ClientKey::from_raw_parts(shortint_key);
    let wopbs_key =
        tfhe::ClientKey::from_raw_parts(integer_key, None, None, tfhe::Tag::default());
    assert!(!supports_encryption(&wopbs_key));

    let config = Configuration::new();
    let key = provision_client_key(&config);
    assert!(supports_encryption(&key));
    let bytes = encrypt(58, &key);
    assert_eq!(decrypt(&bytes, &wopbs_key), Err(FheError::Crypto));
    assert_eq!(decrypt(b"not-a-ciphertext", &wopbs_key), Err(FheError::Decode));
}

#[test]
fn incompatible_parameters_fail_crypto() {
    let mismatched_config = tfhe::ConfigBuilder::with_custom_parameters(
        tfhe::shortint::parameters::PARAM_MESSAGE_1_CARRY_1_KS_PBS,
    )
    .build();
    let mismatched_key = tfhe::ClientKey::generate(mismatched_config);
    let ct = tfhe::FheUint8::encrypt(9u8, &mismatched_key);
    let bytes = bincode::serialize(&ct).unwrap();

    let config = Configuration::new();
    let key = provision_client_key(&config);
    assert_eq!(decrypt(&bytes, &key), Err(FheError::Crypto));
    assert_eq!(decrypt_value(&bytes), Err(FheError::Crypto));
}
