use citadel::errors::Error;
use citadel::errors::MisuseError;
use citadel::validation::validate_buffer_size;
use citadel::validation::validate_ciphertext_min_size;
use citadel::validation::validate_key_size;
use citadel::validation::validate_nonce_size;
use citadel::validation::validate_not_empty;
use citadel::validation::validate_output_exact_size;
use citadel::validation::validate_output_size;
use citadel::validation::validate_public_key_size;
use citadel::validation::validate_secret_key_size;
use citadel::validation::validate_signature_size;

#[test]
fn validate_buffer_size_ok() {
    let buf = [0u8; 32];
    assert!(validate_buffer_size(&buf, 32, "test").is_ok());
}

#[test]
fn validate_buffer_size_err() {
    let buf = [0u8; 32];
    assert!(validate_buffer_size(&buf, 16, "test").is_err());
}

#[test]
fn validate_key_size_ok() {
    let key = [0u8; 32];
    assert!(validate_key_size::<32>(&key).is_ok());
}

#[test]
fn validate_key_size_err() {
    let key = [0u8; 16];
    assert!(validate_key_size::<32>(&key).is_err());
}

#[test]
fn validate_nonce_size_ok() {
    let nonce = [0u8; 12];
    assert!(validate_nonce_size::<12>(&nonce).is_ok());
}

#[test]
fn validate_ciphertext_min_size_ok() {
    let ct = [0u8; 32];
    assert!(validate_ciphertext_min_size(&ct, 16).is_ok());
    assert!(validate_ciphertext_min_size(&ct, 32).is_ok());
}

#[test]
fn validate_ciphertext_min_size_err() {
    let ct = [0u8; 15];
    assert!(validate_ciphertext_min_size(&ct, 16).is_err());
}

#[test]
fn validate_output_size_ok() {
    let out = [0u8; 100];
    assert!(validate_output_size(&out, 50).is_ok());
    assert!(validate_output_size(&out, 100).is_ok());
}

#[test]
fn validate_output_size_err() {
    let out = [0u8; 50];
    assert!(validate_output_size(&out, 100).is_err());
}

#[test]
fn validate_output_exact_size_ok() {
    let out = [0u8; 100];
    assert!(validate_output_exact_size(&out, 100).is_ok());
}

#[test]
fn validate_output_exact_size_err() {
    let out = [0u8; 100];
    assert!(validate_output_exact_size(&out, 99).is_err());
    assert!(validate_output_exact_size(&out, 101).is_err());
}

#[test]
fn validate_not_empty_ok() {
    let data = [0u8; 1];
    assert!(validate_not_empty(&data).is_ok());
}

#[test]
fn validate_not_empty_err() {
    let data = [];
    assert!(validate_not_empty(&data).is_err());
}

#[test]
fn validation_errors_name_the_constraint() {
    let short = [0u8; 3];
    assert_eq!(
        validate_key_size::<32>(&short),
        Err(Error::Misuse(MisuseError::InvalidKeyLength))
    );
    assert_eq!(
        validate_nonce_size::<12>(&short),
        Err(Error::Misuse(MisuseError::InvalidNonceLength))
    );
    assert_eq!(
        validate_public_key_size::<1568>(&short),
        Err(Error::Misuse(MisuseError::InvalidPublicKeyLength))
    );
    assert_eq!(
        validate_secret_key_size::<3168>(&short),
        Err(Error::Misuse(MisuseError::InvalidSecretKeyLength))
    );
    assert_eq!(
        validate_signature_size::<4627>(&short),
        Err(Error::Misuse(MisuseError::InvalidSignatureLength))
    );
    assert_eq!(
        validate_ciphertext_min_size(&short, 16),
        Err(Error::Misuse(MisuseError::InvalidCiphertextLength))
    );
    assert_eq!(
        validate_output_size(&short, 16),
        Err(Error::Misuse(MisuseError::InvalidPlaintextLength))
    );
    assert_eq!(
        validate_output_exact_size(&short, 16),
        Err(Error::Misuse(MisuseError::InvalidPlaintextLength))
    );
    assert_eq!(
        validate_buffer_size(&short, 16, "buffer"),
        Err(Error::Misuse(MisuseError::BufferTooSmall))
    );
    assert_eq!(
        validate_not_empty(&[]),
        Err(Error::Misuse(MisuseError::BufferTooSmall))
    );
}

#[test]
fn validate_public_and_secret_key_sizes_ok() {
    let pk = [0u8; 1568];
    assert!(validate_public_key_size::<1568>(&pk).is_ok());
    let sk = [0u8; 3168];
    assert!(validate_secret_key_size::<3168>(&sk).is_ok());
    let sig = [0u8; 4627];
    assert!(validate_signature_size::<4627>(&sig).is_ok());
}
