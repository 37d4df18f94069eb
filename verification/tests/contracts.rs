use citadel::contracts::AeadCipher;
use citadel::contracts::HashContext;
use citadel::contracts::HashFunction;
use citadel::contracts::KeyEncapsulation;
use citadel::contracts::SignatureScheme;
use citadel::errors::CryptoError;
use citadel::errors::Error;
use citadel::errors::MisuseError;
use citadel::memory::constant_time_eq;
use citadel::validation::validate_secret_key_size;

// Mock implementations: enough to exercise the contract surfaces from
// outside the library.  The hash, KEM and signature mocks only need to
// exist; the AEAD mock actually seals and opens so the decryption-failure
// scenario can run.

struct MockHash;

struct MockHashContext;

impl HashContext<48> for MockHashContext {
    fn update(&mut self, _data: &[u8]) {
        panic!("mock")
    }

    fn finalize(self) -> [u8; 48] {
        panic!("mock")
    }

    fn reset(&mut self) {
        panic!("mock")
    }
}

impl HashFunction<48> for MockHash {
    type Context = MockHashContext;

    fn hash(&self, _input: &[u8]) -> Result<[u8; 48], Error> {
        panic!("mock")
    }

    fn new_context(&self) -> MockHashContext {
        panic!("mock")
    }
}

#[test]
fn hash_trait_is_sized() {
    fn assert_sized<T: Sized>() {}
    assert_sized::<MockHash>();
    assert_sized::<MockHashContext>();
}

struct MockKem;

impl KeyEncapsulation<1568, 3168, 1568, 32> for MockKem {
    fn generate_keypair(&self) -> Result<([u8; 1568], [u8; 3168]), Error> {
        panic!("mock")
    }

    fn encapsulate(&self, _public_key: &[u8; 1568]) -> Result<([u8; 1568], [u8; 32]), Error> {
        panic!("mock")
    }

    fn decapsulate(
        &self,
        _secret_key: &[u8; 3168],
        _ciphertext: &[u8; 1568],
    ) -> Result<[u8; 32], Error> {
        panic!("decapsulation must not be attempted")
    }
}

#[test]
fn kem_trait_is_sized() {
    fn assert_sized<T: Sized>() {}
    assert_sized::<MockKem>();
}

struct MockSignature;

impl SignatureScheme<2592, 4032, 4627> for MockSignature {
    fn generate_keypair(&self) -> Result<([u8; 2592], [u8; 4032]), Error> {
        panic!("mock")
    }

    fn sign(&self, _secret_key: &[u8; 4032], _message: &[u8]) -> Result<[u8; 4627], Error> {
        panic!("mock")
    }

    fn verify(
        &self,
        _public_key: &[u8; 2592],
        _message: &[u8],
        _signature: &[u8; 4627],
    ) -> Result<(), Error> {
        panic!("mock")
    }
}

#[test]
fn signature_trait_is_sized() {
    fn assert_sized<T: Sized>() {}
    assert_sized::<MockSignature>();
}

/// A toy AEAD: XOR "encryption" with a tag derived from key, nonce and
/// associated data.  Worthless as a cipher, but it honours the interface:
/// the tag is verified — in constant time, through the library — before any
/// plaintext is produced, every post-validation failure is the one coarse
/// decryption error, and shape violations are misuse errors.
struct MockAead;

fn mock_tag(key: &[u8; 32], nonce: &[u8; 12], aad: &[u8]) -> [u8; 16] {
    let mut tag = [0u8; 16];
    for i in 0..16 {
        tag[i] = key[i] ^ nonce[i % 12];
    }
    for (j, &b) in aad.iter().enumerate() {
        tag[j % 16] ^= b;
    }
    tag
}

impl AeadCipher<32, 12, 16> for MockAead {
    fn encrypt(
        &self,
        key: &[u8; 32],
        nonce: &[u8; 12],
        plaintext: &[u8],
        associated_data: &[u8],
        output: &mut [u8],
    ) -> Result<(), Error> {
        if output.len() != plaintext.len() + 16 {
            return Err(Error::Misuse(MisuseError::InvalidPlaintextLength));
        }
        for i in 0..plaintext.len() {
            output[i] = plaintext[i] ^ key[i % 32];
        }
        let tag = mock_tag(key, nonce, associated_data);
        output[plaintext.len()..].copy_from_slice(&tag);
        Ok(())
    }

    fn decrypt(
        &self,
        key: &[u8; 32],
        nonce: &[u8; 12],
        ciphertext: &[u8],
        associated_data: &[u8],
        output: &mut [u8],
    ) -> Result<(), Error> {
        if ciphertext.len() < 16 {
            return Err(Error::Misuse(MisuseError::InvalidCiphertextLength));
        }
        let body_len = ciphertext.len() - 16;
        if output.len() != body_len {
            return Err(Error::Misuse(MisuseError::InvalidPlaintextLength));
        }
        let expected = mock_tag(key, nonce, associated_data);
        if !constant_time_eq(&ciphertext[body_len..], &expected) {
            // Verification failed: no plaintext is produced, the output
            // region is not written, and the cause is not distinguished.
            return Err(Error::Crypto(CryptoError::DecryptionFailed));
        }
        for i in 0..body_len {
            output[i] = ciphertext[i] ^ key[i % 32];
        }
        Ok(())
    }
}

#[test]
fn symmetric_trait_is_sized() {
    fn assert_sized<T: Sized>() {}
    assert_sized::<MockAead>();
}

#[test]
fn aead_tampered_tag_is_generic_crypto_error() {
    // Zero key, zero nonce, a tag-only ciphertext (zero-length plaintext)
    // whose tag has one deliberately flipped bit.
    let key = [0u8; 32];
    let nonce = [0u8; 12];
    let mut ciphertext = [0u8; 16];
    ciphertext[0] ^= 0x01;
    let mut output: [u8; 0] = [];

    let cipher = MockAead;
    let result = cipher.decrypt(&key, &nonce, &ciphertext, &[], &mut output);

    let err = result.unwrap_err();
    assert_eq!(err, Error::Crypto(CryptoError::DecryptionFailed));
    assert!(err.is_crypto());
    assert!(!err.is_misuse());
    // The output region holds no non-zero byte.
    assert!(output.iter().all(|&b| b == 0));
}

#[test]
fn aead_round_trip_through_mock() {
    let key = [0x11u8; 32];
    let nonce = [0x22u8; 12];
    let plaintext = *b"attack at dawn";
    let aad = *b"header";

    let cipher = MockAead;
    let mut sealed = [0u8; 14 + 16];
    cipher.encrypt(&key, &nonce, &plaintext, &aad, &mut sealed).unwrap();

    let mut opened = [0u8; 14];
    cipher.decrypt(&key, &nonce, &sealed, &aad, &mut opened).unwrap();
    assert_eq!(&opened, &plaintext);

    // A different associated data must make opening fail.
    let mut rejected = [0u8; 14];
    let r = cipher.decrypt(&key, &nonce, &sealed, b"other!", &mut rejected);
    assert_eq!(r.unwrap_err(), Error::Crypto(CryptoError::DecryptionFailed));
}

#[test]
fn aead_short_ciphertext_is_misuse() {
    let key = [0u8; 32];
    let nonce = [0u8; 12];
    let ciphertext = [0u8; 15];
    let mut output: [u8; 0] = [];
    let cipher = MockAead;
    let err = cipher.decrypt(&key, &nonce, &ciphertext, &[], &mut output).unwrap_err();
    assert_eq!(err, Error::Misuse(MisuseError::InvalidCiphertextLength));
}

/// The boundary a KEM implementation puts in front of the fixed-size
/// contract: validate the declared lengths, then decapsulate.
fn checked_decapsulate(
    kem: &MockKem,
    secret_key: &[u8],
    ciphertext: &[u8],
) -> Result<[u8; 32], Error> {
    validate_secret_key_size::<3168>(secret_key)?;
    let mut sk = [0u8; 3168];
    sk.copy_from_slice(secret_key);
    let mut ct = [0u8; 1568];
    ct.copy_from_slice(ciphertext);
    kem.decapsulate(&sk, &ct)
}

#[test]
fn kem_wrong_secret_key_length_is_misuse() {
    // A secret key of the wrong declared length is rejected as misuse
    // before decapsulation is attempted: the mock's decapsulate panics if
    // it is ever reached.
    let kem = MockKem;
    let short_secret_key = [0u8; 16];
    let ciphertext = [0u8; 1568];
    let result = checked_decapsulate(&kem, &short_secret_key, &ciphertext);
    assert_eq!(
        result.unwrap_err(),
        Error::Misuse(MisuseError::InvalidSecretKeyLength)
    );
}
