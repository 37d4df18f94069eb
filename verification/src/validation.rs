//! Parameter validation for cryptographic operations.
//!
//! Algorithm implementations call these at their API boundaries, before any
//! secret-bearing computation begins.  Every check depends only on
//! caller-supplied shapes — buffer lengths — never on secret content, and
//! each failure names the violated constraint through a specific
//! [`MisuseError`].  Each contract states exactly when the check passes and
//! which error it returns when it does not.

use vstd::prelude::*;
use crate::errors::Error;
use crate::errors::MisuseError;

verus! {

/// Validate that a buffer has exactly the expected size.
///
/// The name argument is carried for diagnostic symmetry with the other
/// helpers and does not influence the result.
pub fn validate_buffer_size(buffer: &[u8], expected_size: usize, _name: &str) -> (r: Result<
    (),
    Error,
>)
    ensures
        r is Ok <==> buffer@.len() == expected_size,
        r is Err ==> r->Err_0 == Error::Misuse(MisuseError::BufferTooSmall),
{
    if buffer.len() == expected_size {
        Ok(())
    } else {
        Err(Error::Misuse(MisuseError::BufferTooSmall))
    }
}

/// Validate that a key has exactly `N` bytes.
pub fn validate_key_size<const N: usize>(key: &[u8]) -> (r: Result<(), Error>)
    ensures
        r is Ok <==> key@.len() == N,
        r is Err ==> r->Err_0 == Error::Misuse(MisuseError::InvalidKeyLength),
{
    if key.len() == N {
        Ok(())
    } else {
        Err(Error::Misuse(MisuseError::InvalidKeyLength))
    }
}

/// Validate that a nonce has exactly `N` bytes.
pub fn validate_nonce_size<const N: usize>(nonce: &[u8]) -> (r: Result<(), Error>)
    ensures
        r is Ok <==> nonce@.len() == N,
        r is Err ==> r->Err_0 == Error::Misuse(MisuseError::InvalidNonceLength),
{
    if nonce.len() == N {
        Ok(())
    } else {
        Err(Error::Misuse(MisuseError::InvalidNonceLength))
    }
}

/// Validate that a public key has exactly `N` bytes.
pub fn validate_public_key_size<const N: usize>(public_key: &[u8]) -> (r: Result<(), Error>)
    ensures
        r is Ok <==> public_key@.len() == N,
        r is Err ==> r->Err_0 == Error::Misuse(MisuseError::InvalidPublicKeyLength),
{
    if public_key.len() == N {
        Ok(())
    } else {
        Err(Error::Misuse(MisuseError::InvalidPublicKeyLength))
    }
}

/// Validate that a secret key has exactly `N` bytes.
pub fn validate_secret_key_size<const N: usize>(secret_key: &[u8]) -> (r: Result<(), Error>)
    ensures
        r is Ok <==> secret_key@.len() == N,
        r is Err ==> r->Err_0 == Error::Misuse(MisuseError::InvalidSecretKeyLength),
{
    if secret_key.len() == N {
        Ok(())
    } else {
        Err(Error::Misuse(MisuseError::InvalidSecretKeyLength))
    }
}

/// Validate that a ciphertext has at least `min_size` bytes (typically the
/// tag size).
pub fn validate_ciphertext_min_size(ciphertext: &[u8], min_size: usize) -> (r: Result<(), Error>)
    ensures
        r is Ok <==> ciphertext@.len() >= min_size,
        r is Err ==> r->Err_0 == Error::Misuse(MisuseError::InvalidCiphertextLength),
{
    if ciphertext.len() >= min_size {
        Ok(())
    } else {
        Err(Error::Misuse(MisuseError::InvalidCiphertextLength))
    }
}

/// Validate that a signature has exactly `N` bytes.
pub fn validate_signature_size<const N: usize>(signature: &[u8]) -> (r: Result<(), Error>)
    ensures
        r is Ok <==> signature@.len() == N,
        r is Err ==> r->Err_0 == Error::Misuse(MisuseError::InvalidSignatureLength),
{
    if signature.len() == N {
        Ok(())
    } else {
        Err(Error::Misuse(MisuseError::InvalidSignatureLength))
    }
}

/// Validate that an output buffer holds at least `required_size` bytes.
pub fn validate_output_size(output: &[u8], required_size: usize) -> (r: Result<(), Error>)
    ensures
        r is Ok <==> output@.len() >= required_size,
        r is Err ==> r->Err_0 == Error::Misuse(MisuseError::InvalidPlaintextLength),
{
    if output.len() >= required_size {
        Ok(())
    } else {
        Err(Error::Misuse(MisuseError::InvalidPlaintextLength))
    }
}

/// Validate that an output buffer has exactly `required_size` bytes.
pub fn validate_output_exact_size(output: &[u8], required_size: usize) -> (r: Result<(), Error>)
    ensures
        r is Ok <==> output@.len() == required_size,
        r is Err ==> r->Err_0 == Error::Misuse(MisuseError::InvalidPlaintextLength),
{
    if output.len() == required_size {
        Ok(())
    } else {
        Err(Error::Misuse(MisuseError::InvalidPlaintextLength))
    }
}

/// Validate that a slice is not empty.
pub fn validate_not_empty(data: &[u8]) -> (r: Result<(), Error>)
    ensures
        r is Ok <==> data@.len() > 0,
        r is Err ==> r->Err_0 == Error::Misuse(MisuseError::BufferTooSmall),
{
    if !data.is_empty() {
        Ok(())
    } else {
        Err(Error::Misuse(MisuseError::BufferTooSmall))
    }
}

} // verus!
