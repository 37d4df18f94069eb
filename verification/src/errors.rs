//! Error taxonomy: cryptographic failures versus API misuse.
//!
//! Every fallible operation in this library, and in the algorithm
//! implementations built on it, reports failure through exactly one of two
//! disjoint classes:
//!
//! * [`CryptoError`] — expected failures of valid operations (a bad MAC, a
//!   failed signature check).  These are deliberately coarse: several internal
//!   causes collapse onto one variant so that the error channel leaks nothing
//!   an adversary could use.
//! * [`MisuseError`] — deterministic, diagnosable mistakes in how the API was
//!   called (wrong buffer length, unsupported algorithm).  These are safe to
//!   log verbatim and never depend on secret data.
//!
//! [`Error`] is the tagged union of the two.  All three types are small
//! field-free enums, so constructing and copying an error costs the same
//! whatever the variant: error handling cannot become a side channel through
//! size or allocation.
//!
//! The message functions return one fixed string literal per variant.  Their
//! contracts pin the text exactly, so repeated calls on the same value are
//! provably identical, and [`lemma_message_bounded`] bounds every message's
//! length.

use vstd::prelude::*;

verus! {

/// Errors from cryptographic operations.
///
/// Coarse-grained by design: multiple internal failure modes map to the same
/// variant to prevent information leakage.
#[derive(Debug, Clone, Copy, PartialEq, Eq, Structural)]
pub enum CryptoError {
    /// Signature or MAC verification failed.  Tampering, corruption and key
    /// mismatch are intentionally not distinguished.
    VerificationFailed,
    /// Decryption failed.  Authentication failures, padding errors and other
    /// decryption-related causes are intentionally not distinguished.
    DecryptionFailed,
    /// Ciphertext is malformed or invalid.  Only to be returned from
    /// pre-authentication parsing paths whose timing is independent of any
    /// secret.
    InvalidCiphertext,
    /// Key encapsulation or decapsulation failed, with the failure point
    /// intentionally not distinguished.
    KeyEncapsulationFailed,
    /// Internal failure, typically during signing.
    InternalFailure,
    /// Generic cryptographic operation failure, for operations where a more
    /// specific category would leak information.
    OperationFailed,
}

/// The message text of a [`CryptoError`], as a sequence of characters.
pub open spec fn crypto_message_spec(e: CryptoError) -> Seq<char> {
    match e {
        CryptoError::VerificationFailed => "verification failed"@,
        CryptoError::DecryptionFailed => "decryption failed"@,
        CryptoError::InvalidCiphertext => "invalid ciphertext"@,
        CryptoError::KeyEncapsulationFailed => "key encapsulation failed"@,
        CryptoError::InternalFailure => "internal process failed"@,
        CryptoError::OperationFailed => "cryptographic operation failed"@,
    }
}

impl CryptoError {
    /// Returns true if this error represents a verification failure.
    pub fn is_verification_failure(&self) -> (r: bool)
        ensures
            r == (*self is VerificationFailed),
    {
        matches!(self, CryptoError::VerificationFailed)
    }

    /// Returns true if this error represents a decryption failure.
    pub fn is_decryption_failure(&self) -> (r: bool)
        ensures
            r == (*self is DecryptionFailed),
    {
        matches!(self, CryptoError::DecryptionFailed)
    }

    /// A fixed, deliberately vague message for this error: no algorithm
    /// details, no specific failure mode, nothing that could aid analysis.
    pub fn message(&self) -> (r: &'static str)
        ensures
            r@ == crypto_message_spec(*self),
    {
        match self {
            CryptoError::VerificationFailed => "verification failed",
            CryptoError::DecryptionFailed => "decryption failed",
            CryptoError::InvalidCiphertext => "invalid ciphertext",
            CryptoError::KeyEncapsulationFailed => "key encapsulation failed",
            CryptoError::InternalFailure => "internal process failed",
            CryptoError::OperationFailed => "cryptographic operation failed",
        }
    }
}

/// Errors from incorrect API usage or invalid configuration.
///
/// Deterministic, developer-facing, and safe to log: none of these is ever
/// derived from secret-dependent branching.
#[derive(Debug, Clone, Copy, PartialEq, Eq, Structural)]
pub enum MisuseError {
    /// Key has invalid length for the specified algorithm.
    InvalidKeyLength,
    /// Signature has invalid length.
    InvalidSignatureLength,
    /// Ciphertext buffer has invalid length.
    InvalidCiphertextLength,
    /// Public key has invalid length or format.
    InvalidPublicKeyLength,
    /// Secret key has invalid length or format.
    InvalidSecretKeyLength,
    /// Shared secret has invalid length.
    InvalidSharedSecretLength,
    /// Plaintext buffer has invalid length for this operation.
    InvalidPlaintextLength,
    /// Nonce or IV has invalid length for the specified algorithm.
    InvalidNonceLength,
    /// Authentication tag has invalid length.
    InvalidTagLength,
    /// Output buffer is too small for the operation.
    BufferTooSmall,
    /// The specified algorithm or algorithm combination is not supported.
    UnsupportedAlgorithm,
    /// The specified hybrid mode is not supported or invalid.
    UnsupportedHybridMode,
    /// Parameter set is invalid or unsupported.
    InvalidParameterSet,
    /// Invalid algorithm identifier or selector.
    InvalidAlgorithmIdentifier,
    /// Context string exceeds maximum allowed length.
    ContextTooLong,
    /// Associated data exceeds maximum allowed length.
    AssociatedDataTooLong,
    /// Operation requires a feature that was not compiled in.
    FeatureNotEnabled,
    /// Invalid state for this operation.
    InvalidState,
}

/// Whether a [`MisuseError`] concerns the size of some buffer.
pub open spec fn is_length_error_spec(e: MisuseError) -> bool {
    match e {
        MisuseError::InvalidKeyLength => true,
        MisuseError::InvalidSignatureLength => true,
        MisuseError::InvalidCiphertextLength => true,
        MisuseError::InvalidPublicKeyLength => true,
        MisuseError::InvalidSecretKeyLength => true,
        MisuseError::InvalidSharedSecretLength => true,
        MisuseError::InvalidPlaintextLength => true,
        MisuseError::InvalidNonceLength => true,
        MisuseError::InvalidTagLength => true,
        MisuseError::BufferTooSmall => true,
        _ => false,
    }
}

/// Whether a [`MisuseError`] concerns algorithm selection or support.
pub open spec fn is_algorithm_error_spec(e: MisuseError) -> bool {
    match e {
        MisuseError::UnsupportedAlgorithm => true,
        MisuseError::UnsupportedHybridMode => true,
        MisuseError::InvalidParameterSet => true,
        MisuseError::InvalidAlgorithmIdentifier => true,
        _ => false,
    }
}

/// The message text of a [`MisuseError`], as a sequence of characters.
pub open spec fn misuse_message_spec(e: MisuseError) -> Seq<char> {
    match e {
        MisuseError::InvalidKeyLength => "invalid key length for algorithm"@,
        MisuseError::InvalidSignatureLength => "invalid signature length"@,
        MisuseError::InvalidCiphertextLength => "invalid ciphertext length"@,
        MisuseError::InvalidPublicKeyLength => "invalid public key length"@,
        MisuseError::InvalidSecretKeyLength => "invalid secret key length"@,
        MisuseError::InvalidSharedSecretLength => "invalid shared secret length"@,
        MisuseError::InvalidPlaintextLength => "invalid plaintext length"@,
        MisuseError::InvalidNonceLength => "invalid nonce length"@,
        MisuseError::InvalidTagLength => "invalid authentication tag length"@,
        MisuseError::BufferTooSmall => "output buffer too small"@,
        MisuseError::UnsupportedAlgorithm => "algorithm not supported"@,
        MisuseError::UnsupportedHybridMode => "hybrid mode not supported"@,
        MisuseError::InvalidParameterSet => "invalid parameter set"@,
        MisuseError::InvalidAlgorithmIdentifier => "invalid algorithm identifier"@,
        MisuseError::ContextTooLong => "context string exceeds maximum length"@,
        MisuseError::AssociatedDataTooLong => "associated data exceeds maximum length"@,
        MisuseError::FeatureNotEnabled => "feature not enabled at compile time"@,
        MisuseError::InvalidState => "invalid state for operation"@,
    }
}

impl MisuseError {
    /// Returns true if this error is related to buffer sizing.
    pub fn is_length_error(&self) -> (r: bool)
        ensures
            r == is_length_error_spec(*self),
    {
        matches!(
            self,
            MisuseError::InvalidKeyLength
                | MisuseError::InvalidSignatureLength
                | MisuseError::InvalidCiphertextLength
                | MisuseError::InvalidPublicKeyLength
                | MisuseError::InvalidSecretKeyLength
                | MisuseError::InvalidSharedSecretLength
                | MisuseError::InvalidPlaintextLength
                | MisuseError::InvalidNonceLength
                | MisuseError::InvalidTagLength
                | MisuseError::BufferTooSmall
        )
    }

    /// Returns true if this error is related to algorithm support.
    pub fn is_algorithm_error(&self) -> (r: bool)
        ensures
            r == is_algorithm_error_spec(*self),
    {
        matches!(
            self,
            MisuseError::UnsupportedAlgorithm
                | MisuseError::UnsupportedHybridMode
                | MisuseError::InvalidParameterSet
                | MisuseError::InvalidAlgorithmIdentifier
        )
    }

    /// A fixed, descriptive message for this error.  Misuse errors represent
    /// developer mistakes, not cryptographic failures, so they may name the
    /// violated constraint.
    pub fn message(&self) -> (r: &'static str)
        ensures
            r@ == misuse_message_spec(*self),
    {
        match self {
            MisuseError::InvalidKeyLength => "invalid key length for algorithm",
            MisuseError::InvalidSignatureLength => "invalid signature length",
            MisuseError::InvalidCiphertextLength => "invalid ciphertext length",
            MisuseError::InvalidPublicKeyLength => "invalid public key length",
            MisuseError::InvalidSecretKeyLength => "invalid secret key length",
            MisuseError::InvalidSharedSecretLength => "invalid shared secret length",
            MisuseError::InvalidPlaintextLength => "invalid plaintext length",
            MisuseError::InvalidNonceLength => "invalid nonce length",
            MisuseError::InvalidTagLength => "invalid authentication tag length",
            MisuseError::BufferTooSmall => "output buffer too small",
            MisuseError::UnsupportedAlgorithm => "algorithm not supported",
            MisuseError::UnsupportedHybridMode => "hybrid mode not supported",
            MisuseError::InvalidParameterSet => "invalid parameter set",
            MisuseError::InvalidAlgorithmIdentifier => "invalid algorithm identifier",
            MisuseError::ContextTooLong => "context string exceeds maximum length",
            MisuseError::AssociatedDataTooLong => "associated data exceeds maximum length",
            MisuseError::FeatureNotEnabled => "feature not enabled at compile time",
            MisuseError::InvalidState => "invalid state for operation",
        }
    }
}

/// Unified error type: a cryptographic failure or an API misuse.
#[derive(Debug, Clone, Copy, PartialEq, Eq, Structural)]
pub enum Error {
    /// A cryptographic operation failed.  Expected, non-fatal, and
    /// intentionally vague.
    Crypto(CryptoError),
    /// The API was used incorrectly.  Deterministic and actionable.
    Misuse(MisuseError),
}

/// The [`CryptoError`] inside an [`Error`], if it is one.
pub open spec fn crypto_part(e: Error) -> Option<CryptoError> {
    match e {
        Error::Crypto(c) => Some(c),
        Error::Misuse(_) => None,
    }
}

/// The [`MisuseError`] inside an [`Error`], if it is one.
pub open spec fn misuse_part(e: Error) -> Option<MisuseError> {
    match e {
        Error::Crypto(_) => None,
        Error::Misuse(m) => Some(m),
    }
}

impl Error {
    /// Returns true if this is a cryptographic error.
    pub fn is_crypto(&self) -> (r: bool)
        ensures
            r == (*self is Crypto),
    {
        matches!(self, Error::Crypto(_))
    }

    /// Returns true if this is a misuse error.
    pub fn is_misuse(&self) -> (r: bool)
        ensures
            r == (*self is Misuse),
    {
        matches!(self, Error::Misuse(_))
    }

    /// Returns the underlying [`CryptoError`] if this is a crypto error.
    pub fn crypto(&self) -> (r: Option<CryptoError>)
        ensures
            r == crypto_part(*self),
    {
        match self {
            Error::Crypto(e) => Some(*e),
            _ => None,
        }
    }

    /// Returns the underlying [`MisuseError`] if this is a misuse error.
    pub fn misuse(&self) -> (r: Option<MisuseError>)
        ensures
            r == misuse_part(*self),
    {
        match self {
            Error::Misuse(e) => Some(*e),
            _ => None,
        }
    }
}

/// The message text of an [`Error`]: the class prefix followed by the inner
/// error's own message.
pub open spec fn error_message_spec(e: Error) -> Seq<char> {
    match e {
        Error::Crypto(c) => "cryptographic error: "@ + crypto_message_spec(c),
        Error::Misuse(m) => "misuse error: "@ + misuse_message_spec(m),
    }
}

impl Error {
    /// A fixed message for this error: the class prefix followed by the
    /// wrapped error's own message.  One literal per variant, so formatting
    /// never allocates conditionally or branches on anything but the variant.
    pub fn message(&self) -> (r: &'static str)
        ensures
            r@ == error_message_spec(*self),
    {
        proof {
            reveal_strlit("cryptographic error: ");
            reveal_strlit("misuse error: ");
        }
        match self {
            Error::Crypto(c) => match c {
                CryptoError::VerificationFailed => {
                    proof {
                        reveal_strlit("verification failed");
                        reveal_strlit("cryptographic error: verification failed");
                    }
                    "cryptographic error: verification failed"
                },
                CryptoError::DecryptionFailed => {
                    proof {
                        reveal_strlit("decryption failed");
                        reveal_strlit("cryptographic error: decryption failed");
                    }
                    "cryptographic error: decryption failed"
                },
                CryptoError::InvalidCiphertext => {
                    proof {
                        reveal_strlit("invalid ciphertext");
                        reveal_strlit("cryptographic error: invalid ciphertext");
                    }
                    "cryptographic error: invalid ciphertext"
                },
                CryptoError::KeyEncapsulationFailed => {
                    proof {
                        reveal_strlit("key encapsulation failed");
                        reveal_strlit("cryptographic error: key encapsulation failed");
                    }
                    "cryptographic error: key encapsulation failed"
                },
                CryptoError::InternalFailure => {
                    proof {
                        reveal_strlit("internal process failed");
                        reveal_strlit("cryptographic error: internal process failed");
                    }
                    "cryptographic error: internal process failed"
                },
                CryptoError::OperationFailed => {
                    proof {
                        reveal_strlit("cryptographic operation failed");
                        reveal_strlit("cryptographic error: cryptographic operation failed");
                    }
                    "cryptographic error: cryptographic operation failed"
                },
            },
            Error::Misuse(m) => {
                proof {
                    reveal_strlit("misuse error: invalid key length for algorithm");
                    reveal_strlit("misuse error: invalid signature length");
                    reveal_strlit("misuse error: invalid ciphertext length");
                    reveal_strlit("misuse error: invalid public key length");
                    reveal_strlit("misuse error: invalid secret key length");
                    reveal_strlit("misuse error: invalid shared secret length");
                    reveal_strlit("misuse error: invalid plaintext length");
                    reveal_strlit("misuse error: invalid nonce length");
                    reveal_strlit("misuse error: invalid authentication tag length");
                    reveal_strlit("misuse error: output buffer too small");
                    reveal_strlit("misuse error: algorithm not supported");
                    reveal_strlit("misuse error: hybrid mode not supported");
                    reveal_strlit("misuse error: invalid parameter set");
                    reveal_strlit("misuse error: invalid algorithm identifier");
                    reveal_strlit("misuse error: context string exceeds maximum length");
                    reveal_strlit("misuse error: associated data exceeds maximum length");
                    reveal_strlit("misuse error: feature not enabled at compile time");
                    reveal_strlit("misuse error: invalid state for operation");
                    reveal_strlit("invalid key length for algorithm");
                    reveal_strlit("invalid signature length");
                    reveal_strlit("invalid ciphertext length");
                    reveal_strlit("invalid public key length");
                    reveal_strlit("invalid secret key length");
                    reveal_strlit("invalid shared secret length");
                    reveal_strlit("invalid plaintext length");
                    reveal_strlit("invalid nonce length");
                    reveal_strlit("invalid authentication tag length");
                    reveal_strlit("output buffer too small");
                    reveal_strlit("algorithm not supported");
                    reveal_strlit("hybrid mode not supported");
                    reveal_strlit("invalid parameter set");
                    reveal_strlit("invalid algorithm identifier");
                    reveal_strlit("context string exceeds maximum length");
                    reveal_strlit("associated data exceeds maximum length");
                    reveal_strlit("feature not enabled at compile time");
                    reveal_strlit("invalid state for operation");
                }
                match m {
                    MisuseError::InvalidKeyLength => "misuse error: invalid key length for algorithm",
                    MisuseError::InvalidSignatureLength => "misuse error: invalid signature length",
                    MisuseError::InvalidCiphertextLength => "misuse error: invalid ciphertext length",
                    MisuseError::InvalidPublicKeyLength => "misuse error: invalid public key length",
                    MisuseError::InvalidSecretKeyLength => "misuse error: invalid secret key length",
                    MisuseError::InvalidSharedSecretLength => "misuse error: invalid shared secret length",
                    MisuseError::InvalidPlaintextLength => "misuse error: invalid plaintext length",
                    MisuseError::InvalidNonceLength => "misuse error: invalid nonce length",
                    MisuseError::InvalidTagLength => "misuse error: invalid authentication tag length",
                    MisuseError::BufferTooSmall => "misuse error: output buffer too small",
                    MisuseError::UnsupportedAlgorithm => "misuse error: algorithm not supported",
                    MisuseError::UnsupportedHybridMode => "misuse error: hybrid mode not supported",
                    MisuseError::InvalidParameterSet => "misuse error: invalid parameter set",
                    MisuseError::InvalidAlgorithmIdentifier => "misuse error: invalid algorithm identifier",
                    MisuseError::ContextTooLong => "misuse error: context string exceeds maximum length",
                    MisuseError::AssociatedDataTooLong => "misuse error: associated data exceeds maximum length",
                    MisuseError::FeatureNotEnabled => "misuse error: feature not enabled at compile time",
                    MisuseError::InvalidState => "misuse error: invalid state for operation",
                }
            },
        }
    }
}

impl From<CryptoError> for Error {
    /// Wraps a cryptographic error into the unified type.
    fn from(e: CryptoError) -> (r: Error)
        ensures
            r == Error::Crypto(e),
    {
        Error::Crypto(e)
    }
}

impl vstd::std_specs::convert::FromSpecImpl<CryptoError> for Error {
    open spec fn obeys_from_spec() -> bool {
        true
    }

    open spec fn from_spec(e: CryptoError) -> Error {
        Error::Crypto(e)
    }
}

impl From<MisuseError> for Error {
    /// Wraps a misuse error into the unified type.
    fn from(e: MisuseError) -> (r: Error)
        ensures
            r == Error::Misuse(e),
    {
        Error::Misuse(e)
    }
}

impl vstd::std_specs::convert::FromSpecImpl<MisuseError> for Error {
    open spec fn obeys_from_spec() -> bool {
        true
    }

    open spec fn from_spec(e: MisuseError) -> Error {
        Error::Misuse(e)
    }
}

/// Exactly one of the two accessors yields a value, and each hands back the
/// error that was wrapped: wrapping a [`CryptoError`] and reading it through
/// [`crypto_part`] returns it, while [`misuse_part`] on the same value
/// returns `None` — and symmetrically for a misuse-origin error.
pub proof fn lemma_error_round_trip(c: CryptoError, m: MisuseError)
    ensures
        crypto_part(Error::Crypto(c)) == Some(c),
        misuse_part(Error::Crypto(c)) == None::<MisuseError>,
        misuse_part(Error::Misuse(m)) == Some(m),
        crypto_part(Error::Misuse(m)) == None::<CryptoError>,
{
}

/// Every error message has bounded length: formatting an error can never
/// produce output whose size varies with anything but the variant, and the
/// whole text always stays under 100 characters.
pub proof fn lemma_message_bounded(e: Error)
    ensures
        error_message_spec(e).len() < 100,
{
    reveal_strlit("cryptographic error: ");
    reveal_strlit("misuse error: ");
    reveal_strlit("verification failed");
    reveal_strlit("decryption failed");
    reveal_strlit("invalid ciphertext");
    reveal_strlit("key encapsulation failed");
    reveal_strlit("internal process failed");
    reveal_strlit("cryptographic operation failed");
    reveal_strlit("invalid key length for algorithm");
    reveal_strlit("invalid signature length");
    reveal_strlit("invalid ciphertext length");
    reveal_strlit("invalid public key length");
    reveal_strlit("invalid secret key length");
    reveal_strlit("invalid shared secret length");
    reveal_strlit("invalid plaintext length");
    reveal_strlit("invalid nonce length");
    reveal_strlit("invalid authentication tag length");
    reveal_strlit("output buffer too small");
    reveal_strlit("algorithm not supported");
    reveal_strlit("hybrid mode not supported");
    reveal_strlit("invalid parameter set");
    reveal_strlit("invalid algorithm identifier");
    reveal_strlit("context string exceeds maximum length");
    reveal_strlit("associated data exceeds maximum length");
    reveal_strlit("feature not enabled at compile time");
    reveal_strlit("invalid state for operation");
}

} // verus!

