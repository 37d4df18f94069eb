//! Algorithm contracts: the interfaces that concrete hash, KEM, signature
//! and AEAD implementations must satisfy.
//!
//! No algorithm is implemented here.  Each trait fixes its buffer sizes as
//! compile-time constants, so that a size mistake is caught before an
//! operation runs, and carries contracts that every implementation must
//! meet:
//!
//! * each implementation names the mathematical function it computes
//!   through spec members (`digest_of`, `decap_of`, `sig_valid`, `seal_of`,
//!   `open_of`), and the executable methods are bound to those names;
//! * every failure is reported through the error taxonomy of
//!   [`crate::errors`], with secret-dependent failures collapsed onto the
//!   single coarse crypto variant the operation owns — a verifying
//!   implementation cannot distinguish failure causes through its result.
//!
//! Randomized operations (key generation, encapsulation, randomized
//! signing) are not bound to a spec function — no two calls need agree —
//! so their contracts state only what holds of every outcome.

use vstd::prelude::*;
use crate::errors::CryptoError;
use crate::errors::Error;
use crate::errors::MisuseError;

verus! {

/// Cryptographic hash function: one-shot hashing plus incremental contexts.
///
/// `OUTPUT_SIZE` is the digest size in bytes.  Hashing is deterministic and
/// unkeyed: the implementation's `digest_of` names the function it
/// computes, and both the one-shot path and any context created from this
/// hasher are bound to that same function.
pub trait HashFunction<const OUTPUT_SIZE: usize>: Sized {
    /// The context type used for incremental hashing.
    type Context: HashContext<OUTPUT_SIZE>;

    /// The digest this implementation assigns to an input.  The default
    /// leaves it unspecified; a verified implementation overrides it.
    open spec fn digest_of(&self, input: Seq<u8>) -> Seq<u8> {
        vstd::pervasive::arbitrary()
    }

    /// Hash data in a single operation.
    ///
    /// Deterministic: on success the result is exactly the implementation's
    /// digest of the input.  Failure is reserved for an implementation in
    /// an invalid state and is an API-misuse condition, never a
    /// secret-dependent one.
    fn hash(&self, input: &[u8]) -> (r: Result<[u8; OUTPUT_SIZE], Error>)
        ensures
            r is Ok ==> (r->Ok_0)@ == self.digest_of(input@),
            r is Err ==> r->Err_0 is Misuse,
    ;

    /// Create a fresh context for incremental hashing, computing the same
    /// digest function as this hasher and starting with nothing
    /// accumulated.
    fn new_context(&self) -> (r: Self::Context)
        ensures
            r.accumulated() == Seq::<u8>::empty(),
            forall|s: Seq<u8>| #[trigger] r.digest_of(s) == self.digest_of(s),
    ;
}

/// Incremental hash computation context.
///
/// The context's state is the sequence of bytes accumulated so far:
/// `update` appends, `reset` clears, and `finalize` consumes the context
/// and yields the digest of everything accumulated.  Consuming the context
/// by value is what makes the finalized state terminal: a finalized
/// context cannot be updated again.
pub trait HashContext<const OUTPUT_SIZE: usize>: Sized {
    /// The bytes accumulated since creation or the last reset.  The
    /// default leaves it unspecified; a verified implementation overrides
    /// it.
    open spec fn accumulated(&self) -> Seq<u8> {
        vstd::pervasive::arbitrary()
    }

    /// The digest this context assigns to an input.  The default leaves it
    /// unspecified; a verified implementation overrides it.
    open spec fn digest_of(&self, input: Seq<u8>) -> Seq<u8> {
        vstd::pervasive::arbitrary()
    }

    /// Update the hash with additional data, appending it to the
    /// accumulated input and leaving the digest function unchanged.
    fn update(&mut self, data: &[u8])
        ensures
            final(self).accumulated() == old(self).accumulated() + data@,
            forall|s: Seq<u8>| #[trigger] final(self).digest_of(s) == old(self).digest_of(s),
    ;

    /// Finalize the hash, consuming the context and returning the digest
    /// of the accumulated input.
    fn finalize(self) -> (r: [u8; OUTPUT_SIZE])
        ensures
            r@ == self.digest_of(self.accumulated()),
    ;

    /// Reset the context to its initial state, clearing the accumulated
    /// input so the context can be reused.
    fn reset(&mut self)
        ensures
            final(self).accumulated() == Seq::<u8>::empty(),
            forall|s: Seq<u8>| #[trigger] final(self).digest_of(s) == old(self).digest_of(s),
    ;
}

/// Key encapsulation mechanism.
///
/// `PUBLIC_KEY_SIZE`, `SECRET_KEY_SIZE`, `CIPHERTEXT_SIZE` and
/// `SHARED_SECRET_SIZE` are the fixed byte sizes of the four values
/// involved.  Decapsulation is deterministic and is named by `decap_of`;
/// key generation and encapsulation draw fresh randomness on every call,
/// so their contracts state only what holds of every outcome.
pub trait KeyEncapsulation<
    const PUBLIC_KEY_SIZE: usize,
    const SECRET_KEY_SIZE: usize,
    const CIPHERTEXT_SIZE: usize,
    const SHARED_SECRET_SIZE: usize,
>: Sized {
    /// Whether a public and a secret key belong to one generated keypair.
    /// The default leaves it unspecified; a verified implementation
    /// overrides it.
    open spec fn keypair_well_formed(&self, public_key: Seq<u8>, secret_key: Seq<u8>) -> bool {
        vstd::pervasive::arbitrary()
    }

    /// The shared secret this implementation recovers from a secret key
    /// and a ciphertext, if decapsulation succeeds.  The default leaves it
    /// unspecified; a verified implementation overrides it.
    open spec fn decap_of(&self, secret_key: Seq<u8>, ciphertext: Seq<u8>) -> Option<Seq<u8>> {
        vstd::pervasive::arbitrary()
    }

    /// Generate a new keypair from fresh randomness.
    ///
    /// On success the two keys belong together; failure is reserved for a
    /// failing randomness source or an invalid state, an API-misuse
    /// condition.
    fn generate_keypair(&self) -> (r: Result<
        ([u8; PUBLIC_KEY_SIZE], [u8; SECRET_KEY_SIZE]),
        Error,
    >)
        ensures
            r is Ok ==> self.keypair_well_formed((r->Ok_0).0@, (r->Ok_0).1@),
            r is Err ==> r->Err_0 is Misuse,
    ;

    /// Encapsulate a fresh shared secret for the given public key.
    ///
    /// Uses fresh randomness on every call — randomness reuse across calls
    /// is forbidden — so no two calls need produce the same ciphertext.
    /// What every outcome guarantees: the holder of a matching secret key
    /// decapsulates the returned ciphertext to exactly the returned shared
    /// secret.
    fn encapsulate(&self, public_key: &[u8; PUBLIC_KEY_SIZE]) -> (r: Result<
        ([u8; CIPHERTEXT_SIZE], [u8; SHARED_SECRET_SIZE]),
        Error,
    >)
        ensures
            r is Ok ==> forall|sk: Seq<u8>|
                #[trigger] self.keypair_well_formed(public_key@, sk) ==> self.decap_of(
                    sk,
                    (r->Ok_0).0@,
                ) == Some((r->Ok_0).1@),
    ;

    /// Decapsulate a shared secret from a ciphertext using the secret key.
    ///
    /// Deterministic: succeeds exactly when the implementation's
    /// decapsulation function yields a secret, and returns that secret.
    /// All validation completes before failure is reported, and every
    /// failure collapses onto the single coarse variant — which internal
    /// step failed is not distinguishable from the result.
    fn decapsulate(
        &self,
        secret_key: &[u8; SECRET_KEY_SIZE],
        ciphertext: &[u8; CIPHERTEXT_SIZE],
    ) -> (r: Result<[u8; SHARED_SECRET_SIZE], Error>)
        ensures
            r is Ok <==> self.decap_of(secret_key@, ciphertext@) is Some,
            r is Ok ==> Some((r->Ok_0)@) == self.decap_of(secret_key@, ciphertext@),
            r is Err ==> r->Err_0 == Error::Crypto(CryptoError::KeyEncapsulationFailed),
    ;
}

/// Digital signature scheme.
///
/// `PUBLIC_KEY_SIZE`, `SECRET_KEY_SIZE` and `SIGNATURE_SIZE` are the fixed
/// byte sizes involved.  Verification is deterministic and is named by
/// `sig_valid`; signing may be randomized (fresh randomness per call) or
/// deterministic — both are accommodated, since the contract demands only
/// that every produced signature verifies.
pub trait SignatureScheme<
    const PUBLIC_KEY_SIZE: usize,
    const SECRET_KEY_SIZE: usize,
    const SIGNATURE_SIZE: usize,
>: Sized {
    /// Whether a public and a secret key belong to one generated keypair.
    /// The default leaves it unspecified; a verified implementation
    /// overrides it.
    open spec fn keypair_well_formed(&self, public_key: Seq<u8>, secret_key: Seq<u8>) -> bool {
        vstd::pervasive::arbitrary()
    }

    /// Whether a signature is valid for a message under a public key.  The
    /// default leaves it unspecified; a verified implementation overrides
    /// it.
    open spec fn sig_valid(&self, public_key: Seq<u8>, message: Seq<u8>, signature: Seq<u8>) -> bool {
        vstd::pervasive::arbitrary()
    }

    /// Generate a new signing keypair from fresh randomness.
    fn generate_keypair(&self) -> (r: Result<
        ([u8; PUBLIC_KEY_SIZE], [u8; SECRET_KEY_SIZE]),
        Error,
    >)
        ensures
            r is Ok ==> self.keypair_well_formed((r->Ok_0).0@, (r->Ok_0).1@),
            r is Err ==> r->Err_0 is Misuse,
    ;

    /// Sign a message with the secret key.
    ///
    /// For randomized schemes each call draws fresh randomness, so no two
    /// calls need produce the same signature.  What every outcome
    /// guarantees: the produced signature verifies under any public key
    /// matching the signing key.
    fn sign(&self, secret_key: &[u8; SECRET_KEY_SIZE], message: &[u8]) -> (r: Result<
        [u8; SIGNATURE_SIZE],
        Error,
    >)
        ensures
            r is Ok ==> forall|pk: Seq<u8>|
                #[trigger] self.keypair_well_formed(pk, secret_key@) ==> self.sig_valid(
                    pk,
                    message@,
                    (r->Ok_0)@,
                ),
    ;

    /// Verify a signature on a message with the public key.
    ///
    /// Deterministic: succeeds exactly when the signature is valid.  All
    /// checks run to completion before failure is reported, and a
    /// malformed signature is not distinguishable from a wrong one — every
    /// failure is the same coarse variant.
    fn verify(
        &self,
        public_key: &[u8; PUBLIC_KEY_SIZE],
        message: &[u8],
        signature: &[u8; SIGNATURE_SIZE],
    ) -> (r: Result<(), Error>)
        ensures
            r is Ok <==> self.sig_valid(public_key@, message@, signature@),
            r is Err ==> r->Err_0 == Error::Crypto(CryptoError::VerificationFailed),
    ;
}

/// Authenticated encryption with associated data.
///
/// `KEY_SIZE`, `NONCE_SIZE` and `TAG_SIZE` are the fixed byte sizes of
/// key, nonce and authentication tag.  For a fixed key and nonce the
/// cipher is a deterministic pair of functions, named by `seal_of`
/// (plaintext to ciphertext-with-tag) and `open_of` (its partial inverse).
/// Nonce uniqueness per key is a caller obligation: the interface
/// deliberately does not track nonces.
pub trait AeadCipher<const KEY_SIZE: usize, const NONCE_SIZE: usize, const TAG_SIZE: usize>: Sized {
    /// The ciphertext-with-tag this implementation produces for a key,
    /// nonce, plaintext and associated data.  The default leaves it
    /// unspecified; a verified implementation overrides it.
    open spec fn seal_of(&self, key: Seq<u8>, nonce: Seq<u8>, plaintext: Seq<u8>, aad: Seq<u8>) -> Seq<
        u8,
    > {
        vstd::pervasive::arbitrary()
    }

    /// The plaintext this implementation recovers from a ciphertext-with-
    /// tag, if authentication succeeds.  The default leaves it
    /// unspecified; a verified implementation overrides it.
    open spec fn open_of(&self, key: Seq<u8>, nonce: Seq<u8>, ciphertext: Seq<u8>, aad: Seq<u8>) -> Option<
        Seq<u8>,
    > {
        vstd::pervasive::arbitrary()
    }

    /// Encrypt and authenticate a plaintext with optional associated data.
    ///
    /// The output buffer must hold exactly `plaintext.len() + TAG_SIZE`
    /// bytes — anything else is API misuse, reported without touching the
    /// buffer's contents' meaning.  On success the buffer holds the sealed
    /// bytes, and decrypting them under the same key, nonce and associated
    /// data recovers the plaintext.
    fn encrypt(
        &self,
        key: &[u8; KEY_SIZE],
        nonce: &[u8; NONCE_SIZE],
        plaintext: &[u8],
        associated_data: &[u8],
        output: &mut [u8],
    ) -> (r: Result<(), Error>)
        ensures
            final(output)@.len() == old(output)@.len(),
            old(output)@.len() != plaintext@.len() + TAG_SIZE ==> r is Err && r->Err_0 is Misuse,
            r is Ok ==> {
                &&& old(output)@.len() == plaintext@.len() + TAG_SIZE
                &&& final(output)@ == self.seal_of(key@, nonce@, plaintext@, associated_data@)
                &&& self.open_of(
                    key@,
                    nonce@,
                    self.seal_of(key@, nonce@, plaintext@, associated_data@),
                    associated_data@,
                ) == Some(plaintext@)
            },
    ;

    /// Decrypt and verify a ciphertext-with-tag with optional associated
    /// data.
    ///
    /// The ciphertext must be at least `TAG_SIZE` bytes and the output
    /// buffer exactly `ciphertext.len() - TAG_SIZE` bytes; violations are
    /// API misuse, detected from lengths alone before any secret-bearing
    /// work.  With the shapes right, the call succeeds exactly when
    /// authentication succeeds, and then the buffer holds the recovered
    /// plaintext.  Tag verification completes before any plaintext is
    /// produced; on failure the single coarse variant is returned and the
    /// output buffer's contents are undefined — callers must not read
    /// them.
    fn decrypt(
        &self,
        key: &[u8; KEY_SIZE],
        nonce: &[u8; NONCE_SIZE],
        ciphertext: &[u8],
        associated_data: &[u8],
        output: &mut [u8],
    ) -> (r: Result<(), Error>)
        ensures
            final(output)@.len() == old(output)@.len(),
            ciphertext@.len() < TAG_SIZE ==> r is Err && r->Err_0 == Error::Misuse(
                MisuseError::InvalidCiphertextLength,
            ),
            ciphertext@.len() >= TAG_SIZE && old(output)@.len() + TAG_SIZE != ciphertext@.len()
                ==> r is Err && r->Err_0 is Misuse,
            ciphertext@.len() >= TAG_SIZE && old(output)@.len() + TAG_SIZE == ciphertext@.len()
                ==> {
                &&& r is Ok <==> self.open_of(key@, nonce@, ciphertext@, associated_data@) is Some
                &&& r is Ok ==> Some(final(output)@) == self.open_of(
                    key@,
                    nonce@,
                    ciphertext@,
                    associated_data@,
                )
                &&& r is Err ==> r->Err_0 == Error::Crypto(CryptoError::DecryptionFailed)
            },
    ;
}

} // verus!
