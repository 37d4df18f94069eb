//! Sensitivity markers for cryptographic types.
//!
//! Sensitivity is a type-level property, not a runtime flag: a value is
//! classified at design time by the type that holds it.  A sensitive type
//! must not be duplicable (no `Copy`, no `Clone`), must offer an explicit
//! zeroize operation, and must never reveal its contents through a printable
//! representation — [`SensitiveBytes::redacted`] stands in for one.
//!
//! [`SensitivityLevel`] is the ordered classification scale, from `Public`
//! up to `Critical`, with the derived policy predicates
//! [`SensitivityLevel::requires_zeroization`] and
//! [`SensitivityLevel::should_redact`].

use vstd::prelude::*;
use crate::memory::SecureMemory;
use crate::memory::zeroed_bytes;

verus! {

/// Marker trait for types containing sensitive cryptographic material.
///
/// Implementing types hold secrets that must be explicitly zeroized when no
/// longer needed, never copied or cloned, and never logged or serialized.
pub trait Sensitive: Sized {
    /// Human-readable name for this sensitive type, for debug output.  Must
    /// not reveal the actual secret.
    fn sensitivity_label() -> &'static str;
}

/// A fixed-size byte array marked as sensitive.
///
/// Deliberately neither `Copy` nor `Clone`, so the compiler forbids
/// accidental duplication of the secret; zeroization through
/// [`SecureMemory::zeroize`] is explicit; and the only printable
/// representation, [`SensitiveBytes::redacted`], never shows the contents.
pub struct SensitiveBytes<const N: usize> {
    data: [u8; N],
}

impl<const N: usize> View for SensitiveBytes<N> {
    type V = Seq<u8>;

    closed spec fn view(&self) -> Seq<u8> {
        self.data@
    }
}

impl<const N: usize> SensitiveBytes<N> {
    /// Wrap the given bytes as sensitive data.
    pub fn new(data: [u8; N]) -> (r: SensitiveBytes<N>)
        ensures
            r@ == data@,
    {
        SensitiveBytes { data }
    }

    /// Create a zeroed sensitive byte array, to be filled with actual
    /// material later.
    pub fn zeroed() -> (r: SensitiveBytes<N>)
        ensures
            r@ == zeroed_bytes(N as nat),
    {
        let data: [u8; N] = [0; N];
        proof {
            assert(data@ =~= zeroed_bytes(N as nat));
        }
        SensitiveBytes { data }
    }

    /// A reference to the inner bytes.  The reference must not be logged,
    /// serialized or stored long-term.
    pub fn as_bytes(&self) -> (r: &[u8; N])
        ensures
            r@ == self@,
    {
        &self.data
    }

    /// A mutable reference to the inner bytes, under the same care as
    /// [`SensitiveBytes::as_bytes`].
    pub fn as_bytes_mut(&mut self) -> (r: &mut [u8; N])
        ensures
            r@ == old(self)@,
            final(self)@ == final(r)@,
    {
        &mut self.data
    }

    /// Consume the wrapper and return the inner bytes.  The caller now owns
    /// the secret and with it the zeroization obligation.
    pub fn into_inner(self) -> (r: [u8; N])
        ensures
            r@ == self@,
    {
        self.data
    }

    /// The length of the sensitive data.
    pub fn len(&self) -> (r: usize)
        ensures
            r == N,
    {
        N
    }

    /// Whether the wrapped array is empty (only possible when `N` is 0).
    pub fn is_empty(&self) -> (r: bool)
        ensures
            r == (N == 0),
    {
        N == 0
    }

    /// A printable stand-in that never reveals the contents.
    pub fn redacted(&self) -> (r: &'static str)
        ensures
            r@ == "SensitiveBytes { <redacted> }"@,
    {
        "SensitiveBytes { <redacted> }"
    }
}

impl<const N: usize> Sensitive for SensitiveBytes<N> {
    fn sensitivity_label() -> &'static str {
        "SensitiveBytes"
    }
}

impl<const N: usize> SecureMemory for SensitiveBytes<N> {
    open spec fn secret_bytes(&self) -> Seq<u8> {
        self@
    }

    fn zeroize(&mut self) {
        let mut i: usize = 0;
        while i < N
            invariant
                i <= N,
                forall|j: int| 0 <= j < i ==> self.data@[j] == 0u8,
            decreases N - i,
        {
            self.data[i] = 0;
            i = i + 1;
        }
        proof {
            assert(self.data@ =~= zeroed_bytes(old(self).secret_bytes().len()));
        }
    }
}

/// Sensitivity level classification: an ordered scale from data that is
/// safe to disclose up to cryptographic key material.
#[derive(Debug, Clone, Copy, PartialEq, Eq, PartialOrd, Ord, Structural)]
pub enum SensitivityLevel {
    /// Not sensitive — safe to log and disclose.
    Public,
    /// Low sensitivity — prefer not to log, but not catastrophic.
    Low,
    /// Medium sensitivity — should not be logged in production.
    Medium,
    /// High sensitivity — must never be logged or disclosed.
    High,
    /// Critical sensitivity — cryptographic key material.
    Critical,
}

/// The position of a level on the scale: `Public` lowest, `Critical`
/// highest.
pub open spec fn level_rank(level: SensitivityLevel) -> int {
    match level {
        SensitivityLevel::Public => 0,
        SensitivityLevel::Low => 1,
        SensitivityLevel::Medium => 2,
        SensitivityLevel::High => 3,
        SensitivityLevel::Critical => 4,
    }
}

/// The description text of a [`SensitivityLevel`].
pub open spec fn level_description_spec(level: SensitivityLevel) -> Seq<char> {
    match level {
        SensitivityLevel::Public => "public data"@,
        SensitivityLevel::Low => "low-sensitivity data"@,
        SensitivityLevel::Medium => "medium-sensitivity data"@,
        SensitivityLevel::High => "high-sensitivity data"@,
        SensitivityLevel::Critical => "critical cryptographic material"@,
    }
}

impl SensitivityLevel {
    /// Whether values at this level must be zeroized when no longer needed:
    /// exactly the levels `High` and upward.
    pub fn requires_zeroization(&self) -> (r: bool)
        ensures
            r == (level_rank(*self) >= level_rank(SensitivityLevel::High)),
    {
        matches!(self, SensitivityLevel::High | SensitivityLevel::Critical)
    }

    /// Whether values at this level should be redacted in logs: exactly the
    /// levels `Medium` and upward.
    pub fn should_redact(&self) -> (r: bool)
        ensures
            r == (level_rank(*self) >= level_rank(SensitivityLevel::Medium)),
    {
        matches!(
            self,
            SensitivityLevel::Medium | SensitivityLevel::High | SensitivityLevel::Critical
        )
    }

    /// A human-readable description of this level.
    pub fn description(&self) -> (r: &'static str)
        ensures
            r@ == level_description_spec(*self),
    {
        match self {
            SensitivityLevel::Public => "public data",
            SensitivityLevel::Low => "low-sensitivity data",
            SensitivityLevel::Medium => "medium-sensitivity data",
            SensitivityLevel::High => "high-sensitivity data",
            SensitivityLevel::Critical => "critical cryptographic material",
        }
    }
}

} // verus!
