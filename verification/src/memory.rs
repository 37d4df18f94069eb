//! Secure memory primitives: zeroization, constant-time comparison and
//! selection, and a zeroizing byte buffer.
//!
//! Zeroization here is explicit: a holder of sensitive bytes calls
//! [`SecureMemory::zeroize`] when it is done with them, and the contract
//! proves that afterwards every byte equals zero and the length is kept.
//! The comparison and selection functions are written so that the work they
//! do depends only on the lengths involved, never on the byte values: the
//! equality scan accumulates a difference mask over every byte instead of
//! exiting at the first mismatch, and the selection applies a uniform bitmask
//! instead of branching per byte.  What is proved is their functional
//! behaviour; the absence of data-dependent timing is a property of the
//! code's shape, outside what a functional contract can state.

use vstd::prelude::*;
use crate::errors::Error;

verus! {

/// The all-zero byte sequence of length `n`: what any region must equal
/// after zeroization.
pub open spec fn zeroed_bytes(n: nat) -> Seq<u8> {
    Seq::new(n, |i: int| 0u8)
}

/// Zeroizing the all-zero sequence changes nothing: zeroization is
/// idempotent, so calling it once or many times leaves the same state.
pub proof fn lemma_zeroize_idempotent(n: nat)
    ensures
        zeroed_bytes(zeroed_bytes(n).len()) == zeroed_bytes(n),
{
}

/// Secure memory handling for types containing sensitive data.
///
/// An implementing type names its sensitive bytes through
/// [`SecureMemory::secret_bytes`]; `zeroize` must overwrite exactly those
/// bytes with zeros, keeping their number.  Implementations should use
/// writes the optimizer cannot elide; that aspect lies outside the contract,
/// which pins the resulting state.
pub trait SecureMemory {
    /// The sensitive bytes this value owns, in order.
    spec fn secret_bytes(&self) -> Seq<u8>;

    /// Securely overwrite this value's sensitive bytes with zeros.
    ///
    /// Calling `zeroize` repeatedly is safe: after the first call the bytes
    /// are all zero already, and further calls leave them so.
    fn zeroize(&mut self)
        ensures
            final(self).secret_bytes() == zeroed_bytes(old(self).secret_bytes().len()),
    ;
}

/// Overwrite every byte of a slice with zero, keeping its length.
///
/// Walks the whole slice unconditionally; nothing about the byte values
/// decides how much work is done.
pub fn zeroize_slice(data: &mut [u8])
    ensures
        final(data)@ == zeroed_bytes(old(data)@.len()),
{
    let n = data.len();
    let mut i: usize = 0;
    while i < n
        invariant
            i <= n,
            data@.len() == n,
            forall|j: int| 0 <= j < i ==> data@[j] == 0u8,
        decreases n - i,
    {
        data[i] = 0;
        i = i + 1;
    }
    proof {
        assert(data@ =~= zeroed_bytes(old(data)@.len()));
    }
}

impl<const N: usize> SecureMemory for [u8; N] {
    open spec fn secret_bytes(&self) -> Seq<u8> {
        self@
    }

    fn zeroize(&mut self) {
        let mut i: usize = 0;
        while i < N
            invariant
                i <= N,
                forall|j: int| 0 <= j < i ==> self@[j] == 0u8,
            decreases N - i,
        {
            self[i] = 0;
            i = i + 1;
        }
        proof {
            assert(self@ =~= zeroed_bytes(old(self)@.len()));
        }
    }
}

impl SecureMemory for Vec<u8> {
    open spec fn secret_bytes(&self) -> Seq<u8> {
        self@
    }

    fn zeroize(&mut self) {
        let n = self.len();
        let mut i: usize = 0;
        while i < n
            invariant
                i <= n,
                self@.len() == n,
                forall|j: int| 0 <= j < i ==> self@[j] == 0u8,
            decreases n - i,
        {
            self[i] = 0;
            i = i + 1;
        }
        proof {
            assert(self@ =~= zeroed_bytes(old(self)@.len()));
        }
    }
}

/// Securely compare two byte slices in constant time.
///
/// Returns whether the two slices hold the same bytes.  Lengths may be
/// compared up front — length is not considered secret — but once the scan
/// starts it accumulates a difference mask over every byte, with no early
/// exit on mismatch.
pub fn constant_time_eq(a: &[u8], b: &[u8]) -> (r: bool)
    ensures
        r == (a@ == b@),
{
    if a.len() != b.len() {
        proof {
            assert(a@.len() != b@.len());
        }
        return false;
    }
    let n = a.len();
    let mut diff: u8 = 0;
    let mut i: usize = 0;
    while i < n
        invariant
            i <= n,
            a@.len() == n,
            b@.len() == n,
            (diff == 0) <==> (forall|j: int| 0 <= j < i ==> a@[j] == b@[j]),
        decreases n - i,
    {
        let x = *vstd::slice::slice_index_get(a, i);
        let y = *vstd::slice::slice_index_get(b, i);
        proof {
            assert(((diff | (x ^ y)) == 0) <==> (diff == 0 && x == y)) by (bit_vector);
        }
        diff = diff | (x ^ y);
        i = i + 1;
    }
    proof {
        if diff == 0 {
            assert(a@ =~= b@);
        } else {
            assert(a@ != b@) by {
                if a@ == b@ {
                    assert(forall|j: int| 0 <= j < n ==> a@[j] == b@[j]);
                }
            }
        }
    }
    diff == 0
}

/// Securely compare two fixed-size byte arrays in constant time.
///
/// Type-safe form of [`constant_time_eq`] for arrays of equal compile-time
/// size.
pub fn constant_time_eq_array<const N: usize>(a: &[u8; N], b: &[u8; N]) -> (r: bool)
    ensures
        r == (a@ == b@),
{
    constant_time_eq(a.as_slice(), b.as_slice())
}

/// Select between two byte slices in constant time.
///
/// Writes `a` into the start of `out` if `condition` holds, else `b`,
/// through a uniform bitmask derived once from the boolean — all ones or
/// all zeros — applied byte-wise, never a conditional branch per byte.
/// Both inputs are read on every step.  Bytes of `out` beyond the inputs'
/// length are left unchanged.  The length preconditions are a caller
/// obligation: violating them is API misuse, not a cryptographic failure.
pub fn constant_time_select(condition: bool, a: &[u8], b: &[u8], out: &mut [u8])
    requires
        a@.len() == b@.len(),
        old(out)@.len() >= a@.len(),
    ensures
        final(out)@.len() == old(out)@.len(),
        forall|j: int|
            0 <= j < a@.len() ==> final(out)@[j] == (if condition {
                a@[j]
            } else {
                b@[j]
            }),
        forall|j: int| a@.len() <= j < old(out)@.len() ==> final(out)@[j] == old(out)@[j],
{
    let n = a.len();
    let mask: u8 = 0u8.wrapping_sub(if condition {
        1
    } else {
        0
    });
    proof {
        assert(condition ==> mask == 0xffu8);
        assert(!condition ==> mask == 0u8);
    }
    let mut i: usize = 0;
    while i < n
        invariant
            i <= n,
            a@.len() == n,
            b@.len() == n,
            out@.len() == old(out)@.len(),
            n <= out@.len(),
            condition ==> mask == 0xffu8,
            !condition ==> mask == 0u8,
            forall|j: int|
                0 <= j < i ==> out@[j] == (if condition {
                    a@[j]
                } else {
                    b@[j]
                }),
            forall|j: int| i <= j < old(out)@.len() ==> out@[j] == old(out)@[j],
        decreases n - i,
    {
        let x = *vstd::slice::slice_index_get(a, i);
        let y = *vstd::slice::slice_index_get(b, i);
        let sel = (x & mask) | (y & !mask);
        proof {
            assert(mask == 0xffu8 ==> ((x & mask) | (y & !mask)) == x) by (bit_vector);
            assert(mask == 0u8 ==> ((x & mask) | (y & !mask)) == y) by (bit_vector);
        }
        out[i] = sel;
        i = i + 1;
    }
}

/// Overwrite every byte of a vector from position `from` onwards with zero,
/// keeping the length and the prefix.
///
/// This is the step that makes shrinking a [`SecureBuffer`] safe: the tail
/// that is about to be discarded is provably all zero — non-recoverable —
/// before it leaves the live buffer.
pub fn zeroize_suffix(data: &mut Vec<u8>, from: usize)
    requires
        from <= old(data)@.len(),
    ensures
        final(data)@.len() == old(data)@.len(),
        forall|j: int| 0 <= j < from ==> final(data)@[j] == old(data)@[j],
        forall|j: int| from <= j < final(data)@.len() ==> final(data)@[j] == 0u8,
{
    let n = data.len();
    let mut i: usize = from;
    while i < n
        invariant
            from <= i <= n,
            data@.len() == n,
            forall|j: int| 0 <= j < from ==> data@[j] == old(data)@[j],
            forall|j: int| from <= j < i ==> data@[j] == 0u8,
        decreases n - i,
    {
        data[i] = 0;
        i = i + 1;
    }
}

/// A growable byte buffer for sensitive material.
///
/// Deliberately neither `Copy` nor `Clone`: at most one owner holds the
/// bytes, so at most one party can zeroize or mutate them.  Zeroization is
/// explicit through [`SecureMemory::zeroize`]; shrinking through
/// [`SecureBuffer::resize`] zeroizes the discarded tail first; and
/// [`SecureBuffer::into_vec`] is the deliberate escape hatch that hands the
/// bytes — and with them the zeroization obligation — to the caller.
pub struct SecureBuffer {
    data: Vec<u8>,
}

impl View for SecureBuffer {
    type V = Seq<u8>;

    closed spec fn view(&self) -> Seq<u8> {
        self.data@
    }
}

impl SecureBuffer {
    /// Create a secure buffer owning the given bytes.
    pub fn new(data: Vec<u8>) -> (r: SecureBuffer)
        ensures
            r@ == data@,
    {
        SecureBuffer { data }
    }

    /// Create an empty secure buffer with pre-allocated capacity.
    pub fn with_capacity(capacity: usize) -> (r: SecureBuffer)
        ensures
            r@ == Seq::<u8>::empty(),
    {
        SecureBuffer { data: Vec::with_capacity(capacity) }
    }

    /// Create a secure buffer of `len` zero bytes.
    pub fn zeroed(len: usize) -> (r: SecureBuffer)
        ensures
            r@ == zeroed_bytes(len as nat),
    {
        let mut data: Vec<u8> = Vec::new();
        data.resize(len, 0);
        proof {
            assert(data@ =~= zeroed_bytes(len as nat));
        }
        SecureBuffer { data }
    }

    /// The buffer contents.
    pub fn as_slice(&self) -> (r: &[u8])
        ensures
            r@ == self@,
    {
        self.data.as_slice()
    }

    /// Mutable access to the buffer contents.
    pub fn as_mut_slice(&mut self) -> (r: &mut [u8])
        ensures
            r@ == old(self)@,
            final(self)@ == final(r)@,
    {
        self.data.as_mut_slice()
    }

    /// The length of the buffer.
    pub fn len(&self) -> (r: usize)
        ensures
            r == self@.len(),
    {
        self.data.len()
    }

    /// Whether the buffer is empty.
    pub fn is_empty(&self) -> (r: bool)
        ensures
            r == (self@.len() == 0),
    {
        self.data.is_empty()
    }

    /// The capacity of the underlying allocation.
    ///
    /// Relies on `Vec::capacity`: the number of elements the vector can hold
    /// without reallocating, never less than its length.  The exact value
    /// depends on the allocator, so no more is stated.
    #[verifier::external_body]
    pub fn capacity(&self) -> (r: usize)
        ensures
            r >= self@.len(),
    {
        self.data.capacity()
    }

    /// Resize the buffer, filling new bytes with zeros.
    ///
    /// When the buffer shrinks, the discarded tail is zeroized — via
    /// [`zeroize_suffix`] — before it is dropped from the live buffer.
    pub fn resize(&mut self, new_len: usize)
        ensures
            final(self)@.len() == new_len,
            new_len <= old(self)@.len() ==> final(self)@ == old(self)@.subrange(
                0,
                new_len as int,
            ),
            new_len > old(self)@.len() ==> final(self)@ == old(self)@ + zeroed_bytes(
                (new_len - old(self)@.len()) as nat,
            ),
    {
        if new_len < self.data.len() {
            zeroize_suffix(&mut self.data, new_len);
        }
        self.data.resize(new_len, 0);
        proof {
            if new_len <= old(self)@.len() {
                assert(self@ =~= old(self)@.subrange(0, new_len as int));
            } else {
                assert(self@ =~= old(self)@ + zeroed_bytes((new_len - old(self)@.len()) as nat));
            }
        }
    }

    /// Consume the buffer and return the inner bytes.
    ///
    /// The caller now owns the bytes and with them the zeroization
    /// obligation: nothing will zeroize them on the caller's behalf.
    pub fn into_vec(self) -> (r: Vec<u8>)
        ensures
            r@ == self@,
    {
        self.data
    }
}

impl SecureMemory for SecureBuffer {
    open spec fn secret_bytes(&self) -> Seq<u8> {
        self@
    }

    fn zeroize(&mut self) {
        let n = self.data.len();
        let mut i: usize = 0;
        while i < n
            invariant
                i <= n,
                self.data@.len() == n,
                forall|j: int| 0 <= j < i ==> self.data@[j] == 0u8,
            decreases n - i,
        {
            self.data[i] = 0;
            i = i + 1;
        }
        proof {
            assert(self.data@ =~= zeroed_bytes(old(self).secret_bytes().len()));
        }
    }
}

/// Builder for creating secure buffers with specific properties.
///
/// Initial data, when set, wins over a bare capacity; with neither, the
/// result is an empty buffer.
pub struct SecureBufferBuilder {
    capacity: Option<usize>,
    initial_data: Option<Vec<u8>>,
}

impl SecureBufferBuilder {
    /// The capacity configured so far, if any.
    pub closed spec fn spec_capacity(&self) -> Option<usize> {
        self.capacity
    }

    /// The initial bytes configured so far, if any.
    pub closed spec fn spec_initial_data(&self) -> Option<Seq<u8>> {
        match self.initial_data {
            Some(d) => Some(d@),
            None => None,
        }
    }

    /// Create a builder with nothing configured.
    pub fn new() -> (r: SecureBufferBuilder)
        ensures
            r.spec_capacity() is None,
            r.spec_initial_data() is None,
    {
        SecureBufferBuilder { capacity: None, initial_data: None }
    }

    /// Set the initial capacity.
    pub fn with_capacity(self, capacity: usize) -> (r: SecureBufferBuilder)
        ensures
            r.spec_capacity() == Some(capacity),
            r.spec_initial_data() == self.spec_initial_data(),
    {
        SecureBufferBuilder { capacity: Some(capacity), ..self }
    }

    /// Set initial data.
    pub fn with_data(self, data: Vec<u8>) -> (r: SecureBufferBuilder)
        ensures
            r.spec_capacity() == self.spec_capacity(),
            r.spec_initial_data() == Some(data@),
    {
        SecureBufferBuilder { initial_data: Some(data), ..self }
    }

    /// Use a block of `len` zero bytes as the initial data.
    pub fn zeroed(self, len: usize) -> (r: SecureBufferBuilder)
        ensures
            r.spec_capacity() == self.spec_capacity(),
            r.spec_initial_data() == Some(zeroed_bytes(len as nat)),
    {
        let mut data: Vec<u8> = Vec::new();
        data.resize(len, 0);
        proof {
            assert(data@ =~= zeroed_bytes(len as nat));
        }
        SecureBufferBuilder { initial_data: Some(data), ..self }
    }

    /// Build the secure buffer: the configured data if any, else an empty
    /// buffer (with the configured capacity if one was given).
    pub fn build(self) -> (r: SecureBuffer)
        ensures
            self.spec_initial_data() is Some ==> r@ == self.spec_initial_data()->0,
            self.spec_initial_data() is None ==> r@ == Seq::<u8>::empty(),
    {
        match (self.initial_data, self.capacity) {
            (Some(data), _) => SecureBuffer::new(data),
            (None, Some(cap)) => SecureBuffer::with_capacity(cap),
            (None, None) => SecureBuffer::with_capacity(0),
        }
    }
}

/// Check whether a memory region is fully zeroed.
///
/// Primarily useful for testing and verification harnesses.  Not
/// constant-time — it exits at the first non-zero byte — so it must never
/// stand in a security-critical comparison; use [`constant_time_eq`] there.
pub fn is_zeroized(data: &[u8]) -> (r: bool)
    ensures
        r == (data@ == zeroed_bytes(data@.len())),
{
    let n = data.len();
    let mut i: usize = 0;
    while i < n
        invariant
            i <= n,
            data@.len() == n,
            forall|j: int| 0 <= j < i ==> data@[j] == 0u8,
        decreases n - i,
    {
        if *vstd::slice::slice_index_get(data, i) != 0 {
            proof {
                assert(data@[i as int] != 0u8);
                assert(data@ != zeroed_bytes(data@.len()));
            }
            return false;
        }
        i = i + 1;
    }
    proof {
        assert(data@ =~= zeroed_bytes(data@.len()));
    }
    true
}

/// Best-effort protection of a memory region from being swapped to disk.
///
/// Platform-specific locking is deliberately out of scope here, so this is
/// a no-op that reports success: absence of platform support must never be
/// treated as a failure, and nothing may rely on locking for correctness.
pub fn lock_memory(data: &mut [u8]) -> (r: Result<(), Error>)
    ensures
        r is Ok,
        final(data)@ == old(data)@,
{
    Ok(())
}

/// Unlock previously locked memory.  The counterpart of [`lock_memory`],
/// and like it a successful no-op on platforms without support.
pub fn unlock_memory(data: &mut [u8]) -> (r: Result<(), Error>)
    ensures
        r is Ok,
        final(data)@ == old(data)@,
{
    Ok(())
}

} // verus!
