//! The scratch buffer in which frames are staged and responses received.
//!
//! The bytes live in a `SmallVec`, so that a frame of up to
//! [`INLINE_CAPACITY`] bytes needs no heap allocation; longer frames spill to
//! the heap. Verus does not look inside a `SmallVec`: what it holds is named
//! by [`scratch_bytes`], and every method below is a thin call into
//! `smallvec` whose contract is taken on trust from that crate's source.

use smallvec::SmallVec;
use vstd::prelude::*;

verus! {

/// Number of bytes a scratch buffer holds without allocating.
pub const INLINE_CAPACITY: usize = 256;

/// Largest number of bytes a scratch buffer is asked to hold.
///
/// `SmallVec` grows to the next power of two, and an allocation of more than
/// `isize::MAX` bytes is refused with a panic. A quarter of the address space
/// is the largest power of two below that limit.
pub const MAX_FRAME_LEN: usize = usize::MAX / 4 + 1;

/// A growable byte buffer with inline storage for [`INLINE_CAPACITY`] bytes.
#[verifier::external_body]
pub struct Scratch {
    bytes: SmallVec<[u8; INLINE_CAPACITY]>,
}

/// The bytes that a scratch buffer holds, first to last.
pub uninterp spec fn scratch_bytes(buf: Scratch) -> Seq<u8>;

impl View for Scratch {
    type V = Seq<u8>;

    open spec fn view(&self) -> Seq<u8> {
        scratch_bytes(*self)
    }
}

/// `bytes` cut down to its first `len` bytes, or filled up to `len` bytes
/// with copies of `value`.
pub open spec fn resized(bytes: Seq<u8>, len: nat, value: u8) -> Seq<u8> {
    if len <= bytes.len() {
        bytes.take(len as int)
    } else {
        bytes + Seq::new((len - bytes.len()) as nat, |i: int| value)
    }
}

impl Scratch {
    /// `SmallVec::new`: an empty buffer.
    #[verifier::external_body]
    pub(crate) fn new() -> (buf: Scratch)
        ensures
            scratch_bytes(buf) == Seq::<u8>::empty(),
    {
        Scratch { bytes: SmallVec::new() }
    }

    /// `SmallVec::push`: appends one byte. The bound keeps the grown
    /// capacity below the size at which `push` panics.
    #[verifier::external_body]
    pub(crate) fn push(&mut self, byte: u8)
        requires
            scratch_bytes(*old(self)).len() < MAX_FRAME_LEN,
        ensures
            scratch_bytes(*final(self)) == scratch_bytes(*old(self)).push(byte),
    {
        self.bytes.push(byte)
    }

    /// `SmallVec::extend_from_slice`: appends the bytes of `slice` in order.
    /// The bound keeps the grown capacity below the size at which the
    /// reservation panics.
    #[verifier::external_body]
    pub(crate) fn extend_from_slice(&mut self, slice: &[u8])
        requires
            scratch_bytes(*old(self)).len() + slice@.len() <= MAX_FRAME_LEN,
        ensures
            scratch_bytes(*final(self)) == scratch_bytes(*old(self)) + slice@,
    {
        self.bytes.extend_from_slice(slice)
    }

    /// `SmallVec::resize`: truncates to `len` bytes, or appends copies of
    /// `value` until the buffer holds `len` bytes. The bound keeps the grown
    /// capacity below the size at which the reservation panics.
    #[verifier::external_body]
    pub(crate) fn resize(&mut self, len: usize, value: u8)
        requires
            len <= MAX_FRAME_LEN,
        ensures
            scratch_bytes(*final(self)) == resized(scratch_bytes(*old(self)), len as nat, value),
    {
        self.bytes.resize(len, value)
    }

    /// `SmallVec::clear`: removes every byte.
    #[verifier::external_body]
    pub(crate) fn clear(&mut self)
        ensures
            scratch_bytes(*final(self)) == Seq::<u8>::empty(),
    {
        self.bytes.clear()
    }

    /// `SmallVec::as_slice`: the bytes held, as a slice.
    #[verifier::external_body]
    pub(crate) fn as_slice(&self) -> (bytes: &[u8])
        ensures
            bytes@ == scratch_bytes(*self),
    {
        self.bytes.as_slice()
    }

    /// `SmallVec::as_mut_slice`: the bytes held, as a slice that can be
    /// written through. The buffer afterwards holds what the slice holds
    /// when the borrow ends; a slice cannot be resized through a borrow, so
    /// that is as many bytes as before.
    #[verifier::external_body]
    pub(crate) fn as_mut_slice(&mut self) -> (bytes: &mut [u8])
        ensures
            bytes@ == scratch_bytes(*old(self)),
            final(bytes)@.len() == bytes@.len(),
            scratch_bytes(*final(self)) == final(bytes)@,
    {
        self.bytes.as_mut_slice()
    }
}

} // verus!
