//! Bounded view over the guest's linear memory.
//!
//! Every access names an `(offset, length)` pair; a range that does not lie
//! entirely inside the region is rejected with `OutOfBounds` rather than
//! clamped or wrapped.

use vstd::prelude::*;
use vstd::slice::{slice_subrange, slice_to_vec};

use crate::{range_in_bounds, region};

verus! {

/// Failure of a bounded memory access: the requested range falls outside the
/// guest's memory region.
#[derive(Clone, Copy, Debug, PartialEq, Eq, Structural)]
pub struct OutOfBounds;

/// A contiguous byte region of guest-owned memory, valid for the duration of
/// one syscall invocation.
pub struct Memory {
    data: Vec<u8>,
}

/// `orig` with the bytes starting at `offset` replaced by `src`.
pub open spec fn spliced(orig: Seq<u8>, offset: int, src: Seq<u8>) -> Seq<u8> {
    orig.subrange(0, offset) + src + orig.subrange(offset + src.len(), orig.len() as int)
}

/// Shape of a host-to-guest write: splicing `src` into `orig` at `offset`
/// changes exactly the `src.len()` bytes starting at `offset` — the region
/// keeps its size, the range holds `src`, and every byte outside the range
/// is untouched.
pub proof fn lemma_spliced_bytes(orig: Seq<u8>, offset: int, src: Seq<u8>)
    requires
        0 <= offset,
        offset + src.len() <= orig.len(),
    ensures
        spliced(orig, offset, src).len() == orig.len(),
        spliced(orig, offset, src).subrange(offset, offset + src.len()) == src,
        forall|j: int|
            0 <= j < orig.len() && !(offset <= j < offset + src.len()) ==> spliced(
                orig,
                offset,
                src,
            )[j] == orig[j],
{
    assert(spliced(orig, offset, src).subrange(offset, offset + src.len()) =~= src);
}

impl View for Memory {
    type V = Seq<u8>;

    closed spec fn view(&self) -> Seq<u8> {
        self.data@
    }
}

impl Memory {
    /// Wrap a byte region as a guest memory view.
    pub fn new(data: Vec<u8>) -> (r: Memory)
        ensures
            r@ == data@,
    {
        Memory { data }
    }

    /// Number of bytes in the region.
    pub fn size(&self) -> (r: usize)
        ensures
            r == self@.len(),
    {
        self.data.len()
    }

    /// Read-only window of exactly `length` bytes starting at `offset`, or
    /// `OutOfBounds` when the range leaves the region.
    pub fn slice(&self, offset: u32, length: u32) -> (r: Result<&[u8], OutOfBounds>)
        ensures
            match r {
                Ok(s) => range_in_bounds(self@.len() as int, offset as int, length as int)
                    && s@ == region(self@, offset as int, length as int),
                Err(e) => e == OutOfBounds
                    && !range_in_bounds(self@.len() as int, offset as int, length as int),
            },
    {
        let end: u64 = offset as u64 + length as u64;
        if end > self.data.len() as u64 {
            Err(OutOfBounds)
        } else {
            Ok(slice_subrange(self.data.as_slice(), offset as usize, offset as usize
                + length as usize))
        }
    }

    /// Owned copy of the range, for callers that must hold the bytes past the
    /// borrow (decoding).
    pub fn try_slice(&self, offset: u32, length: u32) -> (r: Result<Vec<u8>, OutOfBounds>)
        ensures
            match r {
                Ok(v) => range_in_bounds(self@.len() as int, offset as int, length as int)
                    && v@ == region(self@, offset as int, length as int),
                Err(e) => e == OutOfBounds
                    && !range_in_bounds(self@.len() as int, offset as int, length as int),
            },
    {
        match self.slice(offset, length) {
            Ok(s) => Ok(slice_to_vec(s)),
            Err(e) => Err(e),
        }
    }

    /// Host-to-guest write of `src` at `offset`: the mutable counterpart of
    /// `slice`, used to hand results (a digest) back to the guest.
    pub fn write_slice(&mut self, offset: u32, src: &[u8]) -> (r: Result<(), OutOfBounds>)
        ensures
            match r {
                Ok(()) => range_in_bounds(old(self)@.len() as int, offset as int, src@.len() as int)
                    && final(self)@ == spliced(old(self)@, offset as int, src@),
                Err(e) => e == OutOfBounds
                    && !range_in_bounds(old(self)@.len() as int, offset as int, src@.len() as int)
                    && final(self)@ == old(self)@,
            },
    {
        let len: usize = src.len();
        if len > self.data.len() || offset as usize > self.data.len() - len {
            return Err(OutOfBounds);
        }
        let base: usize = offset as usize;
        let dlen: usize = self.data.len();
        let mut i: usize = 0;
        while i < src.len()
            invariant
                i <= src@.len(),
                self.data@.len() == dlen,
                base + src@.len() <= dlen,
                base == offset as int,
                self.data@.len() == old(self)@.len(),
                forall|j: int| 0 <= j < i ==> self.data@[base + j] == src@[j],
                forall|j: int| 0 <= j < self.data@.len() && !(base <= j < base + i)
                    ==> self.data@[j] == old(self)@[j],
            decreases src@.len() - i,
        {
            let idx: usize = base + i;
            self.data[idx] = src[i];
            i += 1;
        }
        proof {
            assert(self.data@ =~= spliced(old(self)@, offset as int, src@));
        }
        Ok(())
    }
}

} // verus!
