//! Host-side syscall bridge of a sandboxed actor-execution kernel.
//!
//! The guest crosses this boundary to request cryptographic verification and
//! content-addressed block storage from the trusted host.  The library holds
//! the validated call surface: the bounded view over guest memory, the
//! structured-argument readers, the crypto syscall set over an abstract
//! capability interface, the consensus-fault predicate, and the block-store
//! bridge with its status-code protocol.

use vstd::prelude::*;

pub mod blockstore;
pub mod cids;
pub mod decode;
pub mod fault;
pub mod kernel;
pub mod memory;
pub mod syscalls;

verus! {

/// Why a syscall could not produce an answer.  An abort terminates only the
/// current message's execution; the sandbox layer turns it into the guest's
/// native trap mechanism.
#[derive(Debug, PartialEq, Eq)]
pub enum Abort {
    /// A requested byte range falls outside the guest's memory region.
    OutOfBounds,
    /// A byte range is not a valid structured encoding of the expected type.
    Decode,
    /// A byte range is not a valid chain-address encoding.
    InvalidAddress,
    /// The capability backing the syscall failed to compute an answer.
    Capability(crate::kernel::CapError),
}

/// True when the byte range `[offset, offset + length)` lies inside a region
/// of `size` bytes.
pub open spec fn range_in_bounds(size: int, offset: int, length: int) -> bool {
    offset + length <= size
}

/// The bytes of the range `[offset, offset + length)` of `m`.
pub open spec fn region(m: Seq<u8>, offset: int, length: int) -> Seq<u8> {
    m.subrange(offset, offset + length)
}

} // verus!

