//! The crypto syscall set.
//!
//! Each syscall has one shape: materialize arguments out of guest memory
//! through the bounded view and the structured readers, delegate to the
//! capability interface, and translate the outcome into the boundary's
//! protocol — a plain value for "the operation produced a definite answer",
//! an `Abort` for "something prevented computing an answer".

use vstd::prelude::*;

use cid::Cid;

use crate::decode::{
    addr_decodes, addr_of, agg_info_decodes, agg_info_of, pieces_decode, pieces_of,
    post_info_decodes, post_info_of, proof_of_tag, read_address, read_agg_info, read_pieces,
    read_post_info, read_seal_info, read_signature, seal_info_decodes, seal_info_of,
    seal_proof_from_tag, sig_decodes, sig_of,
};
use crate::kernel::Kernel;
use crate::memory::{spliced, Memory};
use crate::{range_in_bounds, region, Abort};

verus! {

/// Verify that a signature is valid for an address and plaintext.  A
/// boolean "invalid" is a normal result; malformed encodings abort.
pub fn verify_signature<K: Kernel>(
    kernel: &mut K,
    memory: &Memory,
    sig_off: u32,
    sig_len: u32,
    addr_off: u32,
    addr_len: u32,
    plaintext_off: u32,
    plaintext_len: u32,
) -> (r: Result<bool, Abort>)
    ensures
        final(kernel).pending_returns() == old(kernel).pending_returns(),
        ({
            let m = memory@;
            if !range_in_bounds(m.len() as int, sig_off as int, sig_len as int) {
                r == Err::<bool, Abort>(Abort::OutOfBounds)
            } else if !sig_decodes(region(m, sig_off as int, sig_len as int)) {
                r == Err::<bool, Abort>(Abort::Decode)
            } else if !range_in_bounds(m.len() as int, addr_off as int, addr_len as int) {
                r == Err::<bool, Abort>(Abort::OutOfBounds)
            } else if !addr_decodes(region(m, addr_off as int, addr_len as int)) {
                r == Err::<bool, Abort>(Abort::InvalidAddress)
            } else if !range_in_bounds(m.len() as int, plaintext_off as int, plaintext_len as int) {
                r == Err::<bool, Abort>(Abort::OutOfBounds)
            } else {
                (r matches Ok(b) && b == old(kernel).sig_verdict(
                    sig_of(region(m, sig_off as int, sig_len as int)),
                    addr_of(region(m, addr_off as int, addr_len as int)),
                    region(m, plaintext_off as int, plaintext_len as int),
                )) || r matches Err(Abort::Capability(_))
            }
        }),
{
    let sig = match read_signature(memory, sig_off, sig_len) {
        Ok(v) => v,
        Err(a) => {
            return Err(a);
        },
    };
    let addr = match read_address(memory, addr_off, addr_len) {
        Ok(v) => v,
        Err(a) => {
            return Err(a);
        },
    };
    let plaintext = match memory.slice(plaintext_off, plaintext_len) {
        Ok(s) => s,
        Err(_) => {
            return Err(Abort::OutOfBounds);
        },
    };
    match kernel.verify_signature(&sig, &addr, plaintext) {
        Ok(b) => Ok(b),
        Err(e) => Err(Abort::Capability(e)),
    }
}

/// Hash input data with blake2b, 256-bit output, and write the 32-byte
/// digest back into guest memory at `obuf_off`.
pub fn hash_blake2b<K: Kernel>(
    kernel: &mut K,
    memory: &mut Memory,
    data_off: u32,
    data_len: u32,
    obuf_off: u32,
) -> (r: Result<(), Abort>)
    ensures
        final(kernel).pending_returns() == old(kernel).pending_returns(),
        r is Err ==> final(memory)@ == old(memory)@,
        r matches Err(a) ==> a == Abort::OutOfBounds || a matches Abort::Capability(_),
        !range_in_bounds(old(memory)@.len() as int, data_off as int, data_len as int) ==> r
            == Err::<(), Abort>(Abort::OutOfBounds),
        ({
            let m = old(memory)@;
            (range_in_bounds(m.len() as int, data_off as int, data_len as int)
                && !range_in_bounds(m.len() as int, obuf_off as int, 32)) ==> r is Err
        }),
        ({
            let m = old(memory)@;
            (range_in_bounds(m.len() as int, data_off as int, data_len as int) && range_in_bounds(
                m.len() as int,
                obuf_off as int,
                32,
            )) ==> (r is Ok || r matches Err(Abort::Capability(_)))
        }),
        r is Ok ==> ({
            let m = old(memory)@;
            range_in_bounds(m.len() as int, data_off as int, data_len as int) && range_in_bounds(
                m.len() as int,
                obuf_off as int,
                32,
            ) && K::hash_spec(region(m, data_off as int, data_len as int)).len() == 32
                && final(memory)@ == spliced(
                m,
                obuf_off as int,
                K::hash_spec(region(m, data_off as int, data_len as int)),
            )
        }),
{
    let digest = {
        let data = match memory.slice(data_off, data_len) {
            Ok(s) => s,
            Err(_) => {
                return Err(Abort::OutOfBounds);
            },
        };
        match kernel.hash_blake2b(data) {
            Ok(d) => d,
            Err(e) => {
                return Err(Abort::Capability(e));
            },
        }
    };
    match memory.write_slice(obuf_off, digest.as_slice()) {
        Ok(()) => Ok(()),
        Err(_) => Err(Abort::OutOfBounds),
    }
}

/// Compute an unsealed sector identifier from a proof-type tag and the
/// constituent piece descriptors.  An out-of-range tag is tolerated here and
/// deferred to the capability.
pub fn compute_unsealed_sector_cid<K: Kernel>(
    kernel: &mut K,
    memory: &Memory,
    proof_type: i64,
    pieces_off: u32,
    pieces_len: u32,
) -> (r: Result<Cid, Abort>)
    ensures
        final(kernel).pending_returns() == old(kernel).pending_returns(),
        ({
            let m = memory@;
            if !range_in_bounds(m.len() as int, pieces_off as int, pieces_len as int) {
                r == Err::<Cid, Abort>(Abort::OutOfBounds)
            } else if !pieces_decode(region(m, pieces_off as int, pieces_len as int)) {
                r == Err::<Cid, Abort>(Abort::Decode)
            } else {
                r is Ok || r matches Err(Abort::Capability(_))
            }
        }),
        r matches Ok(c) ==> c == K::unsealed_cid_spec(
            proof_of_tag(proof_type),
            pieces_of(region(memory@, pieces_off as int, pieces_len as int)),
        ),
{
    let pieces = match read_pieces(memory, pieces_off, pieces_len) {
        Ok(v) => v,
        Err(a) => {
            return Err(a);
        },
    };
    let typ = seal_proof_from_tag(proof_type);
    match kernel.compute_unsealed_sector_cid(typ, pieces.as_slice()) {
        Ok(c) => Ok(c),
        Err(e) => Err(Abort::Capability(e)),
    }
}

/// Verify a sector seal proof.
pub fn verify_seal<K: Kernel>(kernel: &mut K, memory: &Memory, info_off: u32, info_len: u32) -> (r:
    Result<bool, Abort>)
    ensures
        final(kernel).pending_returns() == old(kernel).pending_returns(),
        ({
            let m = memory@;
            if !range_in_bounds(m.len() as int, info_off as int, info_len as int) {
                r == Err::<bool, Abort>(Abort::OutOfBounds)
            } else if !seal_info_decodes(region(m, info_off as int, info_len as int)) {
                r == Err::<bool, Abort>(Abort::Decode)
            } else {
                (r matches Ok(b) && b == old(kernel).seal_verdict(
                    seal_info_of(region(m, info_off as int, info_len as int)),
                )) || r matches Err(Abort::Capability(_))
            }
        }),
{
    let info = match read_seal_info(memory, info_off, info_len) {
        Ok(v) => v,
        Err(a) => {
            return Err(a);
        },
    };
    match kernel.verify_seal(&info) {
        Ok(b) => Ok(b),
        Err(e) => Err(Abort::Capability(e)),
    }
}

/// Verify a window proof of spacetime.
pub fn verify_post<K: Kernel>(kernel: &mut K, memory: &Memory, info_off: u32, info_len: u32) -> (r:
    Result<bool, Abort>)
    ensures
        final(kernel).pending_returns() == old(kernel).pending_returns(),
        ({
            let m = memory@;
            if !range_in_bounds(m.len() as int, info_off as int, info_len as int) {
                r == Err::<bool, Abort>(Abort::OutOfBounds)
            } else if !post_info_decodes(region(m, info_off as int, info_len as int)) {
                r == Err::<bool, Abort>(Abort::Decode)
            } else {
                (r matches Ok(b) && b == old(kernel).post_verdict(
                    post_info_of(region(m, info_off as int, info_len as int)),
                )) || r matches Err(Abort::Capability(_))
            }
        }),
{
    let info = match read_post_info(memory, info_off, info_len) {
        Ok(v) => v,
        Err(a) => {
            return Err(a);
        },
    };
    match kernel.verify_post(&info) {
        Ok(b) => Ok(b),
        Err(e) => Err(Abort::Capability(e)),
    }
}

/// Verify an aggregated seal proof.
pub fn verify_aggregate_seals<K: Kernel>(
    kernel: &mut K,
    memory: &Memory,
    agg_off: u32,
    agg_len: u32,
) -> (r: Result<bool, Abort>)
    ensures
        final(kernel).pending_returns() == old(kernel).pending_returns(),
        ({
            let m = memory@;
            if !range_in_bounds(m.len() as int, agg_off as int, agg_len as int) {
                r == Err::<bool, Abort>(Abort::OutOfBounds)
            } else if !agg_info_decodes(region(m, agg_off as int, agg_len as int)) {
                r == Err::<bool, Abort>(Abort::Decode)
            } else {
                (r matches Ok(b) && b == old(kernel).agg_verdict(
                    agg_info_of(region(m, agg_off as int, agg_len as int)),
                )) || r matches Err(Abort::Capability(_))
            }
        }),
{
    let info = match read_agg_info(memory, agg_off, agg_len) {
        Ok(v) => v,
        Err(a) => {
            return Err(a);
        },
    };
    match kernel.verify_aggregate_seals(&info) {
        Ok(b) => Ok(b),
        Err(e) => Err(Abort::Capability(e)),
    }
}

/// Translate the capability's consensus-fault finding into the boundary's
/// protocol: "no fault" is the answer `false` with the side channel
/// untouched; a proven fault pushes its detail payload and answers `true`,
/// or aborts with the push's failure, the channel untouched.  A finding is
/// never dropped: each value of `ret` fixes the outcome.
pub fn settle_fault_outcome<K: Kernel>(kernel: &mut K, ret: Option<Vec<u8>>) -> (r: Result<
    bool,
    Abort,
>)
    ensures
        ret is None ==> r == Ok::<bool, Abort>(false) && final(kernel).pending_returns() == old(
            kernel,
        ).pending_returns(),
        ret matches Some(f) ==> (r == Ok::<bool, Abort>(true) && final(kernel).pending_returns()
            == old(kernel).pending_returns().push(f@)) || (r matches Err(Abort::Capability(_))
            && final(kernel).pending_returns() == old(kernel).pending_returns()),
{
    match ret {
        // Fault proven: push the detail payload onto the side channel and
        // answer true.
        Some(fault) => match kernel.return_push(fault) {
            Ok(()) => Ok(true),
            Err(e) => Err(Abort::Capability(e)),
        },
        // No consensus fault.
        None => Ok(false),
    }
}

/// Check two serialized block headers for a consensus fault.
///
/// The three-valued outcome collapses onto a boolean plus the side channel:
/// no fault proven returns `false` and leaves the side channel untouched; a
/// proven fault pushes exactly one fault-detail payload and returns `true`;
/// an internal error evaluating the predicate aborts.  Identical headers
/// never prove a fault; on headers the capability reads as valid, the
/// answer follows the fault predicate — epoch order is respected, and a
/// reachable double mine is reported.
pub fn verify_consensus_fault<K: Kernel>(
    kernel: &mut K,
    memory: &Memory,
    h1_off: u32,
    h1_len: u32,
    h2_off: u32,
    h2_len: u32,
    extra_off: u32,
    extra_len: u32,
) -> (r: Result<bool, Abort>)
    ensures
        ({
            let m = memory@;
            if !range_in_bounds(m.len() as int, h1_off as int, h1_len as int) || !range_in_bounds(
                m.len() as int,
                h2_off as int,
                h2_len as int,
            ) || !range_in_bounds(m.len() as int, extra_off as int, extra_len as int) {
                r == Err::<bool, Abort>(Abort::OutOfBounds)
            } else {
                r is Ok || r matches Err(Abort::Capability(_))
            }
        }),
        r == Ok::<bool, Abort>(true) ==> final(kernel).pending_returns().len() == old(
            kernel,
        ).pending_returns().len() + 1 && final(kernel).pending_returns().subrange(
            0,
            old(kernel).pending_returns().len() as int,
        ) == old(kernel).pending_returns(),
        r != Ok::<bool, Abort>(true) ==> final(kernel).pending_returns() == old(
            kernel,
        ).pending_returns(),
        ({
            let m = memory@;
            (range_in_bounds(m.len() as int, h1_off as int, h1_len as int) && range_in_bounds(
                m.len() as int,
                h2_off as int,
                h2_len as int,
            ) && region(m, h1_off as int, h1_len as int) == region(m, h2_off as int, h2_len as int)
                && r is Ok) ==> r == Ok::<bool, Abort>(false)
        }),
        ({
            let m = memory@;
            let inb = range_in_bounds(m.len() as int, h1_off as int, h1_len as int)
                && range_in_bounds(m.len() as int, h2_off as int, h2_len as int)
                && range_in_bounds(m.len() as int, extra_off as int, extra_len as int);
            let finding = old(kernel).fault_finding(
                region(m, h1_off as int, h1_len as int),
                region(m, h2_off as int, h2_len as int),
                region(m, extra_off as int, extra_len as int),
            );
            &&& ((inb && r == Ok::<bool, Abort>(false)) ==> finding is None)
            &&& ((inb && r == Ok::<bool, Abort>(true)) ==> (finding matches Some(q)
                && final(kernel).pending_returns() == old(kernel).pending_returns().push(q)))
        }),
        ({
            let m = memory@;
            match (K::header_view(region(m, h1_off as int, h1_len as int)), K::header_view(
                region(m, h2_off as int, h2_len as int),
            )) {
                (Some(a), Some(b)) => {
                    &&& (a.epoch > b.epoch && r is Ok) ==> r == Ok::<bool, Abort>(false)
                    &&& (a.id != b.id && a.miner == b.miner && a.epoch == b.epoch && (old(
                        kernel,
                    ).reachable(a) || old(kernel).reachable(b)) && r is Ok) ==> r == Ok::<
                        bool,
                        Abort,
                    >(true)
                },
                _ => true,
            }
        }),
{
    let h1 = match memory.slice(h1_off, h1_len) {
        Ok(s) => s,
        Err(_) => {
            return Err(Abort::OutOfBounds);
        },
    };
    let h2 = match memory.slice(h2_off, h2_len) {
        Ok(s) => s,
        Err(_) => {
            return Err(Abort::OutOfBounds);
        },
    };
    let extra = match memory.slice(extra_off, extra_len) {
        Ok(s) => s,
        Err(_) => {
            return Err(Abort::OutOfBounds);
        },
    };
    let ret = match kernel.verify_consensus_fault(h1, h2, extra) {
        Ok(v) => v,
        Err(e) => {
            return Err(Abort::Capability(e));
        },
    };
    settle_fault_outcome(kernel, ret)
}

} // verus!
