//! The capability interface: the abstract contract the host exposes to the
//! crypto syscalls.
//!
//! Its concrete implementation is an external collaborator; the syscall set
//! depends only on this contract.  Each operation either produces a definite
//! outcome or fails with an operation-specific error, which the syscall turns
//! into an abort of the current message.  The interface also exposes the
//! side channel used by consensus-fault detection: a push of one auxiliary
//! structured return payload, which the guest retrieves through a separate
//! call.

use vstd::prelude::*;

use cid::Cid;
use fvm_shared::crypto::signature::Signature;
use fvm_shared::address::Address;
use fvm_shared::piece::PieceInfo;
use fvm_shared::sector::{
    AggregateSealVerifyProofAndInfos, RegisteredSealProof, SealVerifyInfo, WindowPoStVerifyInfo,
};

use crate::fault::{fault_spec, HeaderInfo};

verus! {

/// An operation-specific failure of the capability backing a syscall: the
/// underlying cause of an eventual abort.
#[derive(Clone, Copy, Debug, PartialEq, Eq, Structural)]
pub struct CapError {
    pub code: u64,
}

/// The host capabilities a syscall may invoke.
///
/// Contracts here are the obligations the syscall layer relies on.  An
/// implementation outside this library is trusted to honour them.  No
/// cryptographic algorithm is written out; instead each operation's answer
/// is pinned to the implementation's own model of it (a verdict, digest,
/// identifier or finding spec function), so that a syscall's result is
/// provably the capability's answer on exactly the argument values handed
/// over.  No operation but `return_push` touches the side channel.
pub trait Kernel: Sized {
    /// The auxiliary return payloads pushed and not yet retrieved, oldest
    /// first.
    spec fn pending_returns(&self) -> Seq<Seq<u8>>;

    /// The digest this capability computes for a byte sequence: a function
    /// of the bytes alone.
    spec fn hash_spec(data: Seq<u8>) -> Seq<u8>;

    /// The unsealed-sector identifier this capability derives from a proof
    /// type and piece list: a function of the arguments alone.
    spec fn unsealed_cid_spec(proof: RegisteredSealProof, pieces: Seq<PieceInfo>) -> Cid;

    /// How this capability reads a serialized block header: the fields the
    /// fault predicate consumes, or `None` when the bytes are not a valid,
    /// properly signed header.  A function of the bytes alone.
    spec fn header_view(bytes: Seq<u8>) -> Option<HeaderInfo>;

    /// Whether this capability finds the header reachable in the canonical
    /// chain at or after the caller-supplied earliest-epoch bound.
    spec fn reachable(&self, h: HeaderInfo) -> bool;

    /// The verdict this capability reaches on a signature check: its model
    /// of "sig is valid for addr over plaintext" in its current state.
    spec fn sig_verdict(&self, sig: Signature, addr: Address, plaintext: Seq<u8>) -> bool;

    /// The verdict this capability reaches on a seal-verify descriptor.
    spec fn seal_verdict(&self, info: SealVerifyInfo) -> bool;

    /// The verdict this capability reaches on a proof-of-spacetime
    /// descriptor.
    spec fn post_verdict(&self, info: WindowPoStVerifyInfo) -> bool;

    /// The verdict this capability reaches on an aggregated-seal descriptor.
    spec fn agg_verdict(&self, agg: AggregateSealVerifyProofAndInfos) -> bool;

    /// The finding this capability reaches on a header triple: `None` for
    /// "no fault proven", or the encoded fault-detail payload, in its
    /// current state.
    spec fn fault_finding(&self, h1: Seq<u8>, h2: Seq<u8>, extra: Seq<u8>) -> Option<Seq<u8>>;

    /// Check a signature over `plaintext` for `addr`.  An invalid signature
    /// is the answer `false`, not an error.
    fn verify_signature(&mut self, sig: &Signature, addr: &Address, plaintext: &[u8]) -> (r:
        Result<bool, CapError>)
        ensures
            final(self).pending_returns() == old(self).pending_returns(),
            r matches Ok(b) ==> b == old(self).sig_verdict(*sig, *addr, plaintext@),
    ;

    /// Hash `data` with blake2b, 256-bit output.
    fn hash_blake2b(&mut self, data: &[u8]) -> (r: Result<Vec<u8>, CapError>)
        ensures
            final(self).pending_returns() == old(self).pending_returns(),
            r matches Ok(d) ==> d@ == Self::hash_spec(data@) && d@.len() == 32,
    ;

    /// Derive the unsealed sector identifier for a proof type and its piece
    /// descriptors.
    fn compute_unsealed_sector_cid(&mut self, proof: RegisteredSealProof, pieces: &[PieceInfo])
        -> (r: Result<Cid, CapError>)
        ensures
            final(self).pending_returns() == old(self).pending_returns(),
            r matches Ok(c) ==> c == Self::unsealed_cid_spec(proof, pieces@),
    ;

    /// Verify a sector-sealing proof.
    fn verify_seal(&mut self, info: &SealVerifyInfo) -> (r: Result<bool, CapError>)
        ensures
            final(self).pending_returns() == old(self).pending_returns(),
            r matches Ok(b) ==> b == old(self).seal_verdict(*info),
    ;

    /// Verify a window proof of spacetime.
    fn verify_post(&mut self, info: &WindowPoStVerifyInfo) -> (r: Result<bool, CapError>)
        ensures
            final(self).pending_returns() == old(self).pending_returns(),
            r matches Ok(b) ==> b == old(self).post_verdict(*info),
    ;

    /// Verify an aggregated seal proof.
    fn verify_aggregate_seals(&mut self, agg: &AggregateSealVerifyProofAndInfos) -> (r: Result<
        bool,
        CapError,
    >)
        ensures
            final(self).pending_returns() == old(self).pending_returns(),
            r matches Ok(b) ==> b == old(self).agg_verdict(*agg),
    ;

    /// Evaluate the consensus-fault predicate on two serialized block headers
    /// (and the auxiliary header consulted for parent grinding).  `Ok(None)`
    /// is the definite answer "no fault proven"; identical headers can never
    /// prove a fault, and on headers this capability reads as valid its
    /// finding is exactly the fault predicate over their fields, with its
    /// own chain-lookup answers.  The encoded fault details of a proven
    /// fault come back as a payload for the side channel; this operation
    /// itself leaves the channel untouched.
    fn verify_consensus_fault(&mut self, h1: &[u8], h2: &[u8], extra: &[u8]) -> (r: Result<
        Option<Vec<u8>>,
        CapError,
    >)
        ensures
            final(self).pending_returns() == old(self).pending_returns(),
            (r matches Ok(f) && f is Some) ==> h1@ != h2@,
            r matches Ok(f) ==> ({
                let finding = old(self).fault_finding(h1@, h2@, extra@);
                &&& (f is Some <==> finding is Some)
                &&& (f matches Some(p) ==> (finding matches Some(q) && p@ == q))
            }),
            r matches Ok(f) ==> ({
                match (Self::header_view(h1@), Self::header_view(h2@)) {
                    (Some(a), Some(b)) => (f is Some <==> fault_spec(
                        a,
                        b,
                        Self::header_view(extra@),
                        old(self).reachable(a),
                        old(self).reachable(b),
                    ) is Some),
                    _ => true,
                }
            }),
    ;

    /// Push one auxiliary return payload onto the side channel.
    fn return_push(&mut self, payload: Vec<u8>) -> (r: Result<(), CapError>)
        ensures
            r is Ok ==> final(self).pending_returns() == old(self).pending_returns().push(payload@),
            r is Err ==> final(self).pending_returns() == old(self).pending_returns(),
    ;
}

/// Hashing is deterministic: the digest a capability owes for a byte
/// sequence is a function of the bytes alone, so any two digests it hands
/// out for the same input are equal.
pub proof fn lemma_hash_deterministic<K: Kernel>(data: Seq<u8>, d1: Seq<u8>, d2: Seq<u8>)
    requires
        d1 == K::hash_spec(data),
        d2 == K::hash_spec(data),
    ensures
        d1 == d2,
{
}

/// Unsealed-sector identifiers are deterministic: the identifier a
/// capability owes for a proof type and piece list is a function of those
/// arguments alone, so repeated derivations agree.
pub proof fn lemma_unsealed_cid_deterministic<K: Kernel>(
    proof_type: RegisteredSealProof,
    pieces: Seq<PieceInfo>,
    c1: Cid,
    c2: Cid,
)
    requires
        c1 == K::unsealed_cid_spec(proof_type, pieces),
        c2 == K::unsealed_cid_spec(proof_type, pieces),
    ensures
        c1 == c2,
{
}

} // verus!
