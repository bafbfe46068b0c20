//! The consensus-fault predicate.
//!
//! A fault is provable from two block headers (and, for parent grinding, a
//! third).  Headers are content-addressed: a header is named by the
//! identifier derived from its bytes, so two headers are the same exactly
//! when their identifiers are equal.  This module works on the fields the
//! predicate reads — producer, epoch, parent set, identifier — as plain
//! values; attributing a header to its producer (a signature check) and
//! looking a header up in the canonical chain are the capability's work, and
//! their outcomes arrive here as inputs.

use vstd::prelude::*;

verus! {

/// The fields of a block header that the consensus-fault predicate reads.
pub struct HeaderInfo {
    /// The header's content-derived identifier; equal identifiers name the
    /// same header.
    pub id: u64,
    /// The actor that produced (mined) the header.
    pub miner: u64,
    /// The chain epoch (round) the header was produced for.
    pub epoch: i64,
    /// Identifiers of the headers of the parent tipset.
    pub parents: Vec<u64>,
}

/// The closed set of provable fault patterns.
#[derive(Clone, Copy, Debug, PartialEq, Eq, Structural)]
pub enum FaultKind {
    /// Two different headers by one producer at the same epoch.
    DoubleForkMining,
    /// Two headers by one producer over the same parent tipset at different
    /// epochs.
    TimeOffsetMining,
    /// The second header mines on a sibling of the first instead of on it:
    /// the auxiliary header shares the first's parent tipset and epoch, sits
    /// in the second's parent set, and the first does not.
    ParentGrinding,
}

/// Whether `extra` witnesses parent grinding by `h1` and `h2`: `extra` is a
/// sibling of `h1` (same parent tipset, same epoch), `h2` mines on `extra`,
/// and `h2` does not mine on `h1`.
pub open spec fn parent_grinding_witness(h1: HeaderInfo, h2: HeaderInfo, ex: HeaderInfo) -> bool {
    ex.parents@ == h1.parents@ && ex.epoch == h1.epoch && h2.parents@.contains(ex.id)
        && !h2.parents@.contains(h1.id)
}

/// The consensus-fault predicate: which fault, if any, the headers prove.
///
/// No fault is provable unless the headers differ, both are attributed to
/// one producer, the first's epoch is at most the second's, and at least one
/// header is reachable in the canonical chain at or after the caller's
/// earliest-epoch bound (`h1_reachable` / `h2_reachable` carry the
/// capability's chain-lookup answers).
pub open spec fn fault_spec(
    h1: HeaderInfo,
    h2: HeaderInfo,
    extra: Option<HeaderInfo>,
    h1_reachable: bool,
    h2_reachable: bool,
) -> Option<FaultKind> {
    if h1.id == h2.id {
        None
    } else if h1.miner != h2.miner {
        None
    } else if h1.epoch > h2.epoch {
        None
    } else if !h1_reachable && !h2_reachable {
        None
    } else if h1.epoch == h2.epoch {
        Some(FaultKind::DoubleForkMining)
    } else if h1.parents@ == h2.parents@ {
        Some(FaultKind::TimeOffsetMining)
    } else if extra matches Some(ex) && parent_grinding_witness(h1, h2, ex) {
        Some(FaultKind::ParentGrinding)
    } else {
        None
    }
}

/// Whether two parent-identifier lists name the same tipset.
fn ids_equal(a: &Vec<u64>, b: &Vec<u64>) -> (r: bool)
    ensures
        r <==> a@ == b@,
{
    if a.len() != b.len() {
        return false;
    }
    let n: usize = a.len();
    let mut i: usize = 0;
    while i < n
        invariant
            i <= n,
            a@.len() == n,
            b@.len() == n,
            forall|j: int| 0 <= j < i ==> a@[j] == b@[j],
        decreases n - i,
    {
        if a[i] != b[i] {
            return false;
        }
        i += 1;
    }
    proof {
        assert(a@ =~= b@);
    }
    true
}

/// Whether `x` is among the identifiers in `a`.
fn ids_contain(a: &Vec<u64>, x: u64) -> (r: bool)
    ensures
        r <==> a@.contains(x),
{
    let n: usize = a.len();
    let mut i: usize = 0;
    while i < n
        invariant
            i <= n,
            a@.len() == n,
            forall|j: int| 0 <= j < i ==> a@[j] != x,
        decreases n - i,
    {
        if a[i] == x {
            return true;
        }
        i += 1;
    }
    false
}

/// Evaluate the consensus-fault predicate.
pub fn consensus_fault(
    h1: &HeaderInfo,
    h2: &HeaderInfo,
    extra: Option<&HeaderInfo>,
    h1_reachable: bool,
    h2_reachable: bool,
) -> (r: Option<FaultKind>)
    ensures
        match extra {
            Some(ex) => r == fault_spec(*h1, *h2, Some(*ex), h1_reachable, h2_reachable),
            None => r == fault_spec(*h1, *h2, None, h1_reachable, h2_reachable),
        },
{
    if h1.id == h2.id {
        return None;
    }
    if h1.miner != h2.miner {
        return None;
    }
    if h1.epoch > h2.epoch {
        return None;
    }
    if !h1_reachable && !h2_reachable {
        return None;
    }
    if h1.epoch == h2.epoch {
        return Some(FaultKind::DoubleForkMining);
    }
    if ids_equal(&h1.parents, &h2.parents) {
        return Some(FaultKind::TimeOffsetMining);
    }
    match extra {
        Some(ex) => {
            if ids_equal(&ex.parents, &h1.parents) && ex.epoch == h1.epoch && ids_contain(
                &h2.parents,
                ex.id,
            ) && !ids_contain(&h2.parents, h1.id) {
                Some(FaultKind::ParentGrinding)
            } else {
                None
            }
        },
        None => None,
    }
}

/// Identical headers prove nothing: the predicate answers "no fault" for a
/// header paired with itself, whatever else holds.
pub proof fn lemma_identical_headers_no_fault(
    h: HeaderInfo,
    extra: Option<HeaderInfo>,
    h1_reachable: bool,
    h2_reachable: bool,
)
    ensures
        fault_spec(h, h, extra, h1_reachable, h2_reachable) is None,
{
}

/// Epoch order is respected: no fault is provable when the first header's
/// epoch is strictly above the second's.
pub proof fn lemma_epoch_order_no_fault(
    h1: HeaderInfo,
    h2: HeaderInfo,
    extra: Option<HeaderInfo>,
    h1_reachable: bool,
    h2_reachable: bool,
)
    requires
        h1.epoch > h2.epoch,
    ensures
        fault_spec(h1, h2, extra, h1_reachable, h2_reachable) is None,
{
}

/// A valid double mine is always detected: two different headers by one
/// producer at one epoch, at least one of them reachable, prove
/// double-fork mining.
pub proof fn lemma_double_fork_detected(
    h1: HeaderInfo,
    h2: HeaderInfo,
    extra: Option<HeaderInfo>,
    h1_reachable: bool,
    h2_reachable: bool,
)
    requires
        h1.id != h2.id,
        h1.miner == h2.miner,
        h1.epoch == h2.epoch,
        h1_reachable || h2_reachable,
    ensures
        fault_spec(h1, h2, extra, h1_reachable, h2_reachable) == Some(FaultKind::DoubleForkMining),
{
}

/// An unreachable pair proves nothing: when neither header is reachable in
/// the canonical chain at or after the earliest-epoch bound, the predicate
/// answers "no fault".
pub proof fn lemma_unreachable_no_fault(h1: HeaderInfo, h2: HeaderInfo, extra: Option<HeaderInfo>)
    ensures
        fault_spec(h1, h2, extra, false, false) is None,
{
}

} // verus!
