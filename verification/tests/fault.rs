use fvm_bridge::fault::{consensus_fault, FaultKind, HeaderInfo};

fn header(id: u64, miner: u64, epoch: i64, parents: Vec<u64>) -> HeaderInfo {
    HeaderInfo {
        id,
        miner,
        epoch,
        parents,
    }
}

#[test]
fn identical_headers_prove_nothing() {
    let h1 = header(1, 7, 10, vec![100, 101]);
    let h2 = header(1, 7, 10, vec![100, 101]);
    assert_eq!(consensus_fault(&h1, &h2, None, true, true), None);
}

#[test]
fn first_epoch_above_second_proves_nothing() {
    let h1 = header(1, 7, 11, vec![100]);
    let h2 = header(2, 7, 10, vec![100]);
    assert_eq!(consensus_fault(&h1, &h2, None, true, true), None);
}

#[test]
fn different_miners_prove_nothing() {
    let h1 = header(1, 7, 10, vec![100]);
    let h2 = header(2, 8, 10, vec![100]);
    assert_eq!(consensus_fault(&h1, &h2, None, true, true), None);
}

#[test]
fn unreachable_headers_prove_nothing() {
    let h1 = header(1, 7, 10, vec![100]);
    let h2 = header(2, 7, 10, vec![101]);
    assert_eq!(consensus_fault(&h1, &h2, None, false, false), None);
}

#[test]
fn double_mine_is_double_fork_mining() {
    // Same producer, same epoch, differing content.
    let h1 = header(1, 7, 10, vec![100]);
    let h2 = header(2, 7, 10, vec![101]);
    assert_eq!(
        consensus_fault(&h1, &h2, None, true, false),
        Some(FaultKind::DoubleForkMining)
    );
    assert_eq!(
        consensus_fault(&h1, &h2, None, false, true),
        Some(FaultKind::DoubleForkMining)
    );
}

#[test]
fn same_parents_different_epochs_is_time_offset_mining() {
    let h1 = header(1, 7, 10, vec![100, 101]);
    let h2 = header(2, 7, 12, vec![100, 101]);
    assert_eq!(
        consensus_fault(&h1, &h2, None, true, true),
        Some(FaultKind::TimeOffsetMining)
    );
}

#[test]
fn sibling_in_second_parent_set_is_parent_grinding() {
    // extra is h1's sibling (same parents, same epoch); h2 mines on extra
    // and not on h1.
    let h1 = header(1, 7, 10, vec![100, 101]);
    let h2 = header(2, 7, 11, vec![3, 102]);
    let extra = header(3, 9, 10, vec![100, 101]);
    assert_eq!(
        consensus_fault(&h1, &h2, Some(&extra), true, true),
        Some(FaultKind::ParentGrinding)
    );
}

#[test]
fn parent_grinding_needs_the_witness() {
    let h1 = header(1, 7, 10, vec![100, 101]);
    let h2 = header(2, 7, 11, vec![3, 102]);
    // No auxiliary header at all.
    assert_eq!(consensus_fault(&h1, &h2, None, true, true), None);
    // Not a sibling: different parent tipset.
    let not_sibling = header(3, 9, 10, vec![100, 102]);
    assert_eq!(consensus_fault(&h1, &h2, Some(&not_sibling), true, true), None);
    // Sibling, but h2 does not mine on it.
    let unused_sibling = header(4, 9, 10, vec![100, 101]);
    assert_eq!(
        consensus_fault(&h1, &h2, Some(&unused_sibling), true, true),
        None
    );
}

#[test]
fn parent_grinding_excluded_when_h2_also_mines_on_h1() {
    let h1 = header(1, 7, 10, vec![100, 101]);
    let h2 = header(2, 7, 11, vec![1, 3]);
    let extra = header(3, 9, 10, vec![100, 101]);
    assert_eq!(consensus_fault(&h1, &h2, Some(&extra), true, true), None);
}
