use fvm_bridge::memory::Memory;

fn sample() -> Memory {
    Memory::new(vec![0, 1, 2, 3, 4, 5, 6, 7, 8, 9])
}

#[test]
fn slice_in_bounds_returns_exact_bytes() {
    let m = sample();
    let s = m.slice(2, 3).unwrap();
    assert_eq!(s, &[2u8, 3, 4]);
    assert_eq!(s.len(), 3);
}

#[test]
fn slice_whole_region() {
    let m = sample();
    let s = m.slice(0, 10).unwrap();
    assert_eq!(s.len(), 10);
    assert_eq!(s[9], 9);
}

#[test]
fn slice_empty_at_end_succeeds() {
    let m = sample();
    let s = m.slice(10, 0).unwrap();
    assert_eq!(s.len(), 0);
}

#[test]
fn slice_out_of_bounds_fails() {
    let m = sample();
    assert!(m.slice(8, 3).is_err());
    assert!(m.slice(10, 1).is_err());
    assert!(m.slice(0, 11).is_err());
    assert!(m.slice(11, 0).is_err());
}

#[test]
fn slice_huge_offsets_fail_without_wrapping() {
    let m = sample();
    assert!(m.slice(u32::MAX, u32::MAX).is_err());
    assert!(m.slice(u32::MAX, 1).is_err());
    assert!(m.slice(1, u32::MAX).is_err());
}

#[test]
fn try_slice_returns_owned_copy() {
    let m = sample();
    let v = m.try_slice(4, 4).unwrap();
    assert_eq!(v, vec![4, 5, 6, 7]);
    assert!(m.try_slice(9, 2).is_err());
}

#[test]
fn write_slice_replaces_exactly_the_range() {
    let mut m = sample();
    m.write_slice(4, &[90, 91]).unwrap();
    let all = m.slice(0, 10).unwrap();
    assert_eq!(all, &[0, 1, 2, 3, 90, 91, 6, 7, 8, 9]);
}

#[test]
fn write_slice_out_of_bounds_leaves_memory_unchanged() {
    let mut m = sample();
    assert!(m.write_slice(9, &[1, 2]).is_err());
    assert!(m.write_slice(11, &[]).is_err());
    let all = m.slice(0, 10).unwrap();
    assert_eq!(all, &[0, 1, 2, 3, 4, 5, 6, 7, 8, 9]);
}

#[test]
fn size_reports_region_length() {
    assert_eq!(sample().size(), 10);
    assert_eq!(Memory::new(vec![]).size(), 0);
}
