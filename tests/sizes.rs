use remote_read::sizes::read_sizes;

#[test]
fn sizes_for_one_mebibyte() {
    let s = read_sizes(1 << 20);
    assert_eq!(s.len(), 17);
    assert_eq!(s[0], 16);
    assert_eq!(s[1], 32);
    assert_eq!(s[16], 1 << 20);
    for w in s.windows(2) {
        assert_eq!(w[1], 2 * w[0]);
    }
}

#[test]
fn sizes_for_observer_allocation() {
    let s = read_sizes(128 << 20);
    assert_eq!(s.len(), 24);
    assert_eq!(*s.last().unwrap(), 128 << 20);
}

#[test]
fn sizes_boundary_is_inclusive() {
    assert_eq!(read_sizes(16), vec![16]);
    assert_eq!(read_sizes(31), vec![16]);
    assert_eq!(read_sizes(32), vec![16, 32]);
    assert_eq!(read_sizes(100), vec![16, 32, 64]);
}

#[test]
fn sizes_empty_below_sixteen() {
    assert!(read_sizes(0).is_empty());
    assert!(read_sizes(15).is_empty());
}

#[test]
fn sizes_at_largest_allocation() {
    let s = read_sizes(usize::MAX);
    assert_eq!(s.len(), usize::BITS as usize - 4);
    assert_eq!(*s.last().unwrap(), 1usize << (usize::BITS - 1));
}
