use multicore::log2::log2_floor;

#[test]
fn test_log2_floor() {
    assert_eq!(log2_floor(1), 0);
    assert_eq!(log2_floor(2), 1);
    assert_eq!(log2_floor(3), 1);
    assert_eq!(log2_floor(4), 2);
    assert_eq!(log2_floor(5), 2);
    assert_eq!(log2_floor(6), 2);
    assert_eq!(log2_floor(7), 2);
    assert_eq!(log2_floor(8), 3);
}

#[test]
fn log2_floor_large_inputs() {
    assert_eq!(log2_floor(9), 3);
    assert_eq!(log2_floor(1 << 20), 20);
    assert_eq!(log2_floor((1 << 20) + 1), 20);
    assert_eq!(log2_floor(usize::MAX), usize::BITS - 1);
}
