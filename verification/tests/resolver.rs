use multicore::cpus::resolve_num_cpus;

#[test]
fn override_with_positive_integer_wins() {
    assert_eq!(resolve_num_cpus(Some(b"4".to_vec())), 4);
    assert_eq!(resolve_num_cpus(Some(b"1".to_vec())), 1);
    assert_eq!(resolve_num_cpus(Some(b"007".to_vec())), 7);
    assert_eq!(resolve_num_cpus(Some(b"+7".to_vec())), 7);
}

#[test]
fn absent_override_uses_hardware_count() {
    let n = resolve_num_cpus(None);
    assert!(n >= 1);
}

#[test]
fn malformed_override_falls_back_to_hardware_count() {
    let hardware = resolve_num_cpus(None);
    assert_eq!(resolve_num_cpus(Some(b"abc".to_vec())), hardware);
    assert_eq!(resolve_num_cpus(Some(b"".to_vec())), hardware);
    assert_eq!(resolve_num_cpus(Some(b"+".to_vec())), hardware);
    assert_eq!(resolve_num_cpus(Some(b"4x".to_vec())), hardware);
    assert_eq!(resolve_num_cpus(Some(b"-4".to_vec())), hardware);
    assert_eq!(resolve_num_cpus(Some(b" 4".to_vec())), hardware);
}

#[test]
fn zero_override_falls_back_to_hardware_count() {
    let hardware = resolve_num_cpus(None);
    assert_eq!(resolve_num_cpus(Some(b"0".to_vec())), hardware);
    assert_eq!(resolve_num_cpus(Some(b"000".to_vec())), hardware);
}

#[test]
fn oversized_override_falls_back_to_hardware_count() {
    let hardware = resolve_num_cpus(None);
    assert_eq!(resolve_num_cpus(Some(b"99999999999999999999999999".to_vec())), hardware);
}
