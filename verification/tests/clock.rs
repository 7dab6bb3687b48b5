use script_host::clock::clamp;

#[test]
fn clamp_keeps_what_fits() {
    assert_eq!(clamp(0), 0);
    assert_eq!(clamp(1_500), 1_500);
    assert_eq!(clamp(u64::MAX as u128), u64::MAX);
}

#[test]
fn clamp_stops_at_the_largest_sample() {
    assert_eq!(clamp(u64::MAX as u128 + 1), u64::MAX);
    assert_eq!(clamp(u128::MAX), u64::MAX);
}
