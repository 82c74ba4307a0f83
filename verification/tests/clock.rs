use ffrenc::clock::clamp_nanos;

#[test]
fn readings_that_fit_are_kept() {
    assert_eq!(clamp_nanos(0), 0);
    assert_eq!(clamp_nanos(1), 1);
    assert_eq!(clamp_nanos(83_333_333), 83_333_333);
    assert_eq!(clamp_nanos(u64::MAX as u128), u64::MAX);
}

#[test]
fn readings_that_do_not_fit_become_the_largest_value() {
    assert_eq!(clamp_nanos(u64::MAX as u128 + 1), u64::MAX);
    assert_eq!(clamp_nanos(u128::MAX), u64::MAX);
}
