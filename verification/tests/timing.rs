use satlink::timing::{elapsed, rate_x100};

#[test]
fn elapsed_time_is_the_difference_of_two_instants() {
    assert_eq!(elapsed(1_000, 1_500), 500);
    assert_eq!(elapsed(0, u64::MAX), u64::MAX);
    assert_eq!(elapsed(7, 7), 0);
}

#[test]
fn elapsed_time_is_zero_when_the_later_instant_is_earlier() {
    assert_eq!(elapsed(1_500, 1_000), 0);
    assert_eq!(elapsed(u64::MAX, 0), 0);
}

#[test]
fn rates_are_in_hundredths_per_second_rounded_down() {
    assert_eq!(rate_x100(100, 50_000_000), 200);
    assert_eq!(rate_x100(1, 3_000_000), 33);
    assert_eq!(rate_x100(2, 3_000_000), 66);
    assert_eq!(rate_x100(0, 1), 0);
    assert_eq!(rate_x100(u64::MAX, 1), u64::MAX as u128 * 100_000_000);
}

#[test]
fn rates_are_zero_when_no_time_has_elapsed() {
    assert_eq!(rate_x100(0, 0), 0);
    assert_eq!(rate_x100(1, 0), 0);
    assert_eq!(rate_x100(u64::MAX, 0), 0);
}
