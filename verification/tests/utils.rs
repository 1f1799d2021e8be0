use math3d::utils::{next_power_of_two, ternary};

#[test]
fn next_power_of_two_rounds_up() {
    assert_eq!(next_power_of_two(1), 1);
    assert_eq!(next_power_of_two(2), 2);
    assert_eq!(next_power_of_two(3), 4);
    assert_eq!(next_power_of_two(5), 8);
    assert_eq!(next_power_of_two(1000), 1024);
    assert_eq!(next_power_of_two(1024), 1024);
    assert_eq!(next_power_of_two(1025), 2048);
    assert_eq!(next_power_of_two(0x7fff_ffff), 0x8000_0000);
    assert_eq!(next_power_of_two(0x8000_0000), 0x8000_0000);
}

#[test]
fn next_power_of_two_is_the_least_power_above() {
    for a in 1u32..5000 {
        let r = next_power_of_two(a);
        assert!(r.is_power_of_two());
        assert!(a <= r);
        assert!((r as u64) < 2 * a as u64);
    }
}

#[test]
fn ternary_picks_by_condition() {
    assert_eq!(ternary(true, 1, 2), 1);
    assert_eq!(ternary(false, 1, 2), 2);
    assert_eq!(ternary(2.5 > 0.0, 4.0, 0.0), 4.0);
    assert_eq!(ternary(0.0 > 0.0, 4.0, 0.0), 0.0);
    assert_eq!(ternary(false, "a", "b"), "b");
}
