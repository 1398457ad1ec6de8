use double_pendulum::multi_step;

#[test]
fn zero_sub_steps_leave_state_unchanged() {
    let r = multi_step((1.5f64, -2.0f64), 0, |(a, b): (f64, f64)| (a + 1.0, b * 3.0));
    assert_eq!(r, (1.5, -2.0));
}

#[test]
fn one_sub_step_equals_a_single_step() {
    let step = |(a, p): (f64, f64)| (a + 0.25 * p, p - 0.5 * a);
    let s = (0.75f64, -1.25f64);
    assert_eq!(multi_step(s, 1, step), step(s));
}

#[test]
fn sub_steps_are_applied_in_sequence() {
    // Each step sees the output of the previous one: 1 -> 3 -> 7 -> 15 -> 31.
    let r = multi_step(1u64, 4, |x: u64| 2 * x + 1);
    assert_eq!(r, 31);
}

#[test]
fn sub_step_count_is_exact() {
    let r = multi_step(0u64, 1000, |x: u64| x + 1);
    assert_eq!(r, 1000);
}

#[test]
fn stepping_is_reproducible() {
    let step = |(a, p): (f64, f64)| (a + 0.01 * p, p - 0.01 * a.sin());
    let s = (std::f64::consts::FRAC_PI_4, 0.0f64);
    let first = multi_step(s, 5, step);
    let second = multi_step(s, 5, step);
    assert_eq!(first.0.to_bits(), second.0.to_bits());
    assert_eq!(first.1.to_bits(), second.1.to_bits());
}
