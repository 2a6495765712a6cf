use carbonate_engine::estimator::{override_ph, resolve_estimated_ph};

#[test]
fn solved_ph_stands_when_plausible() {
    assert_eq!(resolve_estimated_ph(Some(9_200), 10_000, 10_330, true), 9_200);
    assert_eq!(resolve_estimated_ph(Some(6_000), 10_000, 10_330, true), 6_000);
}

#[test]
fn acidic_solve_is_overridden_while_buffered() {
    // Override is the largest of fallback, pKa2 - 2.2 and 8.0.
    assert_eq!(resolve_estimated_ph(Some(3_000), 9_000, 10_330, true), 9_000);
    assert_eq!(resolve_estimated_ph(Some(3_000), 7_000, 10_330, true), 8_130);
    assert_eq!(resolve_estimated_ph(Some(3_000), 7_000, 9_000, true), 8_000);
}

#[test]
fn acidic_solve_stands_without_buffering() {
    assert_eq!(resolve_estimated_ph(Some(3_000), 9_000, 10_330, false), 3_000);
}

#[test]
fn failed_solve_falls_back() {
    assert_eq!(resolve_estimated_ph(None, 9_700, 10_330, false), 9_700);
    assert_eq!(resolve_estimated_ph(None, 7_000, 10_330, true), 8_130);
}

#[test]
fn override_is_clamped_to_the_scale() {
    assert_eq!(override_ph(14_200, 20_000), 14_300);
    assert_eq!(override_ph(-500, 4_000), 8_000);
}
