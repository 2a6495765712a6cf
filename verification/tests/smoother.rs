use carbonate_engine::ledger::CompositionState;
use carbonate_engine::smoother::{clamp_ph_millis, planning_ph_adjust};

#[test]
fn ph_clamp_respects_the_scale() {
    assert_eq!(clamp_ph_millis(-5), 0);
    assert_eq!(clamp_ph_millis(15_000), 14_300);
    assert_eq!(clamp_ph_millis(7_000), 7_000);
}

#[test]
fn plateau_clamps_depleted_carbonate() {
    // Carbonate is 1% of the pool, bicarbonate buffers: the estimate is
    // pulled into [8.0, 8.3].
    let state = CompositionState {
        free_naoh: 0,
        carbonate: 1,
        bicarbonate: 99,
        excess_co2: 0,
    };
    assert_eq!(planning_ph_adjust(&state, 9_500, Some(10_330), 0), 8_300);
    assert_eq!(planning_ph_adjust(&state, 7_000, Some(10_330), 0), 8_000);
    assert_eq!(planning_ph_adjust(&state, 8_100, Some(10_330), 0), 8_100);
}

#[test]
fn plateau_leaves_carbonate_rich_pools_alone() {
    let state = CompositionState {
        free_naoh: 0,
        carbonate: 50,
        bicarbonate: 50,
        excess_co2: 0,
    };
    assert_eq!(planning_ph_adjust(&state, 9_500, Some(10_330), 0), 9_500);
}

#[test]
fn equivalence_point_bands_around_pka2() {
    let state = CompositionState {
        free_naoh: 0,
        carbonate: 10,
        bicarbonate: 0,
        excess_co2: 0,
    };
    // Banded up to pKa2 - 0.35; no plateau, since nothing else buffers.
    assert_eq!(planning_ph_adjust(&state, 9_000, Some(10_330), 0), 9_980);
    assert_eq!(planning_ph_adjust(&state, 11_000, Some(10_330), 0), 10_680);
    assert_eq!(planning_ph_adjust(&state, 10_100, Some(10_330), 0), 10_100);
}

#[test]
fn equivalence_point_uses_default_anchor() {
    let state = CompositionState {
        free_naoh: 0,
        carbonate: 10,
        bicarbonate: 0,
        excess_co2: 0,
    };
    assert_eq!(planning_ph_adjust(&state, 9_000, None, 0), 9_980);
}

#[test]
fn absolute_floor_triggers_the_plateau() {
    // Carbonate under the absolute floor with excess CO2 buffering: the
    // equivalence band applies first, the plateau wins afterwards.
    let state = CompositionState {
        free_naoh: 0,
        carbonate: 900,
        bicarbonate: 0,
        excess_co2: 5,
    };
    assert_eq!(planning_ph_adjust(&state, 10_000, Some(10_330), 1_000), 8_300);
}

#[test]
fn naoh_still_present_means_no_equivalence_band() {
    let state = CompositionState {
        free_naoh: 3,
        carbonate: 10,
        bicarbonate: 0,
        excess_co2: 0,
    };
    assert_eq!(planning_ph_adjust(&state, 9_000, Some(10_330), 0), 9_000);
}
