use carbonate_engine::ledger::{apply_co2_dose, CompositionState};
use carbonate_engine::planner::{
    co2_for_target_ratio, partition_charged_co2, plan_dosing, split_buffer_by_ratio,
};

#[test]
fn partition_runs_both_stages() {
    let part = partition_charged_co2(1_000, 700);
    assert_eq!(part.stage1_co2, 500);
    assert_eq!(part.naoh_after_stage1, 0);
    assert_eq!(part.na2co3_from_stage1, 500);
    assert_eq!(part.co2_after_stage1, 200);
    assert_eq!(part.stage2_co2, 200);
    assert_eq!(part.na2co3_remaining, 300);
    assert_eq!(part.nahco3_produced, 400);
    assert_eq!(part.co2_excess, 0);
    assert_eq!(part.buffer_carbon, 700);
}

#[test]
fn partition_without_co2_keeps_the_charge() {
    // One mole of NaOH in picomole units and no CO2 charged yet.
    let naoh: u64 = 1_000_000_000_000;
    let part = partition_charged_co2(naoh, 0);
    assert_eq!(part.stage1_co2, 0);
    assert_eq!(part.naoh_after_stage1, naoh);
    assert_eq!(part.na2co3_from_stage1, 0);
    assert_eq!(part.buffer_carbon, 0);
}

#[test]
fn split_pool_at_even_ratio() {
    let (co3, hco3) = split_buffer_by_ratio(100, 1, 1);
    assert_eq!(co3, 50);
    assert_eq!(hco3, 50);
}

#[test]
fn split_pool_at_one_to_three() {
    let (co3, hco3) = split_buffer_by_ratio(100, 1, 3);
    assert_eq!(co3, 25);
    assert_eq!(hco3, 75);
}

#[test]
fn split_pool_rounds_carbonate_down() {
    let (co3, hco3) = split_buffer_by_ratio(10, 1, 2);
    assert_eq!(co3, 3);
    assert_eq!(hco3, 7);
}

#[test]
fn dose_for_even_target_ratio() {
    // All carbonate, target ratio 1: dosing 33 of 100 leaves 67
    // carbonate against 66 bicarbonate.
    let dose = co2_for_target_ratio(100, 0, 1, 1);
    assert_eq!(dose, 33);
}

#[test]
fn dose_is_zero_when_ratio_already_met() {
    let dose = co2_for_target_ratio(10, 100, 1, 1);
    assert_eq!(dose, 0);
}

#[test]
fn dose_is_capped_at_carbonate() {
    // A target ratio of zero asks for every carbonate unit.
    let dose = co2_for_target_ratio(7, 3, 0, 1);
    assert_eq!(dose, 7);
}

#[test]
fn exact_ratio_dose_reaches_the_target() {
    let dose = co2_for_target_ratio(99, 0, 1, 1);
    assert_eq!(dose, 33);
    let before = CompositionState {
        free_naoh: 0,
        carbonate: 99,
        bicarbonate: 0,
        excess_co2: 0,
    };
    let (after, _) = apply_co2_dose(&before, dose);
    assert_eq!(after.carbonate, 66);
    assert_eq!(after.bicarbonate, 66);
}

#[test]
fn plan_rejects_nonpositive_naoh() {
    assert!(plan_dosing(0, 5, None, 1, 1).is_none());
    assert!(plan_dosing(-3, 5, None, 1, 1).is_none());
}

#[test]
fn plan_rejects_negative_co2() {
    assert!(plan_dosing(10, -1, None, 1, 1).is_none());
}

#[test]
fn plan_for_fresh_charge() {
    // One mole of NaOH in micromole units, nothing charged yet; the
    // target ratio stands in for a pH of 8.0 against a pKa2 of 10.33.
    let plan = plan_dosing(1_000_000, 0, None, 4_677, 1_000_000).unwrap();
    assert_eq!(plan.partition.stage1_co2, 0);
    assert_eq!(plan.partition.naoh_after_stage1, 1_000_000);
    assert_eq!(plan.partition.buffer_carbon, 0);
    assert_eq!(plan.co3_current, 0);
    assert_eq!(plan.hco3_current, 0);
    assert_eq!(plan.co2_for_ratio, 0);
    assert_eq!(plan.co2_for_naoh, 500_000);
    assert_eq!(plan.total_extra, 500_000);
    assert_eq!(plan.predicted_state.free_naoh, 0);
    assert_eq!(plan.predicted_state.carbonate, 500_000);
    assert_eq!(plan.predicted_state.bicarbonate, 0);
    assert_eq!(plan.predicted_state.excess_co2, 0);
    assert_eq!(plan.predicted_accounting.consumed_total, 500_000);
    assert_eq!(plan.predicted_accounting.unconsumed, 0);
}

#[test]
fn plan_measured_ratio_overrides_split() {
    // The stoichiometric split would be 300 carbonate against 400
    // bicarbonate; a measured ratio of one to one overrides it.
    let plan = plan_dosing(1_000, 700, Some((1, 1)), 1, 1).unwrap();
    assert_eq!(plan.partition.na2co3_remaining, 300);
    assert_eq!(plan.partition.nahco3_produced, 400);
    assert_eq!(plan.co3_current, 350);
    assert_eq!(plan.hco3_current, 350);
}

#[test]
fn plan_without_measurement_keeps_stoichiometric_split() {
    let plan = plan_dosing(1_000, 700, None, 1, 1).unwrap();
    assert_eq!(plan.co3_current, 300);
    assert_eq!(plan.hco3_current, 400);
}
