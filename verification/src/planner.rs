//! Titration planner: stoichiometric partition of the CO2 already
//! charged, the Henderson-Hasselbalch split of the buffer pool, and the
//! closed-form dose needed to reach a target carbonate/bicarbonate
//! ratio.
//!
//! The Henderson-Hasselbalch ratio 10^(pH - pKa2) enters as an exact
//! fraction `num / den`; the caller derives it from a measured or a
//! target pH outside the library.

use vstd::prelude::*;

use crate::ledger::{
    apply_co2_dose, min_int, spec_apply_dose, stage_a_consumed, stage_b_consumed, CompositionState,
    DoseAccounting, AMOUNT_LIMIT,
};

verus! {

/// Upper bound on the planner's amount inputs; it keeps every staged
/// intermediate below `AMOUNT_LIMIT`.
pub const PLAN_INPUT_LIMIT: u64 = 0x1000_0000_0000_0000;

/// Stoichiometric intermediates of partitioning already-charged CO2
/// through the two dose stages, starting from pure NaOH.
#[derive(Clone, Copy, PartialEq, Eq, Structural, Debug)]
pub struct ChargePartition {
    /// CO2 consumed by stage A (NaOH neutralization).
    pub stage1_co2: u64,
    /// Free NaOH left after stage A.
    pub naoh_after_stage1: u64,
    /// Carbonate produced by stage A.
    pub na2co3_from_stage1: u64,
    /// CO2 left for stage B.
    pub co2_after_stage1: u64,
    /// CO2 consumed by stage B (carbonate conversion).
    pub stage2_co2: u64,
    /// Carbonate left after stage B.
    pub na2co3_remaining: u64,
    /// Bicarbonate produced by stage B.
    pub nahco3_produced: u64,
    /// CO2 left unconsumed by both stages.
    pub co2_excess: u64,
    /// The carbonate/bicarbonate buffer pool after both stages.
    pub buffer_carbon: u64,
}

/// The partition of `co2` charged into `naoh` through the two stages.
pub open spec fn spec_partition(naoh: int, co2: int) -> ChargePartition {
    let stage1 = min_int(co2, naoh / 2);
    let naoh_after = naoh - 2 * stage1;
    let co2_after = co2 - stage1;
    let stage2 = min_int(co2_after, stage1);
    let na2co3_rem = stage1 - stage2;
    let nahco3 = 2 * stage2;
    let excess = co2_after - stage2;
    ChargePartition {
        stage1_co2: stage1 as u64,
        naoh_after_stage1: naoh_after as u64,
        na2co3_from_stage1: stage1 as u64,
        co2_after_stage1: co2_after as u64,
        stage2_co2: stage2 as u64,
        na2co3_remaining: na2co3_rem as u64,
        nahco3_produced: nahco3 as u64,
        co2_excess: excess as u64,
        buffer_carbon: (na2co3_rem + nahco3) as u64,
    }
}

/// Runs already-charged CO2 through the two dose stages against a fresh
/// NaOH charge and reports every stage intermediate.
pub fn partition_charged_co2(naoh: u64, co2: u64) -> (r: ChargePartition)
    requires
        naoh <= AMOUNT_LIMIT,
        co2 <= AMOUNT_LIMIT,
    ensures
        r == spec_partition(naoh as int, co2 as int),
{
    let half: u64 = naoh / 2;
    let stage1 = if co2 <= half {
        co2
    } else {
        half
    };
    let naoh_after = naoh - 2 * stage1;
    let co2_after = co2 - stage1;
    let stage2 = if co2_after <= stage1 {
        co2_after
    } else {
        stage1
    };
    let na2co3_rem = stage1 - stage2;
    let nahco3 = 2 * stage2;
    let excess = co2_after - stage2;
    ChargePartition {
        stage1_co2: stage1,
        naoh_after_stage1: naoh_after,
        na2co3_from_stage1: stage1,
        co2_after_stage1: co2_after,
        stage2_co2: stage2,
        na2co3_remaining: na2co3_rem,
        nahco3_produced: nahco3,
        co2_excess: excess,
        buffer_carbon: na2co3_rem + nahco3,
    }
}

/// The stoichiometric partition is exactly a CO2 dose applied to a
/// ledger holding nothing but the NaOH charge.
pub proof fn lemma_partition_matches_dose(naoh: u64, co2: u64)
    requires
        naoh <= AMOUNT_LIMIT,
        co2 <= AMOUNT_LIMIT,
    ensures
        ({
            let part = spec_partition(naoh as int, co2 as int);
            let fresh = (CompositionState {
                free_naoh: naoh,
                carbonate: 0,
                bicarbonate: 0,
                excess_co2: 0,
            });
            let after = spec_apply_dose(fresh, co2 as int);
            part.stage1_co2 == stage_a_consumed(fresh, co2 as int)
                && part.stage2_co2 == stage_b_consumed(fresh, co2 as int)
                && part.naoh_after_stage1 == after.free_naoh
                && part.na2co3_remaining == after.carbonate
                && part.nahco3_produced == after.bicarbonate
                && part.co2_excess == after.excess_co2
        }),
{
}

/// The carbonate share of a buffer pool split at the ratio
/// carbonate/bicarbonate = num/den: the floor of pool * num / (num + den).
pub open spec fn spec_split_pool(pool: int, num: int, den: int) -> int {
    pool * num / (num + den)
}

/// Splits the carbonate/bicarbonate buffer pool at a given
/// carbonate-to-bicarbonate ratio `num / den`, carbonate rounding down.
pub fn split_buffer_by_ratio(pool: u64, num: u64, den: u64) -> (r: (u64, u64))
    requires
        pool <= AMOUNT_LIMIT,
        num <= AMOUNT_LIMIT,
        1 <= den <= AMOUNT_LIMIT,
    ensures
        r.0 == spec_split_pool(pool as int, num as int, den as int),
        r.0 + r.1 == pool,
{
    proof {
        vstd::arithmetic::mul::lemma_mul_upper_bound(
            pool as int,
            AMOUNT_LIMIT as int,
            num as int,
            AMOUNT_LIMIT as int,
        );
        vstd::arithmetic::mul::lemma_mul_inequality(
            num as int,
            num as int + den as int,
            pool as int,
        );
        vstd::arithmetic::div_mod::lemma_multiply_divide_le(
            pool as int * num as int,
            num as int + den as int,
            pool as int,
        );
    }
    let wide_pool: u128 = pool as u128;
    let wide_num: u128 = num as u128;
    let wide_den: u128 = den as u128;
    let co3_share: u128 = wide_pool * wide_num / (wide_num + wide_den);
    let co3: u64 = co3_share as u64;
    (co3, pool - co3)
}

/// The CO2 dose that moves a carbonate/bicarbonate pair to the target
/// ratio num/den: the floor of (co3*den - num*hco3) / (den + 2*num),
/// capped at the carbonate present and treated as zero when the
/// numerator is not positive.
pub open spec fn spec_co2_for_ratio(co3: int, hco3: int, num: int, den: int) -> int {
    if co3 * den > num * hco3 {
        min_int((co3 * den - num * hco3) / (den + 2 * num), co3)
    } else {
        0
    }
}

/// Closed-form CO2 dose needed to shift the buffer pool to the target
/// carbonate-to-bicarbonate ratio `num / den`.
pub fn co2_for_target_ratio(co3: u64, hco3: u64, num: u64, den: u64) -> (r: u64)
    requires
        co3 <= AMOUNT_LIMIT,
        hco3 <= AMOUNT_LIMIT,
        num <= AMOUNT_LIMIT,
        1 <= den <= AMOUNT_LIMIT,
    ensures
        r == spec_co2_for_ratio(co3 as int, hco3 as int, num as int, den as int),
        r <= co3,
{
    proof {
        vstd::arithmetic::mul::lemma_mul_upper_bound(
            co3 as int,
            AMOUNT_LIMIT as int,
            den as int,
            AMOUNT_LIMIT as int,
        );
        vstd::arithmetic::mul::lemma_mul_upper_bound(
            num as int,
            AMOUNT_LIMIT as int,
            hco3 as int,
            AMOUNT_LIMIT as int,
        );
    }
    let lhs: u128 = co3 as u128 * den as u128;
    let rhs: u128 = num as u128 * hco3 as u128;
    if lhs > rhs {
        let divisor: u128 = den as u128 + 2 * (num as u128);
        let quotient: u128 = (lhs - rhs) / divisor;
        if quotient <= co3 as u128 {
            quotient as u64
        } else {
            co3
        }
    } else {
        0
    }
}

/// The closed form reaches its target: on a ledger without free NaOH,
/// when the ratio dose divides exactly and the carbonate cap does not
/// bind, dosing it leaves the buffer pool at exactly the target
/// carbonate-to-bicarbonate ratio `num / den`.
pub proof fn lemma_ratio_dose_reaches_target(s: CompositionState, num: u64, den: u64)
    requires
        s.bounded(),
        s.free_naoh == 0,
        1 <= den,
        s.carbonate * den > num * s.bicarbonate,
        (s.carbonate * den - num * s.bicarbonate) % (den + 2 * num) == 0,
        (s.carbonate * den - num * s.bicarbonate) / (den + 2 * num) <= s.carbonate,
    ensures
        ({
            let dose = spec_co2_for_ratio(s.carbonate as int, s.bicarbonate as int, num as int, den as int);
            let after = spec_apply_dose(s, dose);
            after.carbonate * den == num * after.bicarbonate
        }),
{
    let numerator = s.carbonate * den - num * s.bicarbonate;
    let divisor = den + 2 * num;
    let dose = numerator / divisor;
    vstd::arithmetic::div_mod::lemma_fundamental_div_mod(numerator, divisor);
    assert(dose * divisor == numerator);
    assert(spec_co2_for_ratio(s.carbonate as int, s.bicarbonate as int, num as int, den as int)
        == dose);
    assert(0 <= dose) by {
        vstd::arithmetic::div_mod::lemma_div_pos_is_pos(numerator, divisor);
    }
    let after = spec_apply_dose(s, dose);
    assert(after.carbonate == s.carbonate - dose);
    assert(after.bicarbonate == s.bicarbonate + 2 * dose);
    assert((s.carbonate - dose) * den == num * (s.bicarbonate + 2 * dose)) by (nonlinear_arith)
        requires
            dose * (den + 2 * num) == s.carbonate * den - num * s.bicarbonate,
    ;
}

/// Everything the planner derives from one set of inputs: the
/// stoichiometric partition, the current buffer split, the dose needed
/// for the target ratio and for the remaining NaOH, and the predicted
/// end state after that dose.
#[derive(Clone, Copy, PartialEq, Eq, Structural, Debug)]
pub struct DosingPlan {
    /// Partition of the CO2 already charged.
    pub partition: ChargePartition,
    /// Carbonate now, after any measured-pH override of the split.
    pub co3_current: u64,
    /// Bicarbonate now, after any measured-pH override of the split.
    pub hco3_current: u64,
    /// CO2 needed to shift the buffer pool to the target ratio.
    pub co2_for_ratio: u64,
    /// CO2 needed to finish neutralizing the remaining free NaOH.
    pub co2_for_naoh: u64,
    /// Total additional CO2 dose: the sum of the previous two.
    pub total_extra: u64,
    /// Ledger predicted after applying the total additional dose.
    pub predicted_state: CompositionState,
    /// Accounting of that predicted dose application.
    pub predicted_accounting: DoseAccounting,
}

/// The current carbonate/bicarbonate split: the measured ratio
/// overrides the stoichiometric split whenever a buffer pool exists.
pub open spec fn spec_current_split(part: ChargePartition, measured: Option<(u64, u64)>) -> (
    int,
    int,
) {
    match measured {
        Some(ratio) => if part.buffer_carbon > 0 {
            let co3 = spec_split_pool(part.buffer_carbon as int, ratio.0 as int, ratio.1 as int);
            (co3, part.buffer_carbon - co3)
        } else {
            (part.na2co3_remaining as int, part.nahco3_produced as int)
        },
        None => (part.na2co3_remaining as int, part.nahco3_produced as int),
    }
}

/// The complete plan for valid inputs.
pub open spec fn spec_plan(
    naoh: int,
    co2: int,
    measured: Option<(u64, u64)>,
    target_num: int,
    target_den: int,
) -> DosingPlan {
    let part = spec_partition(naoh, co2);
    let split = spec_current_split(part, measured);
    let co3_cur = split.0;
    let hco3_cur = split.1;
    let for_ratio = spec_co2_for_ratio(co3_cur, hco3_cur, target_num, target_den);
    let for_naoh = part.naoh_after_stage1 as int / 2;
    let total = for_ratio + for_naoh;
    let pre = (CompositionState {
        free_naoh: part.naoh_after_stage1,
        carbonate: co3_cur as u64,
        bicarbonate: hco3_cur as u64,
        excess_co2: part.co2_excess,
    });
    let a = stage_a_consumed(pre, total);
    let b = stage_b_consumed(pre, total);
    DosingPlan {
        partition: part,
        co3_current: co3_cur as u64,
        hco3_current: hco3_cur as u64,
        co2_for_ratio: for_ratio as u64,
        co2_for_naoh: for_naoh as u64,
        total_extra: total as u64,
        predicted_state: spec_apply_dose(pre, total),
        predicted_accounting: (DoseAccounting {
            consumed_to_carbonate: a as u64,
            consumed_to_bicarbonate: b as u64,
            consumed_total: (a + b) as u64,
            unconsumed: (total - a - b) as u64,
        }),
    }
}

/// Plans a titration: partitions the CO2 already charged, applies the
/// measured-ratio override, computes the additional dose for the target
/// ratio, and simulates the predicted end state.  Returns nothing
/// exactly when the NaOH charge is not positive or the charged CO2 is
/// negative.
pub fn plan_dosing(
    naoh_units: i64,
    co2_units: i64,
    measured_ratio: Option<(u64, u64)>,
    target_num: u64,
    target_den: u64,
) -> (r: Option<DosingPlan>)
    requires
        naoh_units <= PLAN_INPUT_LIMIT,
        co2_units <= PLAN_INPUT_LIMIT,
        measured_ratio matches Some(ratio) ==> ratio.0 <= AMOUNT_LIMIT && 1 <= ratio.1
            <= AMOUNT_LIMIT,
        target_num <= AMOUNT_LIMIT,
        1 <= target_den <= AMOUNT_LIMIT,
    ensures
        r is Some <==> naoh_units > 0 && co2_units >= 0,
        r matches Some(plan) ==> plan == spec_plan(
            naoh_units as int,
            co2_units as int,
            measured_ratio,
            target_num as int,
            target_den as int,
        ),
{
    if naoh_units <= 0 || co2_units < 0 {
        return None;
    }
    let naoh: u64 = naoh_units as u64;
    let co2: u64 = co2_units as u64;
    let part = partition_charged_co2(naoh, co2);
    let split = match measured_ratio {
        Some(ratio) => {
            if part.buffer_carbon > 0 {
                split_buffer_by_ratio(part.buffer_carbon, ratio.0, ratio.1)
            } else {
                (part.na2co3_remaining, part.nahco3_produced)
            }
        },
        None => (part.na2co3_remaining, part.nahco3_produced),
    };
    let co3_cur = split.0;
    let hco3_cur = split.1;
    let for_ratio = co2_for_target_ratio(co3_cur, hco3_cur, target_num, target_den);
    let for_naoh = part.naoh_after_stage1 / 2;
    let total = for_ratio + for_naoh;
    let pre = CompositionState {
        free_naoh: part.naoh_after_stage1,
        carbonate: co3_cur,
        bicarbonate: hco3_cur,
        excess_co2: part.co2_excess,
    };
    let (predicted, accounting) = apply_co2_dose(&pre, total);
    Some(
        DosingPlan {
            partition: part,
            co3_current: co3_cur,
            hco3_current: hco3_cur,
            co2_for_ratio: for_ratio,
            co2_for_naoh: for_naoh,
            total_extra: total,
            predicted_state: predicted,
            predicted_accounting: accounting,
        },
    )
}

} // verus!
