//! Planning-mode pH smoothing: clamps a pH estimate toward the
//! equivalence point or the carbonate-depletion plateau so a dosing
//! display shows the discrete titration behavior instead of numerical
//! noise.
//!
//! pH values enter and leave as thousandths of a pH unit; the
//! floating-point estimator that produces them lives outside the
//! library.

use vstd::prelude::*;

use crate::ledger::CompositionState;

verus! {

/// Top of the admissible pH scale, in thousandths of a pH unit.
pub const PH_MAX_MILLIS: i64 = 14300;

/// Lower edge of the carbonate-depletion plateau (pH 8.0).
pub const PLATEAU_PH_MIN_MILLIS: i64 = 8000;

/// Upper edge of the carbonate-depletion plateau (pH 8.3).
pub const PLATEAU_PH_MAX_MILLIS: i64 = 8300;

/// Half-width of the band around pKa2 at the carbonate-only
/// equivalence point (0.35 pH units).
pub const EQUIVALENCE_HALF_WIDTH_MILLIS: i64 = 350;

/// Anchor used at the equivalence point when no pKa2 is supplied
/// (pKa2 of 10.33 at 25 degrees Celsius).
pub const DEFAULT_PKA2_MILLIS: i64 = 10330;

/// `x` clamped into `[lo, hi]`.
pub open spec fn clamped(x: int, lo: int, hi: int) -> int {
    if x < lo {
        lo
    } else if x > hi {
        hi
    } else {
        x
    }
}

/// Carbonate-only equivalence point: free NaOH exhausted, carbonate
/// present, no bicarbonate yet.
pub open spec fn carbonate_only_equivalence(s: CompositionState) -> bool {
    s.free_naoh == 0 && s.carbonate > 0 && s.bicarbonate == 0
}

/// Carbonate is depleted: below the absolute floor, or at most 2% of
/// the carbonate/bicarbonate pool.
pub open spec fn carbonate_depleted(s: CompositionState, carbonate_floor: u64) -> bool {
    s.carbonate <= carbonate_floor || (s.buffer_pool() > 0 && 50 * s.carbonate <= s.buffer_pool())
}

/// At least one buffering species besides carbonate is present.
pub open spec fn has_buffering_species(s: CompositionState) -> bool {
    s.bicarbonate > 0 || s.excess_co2 > 0
}

/// The planning-mode estimate: the raw estimate, banded around the
/// pKa2 anchor at the carbonate-only equivalence point, then clamped
/// into the plateau once carbonate is depleted and buffering remains.
pub open spec fn spec_planning_adjust(
    s: CompositionState,
    ph: int,
    pka2: Option<i64>,
    carbonate_floor: u64,
) -> int {
    let anchor = match pka2 {
        Some(value) => value as int,
        None => DEFAULT_PKA2_MILLIS as int,
    };
    let banded = if carbonate_only_equivalence(s) {
        clamped(
            clamped(
                ph,
                anchor - EQUIVALENCE_HALF_WIDTH_MILLIS,
                anchor + EQUIVALENCE_HALF_WIDTH_MILLIS,
            ),
            0,
            PH_MAX_MILLIS as int,
        )
    } else {
        ph
    };
    if carbonate_depleted(s, carbonate_floor) && has_buffering_species(s) {
        clamped(banded, PLATEAU_PH_MIN_MILLIS as int, PLATEAU_PH_MAX_MILLIS as int)
    } else {
        banded
    }
}

/// Clamps a pH reading into the admissible scale `[0, 14.3]`.
pub fn clamp_ph_millis(ph: i64) -> (r: i64)
    ensures
        r == clamped(ph as int, 0, PH_MAX_MILLIS as int),
{
    if ph < 0 {
        0
    } else if ph > PH_MAX_MILLIS {
        PH_MAX_MILLIS
    } else {
        ph
    }
}

/// Applies the planning-mode clamps to a pH estimate for the given
/// ledger.
pub fn planning_ph_adjust(
    state: &CompositionState,
    ph_millis: i64,
    pka2_millis: Option<i64>,
    carbonate_floor: u64,
) -> (r: i64)
    requires
        0 <= ph_millis <= PH_MAX_MILLIS,
        pka2_millis matches Some(value) ==> -1000000 <= value <= 1000000,
    ensures
        r == spec_planning_adjust(*state, ph_millis as int, pka2_millis, carbonate_floor),
        0 <= r <= PH_MAX_MILLIS,
{
    let anchor: i64 = match pka2_millis {
        Some(value) => value,
        None => DEFAULT_PKA2_MILLIS,
    };
    let mut estimate: i64 = ph_millis;
    if state.free_naoh == 0 && state.carbonate > 0 && state.bicarbonate == 0 {
        let lo = anchor - EQUIVALENCE_HALF_WIDTH_MILLIS;
        let hi = anchor + EQUIVALENCE_HALF_WIDTH_MILLIS;
        let banded = if estimate < lo {
            lo
        } else if estimate > hi {
            hi
        } else {
            estimate
        };
        estimate = clamp_ph_millis(banded);
    }
    let pool: u128 = state.carbonate as u128 + state.bicarbonate as u128;
    let depleted = state.carbonate <= carbonate_floor || (pool > 0 && 50 * (state.carbonate
        as u128) <= pool);
    if depleted && (state.bicarbonate > 0 || state.excess_co2 > 0) {
        if estimate < PLATEAU_PH_MIN_MILLIS {
            estimate = PLATEAU_PH_MIN_MILLIS;
        } else if estimate > PLATEAU_PH_MAX_MILLIS {
            estimate = PLATEAU_PH_MAX_MILLIS;
        }
    }
    estimate
}

/// The carbonate-depletion plateau: whenever carbonate is at most 2%
/// of the carbonate/bicarbonate pool and a buffering species is
/// present, the planning-mode estimate lands inside `[8.0, 8.3]`.
pub proof fn lemma_plateau_clamp(
    s: CompositionState,
    ph: int,
    pka2: Option<i64>,
    carbonate_floor: u64,
)
    requires
        s.buffer_pool() > 0,
        50 * s.carbonate <= s.buffer_pool(),
        has_buffering_species(s),
    ensures
        PLATEAU_PH_MIN_MILLIS <= spec_planning_adjust(s, ph, pka2, carbonate_floor)
            <= PLATEAU_PH_MAX_MILLIS,
{
}

} // verus!
