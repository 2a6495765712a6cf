//! Composition ledger and the staged stoichiometry of a CO2 dose.
//!
//! Amounts of substance are whole numbers of a caller-chosen base unit
//! (for example picomoles).  A dose of CO2 is absorbed in two ordered
//! stages: first it neutralizes free NaOH (2 NaOH + CO2 -> Na2CO3),
//! then it converts carbonate to bicarbonate (Na2CO3 + CO2 + H2O ->
//! 2 NaHCO3); whatever is left stays as unreacted excess.

use vstd::prelude::*;

verus! {

/// Upper bound on every amount a ledger operation accepts; it leaves
/// enough headroom in `u64` for the staged sums below.
pub const AMOUNT_LIMIT: u64 = 0x2000_0000_0000_0000;

/// Snapshot of the solution's composition: four non-negative amounts.
#[derive(Clone, Copy, PartialEq, Eq, Structural, Debug)]
pub struct CompositionState {
    /// Free (unreacted) NaOH.
    pub free_naoh: u64,
    /// Sodium carbonate, Na2CO3.
    pub carbonate: u64,
    /// Sodium bicarbonate, NaHCO3.
    pub bicarbonate: u64,
    /// CO2 charged but never consumed by either stage.
    pub excess_co2: u64,
}

/// Per-dose record of where the CO2 went.
#[derive(Clone, Copy, PartialEq, Eq, Structural, Debug)]
pub struct DoseAccounting {
    /// CO2 consumed by stage A (NaOH neutralization, makes carbonate).
    pub consumed_to_carbonate: u64,
    /// CO2 consumed by stage B (carbonate conversion, makes bicarbonate).
    pub consumed_to_bicarbonate: u64,
    /// Sum of the two stages.
    pub consumed_total: u64,
    /// Dose left unconsumed after both stages.
    pub unconsumed: u64,
}

impl CompositionState {
    /// Every field is within `AMOUNT_LIMIT`.
    pub open spec fn bounded(self) -> bool {
        self.free_naoh <= AMOUNT_LIMIT
            && self.carbonate <= AMOUNT_LIMIT
            && self.bicarbonate <= AMOUNT_LIMIT
            && self.excess_co2 <= AMOUNT_LIMIT
    }

    /// Total carbon held by the ledger: each carbonate, bicarbonate and
    /// excess-CO2 unit carries one carbon atom.
    pub open spec fn total_carbon(self) -> int {
        self.carbonate + self.bicarbonate + self.excess_co2
    }

    /// Total sodium held by the ledger: NaOH and NaHCO3 carry one
    /// sodium each, Na2CO3 two.
    pub open spec fn total_sodium(self) -> int {
        self.free_naoh + 2 * self.carbonate + self.bicarbonate
    }

    /// The carbonate/bicarbonate buffer pool.
    pub open spec fn buffer_pool(self) -> int {
        self.carbonate + self.bicarbonate
    }
}

/// The smaller of two integers.
pub open spec fn min_int(a: int, b: int) -> int {
    if a <= b {
        a
    } else {
        b
    }
}

/// CO2 consumed by stage A: at most half the free NaOH, at most the dose.
pub open spec fn stage_a_consumed(s: CompositionState, dose: int) -> int {
    min_int(dose, s.free_naoh as int / 2)
}

/// CO2 consumed by stage B: at most the carbonate present after stage A,
/// at most what the dose has left.
pub open spec fn stage_b_consumed(s: CompositionState, dose: int) -> int {
    min_int(dose - stage_a_consumed(s, dose), s.carbonate + stage_a_consumed(s, dose))
}

/// The ledger after both stages of a dose.
pub open spec fn spec_apply_dose(s: CompositionState, dose: int) -> CompositionState {
    let a = stage_a_consumed(s, dose);
    let b = stage_b_consumed(s, dose);
    CompositionState {
        free_naoh: (s.free_naoh - 2 * a) as u64,
        carbonate: (s.carbonate + a - b) as u64,
        bicarbonate: (s.bicarbonate + 2 * b) as u64,
        excess_co2: (s.excess_co2 + (dose - a - b)) as u64,
    }
}

/// Applies a CO2 dose to the ledger through the two stages and accounts
/// for every unit of it.
pub fn apply_co2_dose(state: &CompositionState, dose: u64) -> (r: (CompositionState, DoseAccounting))
    requires
        state.bounded(),
        dose <= AMOUNT_LIMIT,
    ensures
        r.0 == spec_apply_dose(*state, dose as int),
        r.1.consumed_to_carbonate == stage_a_consumed(*state, dose as int),
        r.1.consumed_to_bicarbonate == stage_b_consumed(*state, dose as int),
        r.1.consumed_total == r.1.consumed_to_carbonate + r.1.consumed_to_bicarbonate,
        r.1.unconsumed == dose - r.1.consumed_total,
{
    let needed = state.free_naoh / 2;
    let consume = if dose <= needed {
        dose
    } else {
        needed
    };
    let naoh_after = state.free_naoh - 2 * consume;
    let carbonate_mid = state.carbonate + consume;
    let remaining = dose - consume;
    let convert = if remaining <= carbonate_mid {
        remaining
    } else {
        carbonate_mid
    };
    let new_state = CompositionState {
        free_naoh: naoh_after,
        carbonate: carbonate_mid - convert,
        bicarbonate: state.bicarbonate + 2 * convert,
        excess_co2: state.excess_co2 + (remaining - convert),
    };
    let accounting = DoseAccounting {
        consumed_to_carbonate: consume,
        consumed_to_bicarbonate: convert,
        consumed_total: consume + convert,
        unconsumed: remaining - convert,
    };
    (new_state, accounting)
}

/// A zero dose consumes nothing and leaves the ledger as it was.
pub proof fn lemma_zero_dose_identity(s: CompositionState)
    requires
        s.bounded(),
    ensures
        stage_a_consumed(s, 0) == 0,
        stage_b_consumed(s, 0) == 0,
        spec_apply_dose(s, 0) == s,
{
}

/// Carbon conservation: a dose adds exactly its own amount of carbon to
/// the ledger's carbon pool — CO2 consumed into carbonate or bicarbonate
/// plus CO2 left as excess accounts for the whole dose.
pub proof fn lemma_dose_conserves_carbon(s: CompositionState, dose: u64)
    requires
        s.bounded(),
        dose <= AMOUNT_LIMIT,
    ensures
        spec_apply_dose(s, dose as int).total_carbon() == s.total_carbon() + dose,
{
}

/// Sodium conservation: a CO2 dose never changes the ledger's total
/// sodium; stage A only trades 2 NaOH for one Na2CO3 and stage B only
/// trades one Na2CO3 for 2 NaHCO3.
pub proof fn lemma_dose_conserves_sodium(s: CompositionState, dose: u64)
    requires
        s.bounded(),
        dose <= AMOUNT_LIMIT,
    ensures
        spec_apply_dose(s, dose as int).total_sodium() == s.total_sodium(),
{
}

/// With free NaOH present and a dose no larger than half of it, every
/// unit of the dose becomes carbonate: no bicarbonate forms and nothing
/// is left over.
pub proof fn lemma_small_dose_all_to_carbonate(s: CompositionState, dose: u64)
    requires
        s.bounded(),
        dose <= s.free_naoh as int / 2,
    ensures
        stage_a_consumed(s, dose as int) == dose,
        stage_b_consumed(s, dose as int) == 0,
        spec_apply_dose(s, dose as int).carbonate == s.carbonate + dose,
        spec_apply_dose(s, dose as int).bicarbonate == s.bicarbonate,
        spec_apply_dose(s, dose as int).excess_co2 == s.excess_co2,
{
}

/// With no free NaOH and a dose no larger than the carbonate present,
/// the dose converts one for one into twice as much bicarbonate.
pub proof fn lemma_dose_converts_carbonate(s: CompositionState, dose: u64)
    requires
        s.bounded(),
        s.free_naoh == 0,
        dose <= s.carbonate,
    ensures
        stage_a_consumed(s, dose as int) == 0,
        stage_b_consumed(s, dose as int) == dose,
        spec_apply_dose(s, dose as int).carbonate == s.carbonate - dose,
        spec_apply_dose(s, dose as int).bicarbonate == s.bicarbonate + 2 * dose,
        spec_apply_dose(s, dose as int).excess_co2 == s.excess_co2,
{
}

} // verus!
