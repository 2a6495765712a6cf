//! Resolution of a pH estimate from the equilibrium solver's outcome.
//!
//! The floating-point solver outside the library either produces a pH
//! or fails; either way the estimator owes its caller a pH on the
//! admissible scale.  This module holds that verified resolution: the
//! buffered-regime override that replaces an implausibly acidic solve,
//! and the fallback when the solver fails.  pH values are thousandths
//! of a pH unit.

use vstd::prelude::*;

use crate::smoother::{clamped, PH_MAX_MILLIS};

verus! {

/// A solved pH below this is implausible while buffering species are
/// present (pH 6.0).
pub const BUFFERED_PH_FLOOR_MILLIS: i64 = 6000;

/// The override keeps at least this much headroom below pKa2
/// (2.2 pH units).
pub const OVERRIDE_PKA2_MARGIN_MILLIS: i64 = 2200;

/// Least pH the buffered-regime override can produce (pH 8.0).
pub const OVERRIDE_PH_MIN_MILLIS: i64 = 8000;

/// The buffered-regime override: the largest of the fallback estimate,
/// pKa2 less its margin, and the pH 8.0 floor, clamped to the scale.
pub open spec fn spec_override_ph(fallback: int, pka2: int) -> int {
    let raised = if fallback >= pka2 - OVERRIDE_PKA2_MARGIN_MILLIS {
        fallback
    } else {
        pka2 - OVERRIDE_PKA2_MARGIN_MILLIS
    };
    let floored = if raised >= OVERRIDE_PH_MIN_MILLIS as int {
        raised
    } else {
        OVERRIDE_PH_MIN_MILLIS as int
    };
    clamped(floored, 0, PH_MAX_MILLIS as int)
}

/// The estimator's answer: a solved pH stands unless it is implausibly
/// acidic for a buffered ledger; a failed solve falls back, overridden
/// the same way when buffering species are present.
pub open spec fn spec_resolve_ph(
    solved: Option<i64>,
    fallback: int,
    pka2: int,
    buffered: bool,
) -> int {
    match solved {
        Some(ph) => if ph < BUFFERED_PH_FLOOR_MILLIS && buffered {
            spec_override_ph(fallback, pka2)
        } else {
            ph as int
        },
        None => if buffered {
            spec_override_ph(fallback, pka2)
        } else {
            fallback
        },
    }
}

/// Resolves the solver's outcome into the estimator's final pH.  It
/// always yields a pH on the admissible scale: no solver failure
/// escapes past this point.
pub fn resolve_estimated_ph(
    solved: Option<i64>,
    fallback_millis: i64,
    pka2_millis: i64,
    buffered: bool,
) -> (r: i64)
    requires
        0 <= fallback_millis <= PH_MAX_MILLIS,
        -1000000 <= pka2_millis <= 1000000,
        solved matches Some(ph) ==> 0 <= ph <= PH_MAX_MILLIS,
    ensures
        r == spec_resolve_ph(solved, fallback_millis as int, pka2_millis as int, buffered),
        0 <= r <= PH_MAX_MILLIS,
{
    match solved {
        Some(ph) => {
            if ph < BUFFERED_PH_FLOOR_MILLIS && buffered {
                override_ph(fallback_millis, pka2_millis)
            } else {
                ph
            }
        },
        None => {
            if buffered {
                override_ph(fallback_millis, pka2_millis)
            } else {
                fallback_millis
            }
        },
    }
}

/// Computes the buffered-regime override.
pub fn override_ph(fallback_millis: i64, pka2_millis: i64) -> (r: i64)
    requires
        -1000000 <= fallback_millis <= 1000000,
        -1000000 <= pka2_millis <= 1000000,
    ensures
        r == spec_override_ph(fallback_millis as int, pka2_millis as int),
{
    let margin = pka2_millis - OVERRIDE_PKA2_MARGIN_MILLIS;
    let raised = if fallback_millis >= margin {
        fallback_millis
    } else {
        margin
    };
    let floored = if raised >= OVERRIDE_PH_MIN_MILLIS {
        raised
    } else {
        OVERRIDE_PH_MIN_MILLIS
    };
    if floored < 0 {
        0
    } else if floored > PH_MAX_MILLIS {
        PH_MAX_MILLIS
    } else {
        floored
    }
}

/// A buffered ledger never resolves to an acidic pH: with buffering
/// species present the answer stays at or above pH 6.0.
pub proof fn lemma_buffered_never_acidic(solved: Option<i64>, fallback: int, pka2: int)
    requires
        solved matches Some(ph) ==> 0 <= ph <= PH_MAX_MILLIS,
    ensures
        spec_resolve_ph(solved, fallback, pka2, true) >= BUFFERED_PH_FLOOR_MILLIS,
{
}

} // verus!
