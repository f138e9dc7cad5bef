//! Closed-form exponential growth and decay: the decisions behind deriving a
//! missing quantity, stated and proved. Each operation yields a plan that
//! names, for every field, whether it keeps its value or which formula
//! recomputes it; the floating-point evaluation of those formulas is left to
//! the caller.
use vstd::prelude::*;

pub mod error;
pub mod exponential;
pub mod ratios;

use crate::error::SolveError;
use crate::exponential::construction_plan;
use crate::ratios::ratio_plan;

verus! {

/// Leaving out both of the two interchangeable inputs is an error in either
/// kind of calculation: an exponential change given neither final value nor
/// rate, and a ratio decay given neither ratio nor time, both fail with
/// `InvalidInput`, whatever else is known.
pub proof fn lemma_missing_pair_rejected(final_below_principal: bool)
    ensures
        construction_plan(false, false, final_below_principal) == Err::<
            exponential::ChangePlan,
            SolveError,
        >(SolveError::InvalidInput),
        ratio_plan(false, false) == Err::<ratios::RatioPlan, SolveError>(SolveError::InvalidInput),
{
}

} // verus!
