//! Which formula fills which field of an exponential change.
//!
//! An exponential change relates four quantities: the principal `P`, the
//! final value `F`, the rate `r` and the time `t`. The arithmetic itself is
//! floating point and is done by the caller; this module decides, for each
//! operation, which fields keep their value and which formula recomputes the
//! others. Formulas are applied in the order rate, final value, time, each one
//! reading the fields as they stand after the previous step.
use vstd::prelude::*;

use crate::error::SolveError;

verus! {

/// How one field of an exponential change obtains its value.
#[derive(Debug, Clone, Copy, PartialEq, Eq, Structural)]
pub enum ChangeRule {
    /// The field keeps the value it was given, or the one it already had.
    Keep,
    /// `r = -(-ln(F / P) / t)`, used when the final value is below the principal.
    RateFromLog,
    /// `r = (F / P)^(1 / t) - 1`, used when the final value is not below the principal.
    RateFromRoot,
    /// `F = P * (1 + r)^t`: discrete compounding.
    FinalCompounded,
    /// `F = P * e^(r * t)`: continuous form.
    FinalContinuous,
    /// `t = |ln(F / P) / r|`: a time that is never negative.
    TimeFromLog,
}

/// For each field that an operation may touch, the rule that gives its new
/// value. The principal is never recomputed.
#[derive(Debug, Clone, Copy, PartialEq, Eq, Structural)]
pub struct ChangePlan {
    pub rate: ChangeRule,
    pub final_value: ChangeRule,
    pub time: ChangeRule,
}

/// The plan for building an exponential change from a principal, a time and at
/// least one of final value and rate. `final_below_principal` is the outcome of
/// `F < P`; it matters only when the rate is to be derived.
pub open spec fn construction_plan(
    final_value_known: bool,
    rate_known: bool,
    final_below_principal: bool,
) -> Result<ChangePlan, SolveError> {
    if !final_value_known && !rate_known {
        Err(SolveError::InvalidInput)
    } else {
        Ok(
            ChangePlan {
                rate: if rate_known {
                    ChangeRule::Keep
                } else if final_below_principal {
                    ChangeRule::RateFromLog
                } else {
                    ChangeRule::RateFromRoot
                },
                final_value: if final_value_known {
                    ChangeRule::Keep
                } else {
                    ChangeRule::FinalCompounded
                },
                time: ChangeRule::Keep,
            },
        )
    }
}

/// The plan after the final value is overwritten: rate and principal stay, and
/// the time is solved for, without sign.
pub open spec fn final_value_change_plan() -> ChangePlan {
    ChangePlan { rate: ChangeRule::Keep, final_value: ChangeRule::Keep, time: ChangeRule::TimeFromLog }
}

/// The plan after the time is overwritten: a negative rate recomputes the final
/// value in continuous form, any other rate by discrete compounding.
pub open spec fn time_change_plan(rate_is_negative: bool) -> ChangePlan {
    ChangePlan {
        rate: ChangeRule::Keep,
        final_value: if rate_is_negative {
            ChangeRule::FinalContinuous
        } else {
            ChangeRule::FinalCompounded
        },
        time: ChangeRule::Keep,
    }
}

/// Decides how a new exponential change is completed. Fails with
/// `InvalidInput` exactly when neither the final value nor the rate is known.
pub fn plan_construction(final_value_known: bool, rate_known: bool, final_below_principal: bool) -> (r: Result<ChangePlan, SolveError>)
    ensures
        r == construction_plan(final_value_known, rate_known, final_below_principal),
        r is Err <==> (!final_value_known && !rate_known),
{
    if !final_value_known && !rate_known {
        return Err(SolveError::InvalidInput);
    }
    let rate = if rate_known {
        ChangeRule::Keep
    } else if final_below_principal {
        ChangeRule::RateFromLog
    } else {
        ChangeRule::RateFromRoot
    };
    let final_value = if final_value_known {
        ChangeRule::Keep
    } else {
        ChangeRule::FinalCompounded
    };
    Ok(ChangePlan { rate, final_value, time: ChangeRule::Keep })
}

/// Decides how an exponential change is brought up to date after its final
/// value was overwritten.
pub fn plan_final_value_change() -> (r: ChangePlan)
    ensures
        r == final_value_change_plan(),
{
    ChangePlan { rate: ChangeRule::Keep, final_value: ChangeRule::Keep, time: ChangeRule::TimeFromLog }
}

/// Decides how an exponential change is brought up to date after its time was
/// overwritten; `rate_is_negative` is the outcome of `r < 0`.
pub fn plan_time_change(rate_is_negative: bool) -> (r: ChangePlan)
    ensures
        r == time_change_plan(rate_is_negative),
{
    let final_value = if rate_is_negative {
        ChangeRule::FinalContinuous
    } else {
        ChangeRule::FinalCompounded
    };
    ChangePlan { rate: ChangeRule::Keep, final_value, time: ChangeRule::Keep }
}

} // verus!
