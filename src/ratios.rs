//! Which formula fills which field of a ratio decay.
//!
//! A ratio decay relates an initial ratio `R0`, a ratio `Rt` after some time
//! `t`, and a characteristic decay time `D` (a half-life, say) through
//! `Rt = R0 * e^(-t / D)`. `R0` and `D` are always given; of `Rt` and `t` at
//! least one must be. The decay constant `ln(2) / D` is computed in every
//! case and needs no decision. The arithmetic is floating point and is done by
//! the caller; the time is settled before the ratio.
use vstd::prelude::*;

use crate::error::SolveError;

verus! {

/// How one field of a ratio decay obtains its value.
#[derive(Debug, Clone, Copy, PartialEq, Eq, Structural)]
pub enum RatioRule {
    /// The field keeps the value it was given.
    Keep,
    /// `t = -ln(Rt / R0) * D`.
    TimeFromLog,
    /// `Rt = R0 * e^(-t / D)`.
    RatioDecayed,
}

/// The rules for the two fields that may have to be derived.
#[derive(Debug, Clone, Copy, PartialEq, Eq, Structural)]
pub struct RatioPlan {
    pub time: RatioRule,
    pub rt: RatioRule,
}

/// The plan for building a ratio decay: the field that was not supplied is
/// derived from the one that was; when both were supplied, both are kept.
pub open spec fn ratio_plan(rt_known: bool, time_known: bool) -> Result<RatioPlan, SolveError> {
    if !rt_known && !time_known {
        Err(SolveError::InvalidInput)
    } else {
        Ok(
            RatioPlan {
                time: if time_known {
                    RatioRule::Keep
                } else {
                    RatioRule::TimeFromLog
                },
                rt: if rt_known {
                    RatioRule::Keep
                } else {
                    RatioRule::RatioDecayed
                },
            },
        )
    }
}

/// Decides how a new ratio decay is completed. Fails with `InvalidInput`
/// exactly when neither the ratio `Rt` nor the time is known.
pub fn plan_ratios(rt_known: bool, time_known: bool) -> (r: Result<RatioPlan, SolveError>)
    ensures
        r == ratio_plan(rt_known, time_known),
        r is Err <==> (!rt_known && !time_known),
{
    if !rt_known && !time_known {
        return Err(SolveError::InvalidInput);
    }
    let time = if time_known {
        RatioRule::Keep
    } else {
        RatioRule::TimeFromLog
    };
    let rt = if rt_known {
        RatioRule::Keep
    } else {
        RatioRule::RatioDecayed
    };
    Ok(RatioPlan { time, rt })
}

} // verus!
