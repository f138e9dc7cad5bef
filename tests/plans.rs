use growth_and_decay::error::SolveError;
use growth_and_decay::exponential::{
    plan_construction, plan_final_value_change, plan_time_change, ChangePlan, ChangeRule,
};
use growth_and_decay::ratios::{plan_ratios, RatioPlan, RatioRule};

#[test]
fn construction_without_final_value_or_rate_is_invalid() {
    assert_eq!(plan_construction(false, false, false), Err(SolveError::InvalidInput));
    assert_eq!(plan_construction(false, false, true), Err(SolveError::InvalidInput));
}

#[test]
fn ratios_without_rt_or_time_are_invalid() {
    assert_eq!(plan_ratios(false, false), Err(SolveError::InvalidInput));
}

// principal 1_200_000, rate 0.025, time 18: the final value is compounded.
#[test]
fn known_rate_compounds_final_value() {
    let plan = plan_construction(false, true, false).unwrap();
    assert_eq!(
        plan,
        ChangePlan {
            rate: ChangeRule::Keep,
            final_value: ChangeRule::FinalCompounded,
            time: ChangeRule::Keep,
        }
    );
    // The comparison outcome is irrelevant once the rate is known.
    assert_eq!(plan_construction(false, true, true), Ok(plan));
}

// principal 5000, final value 2000, time 3: decay branch, then a new time
// recomputes the final value in continuous form because the rate is negative.
#[test]
fn final_below_principal_takes_log_branch_then_continuous_form() {
    let plan = plan_construction(true, false, true).unwrap();
    assert_eq!(plan.rate, ChangeRule::RateFromLog);
    assert_eq!(plan.final_value, ChangeRule::Keep);
    assert_eq!(plan.time, ChangeRule::Keep);
    let after = plan_time_change(true);
    assert_eq!(
        after,
        ChangePlan {
            rate: ChangeRule::Keep,
            final_value: ChangeRule::FinalContinuous,
            time: ChangeRule::Keep,
        }
    );
}

#[test]
fn final_not_below_principal_takes_root_branch() {
    let plan = plan_construction(true, false, false).unwrap();
    assert_eq!(plan.rate, ChangeRule::RateFromRoot);
    assert_eq!(plan.final_value, ChangeRule::Keep);
}

#[test]
fn both_supplied_keeps_both() {
    let plan = plan_construction(true, true, true).unwrap();
    assert_eq!(
        plan,
        ChangePlan { rate: ChangeRule::Keep, final_value: ChangeRule::Keep, time: ChangeRule::Keep }
    );
}

#[test]
fn non_negative_rate_recompounds_after_time_change() {
    assert_eq!(plan_time_change(false).final_value, ChangeRule::FinalCompounded);
    assert_eq!(plan_time_change(false).rate, ChangeRule::Keep);
}

// principal 1000, final value 100, time 50, then a final value of 1:
// only the time is recomputed.
#[test]
fn new_final_value_recomputes_time_only() {
    assert_eq!(
        plan_final_value_change(),
        ChangePlan { rate: ChangeRule::Keep, final_value: ChangeRule::Keep, time: ChangeRule::TimeFromLog }
    );
}

// r0 1e-12, decay years 8223, time 8500: the ratio is derived from the time.
#[test]
fn known_time_derives_ratio() {
    assert_eq!(
        plan_ratios(false, true),
        Ok(RatioPlan { time: RatioRule::Keep, rt: RatioRule::RatioDecayed })
    );
}

#[test]
fn known_ratio_derives_time() {
    assert_eq!(
        plan_ratios(true, false),
        Ok(RatioPlan { time: RatioRule::TimeFromLog, rt: RatioRule::Keep })
    );
}

#[test]
fn both_ratio_inputs_supplied_keeps_both() {
    assert_eq!(
        plan_ratios(true, true),
        Ok(RatioPlan { time: RatioRule::Keep, rt: RatioRule::Keep })
    );
}
