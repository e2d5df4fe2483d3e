//! Cross-cutting laws of the rule set, stated and proved once over the
//! rules' specifications.

use crate::application::Application;
use crate::calculations::spec_trend;
use crate::dates::{spec_day_number, Date, Timestamp};
use crate::environmental::{EnvironmentalReading, EnvironmentalSummary, Trend};
use crate::forecast::spec_rain_expected;
use crate::profile::LawnProfile;
use crate::recommendation::Severity;
use crate::rules::engine::{engine_outputs, registry, spec_rule_eval, RuleKind};
use crate::rules::fall_fertilization::FallFertilizationRule;
use crate::rules::fall_overseeding::FallOverseedingRule;
use crate::rules::grub_control::GrubControlRule;
use crate::rules::pre_emergent::PreEmergentRule;
use crate::rules::rain_delay::RainDelayRule;
use crate::rules::spec_has_matching;
use crate::rules::spring_nitrogen::SpringNitrogenRule;
use vstd::prelude::*;

verus! {

/// A summary with no current reading, no averages and no forecast.
pub open spec fn summary_all_absent(env: EnvironmentalSummary) -> bool {
    &&& env.current is None
    &&& env.soil_temp_7day_avg_f is None
    &&& env.ambient_temp_7day_avg_f is None
    &&& env.humidity_7day_avg is None
    &&& env.precipitation_7day_total_mm is None
    &&& env.forecast is None
}

/// When every optional input a rule might need is absent, every rule of
/// the registry returns no recommendation — absence of data is never an
/// error, and an evaluation pass over an empty summary yields an empty
/// list.
pub proof fn lemma_absent_data_yields_none(
    env: EnvironmentalSummary,
    profile: LawnProfile,
    history: Seq<Application>,
    today: Date,
    now: Timestamp,
    k: RuleKind,
)
    requires
        summary_all_absent(env),
    ensures
        spec_rule_eval(k, env, profile, history, today, now) is None,
{
}

/// An evaluation pass over an all-absent summary produces nothing at all.
pub proof fn lemma_empty_summary_empty_output(
    env: EnvironmentalSummary,
    profile: LawnProfile,
    history: Seq<Application>,
    today: Date,
    now: Timestamp,
)
    requires
        summary_all_absent(env),
    ensures
        engine_outputs(registry(), env, profile, history, today, now) == Seq::<
            crate::recommendation::RecModel,
        >::empty(),
{
    assert forall|k: RuleKind| true implies spec_rule_eval(
        k,
        env,
        profile,
        history,
        today,
        now,
    ) is None by {
        lemma_absent_data_yields_none(env, profile, history, today, now, k);
    };
    assert(engine_outputs(registry(), env, profile, history, today, now) =~= Seq::<
        crate::recommendation::RecModel,
    >::empty()) by {
        reveal_with_fuel(engine_outputs, 13);
    }
}

/// Missing-input law, rolling average: without the 7-day soil-temperature
/// average, every rule that reads it returns no recommendation.
pub proof fn lemma_missing_soil_average_yields_none(
    env: EnvironmentalSummary,
    profile: LawnProfile,
    history: Seq<Application>,
    today: Date,
    now: Timestamp,
)
    requires
        env.soil_temp_7day_avg_f is None,
    ensures
        PreEmergentRule::spec_evaluate(env, profile, history, today, now) is None,
        SpringNitrogenRule::spec_evaluate(env, profile, history, today, now) is None,
        GrubControlRule::spec_evaluate(env, profile, history, today, now) is None,
        FallOverseedingRule::spec_evaluate(env, profile, history, today, now) is None,
        FallFertilizationRule::spec_evaluate(env, profile, history, today, now) is None,
{
}

/// Missing-input law, current reading: without a current reading, every
/// rule that inspects it returns no recommendation.
pub proof fn lemma_missing_current_yields_none(
    env: EnvironmentalSummary,
    profile: LawnProfile,
    history: Seq<Application>,
    today: Date,
    now: Timestamp,
)
    requires
        env.current is None,
    ensures
        PreEmergentRule::spec_evaluate(env, profile, history, today, now) is None,
        GrubControlRule::spec_evaluate(env, profile, history, today, now) is None,
        FallOverseedingRule::spec_evaluate(env, profile, history, today, now) is None,
        crate::rules::fertilizer::FertilizerRule::spec_evaluate(
            env,
            profile,
            history,
            today,
            now,
        ) is None,
        crate::rules::fungicide::FungicideRule::spec_evaluate(
            env,
            profile,
            history,
            today,
            now,
        ) is None,
        crate::rules::irrigation_forecast::IrrigationForecastRule::spec_evaluate(
            env,
            profile,
            history,
            today,
            now,
        ) is None,
{
}

/// Missing-input law, forecast: without a forecast, every forecast-driven
/// rule returns no recommendation.
pub proof fn lemma_missing_forecast_yields_none(
    env: EnvironmentalSummary,
    profile: LawnProfile,
    history: Seq<Application>,
    today: Date,
    now: Timestamp,
)
    requires
        env.forecast is None,
    ensures
        RainDelayRule::spec_evaluate(env, profile, history, today, now) is None,
        crate::rules::irrigation_forecast::IrrigationForecastRule::spec_evaluate(
            env,
            profile,
            history,
            today,
            now,
        ) is None,
        crate::rules::heat_stress::HeatStressRule::spec_evaluate(
            env,
            profile,
            history,
            today,
            now,
        ) is None,
        crate::rules::application_window::ApplicationWindowRule::spec_evaluate(
            env,
            profile,
            history,
            today,
            now,
        ) is None,
        crate::rules::disease_pressure::DiseasePressureRule::spec_evaluate(
            env,
            profile,
            history,
            today,
            now,
        ) is None,
{
}

/// Seasonal-window law, grub control: outside May 15 - July 4 the rule
/// returns no recommendation, whatever the other inputs hold.
pub proof fn lemma_grub_control_window(
    env: EnvironmentalSummary,
    profile: LawnProfile,
    history: Seq<Application>,
    today: Date,
    now: Timestamp,
)
    requires
        today.spec_lt(GrubControlRule::window_start(today)) || GrubControlRule::window_end(
            today,
        ).spec_lt(today),
    ensures
        GrubControlRule::spec_evaluate(env, profile, history, today, now) is None,
{
}

/// Seasonal-window law, fall overseeding: outside August 15 - October 31
/// the rule returns no recommendation.
pub proof fn lemma_fall_overseeding_window(
    env: EnvironmentalSummary,
    profile: LawnProfile,
    history: Seq<Application>,
    today: Date,
    now: Timestamp,
)
    requires
        today.spec_lt(FallOverseedingRule::window_start(today)) || FallOverseedingRule::window_end(
            today,
        ).spec_lt(today),
    ensures
        FallOverseedingRule::spec_evaluate(env, profile, history, today, now) is None,
{
}

/// Seasonal-window law, fall fertilization: outside September 1 -
/// November 30 the rule returns no recommendation.
pub proof fn lemma_fall_fertilization_window(
    env: EnvironmentalSummary,
    profile: LawnProfile,
    history: Seq<Application>,
    today: Date,
    now: Timestamp,
)
    requires
        today.spec_lt(FallFertilizationRule::window_start(today))
            || FallFertilizationRule::window_end(today).spec_lt(today),
    ensures
        FallFertilizationRule::spec_evaluate(env, profile, history, today, now) is None,
{
}

/// Seasonal-window law, pre-emergent and spring nitrogen: outside February
/// through May both rules return no recommendation.
pub proof fn lemma_spring_rules_window(
    env: EnvironmentalSummary,
    profile: LawnProfile,
    history: Seq<Application>,
    today: Date,
    now: Timestamp,
)
    requires
        !(2 <= today.month <= 5),
    ensures
        PreEmergentRule::spec_evaluate(env, profile, history, today, now) is None,
        SpringNitrogenRule::spec_evaluate(env, profile, history, today, now) is None,
{
}

/// Duplicate-suppression law, pre-emergent: once the history holds a
/// pre-emergent application logged in the current year, the rule returns
/// no recommendation even when every other condition is met.
pub proof fn lemma_pre_emergent_duplicate_suppressed(
    env: EnvironmentalSummary,
    profile: LawnProfile,
    history: Seq<Application>,
    today: Date,
    now: Timestamp,
)
    requires
        spec_has_matching(
            history,
            crate::application::ApplicationType::PreEmergent,
            None,
            today.year as int,
            None,
        ),
    ensures
        PreEmergentRule::spec_evaluate(env, profile, history, today, now) is None,
{
}

/// Duplicate-suppression law, grub control: a grub-control or insecticide
/// application inside the current window suppresses the rule.
pub proof fn lemma_grub_control_duplicate_suppressed(
    env: EnvironmentalSummary,
    profile: LawnProfile,
    history: Seq<Application>,
    today: Date,
    now: Timestamp,
)
    requires
        spec_has_matching(
            history,
            crate::application::ApplicationType::GrubControl,
            Some(crate::application::ApplicationType::Insecticide),
            today.year as int,
            Some(spec_day_number(GrubControlRule::window_start(today))),
        ),
    ensures
        GrubControlRule::spec_evaluate(env, profile, history, today, now) is None,
{
}

/// Duplicate-suppression law, fall overseeding: an overseed application
/// inside the current window suppresses the rule.
pub proof fn lemma_fall_overseeding_duplicate_suppressed(
    env: EnvironmentalSummary,
    profile: LawnProfile,
    history: Seq<Application>,
    today: Date,
    now: Timestamp,
)
    requires
        spec_has_matching(
            history,
            crate::application::ApplicationType::Overseed,
            None,
            today.year as int,
            Some(spec_day_number(FallOverseedingRule::window_start(today))),
        ),
    ensures
        FallOverseedingRule::spec_evaluate(env, profile, history, today, now) is None,
{
}

/// Horizon short-circuit law, rain delay: whenever the 12-hour outlook
/// qualifies (probability at least 0.7 or at least 2.5 mm expected), the
/// rule reports the critical 12-hour recommendation — the longer horizons
/// are never consulted, so a qualifying short horizon always wins.
pub proof fn lemma_rain_delay_short_circuit(
    env: EnvironmentalSummary,
    profile: LawnProfile,
    history: Seq<Application>,
    today: Date,
    now: Timestamp,
)
    requires
        env.forecast is Some,
        ({
            let r12 = spec_rain_expected(
                env.forecast->0.hourly@,
                now.secs + 12 * 3600,
                100,
            );
            r12 is Some && (r12->0.max_probability >= 700 || r12->0.expected_mm >= 2500)
        }),
    ensures
        ({
            let r12 = spec_rain_expected(
                env.forecast->0.hourly@,
                now.secs + 12 * 3600,
                100,
            );
            RainDelayRule::spec_evaluate(env, profile, history, today, now) == Some(
                RainDelayRule::delay_model(
                    Severity::Critical,
                    12,
                    r12->0.expected_mm,
                    r12->0.max_probability,
                    now,
                ),
            )
        }),
{
}

/// Trend law: with fewer than 48 chronological samples the
/// soil-temperature trend is always Unknown.
pub proof fn lemma_trend_insufficient_data(readings: Seq<EnvironmentalReading>)
    requires
        readings.len() < 48,
    ensures
        spec_trend(readings) == Trend::Unknown,
{
}

/// Trend law: with 48 samples split into two 24-sample windows whose 10 cm
/// channels are fully present, the classification compares the window
/// averages as exact rationals against a 2 °F band: a larger difference is
/// Rising, a smaller one Falling, anything between Stable.
pub proof fn lemma_trend_classification(readings: Seq<EnvironmentalReading>)
    requires
        readings.len() >= 48,
    ensures
        ({
            let recent = crate::calculations::temps_of(readings.take(24), 10);
            let previous = crate::calculations::temps_of(readings.subrange(24, 48), 10);
            let nr = crate::calculations::opt_count(recent);
            let np = crate::calculations::opt_count(previous);
            nr > 0 && np > 0 ==> {
                let lhs = crate::calculations::opt_sum(recent) * np - crate::calculations::opt_sum(
                    previous,
                ) * nr;
                spec_trend(readings) == (if lhs > 2000 * nr * np {
                    Trend::Rising
                } else if lhs < -(2000 * nr * np) {
                    Trend::Falling
                } else {
                    Trend::Stable
                })
            }
        }),
{
}

} // verus!
