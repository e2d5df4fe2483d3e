//! Heat stress warning.
//!
//! Cool-season grasses struggle above 85 °F. The rule looks at the highest
//! daily high over the next three days: below 85 °F it stays silent; from
//! 85 °F it advises, from 90 °F it warns and from 95 °F it is critical. The
//! number of leading hot days among the next five is reported alongside.

use crate::application::Application;
use crate::dates::{spec_day_number, Date, Timestamp};
use crate::environmental::EnvironmentalSummary;
use crate::forecast::{days_within, spec_max_high, DailyForecast};
use crate::profile::LawnProfile;
use crate::recommendation::{
    opt_model, rec_model, RecModel, Recommendation, RecommendationCategory, Severity,
};
use crate::rules::inputs_wf;
use crate::text;
use vstd::prelude::*;

verus! {

pub struct HeatStressRule;

/// Leading run of days whose high reaches 85 °F.
pub open spec fn hot_day_run(s: Seq<DailyForecast>) -> int
    decreases s.len(),
{
    if s.len() == 0 || s[0].high_temp_f < 85000 {
        0
    } else {
        1 + hot_day_run(s.drop_first())
    }
}

/// A prefix-run count equals the first failing index.
proof fn lemma_hot_day_run_index(s: Seq<DailyForecast>, n: int)
    requires
        0 <= n <= s.len(),
        forall|j: int| 0 <= j < n ==> (#[trigger] s[j]).high_temp_f >= 85000,
        n < s.len() ==> s[n].high_temp_f < 85000,
    ensures
        hot_day_run(s) == n,
    decreases n,
{
    if s.len() == 0 {
    } else if n == 0 {
    } else {
        assert(s[0].high_temp_f >= 85000);
        lemma_hot_day_run_index(s.drop_first(), n - 1);
    }
}

impl HeatStressRule {
    pub fn id(&self) -> (r: &'static str)
        ensures
            r@ == "heat_stress"@,
    {
        "heat_stress"
    }

    pub fn name(&self) -> (r: &'static str)
        ensures
            r@ == "Heat Stress Warning"@,
    {
        "Heat Stress Warning"
    }

    pub open spec fn spec_severity(max_temp: i64) -> Severity {
        if max_temp >= 95000 {
            Severity::Critical
        } else if max_temp >= 90000 {
            Severity::Warning
        } else {
            Severity::Advisory
        }
    }

    pub open spec fn spec_title(severity: Severity) -> Seq<char> {
        match severity {
            Severity::Critical => "Extreme Heat Stress Expected"@,
            Severity::Warning => "Heat Stress Warning"@,
            _ => "Warm Weather Ahead"@,
        }
    }

    pub open spec fn spec_action(severity: Severity) -> Seq<char> {
        match severity {
            Severity::Critical => "Avoid ALL fertilizer applications. Raise mowing height to 4+ inches. Water early morning (before 8 AM) only. Do not mow during peak heat. Accept some dormancy as natural protection."@,
            Severity::Warning => "Avoid fertilizer applications, especially high-nitrogen. Raise mowing height to 3.5-4 inches. Water deeply in early morning. Consider skipping mowing to reduce stress."@,
            _ => "Consider raising mowing height. Water early morning if needed. Avoid fertilizer applications until temps moderate."@,
        }
    }

    pub open spec fn stress_model(max_temp: i64, hot_days: int, now: Timestamp) -> RecModel {
        let severity = Self::spec_severity(max_temp);
        let shown_days = if hot_days > 1 {
            hot_days
        } else {
            1
        };
        rec_model(
            "heat_stress_forecast"@,
            RecommendationCategory::HeatStress,
            severity,
            Self::spec_title(severity),
            "Temperatures up to "@ + text::spec_milli_0(max_temp as int)
                + "°F expected over the next "@ + text::spec_int_str(shown_days)
                + " days. Cool-season grasses experience stress above 85°F."@,
            now,
        ).with_explanation(
            "Tall Fescue and other cool-season grasses evolved for temperatures between 60-75°F. Above 85°F, photosynthesis slows and root growth stops. Above 90°F, the grass may enter summer dormancy. Fertilizing during heat stress forces top growth at the expense of roots, weakening the plant. Taller grass shades the crown and soil, reducing heat stress."@,
        ).with_data_point(
            "Max Forecast Temp"@,
            text::spec_milli_0(max_temp as int) + "°F"@,
            "OpenWeatherMap"@,
        ).with_data_point(
            "Hot Days"@,
            text::spec_int_str(hot_days),
            "OpenWeatherMap"@,
        ).with_action(Self::spec_action(severity))
    }

    /// Full behavior: gates on cool-season grass and a present forecast
    /// with at least one day in the 3-day window; silent below an 85 °F
    /// maximum, graded by 90/95 °F above it.
    pub open spec fn spec_evaluate(
        env: EnvironmentalSummary,
        profile: LawnProfile,
        history: Seq<Application>,
        today: Date,
        now: Timestamp,
    ) -> Option<RecModel> {
        if !profile.grass_type.spec_cool_season() {
            None
        } else {
            match env.forecast {
                None => None,
                Some(f) => match spec_max_high(
                    days_within(f.daily_summary@, spec_day_number(today) + 3),
                ) {
                    None => None,
                    Some(max_temp) => if max_temp < 85000 {
                        None
                    } else {
                        let hot_days = hot_day_run(
                            days_within(f.daily_summary@, spec_day_number(today) + 5),
                        );
                        Some(Self::stress_model(max_temp, hot_days, now))
                    },
                },
            }
        }
    }

    /// Evaluate the rule; returns exactly what the specification says.
    pub fn evaluate(
        &self,
        env: &EnvironmentalSummary,
        profile: &LawnProfile,
        history: &Vec<Application>,
        today: &Date,
        now: &Timestamp,
    ) -> (r: Option<Recommendation>)
        requires
            inputs_wf(*env, *profile, history@, *today, *now),
        ensures
            opt_model(r) == Self::spec_evaluate(*env, *profile, history@, *today, *now),
    {
        if !profile.grass_type.is_cool_season() {
            return None;
        }
        let forecast = match &env.forecast {
            Some(f) => f,
            None => {
                return None;
            },
        };
        let max_temp = match forecast.max_temp_next_days(today, 3) {
            Some(m) => m,
            None => {
                return None;
            },
        };
        if max_temp < 85000 {
            return None;
        }
        let window = forecast.next_days(today, 5);
        let mut hot_days: usize = 0;
        while hot_days < window.len() && window[hot_days].high_temp_f >= 85000
            invariant
                0 <= hot_days <= window@.len(),
                forall|j: int| 0 <= j < hot_days ==> (#[trigger] window@[j]).high_temp_f >= 85000,
            decreases window@.len() - hot_days,
        {
            hot_days = hot_days + 1;
        }
        proof {
            lemma_hot_day_run_index(window@, hot_days as int);
        }
        let shown_days: i64 = if hot_days > 1 {
            hot_days as i64
        } else {
            1
        };
        let severity = if max_temp >= 95000 {
            Severity::Critical
        } else if max_temp >= 90000 {
            Severity::Warning
        } else {
            Severity::Advisory
        };
        let title = match severity {
            Severity::Critical => "Extreme Heat Stress Expected",
            Severity::Warning => "Heat Stress Warning",
            _ => "Warm Weather Ahead",
        };
        let action = match severity {
            Severity::Critical => "Avoid ALL fertilizer applications. Raise mowing height to 4+ inches. Water early morning (before 8 AM) only. Do not mow during peak heat. Accept some dormancy as natural protection.",
            Severity::Warning => "Avoid fertilizer applications, especially high-nitrogen. Raise mowing height to 3.5-4 inches. Water deeply in early morning. Consider skipping mowing to reduce stress.",
            _ => "Consider raising mowing height. Water early morning if needed. Avoid fertilizer applications until temps moderate.",
        };
        let rec = Recommendation::new(
            String::from_str("heat_stress_forecast"),
            RecommendationCategory::HeatStress,
            severity,
            String::from_str(title),
            String::from_str("Temperatures up to ").concat(
                text::fmt_milli_0(max_temp).as_str(),
            ).concat("°F expected over the next ").concat(text::fmt_i64(shown_days).as_str()).concat(
                " days. Cool-season grasses experience stress above 85°F.",
            ),
            *now,
        ).with_explanation(
            String::from_str(
                "Tall Fescue and other cool-season grasses evolved for temperatures between 60-75°F. Above 85°F, photosynthesis slows and root growth stops. Above 90°F, the grass may enter summer dormancy. Fertilizing during heat stress forces top growth at the expense of roots, weakening the plant. Taller grass shades the crown and soil, reducing heat stress.",
            ),
        ).with_data_point(
            "Max Forecast Temp",
            text::fmt_milli_0(max_temp).concat("°F"),
            "OpenWeatherMap",
        ).with_data_point(
            "Hot Days",
            text::fmt_i64(hot_days as i64),
            "OpenWeatherMap",
        ).with_action(String::from_str(action));
        proof {
            assert(rec@ =~= Self::stress_model(max_temp, hot_days as int, *now));
        }
        Some(rec)
    }
}

} // verus!
