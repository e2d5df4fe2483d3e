//! Irrigation from forecast drought.
//!
//! When the primary soil moisture is low and no meaningful rain is coming
//! in the next five days, irrigation is recommended; the drier the soil,
//! the higher the severity (below 0.10 critical, below 0.15 warning, below
//! 0.20 advisory). The count of leading dry days in the daily series is
//! reported alongside.

use crate::application::Application;
use crate::dates::{spec_day_number, Date, Timestamp};
use crate::environmental::EnvironmentalSummary;
use crate::forecast::{days_within, spec_rain_expected, sum_day_precip, DailyForecast};
use crate::profile::LawnProfile;
use crate::recommendation::{
    opt_model, rec_model, RecModel, Recommendation, RecommendationCategory, Severity,
};
use crate::rules::inputs_wf;
use crate::text;
use vstd::prelude::*;

verus! {

pub struct IrrigationForecastRule;

/// Leading run of days without meaningful rain (under 2.5 mm and under a
/// 0.5 probability).
pub open spec fn dry_day_run(s: Seq<DailyForecast>) -> int
    decreases s.len(),
{
    if s.len() == 0 || !(s[0].total_precipitation_mm < 2500 && s[0].max_precipitation_prob < 500) {
        0
    } else {
        1 + dry_day_run(s.drop_first())
    }
}

/// A prefix-run count equals the first failing index.
proof fn lemma_dry_day_run_index(s: Seq<DailyForecast>, n: int)
    requires
        0 <= n <= s.len(),
        forall|j: int|
            0 <= j < n ==> (#[trigger] s[j]).total_precipitation_mm < 2500
                && s[j].max_precipitation_prob < 500,
        n < s.len() ==> !(s[n].total_precipitation_mm < 2500 && s[n].max_precipitation_prob < 500),
    ensures
        dry_day_run(s) == n,
    decreases n,
{
    if s.len() == 0 {
    } else if n == 0 {
    } else {
        lemma_dry_day_run_index(s.drop_first(), n - 1);
    }
}

impl IrrigationForecastRule {
    pub fn id(&self) -> (r: &'static str)
        ensures
            r@ == "irrigation_forecast"@,
    {
        "irrigation_forecast"
    }

    pub fn name(&self) -> (r: &'static str)
        ensures
            r@ == "Irrigation From Forecast"@,
    {
        "Irrigation From Forecast"
    }

    pub open spec fn spec_severity(moisture: i64) -> Severity {
        if moisture < 100 {
            Severity::Critical
        } else if moisture < 150 {
            Severity::Warning
        } else {
            Severity::Advisory
        }
    }

    pub open spec fn spec_title(severity: Severity) -> Seq<char> {
        match severity {
            Severity::Critical => "Irrigation Urgently Needed"@,
            Severity::Warning => "Irrigation Recommended Soon"@,
            _ => "Consider Irrigation"@,
        }
    }

    pub open spec fn spec_action(severity: Severity) -> Seq<char> {
        match severity {
            Severity::Critical => "Water immediately. Apply 1-1.5 inches over the next 2-3 days to prevent drought stress. Water early morning (5-9 AM) to minimize evaporation and disease."@,
            Severity::Warning => "Plan to irrigate within the next 1-2 days. Apply 0.5-1 inch of water. Deep, infrequent watering is better than shallow daily watering."@,
            _ => "Monitor soil moisture and plan irrigation if conditions don't change. Consider a deep watering session in early morning."@,
        }
    }

    pub open spec fn irrigation_model(moisture: i64, dry_days: int, now: Timestamp) -> RecModel {
        let severity = Self::spec_severity(moisture);
        rec_model(
            "irrigation_forecast"@,
            RecommendationCategory::Irrigation,
            severity,
            Self::spec_title(severity),
            "Soil moisture is low ("@ + text::spec_milli_0(moisture as int * 100)
                + "%) and no significant rain is forecasted for "@ + text::spec_int_str(dry_days)
                + " days. Cool-season grasses need consistent moisture."@,
            now,
        ).with_explanation(
            "Tall Fescue requires 1-1.5 inches of water per week during the growing season. When soil moisture drops below 10-15% and no rain is expected, supplemental irrigation prevents drought stress, thinning, and weed invasion. Water deeply (to 6 inches) to encourage deep root growth."@,
        ).with_data_point(
            "Soil Moisture"@,
            text::spec_milli_0(moisture as int * 100) + "%"@,
            "NOAA USCRN"@,
        ).with_data_point(
            "Dry Days Forecast"@,
            text::spec_int_str(dry_days) + " days"@,
            "OpenWeatherMap"@,
        ).with_action(Self::spec_action(severity))
    }

    /// Full behavior: gates on a forecast, a current reading and a present
    /// primary moisture; silent when moisture is adequate (at least 0.20),
    /// when the 5-day rain outlook is positive, or when more than 2.5 mm of
    /// rain falls within the next five days.
    pub open spec fn spec_evaluate(
        env: EnvironmentalSummary,
        profile: LawnProfile,
        history: Seq<Application>,
        today: Date,
        now: Timestamp,
    ) -> Option<RecModel> {
        match (env.forecast, env.current) {
            (Some(f), Some(cur)) => match cur.spec_primary_soil_moisture() {
                None => None,
                Some(moisture) => if moisture >= 200 {
                    None
                } else if spec_rain_expected(f.hourly@, now.secs + 120 * 3600, 100) is Some {
                    None
                } else if sum_day_precip(
                    days_within(f.daily_summary@, spec_day_number(today) + 5),
                ) > 2500 {
                    None
                } else {
                    Some(
                        Self::irrigation_model(moisture, dry_day_run(f.daily_summary@), now),
                    )
                },
            },
            _ => None,
        }
    }

    /// Evaluate the rule; returns exactly what the specification says.
    pub fn evaluate(
        &self,
        env: &EnvironmentalSummary,
        profile: &LawnProfile,
        history: &Vec<Application>,
        today: &Date,
        now: &Timestamp,
    ) -> (r: Option<Recommendation>)
        requires
            inputs_wf(*env, *profile, history@, *today, *now),
        ensures
            opt_model(r) == Self::spec_evaluate(*env, *profile, history@, *today, *now),
    {
        let forecast = match &env.forecast {
            Some(f) => f,
            None => {
                return None;
            },
        };
        let cur = match &env.current {
            Some(c) => c,
            None => {
                return None;
            },
        };
        let moisture = match cur.primary_soil_moisture() {
            Some(m) => m,
            None => {
                return None;
            },
        };
        if moisture >= 200 {
            return None;
        }
        if forecast.rain_expected_within(now, 120, 100).is_some() {
            return None;
        }
        let window = forecast.next_days(today, 5);
        let ghost w = window@;
        let mut total_precip: i64 = 0;
        let mut i: usize = 0;
        proof {
            assert(w.subrange(0, 0) =~= Seq::<DailyForecast>::empty());
        }
        while i < window.len()
            invariant
                0 <= i <= w.len() == window@.len(),
                window@ == w,
                w.len() <= crate::forecast::HOURLY_MAX,
                forall|k: int| 0 <= k < w.len() ==> (#[trigger] w[k]).wf(),
                total_precip == sum_day_precip(w.subrange(0, i as int)),
                0 <= total_precip <= i * crate::forecast::DAY_PRECIP_MAX,
            decreases w.len() - i,
        {
            proof {
                assert(w.subrange(0, i + 1).drop_last() =~= w.subrange(0, i as int));
                assert(w.subrange(0, i + 1).last() == w[i as int]);
                vstd::arithmetic::mul::lemma_mul_inequality(
                    i as int,
                    crate::forecast::HOURLY_MAX as int,
                    crate::forecast::DAY_PRECIP_MAX as int,
                );
            }
            total_precip = total_precip + window[i].total_precipitation_mm;
            i = i + 1;
        }
        proof {
            assert(w.subrange(0, w.len() as int) =~= w);
        }
        if total_precip > 2500 {
            return None;
        }
        let mut dry_days: usize = 0;
        while dry_days < forecast.daily_summary.len()
            && forecast.daily_summary[dry_days].total_precipitation_mm < 2500
            && forecast.daily_summary[dry_days].max_precipitation_prob < 500
            invariant
                0 <= dry_days <= forecast.daily_summary@.len(),
                forall|j: int|
                    0 <= j < dry_days ==> (#[trigger] forecast.daily_summary@[j]).total_precipitation_mm
                        < 2500 && forecast.daily_summary@[j].max_precipitation_prob < 500,
            decreases forecast.daily_summary@.len() - dry_days,
        {
            dry_days = dry_days + 1;
        }
        proof {
            lemma_dry_day_run_index(forecast.daily_summary@, dry_days as int);
        }
        let severity = if moisture < 100 {
            Severity::Critical
        } else if moisture < 150 {
            Severity::Warning
        } else {
            Severity::Advisory
        };
        let title = match severity {
            Severity::Critical => "Irrigation Urgently Needed",
            Severity::Warning => "Irrigation Recommended Soon",
            _ => "Consider Irrigation",
        };
        let action = match severity {
            Severity::Critical => "Water immediately. Apply 1-1.5 inches over the next 2-3 days to prevent drought stress. Water early morning (5-9 AM) to minimize evaporation and disease.",
            Severity::Warning => "Plan to irrigate within the next 1-2 days. Apply 0.5-1 inch of water. Deep, infrequent watering is better than shallow daily watering.",
            _ => "Monitor soil moisture and plan irrigation if conditions don't change. Consider a deep watering session in early morning.",
        };
        let rec = Recommendation::new(
            String::from_str("irrigation_forecast"),
            RecommendationCategory::Irrigation,
            severity,
            String::from_str(title),
            String::from_str("Soil moisture is low (").concat(
                text::fmt_milli_0(moisture * 100).as_str(),
            ).concat("%) and no significant rain is forecasted for ").concat(
                text::fmt_i64(dry_days as i64).as_str(),
            ).concat(" days. Cool-season grasses need consistent moisture."),
            *now,
        ).with_explanation(
            String::from_str(
                "Tall Fescue requires 1-1.5 inches of water per week during the growing season. When soil moisture drops below 10-15% and no rain is expected, supplemental irrigation prevents drought stress, thinning, and weed invasion. Water deeply (to 6 inches) to encourage deep root growth.",
            ),
        ).with_data_point(
            "Soil Moisture",
            text::fmt_milli_0(moisture * 100).concat("%"),
            "NOAA USCRN",
        ).with_data_point(
            "Dry Days Forecast",
            text::fmt_i64(dry_days as i64).concat(" days"),
            "OpenWeatherMap",
        ).with_action(String::from_str(action));
        proof {
            assert(rec@ =~= Self::irrigation_model(moisture, dry_days as int, *now));
        }
        Some(rec)
    }
}

} // verus!
