//! Rain delay.
//!
//! Chemical applications need dry hours to be absorbed. Three forward
//! horizons are checked in increasing order and the first that qualifies
//! wins, so a shorter, more urgent horizon always pre-empts a longer one:
//! 12 hours (critical at a probability of 0.7 or 2.5 mm expected), 24 hours
//! (warning at 0.5 or 2.5 mm) and 48 hours (advisory at 0.3 or 5 mm).

use crate::application::Application;
use crate::dates::{Date, Timestamp};
use crate::environmental::EnvironmentalSummary;
use crate::forecast::{spec_rain_expected, RainForecast, WeatherForecast};
use crate::num;
use crate::profile::LawnProfile;
use crate::recommendation::{
    opt_model, rec_model, RecModel, Recommendation, RecommendationCategory, Severity,
};
use crate::rules::inputs_wf;
use crate::text;
use vstd::prelude::*;

verus! {

pub struct RainDelayRule;

impl RainDelayRule {
    pub fn id(&self) -> (r: &'static str)
        ensures
            r@ == "rain_delay"@,
    {
        "rain_delay"
    }

    pub fn name(&self) -> (r: &'static str)
        ensures
            r@ == "Rain Delay"@,
    {
        "Rain Delay"
    }

    pub open spec fn spec_title(severity: Severity) -> Seq<char> {
        match severity {
            Severity::Critical => "Rain Imminent - Delay Applications"@,
            Severity::Warning => "Rain Expected - Plan Applications Carefully"@,
            _ => "Rain in Forecast - Consider Timing"@,
        }
    }

    pub open spec fn spec_action(severity: Severity) -> Seq<char> {
        match severity {
            Severity::Critical => "Do NOT apply fertilizer, herbicide, or fungicide. Wait for dry conditions and at least 24 hours of no rain forecast."@,
            Severity::Warning => "Delay chemical applications if possible. If application is critical, ensure product has time to dry (4-6 hours)."@,
            _ => "Monitor forecast before planning applications. Consider applying in early morning if afternoon rain expected."@,
        }
    }

    /// Expected rain in thousandths of an inch, truncated toward zero.
    pub open spec fn spec_inches(expected_mm: i64) -> int {
        num::spec_tdiv(expected_mm * 10, 254)
    }

    pub open spec fn delay_model(
        severity: Severity,
        hours: int,
        expected_mm: i64,
        probability: i64,
        now: Timestamp,
    ) -> RecModel {
        let inches = Self::spec_inches(expected_mm);
        let prob_percent = probability * 100;
        rec_model(
            "rain_delay"@,
            RecommendationCategory::ApplicationTiming,
            severity,
            Self::spec_title(severity),
            "Rain expected within "@ + text::spec_int_str(hours) + " hours: "@
                + text::spec_milli_2(inches) + "\" ("@ + text::spec_milli_0(prob_percent)
                + "% probability). Fertilizer and herbicide applications should be delayed."@,
            now,
        ).with_explanation(
            "Chemical lawn products (fertilizers, herbicides, fungicides) need time to be absorbed by plants or soil before rain. Rain within 24-48 hours of application can wash products away, reducing effectiveness and potentially polluting waterways."@,
        ).with_data_point(
            "Expected Rain"@,
            text::spec_milli_2(inches) + "\""@,
            "OpenWeatherMap"@,
        ).with_data_point(
            "Rain Probability"@,
            text::spec_milli_0(prob_percent) + "%"@,
            "OpenWeatherMap"@,
        ).with_data_point(
            "Forecast Window"@,
            text::spec_int_str(hours) + "h"@,
            "OpenWeatherMap"@,
        ).with_action(Self::spec_action(severity))
    }

    /// Full behavior: checks the 12, 24 and 48 hour horizons in that order
    /// and reports the first whose outlook qualifies; a shorter horizon
    /// that qualifies suppresses the longer ones entirely.
    pub open spec fn spec_evaluate(
        env: EnvironmentalSummary,
        profile: LawnProfile,
        history: Seq<Application>,
        today: Date,
        now: Timestamp,
    ) -> Option<RecModel> {
        match env.forecast {
            None => None,
            Some(f) => {
                let r12 = spec_rain_expected(f.hourly@, now.secs + 12 * 3600, 100);
                let r24 = spec_rain_expected(f.hourly@, now.secs + 24 * 3600, 100);
                let r48 = spec_rain_expected(f.hourly@, now.secs + 48 * 3600, 100);
                if r12 is Some && (r12->0.max_probability >= 700 || r12->0.expected_mm >= 2500) {
                    Some(
                        Self::delay_model(
                            Severity::Critical,
                            12,
                            r12->0.expected_mm,
                            r12->0.max_probability,
                            now,
                        ),
                    )
                } else if r24 is Some && (r24->0.max_probability >= 500 || r24->0.expected_mm
                    >= 2500) {
                    Some(
                        Self::delay_model(
                            Severity::Warning,
                            24,
                            r24->0.expected_mm,
                            r24->0.max_probability,
                            now,
                        ),
                    )
                } else if r48 is Some && (r48->0.max_probability >= 300 || r48->0.expected_mm
                    >= 5000) {
                    Some(
                        Self::delay_model(
                            Severity::Advisory,
                            48,
                            r48->0.expected_mm,
                            r48->0.max_probability,
                            now,
                        ),
                    )
                } else {
                    None
                }
            },
        }
    }

    fn build(
        &self,
        severity: Severity,
        hours: i64,
        expected_mm: i64,
        probability: i64,
        now: &Timestamp,
    ) -> (r: Recommendation)
        requires
            0 <= expected_mm <= crate::environmental::TOTAL_MILLI_MAX,
            0 <= probability <= 1000,
            0 < hours <= 48,
        ensures
            r@ == Self::delay_model(severity, hours as int, expected_mm, probability, *now),
    {
        let inches = num::tdiv(expected_mm * 10, 254);
        let prob_percent = probability * 100;
        let title = match severity {
            Severity::Critical => "Rain Imminent - Delay Applications",
            Severity::Warning => "Rain Expected - Plan Applications Carefully",
            _ => "Rain in Forecast - Consider Timing",
        };
        let action = match severity {
            Severity::Critical => "Do NOT apply fertilizer, herbicide, or fungicide. Wait for dry conditions and at least 24 hours of no rain forecast.",
            Severity::Warning => "Delay chemical applications if possible. If application is critical, ensure product has time to dry (4-6 hours).",
            _ => "Monitor forecast before planning applications. Consider applying in early morning if afternoon rain expected.",
        };
        proof {
            vstd::arithmetic::div_mod::lemma_div_pos_is_pos(expected_mm * 10, 254);
            vstd::arithmetic::div_mod::lemma_div_is_ordered(
                expected_mm * 10,
                crate::environmental::TOTAL_MILLI_MAX * 10,
                254,
            );
        }
        let rec = Recommendation::new(
            String::from_str("rain_delay"),
            RecommendationCategory::ApplicationTiming,
            severity,
            String::from_str(title),
            String::from_str("Rain expected within ").concat(text::fmt_i64(hours).as_str()).concat(
                " hours: ",
            ).concat(text::fmt_milli_2(inches).as_str()).concat("\" (").concat(
                text::fmt_milli_0(prob_percent).as_str(),
            ).concat("% probability). Fertilizer and herbicide applications should be delayed."),
            *now,
        ).with_explanation(
            String::from_str(
                "Chemical lawn products (fertilizers, herbicides, fungicides) need time to be absorbed by plants or soil before rain. Rain within 24-48 hours of application can wash products away, reducing effectiveness and potentially polluting waterways.",
            ),
        ).with_data_point(
            "Expected Rain",
            text::fmt_milli_2(inches).concat("\""),
            "OpenWeatherMap",
        ).with_data_point(
            "Rain Probability",
            text::fmt_milli_0(prob_percent).concat("%"),
            "OpenWeatherMap",
        ).with_data_point(
            "Forecast Window",
            text::fmt_i64(hours).concat("h"),
            "OpenWeatherMap",
        ).with_action(String::from_str(action));
        proof {
            assert(rec@ =~= Self::delay_model(
                severity,
                hours as int,
                expected_mm,
                probability,
                *now,
            ));
        }
        rec
    }

    /// Evaluate the rule; returns exactly what the specification says.
    pub fn evaluate(
        &self,
        env: &EnvironmentalSummary,
        profile: &LawnProfile,
        history: &Vec<Application>,
        today: &Date,
        now: &Timestamp,
    ) -> (r: Option<Recommendation>)
        requires
            inputs_wf(*env, *profile, history@, *today, *now),
        ensures
            opt_model(r) == Self::spec_evaluate(*env, *profile, history@, *today, *now),
    {
        let forecast = match &env.forecast {
            Some(f) => f,
            None => {
                return None;
            },
        };
        match forecast.rain_expected_within(now, 12, 100) {
            Some(rain) => {
                if rain.max_probability >= 700 || rain.expected_mm >= 2500 {
                    return Some(
                        self.build(
                            Severity::Critical,
                            12,
                            rain.expected_mm,
                            rain.max_probability,
                            now,
                        ),
                    );
                }
            },
            None => {},
        }
        match forecast.rain_expected_within(now, 24, 100) {
            Some(rain) => {
                if rain.max_probability >= 500 || rain.expected_mm >= 2500 {
                    return Some(
                        self.build(
                            Severity::Warning,
                            24,
                            rain.expected_mm,
                            rain.max_probability,
                            now,
                        ),
                    );
                }
            },
            None => {},
        }
        match forecast.rain_expected_within(now, 48, 100) {
            Some(rain) => {
                if rain.max_probability >= 300 || rain.expected_mm >= 5000 {
                    return Some(
                        self.build(
                            Severity::Advisory,
                            48,
                            rain.expected_mm,
                            rain.max_probability,
                            now,
                        ),
                    );
                }
            },
            None => {},
        }
        None
    }
}

} // verus!
