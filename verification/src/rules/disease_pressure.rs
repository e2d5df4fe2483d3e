//! Disease-pressure forecast.
//!
//! Fungal turf diseases follow warm, humid spells. Current conditions and
//! the five-day forecast are each scored on a discrete rubric; when the
//! combined risk reaches two points a recommendation is raised, escalating
//! with the total. The likely disease is named from night temperatures,
//! daytime heat and current humidity, and the leading run of
//! high-humidity forecast days is reported.

use crate::application::Application;
use crate::dates::{spec_day_number, Date, Timestamp};
use crate::environmental::EnvironmentalSummary;
use crate::forecast::{days_within, DailyForecast};
use crate::profile::LawnProfile;
use crate::recommendation::{
    opt_model, rec_model, RecModel, Recommendation, RecommendationCategory, Severity,
};
use crate::rules::inputs_wf;
use crate::text;
use vstd::prelude::*;

verus! {

pub struct DiseasePressureRule;

/// Leading run of forecast days with average humidity at or above 80%.
pub open spec fn humid_day_run(s: Seq<DailyForecast>) -> int
    decreases s.len(),
{
    if s.len() == 0 || s[0].avg_humidity < 80000 {
        0
    } else {
        1 + humid_day_run(s.drop_first())
    }
}

/// A prefix-run count equals the first failing index.
proof fn lemma_humid_day_run_index(s: Seq<DailyForecast>, n: int)
    requires
        0 <= n <= s.len(),
        forall|j: int| 0 <= j < n ==> (#[trigger] s[j]).avg_humidity >= 80000,
        n < s.len() ==> s[n].avg_humidity < 80000,
    ensures
        humid_day_run(s) == n,
    decreases n,
{
    if s.len() == 0 {
    } else if n == 0 {
    } else {
        lemma_humid_day_run_index(s.drop_first(), n - 1);
    }
}

/// The current-conditions risk rubric: two points for humidity at or above
/// 90%, one for 80%, one for a 75-90 °F ambient temperature, one for more
/// than 25 mm of rain in the last week, and one for a 7-day average
/// humidity at or above 80%.
pub open spec fn spec_current_risk(env: EnvironmentalSummary) -> int {
    (match env.current {
        Some(cur) => (match cur.humidity_percent {
            Some(h) => if h >= 90000 {
                2int
            } else if h >= 80000 {
                1int
            } else {
                0int
            },
            None => 0,
        }) + (match cur.ambient_temp_f {
            Some(t) => if 75000 <= t && t <= 90000 {
                1int
            } else {
                0int
            },
            None => 0,
        }),
        None => 0,
    }) + (match env.precipitation_7day_total_mm {
        Some(p) => if p > 25000 {
            1int
        } else {
            0int
        },
        None => 0,
    }) + (match env.humidity_7day_avg {
        Some(h) => if h >= 80000 {
            1int
        } else {
            0int
        },
        None => 0,
    })
}

/// One forecast day's contribution to the risk score: a point each for
/// warm nights with high humidity, warm days with high humidity, and rain
/// followed by warmth.
pub open spec fn day_risk(d: DailyForecast) -> int {
    let high_humidity = d.avg_humidity >= 80000;
    let warm_nights = d.low_temp_f >= 65000;
    let warm_days = 75000 <= d.high_temp_f && d.high_temp_f <= 90000;
    let has_rain = d.total_precipitation_mm >= 2500 || d.max_precipitation_prob >= 500;
    (if warm_nights && high_humidity {
        1int
    } else {
        0int
    }) + (if warm_days && high_humidity {
        1int
    } else {
        0int
    }) + (if has_rain && warm_days {
        1int
    } else {
        0int
    })
}

/// Summed day risks over a window.
pub open spec fn window_risk(s: Seq<DailyForecast>) -> int
    decreases s.len(),
{
    if s.len() == 0 {
        0
    } else {
        window_risk(s.drop_last()) + day_risk(s.last())
    }
}

/// The forecast risk: the five-day window's summed risk, capped at six.
pub open spec fn spec_forecast_risk(env: EnvironmentalSummary, today: Date) -> int {
    match env.forecast {
        None => 0,
        Some(f) => {
            let r = window_risk(days_within(f.daily_summary@, spec_day_number(today) + 5));
            if r > 6 {
                6
            } else {
                r
            }
        },
    }
}

/// Whether any day of a window has a low at or above 68 °F.
pub open spec fn any_warm_night(s: Seq<DailyForecast>) -> bool {
    exists|j: int| 0 <= j < s.len() && (#[trigger] s[j]).low_temp_f >= 68000
}

/// Whether any day of a window has a high at or above 85 °F.
pub open spec fn any_very_warm_day(s: Seq<DailyForecast>) -> bool {
    exists|j: int| 0 <= j < s.len() && (#[trigger] s[j]).high_temp_f >= 85000
}

impl DiseasePressureRule {
    pub fn id(&self) -> (r: &'static str)
        ensures
            r@ == "disease_pressure"@,
    {
        "disease_pressure"
    }

    pub fn name(&self) -> (r: &'static str)
        ensures
            r@ == "Disease Pressure Forecast"@,
    {
        "Disease Pressure Forecast"
    }

    /// Name of the most likely disease given the 3-day forecast and the
    /// current humidity.
    pub open spec fn spec_disease(env: EnvironmentalSummary, today: Date) -> Seq<char> {
        let w3 = match env.forecast {
            Some(f) => days_within(f.daily_summary@, spec_day_number(today) + 3),
            None => Seq::empty(),
        };
        let warm_nights = any_warm_night(w3);
        let very_warm_days = any_very_warm_day(w3);
        let current_humid = match env.current {
            Some(cur) => match cur.humidity_percent {
                Some(h) => h >= 85000,
                None => false,
            },
            None => false,
        };
        if warm_nights && very_warm_days && current_humid {
            "Brown Patch"@
        } else if warm_nights && !very_warm_days {
            "Dollar Spot"@
        } else {
            "Fungal Disease"@
        }
    }

    pub open spec fn spec_severity(current_risk: int, forecast_risk: int) -> Severity {
        let combined = current_risk + forecast_risk;
        if combined >= 5 || (current_risk >= 2 && forecast_risk >= 3) {
            Severity::Critical
        } else if combined >= 3 {
            Severity::Warning
        } else {
            Severity::Advisory
        }
    }

    pub open spec fn spec_title(severity: Severity, disease: Seq<char>) -> Seq<char> {
        match severity {
            Severity::Critical => "High "@ + disease + " Risk - Act Now"@,
            Severity::Warning => disease + " Risk Elevated"@,
            _ => disease + " Conditions Developing"@,
        }
    }

    pub open spec fn spec_action(severity: Severity) -> Seq<char> {
        match severity {
            Severity::Critical => "Apply preventative fungicide immediately (azoxystrobin, propiconazole). Water ONLY in early morning (5-7 AM). Avoid evening irrigation. Reduce nitrogen. Monitor for circular brown patches."@,
            Severity::Warning => "Consider preventative fungicide if lawn is valuable or has history of disease. Switch to early morning watering only. Avoid high-nitrogen fertilizer. Inspect lawn for early symptoms."@,
            _ => "Monitor conditions. Water early morning only. Prepare fungicide for application if conditions worsen. Avoid fertilizer during high-risk period."@,
        }
    }

    pub open spec fn pressure_model(
        env: EnvironmentalSummary,
        today: Date,
        humid_days: int,
        now: Timestamp,
    ) -> RecModel {
        let current_risk = spec_current_risk(env);
        let forecast_risk = spec_forecast_risk(env, today);
        let severity = Self::spec_severity(current_risk, forecast_risk);
        let disease = Self::spec_disease(env, today);
        let current_note: Seq<char> = if current_risk > 0 {
            "Current conditions already favor disease. "@
        } else {
            ""@
        };
        let base = rec_model(
            "disease_pressure_forecast"@,
            RecommendationCategory::DiseasePressure,
            severity,
            Self::spec_title(severity, disease),
            current_note + "Forecast shows "@ + text::spec_int_str(humid_days)
                + " days of disease-favorable conditions (high humidity, warm temps). "@ + disease
                + " thrives in these conditions."@,
            now,
        ).with_explanation(
            disease
                + " is caused by fungal pathogens that thrive in warm, humid conditions. Night temperatures above 65°F combined with humidity above 80% create ideal infection conditions. Symptoms include circular patches of tan/brown turf, often with a darker 'smoke ring' border visible in early morning dew. Preventative fungicide is more effective than curative treatment."@,
        ).with_action(Self::spec_action(severity));
        let with_hum = match env.current {
            Some(cur) => match cur.humidity_percent {
                Some(h) => base.with_data_point(
                    "Current Humidity"@,
                    text::spec_milli_0(h as int) + "%"@,
                    "Patio Sensor"@,
                ),
                None => base,
            },
            None => base,
        };
        let with_days = with_hum.with_data_point(
            "High-Risk Days"@,
            text::spec_int_str(humid_days),
            "OpenWeatherMap"@,
        );
        match env.humidity_7day_avg {
            Some(h) => with_days.with_data_point(
                "7-Day Avg Humidity"@,
                text::spec_milli_0(h as int) + "%"@,
                "Calculated"@,
            ),
            None => with_days,
        }
    }

    /// Full behavior: gated on cool-season grass and a present forecast;
    /// silent while the combined risk is below two points.
    pub open spec fn spec_evaluate(
        env: EnvironmentalSummary,
        profile: LawnProfile,
        history: Seq<Application>,
        today: Date,
        now: Timestamp,
    ) -> Option<RecModel> {
        if !profile.grass_type.spec_cool_season() {
            None
        } else {
            match env.forecast {
                None => None,
                Some(f) => {
                    let combined = spec_current_risk(env) + spec_forecast_risk(env, today);
                    if combined < 2 {
                        None
                    } else {
                        Some(
                            Self::pressure_model(env, today, humid_day_run(f.daily_summary@), now),
                        )
                    }
                },
            }
        }
    }

    /// Evaluate the rule; returns exactly what the specification says.
    pub fn evaluate(
        &self,
        env: &EnvironmentalSummary,
        profile: &LawnProfile,
        history: &Vec<Application>,
        today: &Date,
        now: &Timestamp,
    ) -> (r: Option<Recommendation>)
        requires
            inputs_wf(*env, *profile, history@, *today, *now),
        ensures
            opt_model(r) == Self::spec_evaluate(*env, *profile, history@, *today, *now),
    {
        if !profile.grass_type.is_cool_season() {
            return None;
        }
        let forecast = match &env.forecast {
            Some(f) => f,
            None => {
                return None;
            },
        };
        let mut current_risk: i64 = 0;
        match &env.current {
            Some(cur) => {
                match cur.humidity_percent {
                    Some(h) => {
                        if h >= 90000 {
                            current_risk = current_risk + 2;
                        } else if h >= 80000 {
                            current_risk = current_risk + 1;
                        }
                    },
                    None => {},
                }
                match cur.ambient_temp_f {
                    Some(t) => {
                        if 75000 <= t && t <= 90000 {
                            current_risk = current_risk + 1;
                        }
                    },
                    None => {},
                }
            },
            None => {},
        }
        match env.precipitation_7day_total_mm {
            Some(p) => {
                if p > 25000 {
                    current_risk = current_risk + 1;
                }
            },
            None => {},
        }
        match env.humidity_7day_avg {
            Some(h) => {
                if h >= 80000 {
                    current_risk = current_risk + 1;
                }
            },
            None => {},
        }
        proof {
            assert(current_risk == spec_current_risk(*env));
        }
        let w5 = forecast.next_days(today, 5);
        let ghost w5s = w5@;
        let mut risk: i64 = 0;
        let mut i: usize = 0;
        proof {
            assert(w5s.subrange(0, 0) =~= Seq::<DailyForecast>::empty());
        }
        while i < w5.len()
            invariant
                0 <= i <= w5s.len() == w5@.len(),
                w5@ == w5s,
                w5s.len() <= crate::forecast::HOURLY_MAX,
                risk == window_risk(w5s.subrange(0, i as int)),
                0 <= risk <= 3 * i,
            decreases w5s.len() - i,
        {
            proof {
                assert(w5s.subrange(0, i + 1).drop_last() =~= w5s.subrange(0, i as int));
                assert(w5s.subrange(0, i + 1).last() == w5s[i as int]);
            }
            let d = w5[i];
            let high_humidity = d.avg_humidity >= 80000;
            let warm_nights = d.low_temp_f >= 65000;
            let warm_days = 75000 <= d.high_temp_f && d.high_temp_f <= 90000;
            let has_rain = d.total_precipitation_mm >= 2500 || d.max_precipitation_prob >= 500;
            if warm_nights && high_humidity {
                risk = risk + 1;
            }
            if warm_days && high_humidity {
                risk = risk + 1;
            }
            if has_rain && warm_days {
                risk = risk + 1;
            }
            i = i + 1;
        }
        proof {
            assert(w5s.subrange(0, w5s.len() as int) =~= w5s);
        }
        let forecast_risk: i64 = if risk > 6 {
            6
        } else {
            risk
        };
        proof {
            assert(forecast_risk == spec_forecast_risk(*env, *today));
        }
        if current_risk + forecast_risk < 2 {
            return None;
        }
        let w3 = forecast.next_days(today, 3);
        let mut warm_nights = false;
        let mut very_warm_days = false;
        let mut k: usize = 0;
        while k < w3.len()
            invariant
                0 <= k <= w3@.len(),
                warm_nights == exists|j: int|
                    0 <= j < k && (#[trigger] w3@[j]).low_temp_f >= 68000,
                very_warm_days == exists|j: int|
                    0 <= j < k && (#[trigger] w3@[j]).high_temp_f >= 85000,
            decreases w3@.len() - k,
        {
            if w3[k].low_temp_f >= 68000 {
                warm_nights = true;
            }
            if w3[k].high_temp_f >= 85000 {
                very_warm_days = true;
            }
            k = k + 1;
        }
        proof {
            assert(warm_nights == any_warm_night(w3@));
            assert(very_warm_days == any_very_warm_day(w3@));
        }
        let current_humid = match &env.current {
            Some(cur) => match cur.humidity_percent {
                Some(h) => h >= 85000,
                None => false,
            },
            None => false,
        };
        let disease: &str = if warm_nights && very_warm_days && current_humid {
            "Brown Patch"
        } else if warm_nights && !very_warm_days {
            "Dollar Spot"
        } else {
            "Fungal Disease"
        };
        let humid_days = forecast.consecutive_high_humidity_days(80000);
        proof {
            lemma_humid_day_run_index(forecast.daily_summary@, humid_days as int);
        }
        let severity = if current_risk + forecast_risk >= 5 || (current_risk >= 2 && forecast_risk
            >= 3) {
            Severity::Critical
        } else if current_risk + forecast_risk >= 3 {
            Severity::Warning
        } else {
            Severity::Advisory
        };
        let title = match severity {
            Severity::Critical => String::from_str("High ").concat(disease).concat(
                " Risk - Act Now",
            ),
            Severity::Warning => String::from_str(disease).concat(" Risk Elevated"),
            _ => String::from_str(disease).concat(" Conditions Developing"),
        };
        let action = match severity {
            Severity::Critical => "Apply preventative fungicide immediately (azoxystrobin, propiconazole). Water ONLY in early morning (5-7 AM). Avoid evening irrigation. Reduce nitrogen. Monitor for circular brown patches.",
            Severity::Warning => "Consider preventative fungicide if lawn is valuable or has history of disease. Switch to early morning watering only. Avoid high-nitrogen fertilizer. Inspect lawn for early symptoms.",
            _ => "Monitor conditions. Water early morning only. Prepare fungicide for application if conditions worsen. Avoid fertilizer during high-risk period.",
        };
        let current_note = if current_risk > 0 {
            "Current conditions already favor disease. "
        } else {
            ""
        };
        let mut rec = Recommendation::new(
            String::from_str("disease_pressure_forecast"),
            RecommendationCategory::DiseasePressure,
            severity,
            title,
            String::from_str(current_note).concat("Forecast shows ").concat(
                text::fmt_i64(humid_days as i64).as_str(),
            ).concat(" days of disease-favorable conditions (high humidity, warm temps). ").concat(
                disease,
            ).concat(" thrives in these conditions."),
            *now,
        ).with_explanation(
            String::from_str(disease).concat(
                " is caused by fungal pathogens that thrive in warm, humid conditions. Night temperatures above 65°F combined with humidity above 80% create ideal infection conditions. Symptoms include circular patches of tan/brown turf, often with a darker 'smoke ring' border visible in early morning dew. Preventative fungicide is more effective than curative treatment.",
            ),
        ).with_action(String::from_str(action));
        match &env.current {
            Some(cur) => match cur.humidity_percent {
                Some(h) => {
                    rec = rec.with_data_point(
                        "Current Humidity",
                        text::fmt_milli_0(h).concat("%"),
                        "Patio Sensor",
                    );
                },
                None => {},
            },
            None => {},
        }
        rec = rec.with_data_point(
            "High-Risk Days",
            text::fmt_i64(humid_days as i64),
            "OpenWeatherMap",
        );
        match env.humidity_7day_avg {
            Some(h) => {
                rec = rec.with_data_point(
                    "7-Day Avg Humidity",
                    text::fmt_milli_0(h).concat("%"),
                    "Calculated",
                );
            },
            None => {},
        }
        proof {
            assert(rec@ =~= Self::pressure_model(
                *env,
                *today,
                humid_day_run(forecast.daily_summary@),
                *now,
            ));
        }
        Some(rec)
    }
}

} // verus!
