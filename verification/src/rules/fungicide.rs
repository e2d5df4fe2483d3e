//! Fungicide disease risk.
//!
//! Brown patch thrives in hot, humid weather. For cool-season lawns, the
//! rule fires when the current humidity is above 80% and the current
//! ambient temperature above 70 °F; the severity escalates with sustained
//! humidity (7-day average above 75%) and extreme current readings.

use crate::application::Application;
use crate::dates::{Date, Timestamp};
use crate::environmental::EnvironmentalSummary;
use crate::profile::LawnProfile;
use crate::recommendation::{
    opt_model, rec_model, RecModel, Recommendation, RecommendationCategory, Severity,
};
use crate::rules::inputs_wf;
use crate::text;
use vstd::prelude::*;

verus! {

pub struct FungicideRule;

impl FungicideRule {
    pub fn id(&self) -> (r: &'static str)
        ensures
            r@ == "fungicide_risk"@,
    {
        "fungicide_risk"
    }

    pub fn name(&self) -> (r: &'static str)
        ensures
            r@ == "Fungicide Disease Risk"@,
    {
        "Fungicide Disease Risk"
    }

    pub open spec fn risk_model(
        humidity: i64,
        ambient: i64,
        humidity_avg: i64,
        now: Timestamp,
    ) -> RecModel {
        let sustained = humidity_avg > 75000;
        let severity = if humidity > 90000 && ambient > 80000 && sustained {
            Severity::Critical
        } else if sustained {
            Severity::Warning
        } else {
            Severity::Advisory
        };
        rec_model(
            "fungicide_risk"@,
            RecommendationCategory::Fungicide,
            severity,
            "Brown Patch Risk Elevated"@,
            "Current conditions favor brown patch disease. Humidity: "@ + text::spec_milli_0(
                humidity as int,
            ) + "%, Temp: "@ + text::spec_milli_1(ambient as int) + "°F"@,
            now,
        ).with_explanation(
            "Brown patch (Rhizoctonia solani) thrives in hot, humid conditions with night temperatures above 65°F. Tall Fescue is particularly susceptible. Symptoms include circular patches of tan/brown turf with a dark 'smoke ring' border in morning dew."@,
        ).with_data_point(
            "Current Humidity"@,
            text::spec_milli_0(humidity as int) + "%"@,
            "Patio Sensor"@,
        ).with_data_point(
            "Ambient Temp"@,
            text::spec_milli_1(ambient as int) + "°F"@,
            "Patio Sensor"@,
        ).with_data_point(
            "7-Day Avg Humidity"@,
            text::spec_milli_0(humidity_avg as int) + "%"@,
            "Calculated"@,
        ).with_action(
            "Consider preventive fungicide application (azoxystrobin, propiconazole, or thiophanate-methyl). Avoid evening irrigation - water early morning. Reduce nitrogen applications during high-risk periods."@,
        )
    }

    /// Full behavior: gates on cool-season grass and the presence of the
    /// current humidity, current ambient temperature and 7-day humidity
    /// average; fires only when humidity exceeds 80% and temperature 70 °F.
    pub open spec fn spec_evaluate(
        env: EnvironmentalSummary,
        profile: LawnProfile,
        history: Seq<Application>,
        today: Date,
        now: Timestamp,
    ) -> Option<RecModel> {
        if !profile.grass_type.spec_cool_season() {
            None
        } else {
            match env.current {
                None => None,
                Some(cur) => match (cur.humidity_percent, cur.ambient_temp_f) {
                    (Some(humidity), Some(ambient)) => match env.humidity_7day_avg {
                        None => None,
                        Some(humidity_avg) => if humidity > 80000 && ambient > 70000 {
                            Some(Self::risk_model(humidity, ambient, humidity_avg, now))
                        } else {
                            None
                        },
                    },
                    _ => None,
                },
            }
        }
    }

    /// Evaluate the rule; returns exactly what the specification says.
    pub fn evaluate(
        &self,
        env: &EnvironmentalSummary,
        profile: &LawnProfile,
        history: &Vec<Application>,
        today: &Date,
        now: &Timestamp,
    ) -> (r: Option<Recommendation>)
        requires
            inputs_wf(*env, *profile, history@, *today, *now),
        ensures
            opt_model(r) == Self::spec_evaluate(*env, *profile, history@, *today, *now),
    {
        if !profile.grass_type.is_cool_season() {
            return None;
        }
        let cur = match &env.current {
            Some(c) => c,
            None => {
                return None;
            },
        };
        let humidity = match cur.humidity_percent {
            Some(h) => h,
            None => {
                return None;
            },
        };
        let ambient = match cur.ambient_temp_f {
            Some(t) => t,
            None => {
                return None;
            },
        };
        let humidity_avg = match env.humidity_7day_avg {
            Some(h) => h,
            None => {
                return None;
            },
        };
        if !(humidity > 80000 && ambient > 70000) {
            return None;
        }
        let sustained = humidity_avg > 75000;
        let severity = if humidity > 90000 && ambient > 80000 && sustained {
            Severity::Critical
        } else if sustained {
            Severity::Warning
        } else {
            Severity::Advisory
        };
        let rec = Recommendation::new(
            String::from_str("fungicide_risk"),
            RecommendationCategory::Fungicide,
            severity,
            String::from_str("Brown Patch Risk Elevated"),
            String::from_str("Current conditions favor brown patch disease. Humidity: ").concat(
                text::fmt_milli_0(humidity).as_str(),
            ).concat("%, Temp: ").concat(text::fmt_milli_1(ambient).as_str()).concat("°F"),
            *now,
        ).with_explanation(
            String::from_str(
                "Brown patch (Rhizoctonia solani) thrives in hot, humid conditions with night temperatures above 65°F. Tall Fescue is particularly susceptible. Symptoms include circular patches of tan/brown turf with a dark 'smoke ring' border in morning dew.",
            ),
        ).with_data_point(
            "Current Humidity",
            text::fmt_milli_0(humidity).concat("%"),
            "Patio Sensor",
        ).with_data_point(
            "Ambient Temp",
            text::fmt_milli_1(ambient).concat("°F"),
            "Patio Sensor",
        ).with_data_point(
            "7-Day Avg Humidity",
            text::fmt_milli_0(humidity_avg).concat("%"),
            "Calculated",
        ).with_action(
            String::from_str(
                "Consider preventive fungicide application (azoxystrobin, propiconazole, or thiophanate-methyl). Avoid evening irrigation - water early morning. Reduce nitrogen applications during high-risk periods.",
            ),
        );
        proof {
            assert(rec@ =~= Self::risk_model(humidity, ambient, humidity_avg, *now));
        }
        Some(rec)
    }
}

} // verus!
