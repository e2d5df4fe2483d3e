//! Pre-emergent herbicide timing.
//!
//! Crabgrass germinates when the soil at 2-4 inches holds 55 °F for a few
//! days; pre-emergent must go down before that. Active for cool-season
//! lawns in February through May, suppressed once a pre-emergent
//! application is logged for the current year, and graded by how far the
//! 7-day average soil temperature sits inside the 50-60 °F band (above it,
//! the window is closing and the alarm is critical up to 70 °F).

use crate::application::{Application, ApplicationType};
use crate::dates::{Date, Timestamp};
use crate::environmental::EnvironmentalSummary;
use crate::profile::LawnProfile;
use crate::recommendation::{
    opt_model, rec_model, RecModel, Recommendation, RecommendationCategory, Severity,
};
use crate::rules::{inputs_wf, spec_has_matching};
use crate::text;
use vstd::prelude::*;

verus! {

pub struct PreEmergentRule;

impl PreEmergentRule {
    pub fn id(&self) -> (r: &'static str)
        ensures
            r@ == "pre_emergent"@,
    {
        "pre_emergent"
    }

    pub fn name(&self) -> (r: &'static str)
        ensures
            r@ == "Pre-Emergent Timing"@,
    {
        "Pre-Emergent Timing"
    }

    /// The recommendation for the optimal 50-60 °F band.
    pub open spec fn optimal_model(
        env: EnvironmentalSummary,
        avg: i64,
        current_soil: i64,
        year: int,
        now: Timestamp,
    ) -> RecModel {
        let severity = if avg >= 55000 {
            Severity::Warning
        } else {
            Severity::Advisory
        };
        rec_model(
            "pre_emergent_"@ + text::spec_int_str(year),
            RecommendationCategory::PreEmergent,
            severity,
            "Pre-Emergent Application Window"@,
            "Soil temperature is in the optimal range for pre-emergent application. 7-day average: "@
                + text::spec_milli_1(avg as int) + "°F"@,
            now,
        ).with_explanation(
            "Crabgrass germinates when soil temperature at 2-4 inch depth reaches 55°F for 3+ consecutive days. Apply pre-emergent (prodiamine or dithiopyr) before germination begins for best results."@,
        ).with_data_point(
            "7-Day Avg Soil Temp"@,
            text::spec_milli_1(avg as int) + "°F"@,
            "NOAA USCRN"@,
        ).with_data_point(
            "Current Soil Temp (10cm)"@,
            text::spec_milli_1(current_soil as int) + "°F"@,
            "NOAA USCRN"@,
        ).with_data_point("Trend"@, env.soil_temp_trend.spec_str(), "Calculated"@).with_action(
            "Apply pre-emergent herbicide (prodiamine, dithiopyr, or pendimethalin) at label rate. Water in within 24 hours if no rain."@,
        )
    }

    /// The recommendation for the closing 60-70 °F band.
    pub open spec fn late_model(avg: i64, year: int, now: Timestamp) -> RecModel {
        rec_model(
            "pre_emergent_late_"@ + text::spec_int_str(year),
            RecommendationCategory::PreEmergent,
            Severity::Critical,
            "Pre-Emergent Window Closing"@,
            "Soil temperature is above optimal range. Crabgrass may have begun germinating. 7-day average: "@
                + text::spec_milli_1(avg as int) + "°F"@,
            now,
        ).with_explanation(
            "If pre-emergent hasn't been applied, do so immediately. Consider a split application or use a product with post-emergent properties. After 70°F soil temp, pre-emergent efficacy drops significantly."@,
        ).with_data_point(
            "7-Day Avg Soil Temp"@,
            text::spec_milli_1(avg as int) + "°F"@,
            "NOAA USCRN"@,
        ).with_action(
            "Apply pre-emergent immediately if not yet done. Consider products with post-emergent activity like quinclorac combinations."@,
        )
    }

    /// Full behavior of the rule: gates on cool-season grass, the
    /// February-May season, no pre-emergent logged this year, and both
    /// soil-temperature inputs; grades the 7-day average against the
    /// 50-60 °F optimal band and the 60-70 °F late band.
    pub open spec fn spec_evaluate(
        env: EnvironmentalSummary,
        profile: LawnProfile,
        history: Seq<Application>,
        today: Date,
        now: Timestamp,
    ) -> Option<RecModel> {
        if !profile.grass_type.spec_cool_season() {
            None
        } else if !(2 <= today.month <= 5) {
            None
        } else if spec_has_matching(
            history,
            ApplicationType::PreEmergent,
            None,
            today.year as int,
            None,
        ) {
            None
        } else {
            match env.soil_temp_7day_avg_f {
                None => None,
                Some(avg) => match env.current {
                    None => None,
                    Some(cur) => match cur.soil_temp_10_f {
                        None => None,
                        Some(current_soil) => if 50000 <= avg && avg <= 60000 {
                            Some(
                                Self::optimal_model(env, avg, current_soil, today.year as int, now),
                            )
                        } else if 60000 < avg && avg <= 70000 {
                            Some(Self::late_model(avg, today.year as int, now))
                        } else {
                            None
                        },
                    },
                },
            }
        }
    }

    /// Evaluate the rule; returns exactly what the specification says, and
    /// in particular no recommendation whenever a needed input is absent.
    pub fn evaluate(
        &self,
        env: &EnvironmentalSummary,
        profile: &LawnProfile,
        history: &Vec<Application>,
        today: &Date,
        now: &Timestamp,
    ) -> (r: Option<Recommendation>)
        requires
            inputs_wf(*env, *profile, history@, *today, *now),
        ensures
            opt_model(r) == Self::spec_evaluate(*env, *profile, history@, *today, *now),
    {
        if !profile.grass_type.is_cool_season() {
            return None;
        }
        if !(2 <= today.month && today.month <= 5) {
            return None;
        }
        if crate::rules::has_matching(history, ApplicationType::PreEmergent, None, today.year, None)
        {
            return None;
        }
        let avg = match env.soil_temp_7day_avg_f {
            Some(a) => a,
            None => {
                return None;
            },
        };
        let cur = match &env.current {
            Some(c) => c,
            None => {
                return None;
            },
        };
        let current_soil = match cur.soil_temp_10_f {
            Some(t) => t,
            None => {
                return None;
            },
        };
        if 50000 <= avg && avg <= 60000 {
            let severity = if avg >= 55000 {
                Severity::Warning
            } else {
                Severity::Advisory
            };
            let avg_str = text::fmt_milli_1(avg);
            let cur_str = text::fmt_milli_1(current_soil);
            let rec = Recommendation::new(
                String::from_str("pre_emergent_").concat(text::fmt_i64(today.year as i64).as_str()),
                RecommendationCategory::PreEmergent,
                severity,
                String::from_str("Pre-Emergent Application Window"),
                String::from_str(
                    "Soil temperature is in the optimal range for pre-emergent application. 7-day average: ",
                ).concat(avg_str.as_str()).concat("°F"),
                *now,
            ).with_explanation(
                String::from_str(
                    "Crabgrass germinates when soil temperature at 2-4 inch depth reaches 55°F for 3+ consecutive days. Apply pre-emergent (prodiamine or dithiopyr) before germination begins for best results.",
                ),
            ).with_data_point(
                "7-Day Avg Soil Temp",
                avg_str.clone().concat("°F"),
                "NOAA USCRN",
            ).with_data_point(
                "Current Soil Temp (10cm)",
                cur_str.concat("°F"),
                "NOAA USCRN",
            ).with_data_point(
                "Trend",
                String::from_str(env.soil_temp_trend.as_str()),
                "Calculated",
            ).with_action(
                String::from_str(
                    "Apply pre-emergent herbicide (prodiamine, dithiopyr, or pendimethalin) at label rate. Water in within 24 hours if no rain.",
                ),
            );
            proof {
                assert(rec@ =~= Self::optimal_model(
                    *env,
                    avg,
                    current_soil,
                    today.year as int,
                    *now,
                ));
            }
            Some(rec)
        } else if 60000 < avg && avg <= 70000 {
            let avg_str = text::fmt_milli_1(avg);
            let rec = Recommendation::new(
                String::from_str("pre_emergent_late_").concat(
                    text::fmt_i64(today.year as i64).as_str(),
                ),
                RecommendationCategory::PreEmergent,
                Severity::Critical,
                String::from_str("Pre-Emergent Window Closing"),
                String::from_str(
                    "Soil temperature is above optimal range. Crabgrass may have begun germinating. 7-day average: ",
                ).concat(avg_str.as_str()).concat("°F"),
                *now,
            ).with_explanation(
                String::from_str(
                    "If pre-emergent hasn't been applied, do so immediately. Consider a split application or use a product with post-emergent properties. After 70°F soil temp, pre-emergent efficacy drops significantly.",
                ),
            ).with_data_point(
                "7-Day Avg Soil Temp",
                avg_str.concat("°F"),
                "NOAA USCRN",
            ).with_action(
                String::from_str(
                    "Apply pre-emergent immediately if not yet done. Consider products with post-emergent activity like quinclorac combinations.",
                ),
            );
            proof {
                assert(rec@ =~= Self::late_model(avg, today.year as int, *now));
            }
            Some(rec)
        } else {
            None
        }
    }
}

} // verus!
