//! Grub control timing.
//!
//! Grub larvae are most vulnerable to preventative treatment while feeding
//! near the surface. Active from May 15 through July 4, suppressed once a
//! grub-control or insecticide application is logged inside the window this
//! year; optimal at a 60-75 °F 7-day average soil temperature, with the
//! severity rising as fewer than two weeks remain, and an informational
//! notice above 75 °F.

use crate::application::{Application, ApplicationType};
use crate::dates::{spec_day_number, spec_month_day_long, Date, Timestamp};
use crate::environmental::EnvironmentalSummary;
use crate::profile::LawnProfile;
use crate::recommendation::{
    opt_model, rec_model, RecModel, Recommendation, RecommendationCategory, Severity,
};
use crate::rules::{inputs_wf, spec_has_matching};
use crate::text;
use vstd::prelude::*;

verus! {

pub struct GrubControlRule;

impl GrubControlRule {
    pub fn id(&self) -> (r: &'static str)
        ensures
            r@ == "grub_control"@,
    {
        "grub_control"
    }

    pub fn name(&self) -> (r: &'static str)
        ensures
            r@ == "Grub Control Timing"@,
    {
        "Grub Control Timing"
    }

    pub open spec fn window_start(today: Date) -> Date {
        Date { year: today.year, month: 5, day: 15 }
    }

    pub open spec fn window_end(today: Date) -> Date {
        Date { year: today.year, month: 7, day: 4 }
    }

    pub open spec fn optimal_model(
        env: EnvironmentalSummary,
        avg: i64,
        current_soil: i64,
        days_remaining: int,
        today: Date,
        now: Timestamp,
    ) -> RecModel {
        let severity = if days_remaining <= 14 {
            Severity::Warning
        } else {
            Severity::Advisory
        };
        rec_model(
            "grub_control_"@ + text::spec_int_str(today.year as int),
            RecommendationCategory::GrubControl,
            severity,
            "Grub Preventative Window"@,
            "Conditions are optimal for preventative grub control application. "@
                + text::spec_int_str(days_remaining) + " days remaining in window."@,
            now,
        ).with_explanation(
            "Japanese beetle larvae (grubs) are most vulnerable to preventative treatments when adults are laying eggs and larvae are feeding near the surface. Chlorantraniliprole (GrubEx) provides season-long control when applied now."@,
        ).with_data_point(
            "7-Day Avg Soil Temp"@,
            text::spec_milli_1(avg as int) + "°F"@,
            "NOAA USCRN"@,
        ).with_data_point(
            "Current Soil Temp (10cm)"@,
            text::spec_milli_1(current_soil as int) + "°F"@,
            "NOAA USCRN"@,
        ).with_data_point(
            "Window Closes"@,
            spec_month_day_long(Self::window_end(today)),
            "Agronomic"@,
        ).with_action(
            "Apply chlorantraniliprole (GrubEx) or imidacloprid at label rate. Water in with 0.5\" of irrigation or rain within 24 hours."@,
        )
    }

    pub open spec fn late_model(avg: i64, today: Date, now: Timestamp) -> RecModel {
        rec_model(
            "grub_control_late_"@ + text::spec_int_str(today.year as int),
            RecommendationCategory::GrubControl,
            Severity::Info,
            "Grub Control - Soil Warm"@,
            "Soil temperature is elevated. Grub control may still be effective but optimal window is passing."@,
            now,
        ).with_data_point(
            "7-Day Avg Soil Temp"@,
            text::spec_milli_1(avg as int) + "°F"@,
            "NOAA USCRN"@,
        ).with_action(
            "If grub control hasn't been applied, do so soon. Effectiveness decreases as larvae move deeper into soil."@,
        )
    }

    /// Full behavior: active only from May 15 through July 4, suppressed by
    /// a grub-control or insecticide application logged inside the window
    /// this year, needing both soil-temperature inputs, optimal at a 60-75
    /// °F average and informational above 75 °F.
    pub open spec fn spec_evaluate(
        env: EnvironmentalSummary,
        profile: LawnProfile,
        history: Seq<Application>,
        today: Date,
        now: Timestamp,
    ) -> Option<RecModel> {
        let ws = Self::window_start(today);
        let we = Self::window_end(today);
        if today.spec_lt(ws) || we.spec_lt(today) {
            None
        } else if spec_has_matching(
            history,
            ApplicationType::GrubControl,
            Some(ApplicationType::Insecticide),
            today.year as int,
            Some(spec_day_number(ws)),
        ) {
            None
        } else {
            match env.soil_temp_7day_avg_f {
                None => None,
                Some(avg) => match env.current {
                    None => None,
                    Some(cur) => match cur.soil_temp_10_f {
                        None => None,
                        Some(current_soil) => if 60000 <= avg && avg <= 75000 {
                            let days_remaining = spec_day_number(we) - spec_day_number(today);
                            Some(
                                Self::optimal_model(
                                    env,
                                    avg,
                                    current_soil,
                                    days_remaining,
                                    today,
                                    now,
                                ),
                            )
                        } else if avg > 75000 {
                            Some(Self::late_model(avg, today, now))
                        } else {
                            None
                        },
                    },
                },
            }
        }
    }

    /// Evaluate the rule; returns exactly what the specification says.
    pub fn evaluate(
        &self,
        env: &EnvironmentalSummary,
        profile: &LawnProfile,
        history: &Vec<Application>,
        today: &Date,
        now: &Timestamp,
    ) -> (r: Option<Recommendation>)
        requires
            inputs_wf(*env, *profile, history@, *today, *now),
        ensures
            opt_model(r) == Self::spec_evaluate(*env, *profile, history@, *today, *now),
    {
        let window_start = Date { year: today.year, month: 5, day: 15 };
        let window_end = Date { year: today.year, month: 7, day: 4 };
        if today.lt(&window_start) || window_end.lt(today) {
            return None;
        }
        if crate::rules::has_matching(
            history,
            ApplicationType::GrubControl,
            Some(ApplicationType::Insecticide),
            today.year,
            Some(window_start.day_number()),
        ) {
            return None;
        }
        let avg = match env.soil_temp_7day_avg_f {
            Some(a) => a,
            None => {
                return None;
            },
        };
        let cur = match &env.current {
            Some(c) => c,
            None => {
                return None;
            },
        };
        let current_soil = match cur.soil_temp_10_f {
            Some(t) => t,
            None => {
                return None;
            },
        };
        if 60000 <= avg && avg <= 75000 {
            let days_remaining = window_end.day_number() - today.day_number();
            let severity = if days_remaining <= 14 {
                Severity::Warning
            } else {
                Severity::Advisory
            };
            let rec = Recommendation::new(
                String::from_str("grub_control_").concat(text::fmt_i64(today.year as i64).as_str()),
                RecommendationCategory::GrubControl,
                severity,
                String::from_str("Grub Preventative Window"),
                String::from_str(
                    "Conditions are optimal for preventative grub control application. ",
                ).concat(text::fmt_i64(days_remaining).as_str()).concat(
                    " days remaining in window.",
                ),
                *now,
            ).with_explanation(
                String::from_str(
                    "Japanese beetle larvae (grubs) are most vulnerable to preventative treatments when adults are laying eggs and larvae are feeding near the surface. Chlorantraniliprole (GrubEx) provides season-long control when applied now.",
                ),
            ).with_data_point(
                "7-Day Avg Soil Temp",
                text::fmt_milli_1(avg).concat("°F"),
                "NOAA USCRN",
            ).with_data_point(
                "Current Soil Temp (10cm)",
                text::fmt_milli_1(current_soil).concat("°F"),
                "NOAA USCRN",
            ).with_data_point(
                "Window Closes",
                window_end.format_month_day_long(),
                "Agronomic",
            ).with_action(
                String::from_str(
                    "Apply chlorantraniliprole (GrubEx) or imidacloprid at label rate. Water in with 0.5\" of irrigation or rain within 24 hours.",
                ),
            );
            proof {
                assert(rec@ =~= Self::optimal_model(
                    *env,
                    avg,
                    current_soil,
                    days_remaining as int,
                    *today,
                    *now,
                ));
            }
            Some(rec)
        } else if avg > 75000 {
            let rec = Recommendation::new(
                String::from_str("grub_control_late_").concat(
                    text::fmt_i64(today.year as i64).as_str(),
                ),
                RecommendationCategory::GrubControl,
                Severity::Info,
                String::from_str("Grub Control - Soil Warm"),
                String::from_str(
                    "Soil temperature is elevated. Grub control may still be effective but optimal window is passing.",
                ),
                *now,
            ).with_data_point(
                "7-Day Avg Soil Temp",
                text::fmt_milli_1(avg).concat("°F"),
                "NOAA USCRN",
            ).with_action(
                String::from_str(
                    "If grub control hasn't been applied, do so soon. Effectiveness decreases as larvae move deeper into soil.",
                ),
            );
            proof {
                assert(rec@ =~= Self::late_model(avg, *today, *now));
            }
            Some(rec)
        } else {
            None
        }
    }
}

} // verus!
