//! Fall fertilization program.
//!
//! Fall is the most important feeding season for cool-season grass. The
//! September 1 - November 30 window is phased into three non-overlapping
//! sub-windows with their own nitrogen rates and their own
//! already-applied checks: early fall (September, 0.5 lb N/1000 sqft, only
//! if nothing was applied yet), mid fall (October, 0.75 lb, at most one
//! prior application and at least three weeks since it) and late fall
//! (November, the 1.0 lb winterizer, at most two prior applications and
//! three weeks of spacing).

use crate::application::{Application, ApplicationType};
use crate::dates::{spec_day_number, Date, Timestamp};
use crate::environmental::EnvironmentalSummary;
use crate::profile::LawnProfile;
use crate::recommendation::{
    opt_model, rec_model, RecModel, Recommendation, RecommendationCategory, Severity,
};
use crate::rules::{inputs_wf, spec_last_match_day, spec_match_count};
use crate::text;
use vstd::prelude::*;

verus! {

pub struct FallFertilizationRule;

/// The lawn area assumed when the profile does not give one (thousandths of
/// a square foot).
pub const DEFAULT_LAWN_SQFT: i64 = 5000000;

impl FallFertilizationRule {
    pub fn id(&self) -> (r: &'static str)
        ensures
            r@ == "fall_fertilization"@,
    {
        "fall_fertilization"
    }

    pub fn name(&self) -> (r: &'static str)
        ensures
            r@ == "Fall Fertilization Program"@,
    {
        "Fall Fertilization Program"
    }

    pub open spec fn window_start(today: Date) -> Date {
        Date { year: today.year, month: 9, day: 1 }
    }

    pub open spec fn window_end(today: Date) -> Date {
        Date { year: today.year, month: 11, day: 30 }
    }

    pub open spec fn lawn_size_of(profile: LawnProfile) -> i64 {
        match profile.lawn_size_sqft {
            Some(s) => s,
            None => DEFAULT_LAWN_SQFT,
        }
    }

    /// Days since the latest fall application; a large stand-in when none
    /// is logged.
    pub open spec fn spec_days_since_last(
        history: Seq<Application>,
        today: Date,
    ) -> int {
        match spec_last_match_day(
            history,
            ApplicationType::Fertilizer,
            today.year as int,
            spec_day_number(Self::window_start(today)),
        ) {
            Some(d) => spec_day_number(today) - d,
            None => 999,
        }
    }

    pub open spec fn early_model(
        env: EnvironmentalSummary,
        profile: LawnProfile,
        avg: i64,
        now: Timestamp,
    ) -> RecModel {
        let lawn_size = Self::lawn_size_of(profile);
        let n_needed = lawn_size / 2000;
        rec_model(
            "fall_fert_early"@,
            RecommendationCategory::Fertilizer,
            Severity::Advisory,
            "Early Fall Fertilization"@,
            "Soil temperature ("@ + text::spec_milli_1(avg as int)
                + "°F) is ideal for fall fertilization. Time to begin fall nitrogen program."@,
            now,
        ).with_explanation(
            "Early fall feeding helps TTTF recover from summer stress. Apply light nitrogen (0.5 lb N per 1000 sqft) to support recovery without pushing excessive top growth. This sets up the lawn for the critical mid-fall and winterizer applications."@,
        ).with_data_point(
            "Soil Temp"@,
            text::spec_milli_1(avg as int) + "°F"@,
            "NOAA USCRN"@,
        ).with_data_point("Phase"@, "Early Fall (Recovery)"@, "Calendar"@).with_data_point(
            "Trend"@,
            env.soil_temp_trend.spec_str(),
            "Calculated"@,
        ).with_action(
            "Apply ~"@ + text::spec_milli_1(n_needed as int) + " lbs of nitrogen for your "@
                + text::spec_milli_0(lawn_size as int)
                + " sqft lawn (0.5 lb N/1000 sqft). Use a balanced fertilizer or slow-release nitrogen. Water in lightly if no rain expected."@,
        )
    }

    pub open spec fn mid_model(
        env: EnvironmentalSummary,
        profile: LawnProfile,
        avg: i64,
        app_count: int,
        now: Timestamp,
    ) -> RecModel {
        let lawn_size = Self::lawn_size_of(profile);
        let n_needed = lawn_size * 3 / 4000;
        let severity = if app_count == 0 {
            Severity::Warning
        } else {
            Severity::Advisory
        };
        let title: Seq<char> = if app_count == 0 {
            "Mid-Fall Fertilization - Don't Miss Fall Feeding!"@
        } else {
            "Mid-Fall Fertilization"@
        };
        rec_model(
            "fall_fert_mid"@,
            RecommendationCategory::Fertilizer,
            severity,
            title,
            "Prime time for fall fertilization. Soil temp "@ + text::spec_milli_1(avg as int)
                + "°F is optimal for root uptake and carbohydrate storage."@,
            now,
        ).with_explanation(
            "Mid-fall (October) is the MOST important fertilization of the year for TTTF. Roots are actively growing while top growth slows. Nitrogen applied now is stored as carbohydrates, fueling winter hardiness and explosive spring green-up. This single application has more impact than any other feeding."@,
        ).with_data_point(
            "Soil Temp"@,
            text::spec_milli_1(avg as int) + "°F"@,
            "NOAA USCRN"@,
        ).with_data_point("Phase"@, "Mid-Fall (Primary)"@, "Calendar"@).with_data_point(
            "Fall Apps So Far"@,
            text::spec_int_str(app_count),
            "History"@,
        ).with_data_point("Trend"@, env.soil_temp_trend.spec_str(), "Calculated"@).with_action(
            "Apply ~"@ + text::spec_milli_1(n_needed as int) + " lbs of nitrogen for your "@
                + text::spec_milli_0(lawn_size as int)
                + " sqft lawn (0.75 lb N/1000 sqft). A slow-release or balanced fertilizer works well. This is the most important feeding of the year - don't skip it!"@,
        )
    }

    pub open spec fn late_model(
        profile: LawnProfile,
        avg: i64,
        app_count: int,
        now: Timestamp,
    ) -> RecModel {
        let lawn_size = Self::lawn_size_of(profile);
        let n_needed = lawn_size / 1000;
        let severity = if app_count == 0 {
            Severity::Warning
        } else {
            Severity::Advisory
        };
        rec_model(
            "fall_fert_winterizer"@,
            RecommendationCategory::Fertilizer,
            severity,
            "Winterizer Application"@,
            "Time for final fall fertilization. Soil temp "@ + text::spec_milli_1(avg as int)
                + "°F - grass is slowing but roots are still active."@,
            now,
        ).with_explanation(
            "The 'winterizer' application provides nitrogen that the grass stores over winter. Applied when growth has slowed but before the ground freezes, this nitrogen is available immediately when spring arrives, giving you the fastest, greenest spring lawn. Apply even if grass appears dormant - roots are still working."@,
        ).with_data_point(
            "Soil Temp"@,
            text::spec_milli_1(avg as int) + "°F"@,
            "NOAA USCRN"@,
        ).with_data_point("Phase"@, "Late Fall (Winterizer)"@, "Calendar"@).with_data_point(
            "Fall Apps So Far"@,
            text::spec_int_str(app_count),
            "History"@,
        ).with_action(
            "Apply ~"@ + text::spec_milli_1(n_needed as int) + " lbs of nitrogen for your "@
                + text::spec_milli_0(lawn_size as int)
                + " sqft lawn (1.0 lb N/1000 sqft). Quick-release nitrogen is fine for winterizer since you want immediate uptake. Apply before ground freezes, even if grass looks dormant."@,
        )
    }

    /// Full behavior: gated on cool-season grass, the September 1 -
    /// November 30 window and a present 7-day soil-temperature average,
    /// then phased by the calendar month with per-phase application-count,
    /// spacing and soil-temperature conditions.
    pub open spec fn spec_evaluate(
        env: EnvironmentalSummary,
        profile: LawnProfile,
        history: Seq<Application>,
        today: Date,
        now: Timestamp,
    ) -> Option<RecModel> {
        let ws = Self::window_start(today);
        let we = Self::window_end(today);
        if !profile.grass_type.spec_cool_season() {
            None
        } else if today.spec_lt(ws) || we.spec_lt(today) {
            None
        } else {
            match env.soil_temp_7day_avg_f {
                None => None,
                Some(avg) => {
                    let app_count = spec_match_count(
                        history,
                        ApplicationType::Fertilizer,
                        today.year as int,
                        spec_day_number(ws),
                    );
                    let days_since_last = Self::spec_days_since_last(history, today);
                    let soil_temp_ok = 45000 <= avg && avg <= 65000;
                    if today.month == 9 {
                        if app_count == 0 && soil_temp_ok {
                            Some(Self::early_model(env, profile, avg, now))
                        } else {
                            None
                        }
                    } else if today.month == 10 {
                        if app_count < 2 && days_since_last >= 21 && soil_temp_ok {
                            Some(Self::mid_model(env, profile, avg, app_count, now))
                        } else {
                            None
                        }
                    } else {
                        if app_count < 3 && days_since_last >= 21 && avg >= 40000 {
                            Some(Self::late_model(profile, avg, app_count, now))
                        } else {
                            None
                        }
                    }
                },
            }
        }
    }

    /// Evaluate the rule; returns exactly what the specification says.
    pub fn evaluate(
        &self,
        env: &EnvironmentalSummary,
        profile: &LawnProfile,
        history: &Vec<Application>,
        today: &Date,
        now: &Timestamp,
    ) -> (r: Option<Recommendation>)
        requires
            inputs_wf(*env, *profile, history@, *today, *now),
        ensures
            opt_model(r) == Self::spec_evaluate(*env, *profile, history@, *today, *now),
    {
        if !profile.grass_type.is_cool_season() {
            return None;
        }
        let window_start = Date { year: today.year, month: 9, day: 1 };
        let window_end = Date { year: today.year, month: 11, day: 30 };
        if today.lt(&window_start) || window_end.lt(today) {
            return None;
        }
        let avg = match env.soil_temp_7day_avg_f {
            Some(a) => a,
            None => {
                return None;
            },
        };
        let stats = crate::rules::match_stats(
            history,
            ApplicationType::Fertilizer,
            today.year,
            window_start.day_number(),
        );
        let app_count = stats.0;
        let days_since_last: i64 = match stats.1 {
            Some(d) => today.day_number() - d,
            None => 999,
        };
        let soil_temp_ok = 45000 <= avg && avg <= 65000;
        let lawn_size = match profile.lawn_size_sqft {
            Some(s) => s,
            None => DEFAULT_LAWN_SQFT,
        };
        if today.month == 9 {
            if app_count == 0 && soil_temp_ok {
                let n_needed = lawn_size / 2000;
                let rec = Recommendation::new(
                    String::from_str("fall_fert_early"),
                    RecommendationCategory::Fertilizer,
                    Severity::Advisory,
                    String::from_str("Early Fall Fertilization"),
                    String::from_str("Soil temperature (").concat(
                        text::fmt_milli_1(avg).as_str(),
                    ).concat(
                        "°F) is ideal for fall fertilization. Time to begin fall nitrogen program.",
                    ),
                    *now,
                ).with_explanation(
                    String::from_str(
                        "Early fall feeding helps TTTF recover from summer stress. Apply light nitrogen (0.5 lb N per 1000 sqft) to support recovery without pushing excessive top growth. This sets up the lawn for the critical mid-fall and winterizer applications.",
                    ),
                ).with_data_point(
                    "Soil Temp",
                    text::fmt_milli_1(avg).concat("°F"),
                    "NOAA USCRN",
                ).with_data_point(
                    "Phase",
                    String::from_str("Early Fall (Recovery)"),
                    "Calendar",
                ).with_data_point(
                    "Trend",
                    String::from_str(env.soil_temp_trend.as_str()),
                    "Calculated",
                ).with_action(
                    String::from_str("Apply ~").concat(
                        text::fmt_milli_1(n_needed).as_str(),
                    ).concat(" lbs of nitrogen for your ").concat(
                        text::fmt_milli_0(lawn_size).as_str(),
                    ).concat(
                        " sqft lawn (0.5 lb N/1000 sqft). Use a balanced fertilizer or slow-release nitrogen. Water in lightly if no rain expected.",
                    ),
                );
                proof {
                    assert(rec@ =~= Self::early_model(*env, *profile, avg, *now));
                }
                Some(rec)
            } else {
                None
            }
        } else if today.month == 10 {
            if app_count < 2 && days_since_last >= 21 && soil_temp_ok {
                let n_needed = lawn_size * 3 / 4000;
                let severity = if app_count == 0 {
                    Severity::Warning
                } else {
                    Severity::Advisory
                };
                let title = if app_count == 0 {
                    "Mid-Fall Fertilization - Don't Miss Fall Feeding!"
                } else {
                    "Mid-Fall Fertilization"
                };
                let rec = Recommendation::new(
                    String::from_str("fall_fert_mid"),
                    RecommendationCategory::Fertilizer,
                    severity,
                    String::from_str(title),
                    String::from_str("Prime time for fall fertilization. Soil temp ").concat(
                        text::fmt_milli_1(avg).as_str(),
                    ).concat("°F is optimal for root uptake and carbohydrate storage."),
                    *now,
                ).with_explanation(
                    String::from_str(
                        "Mid-fall (October) is the MOST important fertilization of the year for TTTF. Roots are actively growing while top growth slows. Nitrogen applied now is stored as carbohydrates, fueling winter hardiness and explosive spring green-up. This single application has more impact than any other feeding.",
                    ),
                ).with_data_point(
                    "Soil Temp",
                    text::fmt_milli_1(avg).concat("°F"),
                    "NOAA USCRN",
                ).with_data_point(
                    "Phase",
                    String::from_str("Mid-Fall (Primary)"),
                    "Calendar",
                ).with_data_point(
                    "Fall Apps So Far",
                    text::fmt_i64(app_count as i64),
                    "History",
                ).with_data_point(
                    "Trend",
                    String::from_str(env.soil_temp_trend.as_str()),
                    "Calculated",
                ).with_action(
                    String::from_str("Apply ~").concat(
                        text::fmt_milli_1(n_needed).as_str(),
                    ).concat(" lbs of nitrogen for your ").concat(
                        text::fmt_milli_0(lawn_size).as_str(),
                    ).concat(
                        " sqft lawn (0.75 lb N/1000 sqft). A slow-release or balanced fertilizer works well. This is the most important feeding of the year - don't skip it!",
                    ),
                );
                proof {
                    assert(rec@ =~= Self::mid_model(*env, *profile, avg, app_count as int, *now));
                }
                Some(rec)
            } else {
                None
            }
        } else {
            if app_count < 3 && days_since_last >= 21 && avg >= 40000 {
                let n_needed = lawn_size / 1000;
                let severity = if app_count == 0 {
                    Severity::Warning
                } else {
                    Severity::Advisory
                };
                let rec = Recommendation::new(
                    String::from_str("fall_fert_winterizer"),
                    RecommendationCategory::Fertilizer,
                    severity,
                    String::from_str("Winterizer Application"),
                    String::from_str("Time for final fall fertilization. Soil temp ").concat(
                        text::fmt_milli_1(avg).as_str(),
                    ).concat("°F - grass is slowing but roots are still active."),
                    *now,
                ).with_explanation(
                    String::from_str(
                        "The 'winterizer' application provides nitrogen that the grass stores over winter. Applied when growth has slowed but before the ground freezes, this nitrogen is available immediately when spring arrives, giving you the fastest, greenest spring lawn. Apply even if grass appears dormant - roots are still working.",
                    ),
                ).with_data_point(
                    "Soil Temp",
                    text::fmt_milli_1(avg).concat("°F"),
                    "NOAA USCRN",
                ).with_data_point(
                    "Phase",
                    String::from_str("Late Fall (Winterizer)"),
                    "Calendar",
                ).with_data_point(
                    "Fall Apps So Far",
                    text::fmt_i64(app_count as i64),
                    "History",
                ).with_action(
                    String::from_str("Apply ~").concat(
                        text::fmt_milli_1(n_needed).as_str(),
                    ).concat(" lbs of nitrogen for your ").concat(
                        text::fmt_milli_0(lawn_size).as_str(),
                    ).concat(
                        " sqft lawn (1.0 lb N/1000 sqft). Quick-release nitrogen is fine for winterizer since you want immediate uptake. Apply before ground freezes, even if grass looks dormant.",
                    ),
                );
                proof {
                    assert(rec@ =~= Self::late_model(*profile, avg, app_count as int, *now));
                }
                Some(rec)
            } else {
                None
            }
        }
    }
}

} // verus!
