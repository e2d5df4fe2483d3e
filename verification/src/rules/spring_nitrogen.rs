//! Spring nitrogen delay.
//!
//! Fertilizing before the lawn wakes up forces blade growth at the expense
//! of roots. Active for cool-season lawns in February through May; the
//! message depends on the 7-day average soil temperature and on whether a
//! spring fertilizer application (on or after February 1) is already
//! logged: below 50 °F it warns about an early application or reinforces
//! patience, between 50 and 55 °F it announces the window, and between 55
//! and 65 °F it opens it with a light-rate suggestion.

use crate::application::{Application, ApplicationType};
use crate::dates::{Date, Timestamp};
use crate::environmental::EnvironmentalSummary;
use crate::profile::LawnProfile;
use crate::recommendation::{
    opt_model, rec_model, RecModel, Recommendation, RecommendationCategory, Severity,
};
use crate::rules::{inputs_wf, spec_has_matching};
use crate::text;
use vstd::prelude::*;

verus! {

pub struct SpringNitrogenRule;

/// The lawn area assumed when the profile does not give one (thousandths of
/// a square foot).
pub const DEFAULT_LAWN_SQFT: i64 = 5000000;

impl SpringNitrogenRule {
    pub fn id(&self) -> (r: &'static str)
        ensures
            r@ == "spring_nitrogen"@,
    {
        "spring_nitrogen"
    }

    pub fn name(&self) -> (r: &'static str)
        ensures
            r@ == "Spring Nitrogen Delay"@,
    {
        "Spring Nitrogen Delay"
    }

    pub open spec fn too_early_model(avg: i64, now: Timestamp) -> RecModel {
        rec_model(
            "spring_n_too_early"@,
            RecommendationCategory::Fertilizer,
            Severity::Warning,
            "Spring Fertilizer Applied Too Early"@,
            "Fertilizer was applied while soil temp ("@ + text::spec_milli_1(avg as int)
                + "°F) is still below 55°F. This can weaken the lawn heading into summer."@,
            now,
        ).with_explanation(
            "Applying nitrogen before the lawn is ready forces top (blade) growth while roots are still dormant. This depletes the plant's carbohydrate reserves and creates a shallow root system. The result: a lawn that looks good briefly in spring but struggles in summer heat. The grass needs to wake up naturally first."@,
        ).with_data_point(
            "Soil Temp"@,
            text::spec_milli_1(avg as int) + "°F"@,
            "NOAA USCRN"@,
        ).with_data_point("Target Temp"@, "55°F minimum"@, "Agronomic"@).with_action(
            "Avoid additional nitrogen applications until soil consistently reaches 55°F. Focus on other spring tasks: clean up debris, sharpen mower blades, check irrigation system. The pre-emergent window comes before fertilization."@,
        )
    }

    pub open spec fn patience_model(avg: i64, now: Timestamp) -> RecModel {
        rec_model(
            "spring_n_wait"@,
            RecommendationCategory::Fertilizer,
            Severity::Info,
            "Spring Fertilizer - Wait for Warmer Soil"@,
            "Soil temperature ("@ + text::spec_milli_1(avg as int)
                + "°F) is still too cold for spring fertilization. Patience now pays off with a stronger lawn later."@,
            now,
        ).with_explanation(
            "It's tempting to fertilize as soon as you see green, but cool-season grass breaks dormancy from stored carbohydrates - not from soil nutrients. Wait until soil reaches 55°F and you've mowed 2-3 times. This ensures roots are active and ready to absorb nutrients. Early nitrogen forces weak top growth at the expense of root development."@,
        ).with_data_point(
            "Current Soil Temp"@,
            text::spec_milli_1(avg as int) + "°F"@,
            "NOAA USCRN"@,
        ).with_data_point("Target Soil Temp"@, "55°F"@, "Agronomic"@).with_action(
            "Focus on spring prep: rake leaves/debris, check for disease damage, plan pre-emergent timing (that window comes first!). First fertilization should wait until after 2-3 mowings."@,
        )
    }

    pub open spec fn almost_ready_model(avg: i64, now: Timestamp) -> RecModel {
        rec_model(
            "spring_n_almost"@,
            RecommendationCategory::Fertilizer,
            Severity::Info,
            "Spring Fertilizer - Almost Time"@,
            "Soil temperature ("@ + text::spec_milli_1(avg as int)
                + "°F) is approaching the 55°F threshold. Spring fertilization window opening soon."@,
            now,
        ).with_explanation(
            "You're close to the right conditions for spring nitrogen. Wait for soil to consistently reach 55°F and ensure you've completed 2-3 mowing cycles. This confirms the grass is actively growing and roots are ready for nutrients. Remember: pre-emergent timing (50-55°F soil) comes before fertilization."@,
        ).with_data_point(
            "Current Soil Temp"@,
            text::spec_milli_1(avg as int) + "°F"@,
            "NOAA USCRN"@,
        ).with_data_point("Target"@, "55°F + 2-3 mowings"@, "Agronomic"@).with_action(
            "Continue monitoring soil temperature. Start mowing when grass needs it. After your second or third mowing AND soil is 55°F+, apply light spring nitrogen. Don't rush - a week or two of patience makes a stronger summer lawn."@,
        )
    }

    /// Lawn area used by the rate suggestion: the profile's, or the default.
    pub open spec fn lawn_size_of(profile: LawnProfile) -> i64 {
        match profile.lawn_size_sqft {
            Some(s) => s,
            None => DEFAULT_LAWN_SQFT,
        }
    }

    pub open spec fn ready_model(avg: i64, profile: LawnProfile, now: Timestamp) -> RecModel {
        let lawn_size = Self::lawn_size_of(profile);
        let n_needed = lawn_size / 2000;
        rec_model(
            "spring_n_ready"@,
            RecommendationCategory::Fertilizer,
            Severity::Advisory,
            "Spring Fertilization Window Open"@,
            "Soil temperature ("@ + text::spec_milli_1(avg as int)
                + "°F) indicates spring fertilization is appropriate. If you've mowed 2-3 times, light nitrogen is now beneficial."@,
            now,
        ).with_explanation(
            "With soil at 55°F+, roots are active and can utilize applied nitrogen. Spring feeding should be LIGHT compared to fall - cool-season grass does most of its feeding in autumn. A light spring application (0.5 lb N/1000 sqft) supports spring growth without pushing excessive top growth that weakens the plant."@,
        ).with_data_point(
            "Soil Temp"@,
            text::spec_milli_1(avg as int) + "°F"@,
            "NOAA USCRN"@,
        ).with_data_point("Recommended Rate"@, "0.5 lb N/1000 sqft"@, "Agronomic"@).with_action(
            "Apply ~"@ + text::spec_milli_1(n_needed as int) + " lbs of nitrogen for your "@
                + text::spec_milli_0(lawn_size as int)
                + " sqft lawn (0.5 lb N/1000 sqft). Use slow-release nitrogen to avoid surge growth. This should be your ONLY spring nitrogen - save the heavy feeding for fall. Verify you've mowed 2-3 times first to confirm grass is actively growing."@,
        )
    }

    /// Whether a fertilizer application is logged for this spring (on or
    /// after February 1 of the current year).
    pub open spec fn spec_has_spring_fert(history: Seq<Application>, today: Date) -> bool {
        spec_has_matching(
            history,
            ApplicationType::Fertilizer,
            None,
            today.year as int,
            Some(
                crate::dates::spec_day_number(Date { year: today.year, month: 2, day: 1 }),
            ),
        )
    }

    /// Full behavior: gates on cool-season grass, February-May and a
    /// present 7-day soil-temperature average, then grades the average
    /// against 50/55/65 °F, taking the logged spring fertilization into
    /// account.
    pub open spec fn spec_evaluate(
        env: EnvironmentalSummary,
        profile: LawnProfile,
        history: Seq<Application>,
        today: Date,
        now: Timestamp,
    ) -> Option<RecModel> {
        if !profile.grass_type.spec_cool_season() {
            None
        } else if !(2 <= today.month <= 5) {
            None
        } else {
            match env.soil_temp_7day_avg_f {
                None => None,
                Some(avg) => {
                    let has_spring_fert = Self::spec_has_spring_fert(history, today);
                    if avg < 50000 {
                        if has_spring_fert {
                            Some(Self::too_early_model(avg, now))
                        } else {
                            Some(Self::patience_model(avg, now))
                        }
                    } else if 50000 <= avg && avg < 55000 {
                        if !has_spring_fert {
                            Some(Self::almost_ready_model(avg, now))
                        } else {
                            None
                        }
                    } else if 55000 <= avg && avg <= 65000 {
                        if !has_spring_fert {
                            Some(Self::ready_model(avg, profile, now))
                        } else {
                            None
                        }
                    } else {
                        None
                    }
                },
            }
        }
    }

    /// Evaluate the rule; returns exactly what the specification says.
    pub fn evaluate(
        &self,
        env: &EnvironmentalSummary,
        profile: &LawnProfile,
        history: &Vec<Application>,
        today: &Date,
        now: &Timestamp,
    ) -> (r: Option<Recommendation>)
        requires
            inputs_wf(*env, *profile, history@, *today, *now),
        ensures
            opt_model(r) == Self::spec_evaluate(*env, *profile, history@, *today, *now),
    {
        if !profile.grass_type.is_cool_season() {
            return None;
        }
        if !(2 <= today.month && today.month <= 5) {
            return None;
        }
        let avg = match env.soil_temp_7day_avg_f {
            Some(a) => a,
            None => {
                return None;
            },
        };
        let spring_start = Date { year: today.year, month: 2, day: 1 };
        let has_spring_fert = crate::rules::has_matching(
            history,
            ApplicationType::Fertilizer,
            None,
            today.year,
            Some(spring_start.day_number()),
        );
        if avg < 50000 {
            if has_spring_fert {
                let rec = Recommendation::new(
                    String::from_str("spring_n_too_early"),
                    RecommendationCategory::Fertilizer,
                    Severity::Warning,
                    String::from_str("Spring Fertilizer Applied Too Early"),
                    String::from_str("Fertilizer was applied while soil temp (").concat(
                        text::fmt_milli_1(avg).as_str(),
                    ).concat("°F) is still below 55°F. This can weaken the lawn heading into summer."),
                    *now,
                ).with_explanation(
                    String::from_str(
                        "Applying nitrogen before the lawn is ready forces top (blade) growth while roots are still dormant. This depletes the plant's carbohydrate reserves and creates a shallow root system. The result: a lawn that looks good briefly in spring but struggles in summer heat. The grass needs to wake up naturally first.",
                    ),
                ).with_data_point(
                    "Soil Temp",
                    text::fmt_milli_1(avg).concat("°F"),
                    "NOAA USCRN",
                ).with_data_point(
                    "Target Temp",
                    String::from_str("55°F minimum"),
                    "Agronomic",
                ).with_action(
                    String::from_str(
                        "Avoid additional nitrogen applications until soil consistently reaches 55°F. Focus on other spring tasks: clean up debris, sharpen mower blades, check irrigation system. The pre-emergent window comes before fertilization.",
                    ),
                );
                proof {
                    assert(rec@ =~= Self::too_early_model(avg, *now));
                }
                Some(rec)
            } else {
                let rec = Recommendation::new(
                    String::from_str("spring_n_wait"),
                    RecommendationCategory::Fertilizer,
                    Severity::Info,
                    String::from_str("Spring Fertilizer - Wait for Warmer Soil"),
                    String::from_str("Soil temperature (").concat(
                        text::fmt_milli_1(avg).as_str(),
                    ).concat(
                        "°F) is still too cold for spring fertilization. Patience now pays off with a stronger lawn later.",
                    ),
                    *now,
                ).with_explanation(
                    String::from_str(
                        "It's tempting to fertilize as soon as you see green, but cool-season grass breaks dormancy from stored carbohydrates - not from soil nutrients. Wait until soil reaches 55°F and you've mowed 2-3 times. This ensures roots are active and ready to absorb nutrients. Early nitrogen forces weak top growth at the expense of root development.",
                    ),
                ).with_data_point(
                    "Current Soil Temp",
                    text::fmt_milli_1(avg).concat("°F"),
                    "NOAA USCRN",
                ).with_data_point(
                    "Target Soil Temp",
                    String::from_str("55°F"),
                    "Agronomic",
                ).with_action(
                    String::from_str(
                        "Focus on spring prep: rake leaves/debris, check for disease damage, plan pre-emergent timing (that window comes first!). First fertilization should wait until after 2-3 mowings.",
                    ),
                );
                proof {
                    assert(rec@ =~= Self::patience_model(avg, *now));
                }
                Some(rec)
            }
        } else if 50000 <= avg && avg < 55000 {
            if !has_spring_fert {
                let rec = Recommendation::new(
                    String::from_str("spring_n_almost"),
                    RecommendationCategory::Fertilizer,
                    Severity::Info,
                    String::from_str("Spring Fertilizer - Almost Time"),
                    String::from_str("Soil temperature (").concat(
                        text::fmt_milli_1(avg).as_str(),
                    ).concat(
                        "°F) is approaching the 55°F threshold. Spring fertilization window opening soon.",
                    ),
                    *now,
                ).with_explanation(
                    String::from_str(
                        "You're close to the right conditions for spring nitrogen. Wait for soil to consistently reach 55°F and ensure you've completed 2-3 mowing cycles. This confirms the grass is actively growing and roots are ready for nutrients. Remember: pre-emergent timing (50-55°F soil) comes before fertilization.",
                    ),
                ).with_data_point(
                    "Current Soil Temp",
                    text::fmt_milli_1(avg).concat("°F"),
                    "NOAA USCRN",
                ).with_data_point(
                    "Target",
                    String::from_str("55°F + 2-3 mowings"),
                    "Agronomic",
                ).with_action(
                    String::from_str(
                        "Continue monitoring soil temperature. Start mowing when grass needs it. After your second or third mowing AND soil is 55°F+, apply light spring nitrogen. Don't rush - a week or two of patience makes a stronger summer lawn.",
                    ),
                );
                proof {
                    assert(rec@ =~= Self::almost_ready_model(avg, *now));
                }
                Some(rec)
            } else {
                None
            }
        } else if 55000 <= avg && avg <= 65000 {
            if !has_spring_fert {
                let lawn_size = match profile.lawn_size_sqft {
                    Some(s) => s,
                    None => DEFAULT_LAWN_SQFT,
                };
                let n_needed = lawn_size / 2000;
                let rec = Recommendation::new(
                    String::from_str("spring_n_ready"),
                    RecommendationCategory::Fertilizer,
                    Severity::Advisory,
                    String::from_str("Spring Fertilization Window Open"),
                    String::from_str("Soil temperature (").concat(
                        text::fmt_milli_1(avg).as_str(),
                    ).concat(
                        "°F) indicates spring fertilization is appropriate. If you've mowed 2-3 times, light nitrogen is now beneficial.",
                    ),
                    *now,
                ).with_explanation(
                    String::from_str(
                        "With soil at 55°F+, roots are active and can utilize applied nitrogen. Spring feeding should be LIGHT compared to fall - cool-season grass does most of its feeding in autumn. A light spring application (0.5 lb N/1000 sqft) supports spring growth without pushing excessive top growth that weakens the plant.",
                    ),
                ).with_data_point(
                    "Soil Temp",
                    text::fmt_milli_1(avg).concat("°F"),
                    "NOAA USCRN",
                ).with_data_point(
                    "Recommended Rate",
                    String::from_str("0.5 lb N/1000 sqft"),
                    "Agronomic",
                ).with_action(
                    String::from_str("Apply ~").concat(
                        text::fmt_milli_1(n_needed).as_str(),
                    ).concat(" lbs of nitrogen for your ").concat(
                        text::fmt_milli_0(lawn_size).as_str(),
                    ).concat(
                        " sqft lawn (0.5 lb N/1000 sqft). Use slow-release nitrogen to avoid surge growth. This should be your ONLY spring nitrogen - save the heavy feeding for fall. Verify you've mowed 2-3 times first to confirm grass is actively growing.",
                    ),
                );
                proof {
                    assert(rec@ =~= Self::ready_model(avg, *profile, *now));
                }
                Some(rec)
            } else {
                None
            }
        } else {
            None
        }
    }
}

} // verus!
