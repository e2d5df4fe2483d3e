//! Fall overseeding window.
//!
//! Overseeding is the only way a tall fescue lawn thickens. Active for
//! cool-season lawns from August 15 through October 31 and suppressed once
//! an overseed application is logged inside the window; the 50-65 °F soil
//! band is ideal (55-62 °F is peak germination), warmer soil yields a wait
//! or a closing-window warning depending on the date, and cool soil an
//! urgent warning while enough days remain. A hot 14-day forecast adds a
//! cautionary note.

use crate::application::{Application, ApplicationType};
use crate::dates::{spec_day_number, Date, Timestamp};
use crate::environmental::EnvironmentalSummary;
use crate::forecast::{days_within, sum_highs, DailyForecast};
use crate::profile::LawnProfile;
use crate::recommendation::{
    opt_model, rec_model, RecModel, Recommendation, RecommendationCategory, Severity,
};
use crate::rules::{inputs_wf, spec_has_matching};
use crate::text;
use vstd::prelude::*;

verus! {

pub struct FallOverseedingRule;

/// The lawn area assumed when the profile does not give one (thousandths of
/// a square foot).
pub const DEFAULT_LAWN_SQFT: i64 = 5000000;

impl FallOverseedingRule {
    pub fn id(&self) -> (r: &'static str)
        ensures
            r@ == "fall_overseeding"@,
    {
        "fall_overseeding"
    }

    pub fn name(&self) -> (r: &'static str)
        ensures
            r@ == "Fall Overseeding Window"@,
    {
        "Fall Overseeding Window"
    }

    pub open spec fn window_start(today: Date) -> Date {
        Date { year: today.year, month: 8, day: 15 }
    }

    pub open spec fn window_end(today: Date) -> Date {
        Date { year: today.year, month: 10, day: 31 }
    }

    /// Whether the next two weeks of daily highs average below 85 °F (an
    /// absent forecast counts as favorable); the mean is compared as an
    /// exact rational.
    pub open spec fn spec_forecast_favorable(env: EnvironmentalSummary, today: Date) -> bool {
        match env.forecast {
            None => true,
            Some(f) => {
                let w = days_within(f.daily_summary@, spec_day_number(today) + 14);
                let n = if w.len() == 0 {
                    1int
                } else {
                    w.len() as int
                };
                sum_highs(w) < 85000 * n
            },
        }
    }

    pub open spec fn seeding_action(profile: LawnProfile) -> Seq<char> {
        let lawn_size = match profile.lawn_size_sqft {
            Some(s) => s,
            None => DEFAULT_LAWN_SQFT,
        };
        if lawn_size > 0 {
            "For your "@ + text::spec_milli_0(lawn_size as int) + " sqft lawn: ~"@
                + text::spec_milli_0(lawn_size as int / 250)
                + " lbs of TTTF seed (4 lbs/1000 sqft for overseeding). Mow low (2\"), dethatch or aerate first for seed-to-soil contact. Keep soil moist (light watering 2-3x daily) for 14 days. Avoid foot traffic for 3-4 weeks."@
        } else {
            "Seed at 4 lbs per 1000 sqft for overseeding (8 lbs for bare soil). Mow low (2\"), dethatch or aerate first for seed-to-soil contact. Keep soil moist (light watering 2-3x daily) for 14 days. Avoid foot traffic for 3-4 weeks."@
        }
    }

    pub open spec fn optimal_model(
        env: EnvironmentalSummary,
        profile: LawnProfile,
        avg: i64,
        current_soil: i64,
        days_remaining: int,
        favorable: bool,
        today: Date,
        now: Timestamp,
    ) -> RecModel {
        let severity = if 55000 <= avg && avg <= 62000 {
            if days_remaining < 21 {
                Severity::Warning
            } else {
                Severity::Advisory
            }
        } else if days_remaining < 14 {
            Severity::Warning
        } else {
            Severity::Advisory
        };
        let base = rec_model(
            "fall_overseeding_"@ + text::spec_int_str(today.year as int),
            RecommendationCategory::Overseeding,
            severity,
            "Fall Overseeding Window Open"@,
            "Soil temperature ("@ + text::spec_milli_1(avg as int)
                + "°F) is ideal for TTTF seed germination. "@ + text::spec_int_str(days_remaining)
                + " days remaining in optimal window."@,
            now,
        ).with_explanation(
            "Tall Fescue doesn't spread on its own - overseeding is the only way to thicken your lawn and fill bare spots. Fall is THE best time because: (1) soil is warm for germination, (2) air is cool reducing seedling stress, (3) weed competition is minimal, (4) fall rains provide moisture. Seeds need 10-14 days of consistent moisture to germinate."@,
        ).with_data_point(
            "7-Day Avg Soil Temp"@,
            text::spec_milli_1(avg as int) + "°F"@,
            "NOAA USCRN"@,
        ).with_data_point(
            "Current Soil Temp"@,
            text::spec_milli_1(current_soil as int) + "°F"@,
            "NOAA USCRN"@,
        ).with_data_point("Days Remaining"@, text::spec_int_str(days_remaining), "Calendar"@);
        let noted = if !favorable {
            base.with_data_point(
                "Forecast Note"@,
                "Hot weather ahead - monitor seedlings"@,
                "OpenWeatherMap"@,
            )
        } else {
            base
        };
        noted.with_action(Self::seeding_action(profile))
    }

    pub open spec fn wait_model(avg: i64, today: Date, now: Timestamp) -> RecModel {
        rec_model(
            "fall_overseeding_wait_"@ + text::spec_int_str(today.year as int),
            RecommendationCategory::Overseeding,
            Severity::Info,
            "Overseeding Window Approaching"@,
            "Soil temperature ("@ + text::spec_milli_1(avg as int)
                + "°F) is still warm. Wait for temps to drop below 65°F for best germination."@,
            now,
        ).with_explanation(
            "TTTF germinates best when soil is 50-65°F. Seeding when soil is too warm can stress seedlings. The window typically opens mid-September in Zone 7a."@,
        ).with_data_point(
            "Soil Temp"@,
            text::spec_milli_1(avg as int) + "°F"@,
            "NOAA USCRN"@,
        ).with_action(
            "Prepare for overseeding: order seed, plan aeration, gather supplies. Monitor soil temps weekly."@,
        )
    }

    pub open spec fn late_model(avg: i64, days_remaining: int, today: Date, now: Timestamp) -> RecModel {
        rec_model(
            "fall_overseeding_late_"@ + text::spec_int_str(today.year as int),
            RecommendationCategory::Overseeding,
            Severity::Warning,
            "Overseeding - Soil Warm but Window Closing"@,
            "Soil ("@ + text::spec_milli_1(avg as int) + "°F) is warmer than ideal, but "@
                + text::spec_int_str(days_remaining)
                + " days remain in window. Consider seeding soon despite conditions."@,
            now,
        ).with_data_point(
            "Soil Temp"@,
            text::spec_milli_1(avg as int) + "°F"@,
            "NOAA USCRN"@,
        ).with_action(
            "Seed soon if you haven't already. Water more frequently to keep seedlings cool. Soil temps will drop as nights get cooler."@,
        )
    }

    pub open spec fn cold_model(avg: i64, today: Date, now: Timestamp) -> RecModel {
        rec_model(
            "fall_overseeding_cold_"@ + text::spec_int_str(today.year as int),
            RecommendationCategory::Overseeding,
            Severity::Warning,
            "Overseeding Window Narrowing - Cool Soil"@,
            "Soil temperature ("@ + text::spec_milli_1(avg as int)
                + "°F) is below optimal. Germination will be slow. Seed immediately if planned."@,
            now,
        ).with_data_point(
            "Soil Temp"@,
            text::spec_milli_1(avg as int) + "°F"@,
            "NOAA USCRN"@,
        ).with_action(
            "If overseeding, do it NOW. Germination slows significantly below 50°F. Seedlings need 4-6 weeks before hard frost to establish."@,
        )
    }

    /// Full behavior: gated on cool-season grass, the August 15 - October
    /// 31 window, no overseed logged inside the window, and both
    /// soil-temperature inputs; then graded by the 7-day average and the
    /// days remaining.
    pub open spec fn spec_evaluate(
        env: EnvironmentalSummary,
        profile: LawnProfile,
        history: Seq<Application>,
        today: Date,
        now: Timestamp,
    ) -> Option<RecModel> {
        let ws = Self::window_start(today);
        let we = Self::window_end(today);
        if !profile.grass_type.spec_cool_season() {
            None
        } else if today.spec_lt(ws) || we.spec_lt(today) {
            None
        } else if spec_has_matching(
            history,
            ApplicationType::Overseed,
            None,
            today.year as int,
            Some(spec_day_number(ws)),
        ) {
            None
        } else {
            match env.soil_temp_7day_avg_f {
                None => None,
                Some(avg) => match env.current {
                    None => None,
                    Some(cur) => match cur.soil_temp_10_f {
                        None => None,
                        Some(current_soil) => {
                            let favorable = Self::spec_forecast_favorable(env, today);
                            let days_remaining = spec_day_number(we) - spec_day_number(today);
                            if 50000 <= avg && avg <= 65000 {
                                Some(
                                    Self::optimal_model(
                                        env,
                                        profile,
                                        avg,
                                        current_soil,
                                        days_remaining,
                                        favorable,
                                        today,
                                        now,
                                    ),
                                )
                            } else if 65000 < avg && avg <= 75000 {
                                if today.spec_lt(Date { year: today.year, month: 9, day: 15 }) {
                                    Some(Self::wait_model(avg, today, now))
                                } else {
                                    Some(Self::late_model(avg, days_remaining, today, now))
                                }
                            } else if avg < 50000 {
                                if days_remaining > 14 {
                                    Some(Self::cold_model(avg, today, now))
                                } else {
                                    None
                                }
                            } else {
                                None
                            }
                        },
                    },
                },
            }
        }
    }

    /// Evaluate the rule; returns exactly what the specification says.
    pub fn evaluate(
        &self,
        env: &EnvironmentalSummary,
        profile: &LawnProfile,
        history: &Vec<Application>,
        today: &Date,
        now: &Timestamp,
    ) -> (r: Option<Recommendation>)
        requires
            inputs_wf(*env, *profile, history@, *today, *now),
        ensures
            opt_model(r) == Self::spec_evaluate(*env, *profile, history@, *today, *now),
    {
        if !profile.grass_type.is_cool_season() {
            return None;
        }
        let window_start = Date { year: today.year, month: 8, day: 15 };
        let window_end = Date { year: today.year, month: 10, day: 31 };
        if today.lt(&window_start) || window_end.lt(today) {
            return None;
        }
        if crate::rules::has_matching(
            history,
            ApplicationType::Overseed,
            None,
            today.year,
            Some(window_start.day_number()),
        ) {
            return None;
        }
        let avg = match env.soil_temp_7day_avg_f {
            Some(a) => a,
            None => {
                return None;
            },
        };
        let cur = match &env.current {
            Some(c) => c,
            None => {
                return None;
            },
        };
        let current_soil = match cur.soil_temp_10_f {
            Some(t) => t,
            None => {
                return None;
            },
        };
        let favorable = match &env.forecast {
            None => true,
            Some(f) => {
                let w = f.next_days(today, 14);
                let ghost ws_seq = w@;
                let mut sum: i64 = 0;
                let mut i: usize = 0;
                proof {
                    assert(ws_seq.subrange(0, 0) =~= Seq::<DailyForecast>::empty());
                }
                while i < w.len()
                    invariant
                        0 <= i <= ws_seq.len() == w@.len(),
                        w@ == ws_seq,
                        ws_seq.len() <= crate::forecast::HOURLY_MAX,
                        forall|k: int| 0 <= k < ws_seq.len() ==> (#[trigger] ws_seq[k]).wf(),
                        sum == sum_highs(ws_seq.subrange(0, i as int)),
                        -(i * crate::environmental::MEASURE_MILLI_MAX) <= sum <= i
                            * crate::environmental::MEASURE_MILLI_MAX,
                    decreases ws_seq.len() - i,
                {
                    proof {
                        assert(ws_seq.subrange(0, i + 1).drop_last() =~= ws_seq.subrange(
                            0,
                            i as int,
                        ));
                        assert(ws_seq.subrange(0, i + 1).last() == ws_seq[i as int]);
                    }
                    sum = sum + w[i].high_temp_f;
                    i = i + 1;
                }
                proof {
                    assert(ws_seq.subrange(0, ws_seq.len() as int) =~= ws_seq);
                }
                let n: i64 = if w.len() == 0 {
                    1
                } else {
                    w.len() as i64
                };
                proof {
                    assert(85000 * n <= 85000 * (crate::forecast::HOURLY_MAX as i64))
                        by (nonlinear_arith)
                        requires
                            1 <= n <= crate::forecast::HOURLY_MAX as i64,
                    ;
                }
                sum < 85000 * n
            },
        };
        let days_remaining = window_end.day_number() - today.day_number();
        if 50000 <= avg && avg <= 65000 {
            let severity = if 55000 <= avg && avg <= 62000 {
                if days_remaining < 21 {
                    Severity::Warning
                } else {
                    Severity::Advisory
                }
            } else if days_remaining < 14 {
                Severity::Warning
            } else {
                Severity::Advisory
            };
            let mut rec = Recommendation::new(
                String::from_str("fall_overseeding_").concat(
                    text::fmt_i64(today.year as i64).as_str(),
                ),
                RecommendationCategory::Overseeding,
                severity,
                String::from_str("Fall Overseeding Window Open"),
                String::from_str("Soil temperature (").concat(
                    text::fmt_milli_1(avg).as_str(),
                ).concat("°F) is ideal for TTTF seed germination. ").concat(
                    text::fmt_i64(days_remaining).as_str(),
                ).concat(" days remaining in optimal window."),
                *now,
            ).with_explanation(
                String::from_str(
                    "Tall Fescue doesn't spread on its own - overseeding is the only way to thicken your lawn and fill bare spots. Fall is THE best time because: (1) soil is warm for germination, (2) air is cool reducing seedling stress, (3) weed competition is minimal, (4) fall rains provide moisture. Seeds need 10-14 days of consistent moisture to germinate.",
                ),
            ).with_data_point(
                "7-Day Avg Soil Temp",
                text::fmt_milli_1(avg).concat("°F"),
                "NOAA USCRN",
            ).with_data_point(
                "Current Soil Temp",
                text::fmt_milli_1(current_soil).concat("°F"),
                "NOAA USCRN",
            ).with_data_point("Days Remaining", text::fmt_i64(days_remaining), "Calendar");
            if !favorable {
                rec = rec.with_data_point(
                    "Forecast Note",
                    String::from_str("Hot weather ahead - monitor seedlings"),
                    "OpenWeatherMap",
                );
            }
            let lawn_size = match profile.lawn_size_sqft {
                Some(s) => s,
                None => DEFAULT_LAWN_SQFT,
            };
            let action = if lawn_size > 0 {
                String::from_str("For your ").concat(
                    text::fmt_milli_0(lawn_size).as_str(),
                ).concat(" sqft lawn: ~").concat(text::fmt_milli_0(lawn_size / 250).as_str()).concat(
                    " lbs of TTTF seed (4 lbs/1000 sqft for overseeding). Mow low (2\"), dethatch or aerate first for seed-to-soil contact. Keep soil moist (light watering 2-3x daily) for 14 days. Avoid foot traffic for 3-4 weeks.",
                )
            } else {
                String::from_str(
                    "Seed at 4 lbs per 1000 sqft for overseeding (8 lbs for bare soil). Mow low (2\"), dethatch or aerate first for seed-to-soil contact. Keep soil moist (light watering 2-3x daily) for 14 days. Avoid foot traffic for 3-4 weeks.",
                )
            };
            rec = rec.with_action(action);
            proof {
                assert(rec@ =~= Self::optimal_model(
                    *env,
                    *profile,
                    avg,
                    current_soil,
                    days_remaining as int,
                    favorable,
                    *today,
                    *now,
                ));
            }
            Some(rec)
        } else if 65000 < avg && avg <= 75000 {
            let mid_september = Date { year: today.year, month: 9, day: 15 };
            if today.lt(&mid_september) {
                let rec = Recommendation::new(
                    String::from_str("fall_overseeding_wait_").concat(
                        text::fmt_i64(today.year as i64).as_str(),
                    ),
                    RecommendationCategory::Overseeding,
                    Severity::Info,
                    String::from_str("Overseeding Window Approaching"),
                    String::from_str("Soil temperature (").concat(
                        text::fmt_milli_1(avg).as_str(),
                    ).concat(
                        "°F) is still warm. Wait for temps to drop below 65°F for best germination.",
                    ),
                    *now,
                ).with_explanation(
                    String::from_str(
                        "TTTF germinates best when soil is 50-65°F. Seeding when soil is too warm can stress seedlings. The window typically opens mid-September in Zone 7a.",
                    ),
                ).with_data_point(
                    "Soil Temp",
                    text::fmt_milli_1(avg).concat("°F"),
                    "NOAA USCRN",
                ).with_action(
                    String::from_str(
                        "Prepare for overseeding: order seed, plan aeration, gather supplies. Monitor soil temps weekly.",
                    ),
                );
                proof {
                    assert(rec@ =~= Self::wait_model(avg, *today, *now));
                }
                Some(rec)
            } else {
                let rec = Recommendation::new(
                    String::from_str("fall_overseeding_late_").concat(
                        text::fmt_i64(today.year as i64).as_str(),
                    ),
                    RecommendationCategory::Overseeding,
                    Severity::Warning,
                    String::from_str("Overseeding - Soil Warm but Window Closing"),
                    String::from_str("Soil (").concat(text::fmt_milli_1(avg).as_str()).concat(
                        "°F) is warmer than ideal, but ",
                    ).concat(text::fmt_i64(days_remaining).as_str()).concat(
                        " days remain in window. Consider seeding soon despite conditions.",
                    ),
                    *now,
                ).with_data_point(
                    "Soil Temp",
                    text::fmt_milli_1(avg).concat("°F"),
                    "NOAA USCRN",
                ).with_action(
                    String::from_str(
                        "Seed soon if you haven't already. Water more frequently to keep seedlings cool. Soil temps will drop as nights get cooler.",
                    ),
                );
                proof {
                    assert(rec@ =~= Self::late_model(avg, days_remaining as int, *today, *now));
                }
                Some(rec)
            }
        } else if avg < 50000 {
            if days_remaining > 14 {
                let rec = Recommendation::new(
                    String::from_str("fall_overseeding_cold_").concat(
                        text::fmt_i64(today.year as i64).as_str(),
                    ),
                    RecommendationCategory::Overseeding,
                    Severity::Warning,
                    String::from_str("Overseeding Window Narrowing - Cool Soil"),
                    String::from_str("Soil temperature (").concat(
                        text::fmt_milli_1(avg).as_str(),
                    ).concat(
                        "°F) is below optimal. Germination will be slow. Seed immediately if planned.",
                    ),
                    *now,
                ).with_data_point(
                    "Soil Temp",
                    text::fmt_milli_1(avg).concat("°F"),
                    "NOAA USCRN",
                ).with_action(
                    String::from_str(
                        "If overseeding, do it NOW. Germination slows significantly below 50°F. Seedlings need 4-6 weeks before hard frost to establish.",
                    ),
                );
                proof {
                    assert(rec@ =~= Self::cold_model(avg, *today, *now));
                }
                Some(rec)
            } else {
                None
            }
        } else {
            None
        }
    }
}

} // verus!
