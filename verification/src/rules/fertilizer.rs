//! Fertilizer stress avoidance.
//!
//! Applying nitrogen during stress can burn a cool-season lawn. The rule
//! inspects only the current reading: ambient temperature above 85 °F, or a
//! primary soil moisture below 0.10 (drought) or above 0.40 (saturation),
//! blocks fertilization; extreme heat above 90 °F or moisture below 0.05
//! escalates the block to critical. With no threshold breached it stays
//! silent.

use crate::application::Application;
use crate::dates::{Date, Timestamp};
use crate::environmental::{EnvironmentalReading, EnvironmentalSummary};
use crate::profile::LawnProfile;
use crate::recommendation::{
    opt_model, rec_model, RecModel, Recommendation, RecommendationCategory, Severity,
};
use crate::rules::inputs_wf;
use crate::text;
use vstd::prelude::*;

verus! {

pub struct FertilizerRule;

impl FertilizerRule {
    pub fn id(&self) -> (r: &'static str)
        ensures
            r@ == "fertilizer_block"@,
    {
        "fertilizer_block"
    }

    pub fn name(&self) -> (r: &'static str)
        ensures
            r@ == "Fertilizer Stress Avoidance"@,
    {
        "Fertilizer Stress Avoidance"
    }

    pub open spec fn heat_msg(ambient: i64) -> Seq<char> {
        "Ambient temperature ("@ + text::spec_milli_1(ambient as int)
            + "°F) exceeds 85°F heat stress threshold"@
    }

    /// The moisture warning, when the primary soil moisture breaches a
    /// threshold.
    pub open spec fn moisture_msg(moisture: i64) -> Option<Seq<char>> {
        if moisture < 100 {
            Some(
                "Soil moisture ("@ + text::spec_milli_2(moisture as int)
                    + ") indicates drought stress (below 0.10)"@,
            )
        } else if moisture > 400 {
            Some(
                "Soil moisture ("@ + text::spec_milli_2(moisture as int)
                    + ") indicates saturation (above 0.40) - fertilizer may leach"@,
            )
        } else {
            None
        }
    }

    pub open spec fn block_model(cur: EnvironmentalReading, ambient: i64, now: Timestamp) -> Option<
        RecModel,
    > {
        let moisture = cur.spec_primary_soil_moisture();
        let heat = ambient > 85000;
        let mw = match moisture {
            Some(m) => Self::moisture_msg(m),
            None => None,
        };
        if !heat && mw is None {
            None
        } else {
            let description = match mw {
                Some(w) => if heat {
                    Self::heat_msg(ambient) + ". "@ + w
                } else {
                    w
                },
                None => Self::heat_msg(ambient),
            };
            let severity = if ambient > 90000 || (match moisture {
                Some(m) => m < 50,
                None => false,
            }) {
                Severity::Critical
            } else {
                Severity::Warning
            };
            let base = rec_model(
                "fertilizer_block"@,
                RecommendationCategory::Fertilizer,
                severity,
                "Avoid Fertilizer Application"@,
                description,
                now,
            ).with_explanation(
                "Cool-season grasses like Tall Fescue experience heat stress above 85°F and may go partially dormant. Applying nitrogen during stress can cause fertilizer burn and damage the lawn. Wait for cooler temperatures or improved soil moisture."@,
            );
            let with_heat = if heat {
                base.with_data_point(
                    "Ambient Temp"@,
                    text::spec_milli_1(ambient as int) + "°F"@,
                    "Patio Sensor"@,
                )
            } else {
                base
            };
            let with_moist = match mw {
                Some(_) => with_heat.with_data_point(
                    "Soil Moisture"@,
                    text::spec_milli_2(moisture->0 as int),
                    "NOAA USCRN"@,
                ),
                None => with_heat,
            };
            let with_soil = match cur.soil_temp_10_f {
                Some(st) => with_moist.with_data_point(
                    "Soil Temp (10cm)"@,
                    text::spec_milli_1(st as int) + "°F"@,
                    "NOAA USCRN"@,
                ),
                None => with_moist,
            };
            Some(
                with_soil.with_action(
                    "Delay fertilizer application until ambient temperature drops below 85°F and soil moisture is between 0.10-0.40. Consider irrigation if drought-stressed."@,
                ),
            )
        }
    }

    /// Full behavior: gates on cool-season grass, a current reading and a
    /// present ambient temperature; blocks on heat or a moisture breach.
    pub open spec fn spec_evaluate(
        env: EnvironmentalSummary,
        profile: LawnProfile,
        history: Seq<Application>,
        today: Date,
        now: Timestamp,
    ) -> Option<RecModel> {
        if !profile.grass_type.spec_cool_season() {
            None
        } else {
            match env.current {
                None => None,
                Some(cur) => match cur.ambient_temp_f {
                    None => None,
                    Some(ambient) => Self::block_model(cur, ambient, now),
                },
            }
        }
    }

    /// Evaluate the rule; returns exactly what the specification says.
    pub fn evaluate(
        &self,
        env: &EnvironmentalSummary,
        profile: &LawnProfile,
        history: &Vec<Application>,
        today: &Date,
        now: &Timestamp,
    ) -> (r: Option<Recommendation>)
        requires
            inputs_wf(*env, *profile, history@, *today, *now),
        ensures
            opt_model(r) == Self::spec_evaluate(*env, *profile, history@, *today, *now),
    {
        if !profile.grass_type.is_cool_season() {
            return None;
        }
        let cur = match &env.current {
            Some(c) => c,
            None => {
                return None;
            },
        };
        let ambient = match cur.ambient_temp_f {
            Some(t) => t,
            None => {
                return None;
            },
        };
        let moisture = cur.primary_soil_moisture();
        let heat = ambient > 85000;
        let dry = match moisture {
            Some(m) => m < 100,
            None => false,
        };
        let saturated = match moisture {
            Some(m) => m > 400,
            None => false,
        };
        if !heat && !dry && !saturated {
            return None;
        }
        let description = if dry || saturated {
            let m = match moisture {
                Some(m) => m,
                None => 0,  // unreachable: dry or saturated implies a present value
            };
            let msg = if dry {
                String::from_str("Soil moisture (").concat(text::fmt_milli_2(m).as_str()).concat(
                    ") indicates drought stress (below 0.10)",
                )
            } else {
                String::from_str("Soil moisture (").concat(text::fmt_milli_2(m).as_str()).concat(
                    ") indicates saturation (above 0.40) - fertilizer may leach",
                )
            };
            if heat {
                String::from_str("Ambient temperature (").concat(
                    text::fmt_milli_1(ambient).as_str(),
                ).concat("°F) exceeds 85°F heat stress threshold").concat(". ").concat(msg.as_str())
            } else {
                msg
            }
        } else {
            String::from_str("Ambient temperature (").concat(
                text::fmt_milli_1(ambient).as_str(),
            ).concat("°F) exceeds 85°F heat stress threshold")
        };
        let severity = if ambient > 90000 || (match moisture {
            Some(m) => m < 50,
            None => false,
        }) {
            Severity::Critical
        } else {
            Severity::Warning
        };
        let mut rec = Recommendation::new(
            String::from_str("fertilizer_block"),
            RecommendationCategory::Fertilizer,
            severity,
            String::from_str("Avoid Fertilizer Application"),
            description,
            *now,
        ).with_explanation(
            String::from_str(
                "Cool-season grasses like Tall Fescue experience heat stress above 85°F and may go partially dormant. Applying nitrogen during stress can cause fertilizer burn and damage the lawn. Wait for cooler temperatures or improved soil moisture.",
            ),
        );
        if heat {
            rec = rec.with_data_point(
                "Ambient Temp",
                text::fmt_milli_1(ambient).concat("°F"),
                "Patio Sensor",
            );
        }
        if dry || saturated {
            let m = match moisture {
                Some(m) => m,
                None => 0,  // unreachable as above
            };
            rec = rec.with_data_point("Soil Moisture", text::fmt_milli_2(m), "NOAA USCRN");
        }
        match cur.soil_temp_10_f {
            Some(st) => {
                rec = rec.with_data_point(
                    "Soil Temp (10cm)",
                    text::fmt_milli_1(st).concat("°F"),
                    "NOAA USCRN",
                );
            },
            None => {},
        }
        rec = rec.with_action(
            String::from_str(
                "Delay fertilizer application until ambient temperature drops below 85°F and soil moisture is between 0.10-0.40. Consider irrigation if drought-stressed.",
            ),
        );
        proof {
            assert(Self::block_model(*cur, ambient, *now) is Some);
            assert(rec@ =~= Self::block_model(*cur, ambient, *now)->0);
        }
        Some(rec)
    }
}

} // verus!
