//! Optimal application window finder.
//!
//! Scores each of the next five forecast days on a fixed rubric — dry the
//! day before (10 points), dry that day and the next (15), acceptable
//! temperature (10, with a 5-point bonus for the ideal 55-75 °F band),
//! calm wind (5) and moderate humidity (3) — and recommends the
//! best-scoring day that is dry and temperate, earlier days winning ties.

use crate::application::Application;
use crate::dates::{spec_day_number, spec_month_day_short, spec_weekday_name, Date, Timestamp};
use crate::environmental::EnvironmentalSummary;
use crate::forecast::DailyForecast;
use crate::num;
use crate::profile::LawnProfile;
use crate::recommendation::{
    opt_model, rec_model, RecModel, Recommendation, RecommendationCategory, Severity,
};
use crate::rules::inputs_wf;
use crate::text;
use vstd::prelude::*;

verus! {

pub struct ApplicationWindowRule;

/// A day without meaningful rain: under 2.5 mm total and under a 0.5
/// probability.
pub open spec fn day_dry(d: DailyForecast) -> bool {
    d.total_precipitation_mm < 2500 && d.max_precipitation_prob < 500
}

/// Mean of the day's high and low, truncated toward zero.
pub open spec fn q_avg_temp(daily: Seq<DailyForecast>, j: int) -> int {
    num::spec_tdiv(daily[j].high_temp_f + daily[j].low_temp_f, 2)
}

pub open spec fn q_temp_ok(daily: Seq<DailyForecast>, j: int) -> bool {
    q_avg_temp(daily, j) >= 50000 && daily[j].high_temp_f <= 85000
}

pub open spec fn q_wind_ok(daily: Seq<DailyForecast>, j: int) -> bool {
    daily[j].avg_wind_speed_mph < 10000
}

pub open spec fn q_humidity_ok(daily: Seq<DailyForecast>, j: int) -> bool {
    daily[j].avg_humidity < 85000
}

/// Dry the day before; the first forecast day falls back to the recent
/// 7-day precipitation total (under 25 mm counts as dry).
pub open spec fn q_no_rain_before(
    daily: Seq<DailyForecast>,
    env: EnvironmentalSummary,
    j: int,
) -> bool {
    if j > 0 {
        day_dry(daily[j - 1])
    } else {
        (match env.precipitation_7day_total_mm {
            Some(p) => p as int,
            None => 0,
        }) < 25000
    }
}

/// Dry that day, and the day after when the forecast has one.
pub open spec fn q_no_rain_after(daily: Seq<DailyForecast>, j: int) -> bool {
    day_dry(daily[j]) && (j + 1 < daily.len() ==> day_dry(daily[j + 1]))
}

/// A candidate day must be dry around the application and temperate.
pub open spec fn q_good(daily: Seq<DailyForecast>, env: EnvironmentalSummary, j: int) -> bool {
    q_no_rain_before(daily, env, j) && q_no_rain_after(daily, j) && q_temp_ok(daily, j)
}

/// The fixed scoring rubric.
pub open spec fn q_score(daily: Seq<DailyForecast>, env: EnvironmentalSummary, j: int) -> int {
    (if q_temp_ok(daily, j) {
        10int
    } else {
        0int
    }) + (if q_wind_ok(daily, j) {
        5int
    } else {
        0int
    }) + (if q_humidity_ok(daily, j) {
        3int
    } else {
        0int
    }) + (if q_no_rain_before(daily, env, j) {
        10int
    } else {
        0int
    }) + (if q_no_rain_after(daily, j) {
        15int
    } else {
        0int
    }) + (if 55000 <= q_avg_temp(daily, j) && q_avg_temp(daily, j) <= 75000 {
        5int
    } else {
        0int
    })
}

/// How many of the first `n` days are good candidates.
pub open spec fn good_count(daily: Seq<DailyForecast>, env: EnvironmentalSummary, n: int) -> int
    decreases n,
{
    if n <= 0 {
        0
    } else {
        good_count(daily, env, n - 1) + if q_good(daily, env, n - 1) {
            1int
        } else {
            0int
        }
    }
}

/// The best good day among the first `n`: a later day replaces the current
/// winner only with a strictly greater score, so ties keep the earlier day.
pub open spec fn best_upto(daily: Seq<DailyForecast>, env: EnvironmentalSummary, n: int) -> Option<
    int,
>
    decreases n,
{
    if n <= 0 {
        None
    } else {
        let prev = best_upto(daily, env, n - 1);
        if q_good(daily, env, n - 1) {
            match prev {
                None => Some(n - 1),
                Some(b) => if q_score(daily, env, n - 1) > q_score(daily, env, b) {
                    Some(n - 1)
                } else {
                    Some(b)
                },
            }
        } else {
            prev
        }
    }
}

/// Join two optional phrases with a comma.
pub open spec fn spec_join2(a: Option<Seq<char>>, b: Option<Seq<char>>) -> Option<Seq<char>> {
    match (a, b) {
        (None, None) => None,
        (Some(x), None) => Some(x),
        (None, Some(y)) => Some(y),
        (Some(x), Some(y)) => Some(x + ", "@ + y),
    }
}

/// The short description of a day's conditions.
pub open spec fn spec_describe(
    daily: Seq<DailyForecast>,
    env: EnvironmentalSummary,
    j: int,
) -> Seq<char> {
    let c1: Option<Seq<char>> = if 55000 <= q_avg_temp(daily, j) && q_avg_temp(daily, j)
        <= 75000 {
        Some("ideal temps"@)
    } else if q_temp_ok(daily, j) {
        Some("acceptable temps"@)
    } else {
        None
    };
    let c2: Option<Seq<char>> = if q_wind_ok(daily, j) && daily[j].avg_wind_speed_mph < 5000 {
        Some("calm winds"@)
    } else if q_wind_ok(daily, j) {
        Some("light winds"@)
    } else {
        None
    };
    let c3: Option<Seq<char>> = if q_humidity_ok(daily, j) && daily[j].avg_humidity < 70000 {
        Some("low humidity"@)
    } else if q_humidity_ok(daily, j) {
        Some("moderate humidity"@)
    } else {
        None
    };
    match spec_join2(spec_join2(c1, c2), c3) {
        None => "marginal conditions"@,
        Some(s) => s,
    }
}

impl ApplicationWindowRule {
    pub fn id(&self) -> (r: &'static str)
        ensures
            r@ == "application_window"@,
    {
        "application_window"
    }

    pub fn name(&self) -> (r: &'static str)
        ensures
            r@ == "Optimal Application Window"@,
    {
        "Optimal Application Window"
    }

    pub open spec fn window_model(
        daily: Seq<DailyForecast>,
        env: EnvironmentalSummary,
        b: int,
        total_good: int,
        now: Timestamp,
    ) -> RecModel {
        let day_name = spec_weekday_name(spec_day_number(daily[b].date));
        rec_model(
            "application_window"@,
            RecommendationCategory::ApplicationTiming,
            Severity::Info,
            "Good Application Window: "@ + day_name,
            day_name + " ("@ + spec_month_day_short(daily[b].date) + ") shows "@ + spec_describe(
                daily,
                env,
                b,
            ) + " for lawn product applications. "@ + text::spec_int_str(total_good)
                + " good day(s) in the next 5-day forecast."@,
            now,
        ).with_explanation(
            "Optimal conditions for fertilizer, herbicide, and fungicide applications include: dry conditions (no rain 24h before, 48h after), moderate temperatures (50-80°F), low wind (<10mph to prevent drift), and moderate humidity (<85%). Early morning applications are often best."@,
        ).with_data_point(
            "Expected Temp"@,
            text::spec_milli_0(q_avg_temp(daily, b)) + "°F"@,
            "OpenWeatherMap"@,
        ).with_data_point(
            "Wind Speed"@,
            text::spec_milli_1(daily[b].avg_wind_speed_mph as int) + "mph"@,
            "OpenWeatherMap"@,
        ).with_data_point(
            "Humidity"@,
            text::spec_milli_0(daily[b].avg_humidity as int) + "%"@,
            "OpenWeatherMap"@,
        ).with_action(
            "Plan applications for "@ + day_name
                + " if weather holds. Check forecast morning-of to confirm conditions. Apply in early morning for best results."@,
        )
    }

    /// Full behavior: scans the first five forecast days and recommends
    /// the best-scoring dry, temperate day, ties going to the earlier day;
    /// silent without a forecast or a qualifying day.
    pub open spec fn spec_evaluate(
        env: EnvironmentalSummary,
        profile: LawnProfile,
        history: Seq<Application>,
        today: Date,
        now: Timestamp,
    ) -> Option<RecModel> {
        match env.forecast {
            None => None,
            Some(f) => {
                let daily = f.daily_summary@;
                let n = if daily.len() < 5 {
                    daily.len() as int
                } else {
                    5int
                };
                match best_upto(daily, env, n) {
                    None => None,
                    Some(b) => Some(
                        Self::window_model(daily, env, b, good_count(daily, env, n), now),
                    ),
                }
            },
        }
    }

    /// Evaluate the rule; returns exactly what the specification says.
    pub fn evaluate(
        &self,
        env: &EnvironmentalSummary,
        profile: &LawnProfile,
        history: &Vec<Application>,
        today: &Date,
        now: &Timestamp,
    ) -> (r: Option<Recommendation>)
        requires
            inputs_wf(*env, *profile, history@, *today, *now),
        ensures
            opt_model(r) == Self::spec_evaluate(*env, *profile, history@, *today, *now),
    {
        let forecast = match &env.forecast {
            Some(f) => f,
            None => {
                return None;
            },
        };
        let ghost daily = forecast.daily_summary@;
        let len = forecast.daily_summary.len();
        let n: usize = if len < 5 {
            len
        } else {
            5
        };
        let mut best: Option<usize> = None;
        let mut count: usize = 0;
        let mut j: usize = 0;
        while j < n
            invariant
                0 <= j <= n <= daily.len(),
                n == if daily.len() < 5 {
                    daily.len() as int
                } else {
                    5int
                },
                daily == forecast.daily_summary@,
                env.wf(),
                env.forecast == Some(*forecast),
                forall|k: int| 0 <= k < daily.len() ==> (#[trigger] daily[k]).wf(),
                count == good_count(daily, *env, j as int),
                count <= j,
                match best {
                    None => best_upto(daily, *env, j as int) is None,
                    Some(b) => 0 <= b < j && best_upto(daily, *env, j as int) == Some(b as int),
                },
            decreases n - j,
        {
            let good = self.day_good(forecast, env, j);
            if good {
                let score_j = self.day_score(forecast, env, j);
                best = match best {
                    None => Some(j),
                    Some(b) => {
                        let score_b = self.day_score(forecast, env, b);
                        if score_j > score_b {
                            Some(j)
                        } else {
                            Some(b)
                        }
                    },
                };
                count = count + 1;
            }
            j = j + 1;
        }
        let b = match best {
            Some(b) => b,
            None => {
                return None;
            },
        };
        let day = forecast.daily_summary[b];
        let avg_temp = num::tdiv(day.high_temp_f + day.low_temp_f, 2);
        let temp_ok = avg_temp >= 50000 && day.high_temp_f <= 85000;
        let wind_ok = day.avg_wind_speed_mph < 10000;
        let humidity_ok = day.avg_humidity < 85000;
        let c1: Option<&str> = if 55000 <= avg_temp && avg_temp <= 75000 {
            Some("ideal temps")
        } else if temp_ok {
            Some("acceptable temps")
        } else {
            None
        };
        let c2: Option<&str> = if wind_ok && day.avg_wind_speed_mph < 5000 {
            Some("calm winds")
        } else if wind_ok {
            Some("light winds")
        } else {
            None
        };
        let c3: Option<&str> = if humidity_ok && day.avg_humidity < 70000 {
            Some("low humidity")
        } else if humidity_ok {
            Some("moderate humidity")
        } else {
            None
        };
        let c12: Option<String> = match (c1, c2) {
            (None, None) => None,
            (Some(x), None) => Some(String::from_str(x)),
            (None, Some(y)) => Some(String::from_str(y)),
            (Some(x), Some(y)) => Some(String::from_str(x).concat(", ").concat(y)),
        };
        let described: String = match (c12, c3) {
            (None, None) => String::from_str("marginal conditions"),
            (Some(x), None) => x,
            (None, Some(y)) => String::from_str(y),
            (Some(x), Some(y)) => x.concat(", ").concat(y),
        };
        proof {
            assert(described@ == spec_describe(daily, *env, b as int));
        }
        let day_name = day.date.weekday_name();
        let rec = Recommendation::new(
            String::from_str("application_window"),
            RecommendationCategory::ApplicationTiming,
            Severity::Info,
            String::from_str("Good Application Window: ").concat(day_name),
            String::from_str(day_name).concat(" (").concat(
                day.date.format_month_day_short().as_str(),
            ).concat(") shows ").concat(described.as_str()).concat(
                " for lawn product applications. ",
            ).concat(text::fmt_i64(count as i64).as_str()).concat(
                " good day(s) in the next 5-day forecast.",
            ),
            *now,
        ).with_explanation(
            String::from_str(
                "Optimal conditions for fertilizer, herbicide, and fungicide applications include: dry conditions (no rain 24h before, 48h after), moderate temperatures (50-80°F), low wind (<10mph to prevent drift), and moderate humidity (<85%). Early morning applications are often best.",
            ),
        ).with_data_point(
            "Expected Temp",
            text::fmt_milli_0(avg_temp).concat("°F"),
            "OpenWeatherMap",
        ).with_data_point(
            "Wind Speed",
            text::fmt_milli_1(day.avg_wind_speed_mph).concat("mph"),
            "OpenWeatherMap",
        ).with_data_point(
            "Humidity",
            text::fmt_milli_0(day.avg_humidity).concat("%"),
            "OpenWeatherMap",
        ).with_action(
            String::from_str("Plan applications for ").concat(day_name).concat(
                " if weather holds. Check forecast morning-of to confirm conditions. Apply in early morning for best results.",
            ),
        );
        proof {
            assert(rec@ =~= Self::window_model(daily, *env, b as int, count as int, *now));
        }
        Some(rec)
    }

    /// Whether forecast day `j` is a good candidate.
    fn day_good(&self, forecast: &crate::forecast::WeatherForecast, env: &EnvironmentalSummary, j: usize) -> (r:
        bool)
        requires
            env.wf(),
            forall|k: int|
                0 <= k < forecast.daily_summary@.len() ==> (
                #[trigger] forecast.daily_summary@[k]).wf(),
            j < forecast.daily_summary@.len(),
        ensures
            r == q_good(forecast.daily_summary@, *env, j as int),
    {
        let daily = &forecast.daily_summary;
        let day = daily[j];
        let avg_temp = num::tdiv(day.high_temp_f + day.low_temp_f, 2);
        let temp_ok = avg_temp >= 50000 && day.high_temp_f <= 85000;
        let no_rain_before = if j > 0 {
            let prev = daily[j - 1];
            prev.total_precipitation_mm < 2500 && prev.max_precipitation_prob < 500
        } else {
            let recent = match env.precipitation_7day_total_mm {
                Some(p) => p,
                None => 0,
            };
            recent < 25000
        };
        let current_dry = day.total_precipitation_mm < 2500 && day.max_precipitation_prob < 500;
        let next_day_dry = if j < daily.len() - 1 {
            let next = daily[j + 1];
            next.total_precipitation_mm < 2500 && next.max_precipitation_prob < 500
        } else {
            true
        };
        no_rain_before && current_dry && next_day_dry && temp_ok
    }

    /// The rubric score of forecast day `j`.
    fn day_score(&self, forecast: &crate::forecast::WeatherForecast, env: &EnvironmentalSummary, j: usize) -> (r:
        u32)
        requires
            env.wf(),
            forall|k: int|
                0 <= k < forecast.daily_summary@.len() ==> (
                #[trigger] forecast.daily_summary@[k]).wf(),
            j < forecast.daily_summary@.len(),
        ensures
            r == q_score(forecast.daily_summary@, *env, j as int),
    {
        let daily = &forecast.daily_summary;
        let day = daily[j];
        let avg_temp = num::tdiv(day.high_temp_f + day.low_temp_f, 2);
        let temp_ok = avg_temp >= 50000 && day.high_temp_f <= 85000;
        let wind_ok = day.avg_wind_speed_mph < 10000;
        let humidity_ok = day.avg_humidity < 85000;
        let no_rain_before = if j > 0 {
            let prev = daily[j - 1];
            prev.total_precipitation_mm < 2500 && prev.max_precipitation_prob < 500
        } else {
            let recent = match env.precipitation_7day_total_mm {
                Some(p) => p,
                None => 0,
            };
            recent < 25000
        };
        let current_dry = day.total_precipitation_mm < 2500 && day.max_precipitation_prob < 500;
        let next_day_dry = if j < daily.len() - 1 {
            let next = daily[j + 1];
            next.total_precipitation_mm < 2500 && next.max_precipitation_prob < 500
        } else {
            true
        };
        let no_rain_after = current_dry && next_day_dry;
        let mut score: u32 = 0;
        if temp_ok {
            score = score + 10;
        }
        if wind_ok {
            score = score + 5;
        }
        if humidity_ok {
            score = score + 3;
        }
        if no_rain_before {
            score = score + 10;
        }
        if no_rain_after {
            score = score + 15;
        }
        if 55000 <= avg_temp && avg_temp <= 75000 {
            score = score + 5;
        }
        score
    }
}

} // verus!
