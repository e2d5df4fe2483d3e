//! The evaluation engine: pass-through order, targeted re-checks, the
//! registry listing, the empty-summary guarantee and the rain-delay
//! horizon short-circuit.

use turfops::application::Application;
use turfops::dates::{Date, Timestamp, SECS_PER_DAY};
use turfops::environmental::{DataSource, EnvironmentalReading, EnvironmentalSummary};
use turfops::forecast::{ForecastLocation, ForecastPoint, WeatherCondition, WeatherForecast};
use turfops::profile::{GrassType, LawnProfile};
use turfops::recommendation::Severity;
use turfops::rules::engine::RulesEngine;

fn cool_profile() -> LawnProfile {
    LawnProfile::new(
        "Main Lawn".to_string(),
        GrassType::TallFescue,
        "7a".to_string(),
        Timestamp { secs: 0 },
    )
}

fn noon_of(d: Date) -> Timestamp {
    Timestamp { secs: d.day_number() * SECS_PER_DAY + 43_200 }
}

#[test]
fn engine_pass_through_preserves_registry_order() {
    // March, 57 °F average, no history and no forecast: exactly the
    // pre-emergent and spring-nitrogen rules fire, in registry order.
    let engine = RulesEngine::new();
    let today = Date { year: 2025, month: 3, day: 15 };
    let mut current = EnvironmentalReading::new(DataSource::SoilData, Timestamp { secs: 0 });
    current.soil_temp_10_f = Some(58_000);
    let mut env = EnvironmentalSummary::empty();
    env.current = Some(current);
    env.soil_temp_7day_avg_f = Some(57_000);
    let history: Vec<Application> = Vec::new();

    let out = engine.evaluate(&env, &cool_profile(), &history, &today, &noon_of(today));
    assert_eq!(out.len(), 2);
    assert_eq!(out[0].id, "pre_emergent_2025");
    assert_eq!(out[1].id, "spring_n_ready");
}

#[test]
fn engine_empty_summary_yields_no_recommendations() {
    // The engine must be callable on an entirely empty summary and simply
    // return an empty list.
    let engine = RulesEngine::new();
    let today = Date { year: 2025, month: 3, day: 15 };
    let env = EnvironmentalSummary::empty();
    let history: Vec<Application> = Vec::new();
    let out = engine.evaluate(&env, &cool_profile(), &history, &today, &noon_of(today));
    assert!(out.is_empty());
}

#[test]
fn engine_targeted_recheck_by_identifier() {
    let engine = RulesEngine::new();
    let today = Date { year: 2025, month: 3, day: 15 };
    let mut current = EnvironmentalReading::new(DataSource::SoilData, Timestamp { secs: 0 });
    current.soil_temp_10_f = Some(58_000);
    let mut env = EnvironmentalSummary::empty();
    env.current = Some(current);
    env.soil_temp_7day_avg_f = Some(57_000);
    let history: Vec<Application> = Vec::new();

    let one = engine.evaluate_rule(
        "pre_emergent",
        &env,
        &cool_profile(),
        &history,
        &today,
        &noon_of(today),
    );
    assert_eq!(one.unwrap().id, "pre_emergent_2025");

    let other = engine.evaluate_rule(
        "grub_control",
        &env,
        &cool_profile(),
        &history,
        &today,
        &noon_of(today),
    );
    assert!(other.is_none());

    let unknown = engine.evaluate_rule(
        "no_such_rule",
        &env,
        &cool_profile(),
        &history,
        &today,
        &noon_of(today),
    );
    assert!(unknown.is_none());
}

#[test]
fn engine_lists_twelve_distinct_rules() {
    let engine = RulesEngine::new();
    let listed = engine.list_rules();
    assert_eq!(listed.len(), 12);
    assert_eq!(listed[0], ("pre_emergent", "Pre-Emergent Timing"));
    for i in 0..listed.len() {
        for j in 0..i {
            assert_ne!(listed[i].0, listed[j].0, "duplicate rule identifier");
        }
    }
}

fn rain_point(secs: i64, prob: i64) -> ForecastPoint {
    ForecastPoint {
        timestamp: Timestamp { secs },
        temp_f: 70_000,
        feels_like_f: 70_000,
        humidity_percent: 60_000,
        precipitation_mm: 0,
        precipitation_prob: prob,
        wind_speed_mph: 4_000,
        wind_gust_mph: None,
        cloud_cover_percent: 50_000,
        weather_condition: WeatherCondition::Clouds,
    }
}

#[test]
fn rain_delay_prefers_earliest_qualifying_horizon() {
    // Rain probability 0.8 six hours out and 0.2 thirty hours out: the
    // engine must report the critical 12-hour recommendation, not a
    // lower-severity longer horizon.
    let engine = RulesEngine::new();
    let day0: i64 = 20_000;
    let now = Timestamp { secs: day0 * SECS_PER_DAY };
    let today = now.date();
    let hourly = vec![
        rain_point(now.secs + 6 * 3_600, 800),
        rain_point(now.secs + 30 * 3_600, 200),
    ];
    let forecast = WeatherForecast::new(
        now,
        ForecastLocation {
            city: "Avondale".to_string(),
            country: "US".to_string(),
            latitude: 39_830,
            longitude: -75_870,
        },
        hourly,
    );
    let mut env = EnvironmentalSummary::empty();
    env.forecast = Some(forecast);
    let history: Vec<Application> = Vec::new();

    let rec = engine
        .evaluate_rule("rain_delay", &env, &cool_profile(), &history, &today, &now)
        .expect("rain delay should fire");
    assert_eq!(rec.severity, Severity::Critical);
    assert!(rec
        .data_points
        .iter()
        .any(|d| d.label == "Forecast Window" && d.value == "12h"));
    assert!(rec
        .data_points
        .iter()
        .any(|d| d.label == "Rain Probability" && d.value == "80%"));
}
