//! The forecast-driven and fall-season rules: fungicide risk, heat
//! stress, irrigation, the application-window finder, disease pressure,
//! fall overseeding and the phased fall fertilization program.

use turfops::application::{Application, ApplicationType};
use turfops::dates::{Date, Timestamp, SECS_PER_DAY};
use turfops::environmental::{DataSource, EnvironmentalReading, EnvironmentalSummary};
use turfops::forecast::{ForecastLocation, ForecastPoint, WeatherCondition, WeatherForecast};
use turfops::profile::{GrassType, LawnProfile};
use turfops::recommendation::Severity;
use turfops::rules::application_window::ApplicationWindowRule;
use turfops::rules::disease_pressure::DiseasePressureRule;
use turfops::rules::fall_fertilization::FallFertilizationRule;
use turfops::rules::fall_overseeding::FallOverseedingRule;
use turfops::rules::fungicide::FungicideRule;
use turfops::rules::heat_stress::HeatStressRule;
use turfops::rules::irrigation_forecast::IrrigationForecastRule;

fn cool_profile() -> LawnProfile {
    LawnProfile::new(
        "Main Lawn".to_string(),
        GrassType::TallFescue,
        "7a".to_string(),
        Timestamp { secs: 0 },
    )
}

fn noon_of(d: Date) -> Timestamp {
    Timestamp { secs: d.day_number() * SECS_PER_DAY + 43_200 }
}

/// One forecast point per day for `highs.len()` days starting at `day0`,
/// with the given daily highs, lows 15 °F below, and the given humidity.
fn daily_forecast(day0: i64, highs: &[i64], humidity: i64, precip: i64, prob: i64) -> WeatherForecast {
    let mut hourly = Vec::new();
    for (d, high) in highs.iter().enumerate() {
        // Two points per day so the aggregate has a real high and low.
        for (offset, temp) in [(3_600, high - 15_000), (43_200, *high)] {
            hourly.push(ForecastPoint {
                timestamp: Timestamp { secs: (day0 + d as i64) * SECS_PER_DAY + offset },
                temp_f: temp,
                feels_like_f: temp,
                humidity_percent: humidity,
                precipitation_mm: precip,
                precipitation_prob: prob,
                wind_speed_mph: 4_000,
                wind_gust_mph: None,
                cloud_cover_percent: 40_000,
                weather_condition: WeatherCondition::Clear,
            });
        }
    }
    WeatherForecast::new(
        Timestamp { secs: day0 * SECS_PER_DAY },
        ForecastLocation {
            city: "Avondale".to_string(),
            country: "US".to_string(),
            latitude: 39_830,
            longitude: -75_870,
        },
        hourly,
    )
}

#[test]
fn fungicide_risk_escalates_with_sustained_humidity() {
    let rule = FungicideRule;
    let today = Date { year: 2025, month: 7, day: 10 };
    let history: Vec<Application> = Vec::new();

    let mut current = EnvironmentalReading::new(DataSource::HomeAssistant, Timestamp { secs: 0 });
    current.humidity_percent = Some(91_000);
    current.ambient_temp_f = Some(81_000);
    let mut env = EnvironmentalSummary::empty();
    env.current = Some(current);
    env.humidity_7day_avg = Some(76_000);
    let rec = rule.evaluate(&env, &cool_profile(), &history, &today, &noon_of(today)).unwrap();
    assert_eq!(rec.severity, Severity::Critical);
    assert_eq!(rec.id, "fungicide_risk");
    assert!(rec.description.contains("Humidity: 91%"));

    // Same humidity without the sustained 7-day average: advisory only.
    let mut env2 = env.clone();
    env2.humidity_7day_avg = Some(70_000);
    let rec2 = rule.evaluate(&env2, &cool_profile(), &history, &today, &noon_of(today)).unwrap();
    assert_eq!(rec2.severity, Severity::Advisory);

    // Humidity at or below 80%: no risk raised.
    let mut mild = current;
    mild.humidity_percent = Some(78_000);
    let mut env3 = env.clone();
    env3.current = Some(mild);
    assert!(rule.evaluate(&env3, &cool_profile(), &history, &today, &noon_of(today)).is_none());
}

#[test]
fn heat_stress_grades_by_forecast_maximum() {
    let rule = HeatStressRule;
    let history: Vec<Application> = Vec::new();
    let day0: i64 = 20_000;
    let today = Timestamp { secs: day0 * SECS_PER_DAY }.date();
    let now = noon_of(today);

    let mut env = EnvironmentalSummary::empty();
    env.forecast = Some(daily_forecast(day0, &[88_000, 96_000, 80_000], 50_000, 0, 0));
    let rec = rule.evaluate(&env, &cool_profile(), &history, &today, &now).unwrap();
    assert_eq!(rec.severity, Severity::Critical);
    assert!(rec
        .data_points
        .iter()
        .any(|d| d.label == "Max Forecast Temp" && d.value == "96°F"));
    // The two leading days reach 85 °F before the cooler third day.
    assert!(rec.data_points.iter().any(|d| d.label == "Hot Days" && d.value == "2"));

    // A mild forecast stays silent.
    let mut mild = EnvironmentalSummary::empty();
    mild.forecast = Some(daily_forecast(day0, &[80_000, 82_000, 79_000], 50_000, 0, 0));
    assert!(rule.evaluate(&mild, &cool_profile(), &history, &today, &now).is_none());
}

#[test]
fn irrigation_fires_only_when_dry_and_parched() {
    let rule = IrrigationForecastRule;
    let history: Vec<Application> = Vec::new();
    let day0: i64 = 20_000;
    let today = Timestamp { secs: day0 * SECS_PER_DAY }.date();
    let now = noon_of(today);

    let mut current = EnvironmentalReading::new(DataSource::SoilData, Timestamp { secs: 0 });
    current.soil_moisture_10 = Some(120);
    let mut env = EnvironmentalSummary::empty();
    env.current = Some(current);
    env.forecast = Some(daily_forecast(day0, &[70_000, 72_000, 71_000, 70_000, 69_000], 50_000, 0, 0));

    let rec = rule.evaluate(&env, &cool_profile(), &history, &today, &now).unwrap();
    assert_eq!(rec.severity, Severity::Warning);
    assert!(rec.description.contains("low (12%)"));
    assert!(rec
        .data_points
        .iter()
        .any(|d| d.label == "Dry Days Forecast" && d.value == "5 days"));

    // Adequate moisture: silent.
    let mut moist = current;
    moist.soil_moisture_10 = Some(250);
    let mut env2 = env.clone();
    env2.current = Some(moist);
    assert!(rule.evaluate(&env2, &cool_profile(), &history, &today, &now).is_none());

    // Rain in the five-day outlook: silent.
    let mut env3 = env.clone();
    env3.forecast = Some(daily_forecast(day0, &[70_000, 72_000], 50_000, 2_000, 600));
    assert!(rule.evaluate(&env3, &cool_profile(), &history, &today, &now).is_none());
}

#[test]
fn application_window_picks_the_best_day() {
    let rule = ApplicationWindowRule;
    let history: Vec<Application> = Vec::new();
    let day0: i64 = 20_000;
    let today = Timestamp { secs: day0 * SECS_PER_DAY }.date();
    let now = noon_of(today);

    // Dry days; the second day's mean temperature falls in the ideal band,
    // so it outscores the first.
    let mut env = EnvironmentalSummary::empty();
    env.precipitation_7day_total_mm = Some(5_000);
    env.forecast = Some(daily_forecast(day0, &[88_000, 75_000, 78_000], 60_000, 0, 0));
    let rec = rule.evaluate(&env, &cool_profile(), &history, &today, &now).unwrap();
    assert_eq!(rec.severity, Severity::Info);
    assert_eq!(rec.id, "application_window");
    assert!(rec.description.contains("good day(s) in the next 5-day forecast"));
    // Day two's mean of 67.5 °F is truncated to the whole degree.
    assert!(rec
        .data_points
        .iter()
        .any(|d| d.label == "Expected Temp" && d.value == "68°F"));

    // A soaked week before a rainy first day leaves no qualifying day.
    let mut env2 = EnvironmentalSummary::empty();
    env2.precipitation_7day_total_mm = Some(30_000);
    env2.forecast = Some(daily_forecast(day0, &[75_000], 60_000, 3_000, 700));
    assert!(rule.evaluate(&env2, &cool_profile(), &history, &today, &now).is_none());
}

#[test]
fn disease_pressure_combines_current_and_forecast_risk() {
    let rule = DiseasePressureRule;
    let history: Vec<Application> = Vec::new();
    let day0: i64 = 20_000;
    let today = Timestamp { secs: day0 * SECS_PER_DAY }.date();
    let now = noon_of(today);

    // Humid, warm nights across the outlook plus humid current conditions.
    let mut current = EnvironmentalReading::new(DataSource::HomeAssistant, Timestamp { secs: 0 });
    current.humidity_percent = Some(92_000);
    current.ambient_temp_f = Some(82_000);
    let mut env = EnvironmentalSummary::empty();
    env.current = Some(current);
    env.humidity_7day_avg = Some(82_000);
    env.forecast = Some(daily_forecast(day0, &[84_000, 86_000, 85_000], 85_000, 0, 0));

    let rec = rule.evaluate(&env, &cool_profile(), &history, &today, &now).unwrap();
    assert_eq!(rec.severity, Severity::Critical);
    assert_eq!(rec.id, "disease_pressure_forecast");
    // Warm nights with very warm days and humid current air name brown patch.
    assert!(rec.title.contains("Brown Patch"));
    assert!(rec.description.starts_with("Current conditions already favor disease."));
    assert!(rec
        .data_points
        .iter()
        .any(|d| d.label == "High-Risk Days" && d.value == "3"));

    // Cool, dry conditions stay silent.
    let mut calm = EnvironmentalSummary::empty();
    calm.forecast = Some(daily_forecast(day0, &[70_000, 71_000], 40_000, 0, 0));
    assert!(rule.evaluate(&calm, &cool_profile(), &history, &today, &now).is_none());
}

fn summary_with_soil(avg: i64, current_soil: i64) -> EnvironmentalSummary {
    let mut current = EnvironmentalReading::new(DataSource::SoilData, Timestamp { secs: 0 });
    current.soil_temp_10_f = Some(current_soil);
    let mut s = EnvironmentalSummary::empty();
    s.current = Some(current);
    s.soil_temp_7day_avg_f = Some(avg);
    s
}

#[test]
fn fall_overseeding_window_and_suppression() {
    let rule = FallOverseedingRule;
    let profile = cool_profile();
    let env = summary_with_soil(58_000, 57_000);
    let none: Vec<Application> = Vec::new();

    // The day before the window: silent.
    let before = Date { year: 2025, month: 8, day: 14 };
    assert!(rule.evaluate(&env, &profile, &none, &before, &noon_of(before)).is_none());

    // Mid-window with ideal soil: the window opens with a seeding rate for
    // the default 5000 sqft lawn (4 lbs per 1000 sqft).
    let today = Date { year: 2025, month: 9, day: 20 };
    let rec = rule.evaluate(&env, &profile, &none, &today, &noon_of(today)).unwrap();
    assert_eq!(rec.id, "fall_overseeding_2025");
    assert_eq!(rec.severity, Severity::Advisory);
    assert!(rec.suggested_action.as_ref().unwrap().contains("~20 lbs of TTTF seed"));

    // The day after the window: silent.
    let after = Date { year: 2025, month: 11, day: 1 };
    assert!(rule.evaluate(&env, &profile, &none, &after, &noon_of(after)).is_none());

    // An overseed logged inside the window suppresses the rule.
    let seeded = vec![Application::new(
        1,
        ApplicationType::Overseed,
        Date { year: 2025, month: 9, day: 1 },
        Timestamp { secs: 0 },
    )];
    assert!(rule.evaluate(&env, &profile, &seeded, &today, &noon_of(today)).is_none());

    // Warm soil early in the window advises waiting.
    let warm = summary_with_soil(70_000, 69_000);
    let early = Date { year: 2025, month: 9, day: 1 };
    let rec2 = rule.evaluate(&warm, &profile, &none, &early, &noon_of(early)).unwrap();
    assert_eq!(rec2.id, "fall_overseeding_wait_2025");
    assert_eq!(rec2.severity, Severity::Info);
}

#[test]
fn fall_fertilization_phases_with_rates() {
    let rule = FallFertilizationRule;
    let profile = cool_profile();
    let env = summary_with_soil(55_000, 54_000);
    let none: Vec<Application> = Vec::new();

    // September, nothing applied yet: the recovery feeding at 0.5 lb.
    let sept = Date { year: 2025, month: 9, day: 15 };
    let rec = rule.evaluate(&env, &profile, &none, &sept, &noon_of(sept)).unwrap();
    assert_eq!(rec.id, "fall_fert_early");
    assert_eq!(rec.severity, Severity::Advisory);
    assert!(rec.suggested_action.as_ref().unwrap().contains("~2.5 lbs"));

    // October, one feeding three-plus weeks back: the main feeding at 0.75 lb.
    let oct = Date { year: 2025, month: 10, day: 15 };
    let one_app = vec![Application::new(
        1,
        ApplicationType::Fertilizer,
        Date { year: 2025, month: 9, day: 15 },
        Timestamp { secs: 0 },
    )];
    let rec2 = rule.evaluate(&env, &profile, &one_app, &oct, &noon_of(oct)).unwrap();
    assert_eq!(rec2.id, "fall_fert_mid");
    assert_eq!(rec2.severity, Severity::Advisory);
    assert!(rec2.suggested_action.as_ref().unwrap().contains("~3.8 lbs"));

    // October with no feedings at all escalates to a warning.
    let rec3 = rule.evaluate(&env, &profile, &none, &oct, &noon_of(oct)).unwrap();
    assert_eq!(rec3.severity, Severity::Warning);

    // A feeding only ten days back blocks the next phase.
    let recent = vec![Application::new(
        1,
        ApplicationType::Fertilizer,
        Date { year: 2025, month: 10, day: 5 },
        Timestamp { secs: 0 },
    )];
    assert!(rule.evaluate(&env, &profile, &recent, &oct, &noon_of(oct)).is_none());

    // November: the winterizer at the full pound.
    let nov = Date { year: 2025, month: 11, day: 15 };
    let rec4 = rule.evaluate(&env, &profile, &one_app, &nov, &noon_of(nov)).unwrap();
    assert_eq!(rec4.id, "fall_fert_winterizer");
    assert!(rec4.suggested_action.as_ref().unwrap().contains("~5.0 lbs"));

    // Out of the window entirely: silent.
    let dec = Date { year: 2025, month: 12, day: 1 };
    assert!(rule.evaluate(&env, &profile, &none, &dec, &noon_of(dec)).is_none());
}
