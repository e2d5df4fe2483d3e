//! Readings, conversions, trend computation and summary assembly. All
//! measurements are thousandths of a unit, so 57.0 °F is written 57_000.

use turfops::calculations::{
    average_soil_moisture, average_soil_temp, build_summary, calculate_gdd, calculate_trend,
    nitrogen_this_season, sustained_high_humidity, total_precipitation,
};
use turfops::application::{Application, ApplicationType};
use turfops::dates::{Date, Timestamp};
use turfops::environmental::{celsius_to_fahrenheit, DataSource, EnvironmentalReading, Trend};

fn reading(ts_secs: i64) -> EnvironmentalReading {
    EnvironmentalReading::new(DataSource::SoilData, Timestamp { secs: ts_secs })
}

#[test]
fn celsius_to_fahrenheit_known_values() {
    // Freezing point of water
    assert!((celsius_to_fahrenheit(0) as f64 / 1000.0 - 32.0).abs() < 0.001);
    // Boiling point of water
    assert!((celsius_to_fahrenheit(100_000) as f64 / 1000.0 - 212.0).abs() < 0.001);
    // Body temperature
    assert!((celsius_to_fahrenheit(37_000) as f64 / 1000.0 - 98.6).abs() < 0.1);
    // -40 is same in both scales
    assert!((celsius_to_fahrenheit(-40_000) as f64 / 1000.0 - (-40.0)).abs() < 0.001);
}

#[test]
fn agronomic_temperatures() {
    // Pre-emergent window: 50-60°F = ~10-15.5°C
    assert!((celsius_to_fahrenheit(10_000) as f64 / 1000.0 - 50.0).abs() < 0.1);
    assert!((celsius_to_fahrenheit(15_500) as f64 / 1000.0 - 59.9).abs() < 0.1);

    // Grub control window: 60-75°F = ~15.5-24°C
    assert!((celsius_to_fahrenheit(15_500) as f64 / 1000.0 - 59.9).abs() < 0.1);
    assert!((celsius_to_fahrenheit(24_000) as f64 / 1000.0 - 75.2).abs() < 0.1);

    // Heat stress threshold: 85°F = ~29.4°C
    assert!((celsius_to_fahrenheit(29_400) as f64 / 1000.0 - 84.9).abs() < 0.2);
}

#[test]
fn environmental_reading_primary_soil_moisture() {
    let mut r = reading(0);

    // No moisture set - should return None
    assert!(r.primary_soil_moisture().is_none());

    // Only 20cm set
    r.soil_moisture_20 = Some(300);
    assert_eq!(r.primary_soil_moisture(), Some(300));

    // 10cm takes precedence
    r.soil_moisture_10 = Some(250);
    assert_eq!(r.primary_soil_moisture(), Some(250));
}

#[test]
fn application_builder_pattern() {
    let app = Application::new(
        1,
        ApplicationType::Fertilizer,
        Date { year: 2024, month: 4, day: 15 },
        Timestamp { secs: 0 },
    )
    .with_product("Milorganite")
    .with_rate(32_000)
    .with_coverage(5_000_000)
    .with_notes("Spring application");

    assert_eq!(app.lawn_profile_id, 1);
    assert_eq!(app.application_type, ApplicationType::Fertilizer);
    assert_eq!(app.product_name, Some("Milorganite".to_string()));
    assert_eq!(app.rate_per_1000sqft, Some(32_000));
    assert_eq!(app.coverage_sqft, Some(5_000_000));
    assert_eq!(app.notes, Some("Spring application".to_string()));
}

#[test]
fn trend_unknown_below_fortyeight_samples() {
    let mut readings = Vec::new();
    for i in 0..47 {
        let mut r = reading(i * 3600);
        r.soil_temp_10_f = Some(57_000);
        readings.push(r);
    }
    assert_eq!(calculate_trend(&readings), Trend::Unknown);
}

fn two_window_readings(recent_f: i64, previous_f: i64) -> Vec<EnvironmentalReading> {
    let mut readings = Vec::new();
    for i in 0..48 {
        let mut r = reading(i * 3600);
        r.soil_temp_10_f = Some(if i < 24 { recent_f } else { previous_f });
        readings.push(r);
    }
    readings
}

#[test]
fn trend_rising_falling_stable() {
    // A 3°F increase from the older to the newer window is Rising.
    assert_eq!(calculate_trend(&two_window_readings(57_000, 54_000)), Trend::Rising);
    // A 3°F decrease is Falling.
    assert_eq!(calculate_trend(&two_window_readings(54_000, 57_000)), Trend::Falling);
    // A 1°F change is Stable.
    assert_eq!(calculate_trend(&two_window_readings(55_000, 54_000)), Trend::Stable);
    // Exactly 2°F is not beyond the band, so it is Stable too.
    assert_eq!(calculate_trend(&two_window_readings(56_000, 54_000)), Trend::Stable);
}

#[test]
fn trend_unknown_when_channel_missing() {
    let mut readings = Vec::new();
    for i in 0..48 {
        readings.push(reading(i * 3600));
    }
    assert_eq!(calculate_trend(&readings), Trend::Unknown);
}

#[test]
fn averages_and_totals() {
    let mut readings = Vec::new();
    for i in 0..4 {
        let mut r = reading(i * 3600);
        r.soil_temp_10_f = Some(50_000 + i * 2_000);
        r.ambient_temp_f = Some(70_000);
        r.humidity_percent = Some(60_000);
        r.precipitation_mm = Some(500);
        readings.push(r);
    }
    // (50 + 52 + 54 + 56) / 4 = 53
    assert_eq!(average_soil_temp(&readings, 10), Some(53_000));
    // No 5 cm channel reported at all.
    assert_eq!(average_soil_temp(&readings, 5), None);
    assert_eq!(average_soil_moisture(&readings, 10), None);
    // 4 x 0.5 mm
    assert_eq!(total_precipitation(&readings), 2_000);
    // Degree days: 4 readings at 20°F over the base, divided by 24.
    assert_eq!(calculate_gdd(&readings, 50_000), (4 * 20_000) / 24);
}

#[test]
fn sustained_humidity_checks() {
    let mut readings = Vec::new();
    for i in 0..10 {
        let mut r = reading(i * 3600);
        r.humidity_percent = Some(85_000);
        readings.push(r);
    }
    assert!(sustained_high_humidity(&readings, 80_000, 10));
    // One low sample breaks the sustained condition.
    readings[3].humidity_percent = Some(60_000);
    assert!(!sustained_high_humidity(&readings, 80_000, 10));
    // Too few present samples also fails the check.
    let sparse: Vec<_> = (0..10).map(|i| reading(i * 3600)).collect();
    assert!(!sustained_high_humidity(&sparse, 80_000, 10));
}

#[test]
fn nitrogen_accumulates_since_season_start() {
    let start = Date { year: 2024, month: 9, day: 1 };
    let mk = |month: u32, day: u32, rate: i64| {
        Application::new(
            1,
            ApplicationType::Fertilizer,
            Date { year: 2024, month, day },
            Timestamp { secs: 0 },
        )
        .with_rate(rate)
    };
    let apps = vec![
        mk(9, 10, 500),
        mk(10, 12, 750),
        // Before the season start: ignored.
        mk(8, 20, 900),
    ];
    assert_eq!(nitrogen_this_season(&apps, start), 1_250);
}

#[test]
fn summary_assembly() {
    let mut readings = Vec::new();
    for i in 0..48 {
        let mut r = reading(i * 3600);
        r.soil_temp_10_f = Some(if i < 24 { 58_000 } else { 54_000 });
        r.ambient_temp_f = Some(66_000);
        r.humidity_percent = Some(70_000);
        r.precipitation_mm = Some(100);
        readings.push(r);
    }
    let current = Some(readings[0]);
    let s = build_summary(current, &readings, Timestamp { secs: 48 * 3600 });
    assert_eq!(s.soil_temp_7day_avg_f, Some(56_000));
    assert_eq!(s.ambient_temp_7day_avg_f, Some(66_000));
    assert_eq!(s.humidity_7day_avg, Some(70_000));
    assert_eq!(s.precipitation_7day_total_mm, Some(4_800));
    assert_eq!(s.soil_temp_trend, Trend::Rising);
    assert!(s.forecast.is_none());

    let empty: Vec<EnvironmentalReading> = Vec::new();
    let s2 = build_summary(None, &empty, Timestamp { secs: 0 });
    assert!(s2.soil_temp_7day_avg_f.is_none());
    assert!(s2.precipitation_7day_total_mm.is_none());
    assert_eq!(s2.soil_temp_trend, Trend::Stable);
}
