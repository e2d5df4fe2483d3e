//! Forecast ingestion and the windowed queries. Measurements are in
//! thousandths of a unit; probabilities in thousandths of 1.

use turfops::dates::{Date, Timestamp, SECS_PER_DAY};
use turfops::forecast::{
    ForecastLocation, ForecastPoint, WeatherCondition, WeatherForecast,
};

fn location() -> ForecastLocation {
    ForecastLocation {
        city: "Avondale".to_string(),
        country: "US".to_string(),
        latitude: 39_830,
        longitude: -75_870,
    }
}

fn point(secs: i64, temp_f: i64, humidity: i64, precip: i64, prob: i64) -> ForecastPoint {
    ForecastPoint {
        timestamp: Timestamp { secs },
        temp_f,
        feels_like_f: temp_f,
        humidity_percent: humidity,
        precipitation_mm: precip,
        precipitation_prob: prob,
        wind_speed_mph: 4_000,
        wind_gust_mph: None,
        cloud_cover_percent: 50_000,
        weather_condition: WeatherCondition::Clear,
    }
}

/// Two days of eight 3-hour points each, with known extremes and sums.
fn two_day_forecast() -> WeatherForecast {
    let day0: i64 = 20_000; // an arbitrary epoch day
    let mut hourly = Vec::new();
    for i in 0..8 {
        // Day one: temps 50..57 °F, humidity 64%, 0.5 mm per point.
        hourly.push(point(
            day0 * SECS_PER_DAY + i * 10_800,
            50_000 + i * 1_000,
            64_000,
            500,
            100,
        ));
    }
    for i in 0..8 {
        // Day two: temps 60..74 °F, humidity 58%, 1.25 mm per point.
        hourly.push(point(
            (day0 + 1) * SECS_PER_DAY + i * 10_800,
            60_000 + i * 2_000,
            58_000,
            1_250,
            300,
        ));
    }
    WeatherForecast::new(Timestamp { secs: day0 * SECS_PER_DAY }, location(), hourly)
}

#[test]
fn daily_aggregation_round_trip() {
    let f = two_day_forecast();
    assert_eq!(f.daily_summary.len(), 2);

    let d0 = &f.daily_summary[0];
    assert_eq!(d0.high_temp_f, 57_000);
    assert_eq!(d0.low_temp_f, 50_000);
    assert_eq!(d0.avg_humidity, 64_000);
    assert_eq!(d0.total_precipitation_mm, 4_000);
    assert_eq!(d0.max_precipitation_prob, 100);
    assert_eq!(d0.dominant_condition, WeatherCondition::Clear);

    let d1 = &f.daily_summary[1];
    assert_eq!(d1.high_temp_f, 74_000);
    assert_eq!(d1.low_temp_f, 60_000);
    assert_eq!(d1.avg_humidity, 58_000);
    assert_eq!(d1.total_precipitation_mm, 10_000);
    assert_eq!(d1.max_precipitation_prob, 300);

    // Dates ascend.
    assert!(d0.date.lt(&d1.date));
}

#[test]
fn dominant_condition_ties_break_by_first_encounter() {
    let day0: i64 = 20_000;
    let mut hourly = Vec::new();
    let mut p1 = point(day0 * SECS_PER_DAY, 60_000, 50_000, 0, 0);
    p1.weather_condition = WeatherCondition::Clouds;
    let mut p2 = point(day0 * SECS_PER_DAY + 10_800, 61_000, 50_000, 0, 0);
    p2.weather_condition = WeatherCondition::Rain;
    let mut p3 = point(day0 * SECS_PER_DAY + 21_600, 62_000, 50_000, 0, 0);
    p3.weather_condition = WeatherCondition::Clouds;
    let mut p4 = point(day0 * SECS_PER_DAY + 32_400, 63_000, 50_000, 0, 0);
    p4.weather_condition = WeatherCondition::Rain;
    hourly.push(p1);
    hourly.push(p2);
    hourly.push(p3);
    hourly.push(p4);
    let f = WeatherForecast::new(Timestamp { secs: day0 * SECS_PER_DAY }, location(), hourly);
    // Two Clouds and two Rain: the first-encountered condition wins.
    assert_eq!(f.daily_summary[0].dominant_condition, WeatherCondition::Clouds);
}

#[test]
fn rain_probability_alone_triggers_outlook() {
    // Accumulation stays below the threshold, but the peak probability
    // reaches one half: the outlook is still positive by design.
    let day0: i64 = 20_000;
    let now = Timestamp { secs: day0 * SECS_PER_DAY };
    let mut hourly = Vec::new();
    let mut p = point(day0 * SECS_PER_DAY + 3_600, 60_000, 50_000, 0, 600);
    p.weather_condition = WeatherCondition::Clouds;
    hourly.push(p);
    let f = WeatherForecast::new(now, location(), hourly);
    let outlook = f.rain_expected_within(&now, 12, 2_500);
    assert!(outlook.is_some());
    let outlook = outlook.unwrap();
    assert_eq!(outlook.expected_mm, 0);
    assert_eq!(outlook.max_probability, 600);
    // Probability above one half also marks the first expected time.
    assert_eq!(outlook.first_expected, Some(Timestamp { secs: day0 * SECS_PER_DAY + 3_600 }));
}

#[test]
fn rain_accumulation_triggers_outlook() {
    let day0: i64 = 20_000;
    let now = Timestamp { secs: day0 * SECS_PER_DAY };
    let mut hourly = Vec::new();
    hourly.push(point(day0 * SECS_PER_DAY + 3_600, 60_000, 50_000, 2_000, 300));
    hourly.push(point(day0 * SECS_PER_DAY + 7_200, 60_000, 50_000, 1_000, 200));
    let f = WeatherForecast::new(now, location(), hourly);
    let outlook = f.rain_expected_within(&now, 12, 2_500).unwrap();
    assert_eq!(outlook.expected_mm, 3_000);
    assert_eq!(outlook.max_probability, 300);
    // 2.0 mm exceeds the 0.1 mm per-point signal immediately.
    assert_eq!(outlook.first_expected, Some(Timestamp { secs: day0 * SECS_PER_DAY + 3_600 }));

    // Below both the accumulation threshold and the probability bar:
    // no rain expected.
    let mut calm = Vec::new();
    calm.push(point(day0 * SECS_PER_DAY + 3_600, 60_000, 50_000, 50, 200));
    let f2 = WeatherForecast::new(now, location(), calm);
    assert!(f2.rain_expected_within(&now, 12, 2_500).is_none());
}

#[test]
fn windowed_queries() {
    let f = two_day_forecast();
    let day0: i64 = 20_000;
    let now = Timestamp { secs: day0 * SECS_PER_DAY };
    let today = now.date();

    // All 8 points of day one fall within 24 hours of midnight, and the
    // window is inclusive, so day two's midnight point joins them.
    assert_eq!(f.next_hours(&now, 24).len(), 9);
    assert_eq!(f.next_hours(&now, 48).len(), 16);

    assert_eq!(f.next_days(&today, 0).len(), 1);
    assert_eq!(f.next_days(&today, 1).len(), 2);

    assert_eq!(f.max_temp_next_days(&today, 1), Some(74_000));
    assert_eq!(f.max_temp_next_days(&today, 0), Some(57_000));

    // Prefix run of high-humidity days from the start of the series.
    assert_eq!(f.consecutive_high_humidity_days(60_000), 1);
    assert_eq!(f.consecutive_high_humidity_days(55_000), 2);
    assert_eq!(f.consecutive_high_humidity_days(70_000), 0);
}

#[test]
fn date_arithmetic() {
    // 1970-01-01 is day zero, a Thursday.
    let epoch = Date { year: 1970, month: 1, day: 1 };
    assert_eq!(epoch.day_number(), 0);
    assert_eq!(epoch.weekday_name(), "Thursday");

    // A known modern date: 2024-03-05 is a Tuesday, 19787 days in.
    let d = Date { year: 2024, month: 3, day: 5 };
    assert_eq!(d.day_number(), 19_787);
    assert_eq!(d.weekday_name(), "Tuesday");

    // Round trip through the day number.
    let back = turfops::dates::date_from_day_number(19_787);
    assert_eq!(back, d);

    // Leap-year handling around February 29.
    let feb29 = Date { year: 2024, month: 2, day: 29 };
    assert!(turfops::dates::Date::new(2024, 2, 29).is_some());
    assert!(turfops::dates::Date::new(2023, 2, 29).is_none());
    assert_eq!(feb29.days_until(&d), 5);

    // Calendar order and rendering.
    assert!(feb29.lt(&d));
    assert_eq!(d.format_month_day_short(), "Mar 05");
    let july4 = Date { year: 2024, month: 7, day: 4 };
    assert_eq!(july4.format_month_day_long(), "July 04");
}
