//! Rule behavior: seasonal windows with their boundaries, duplicate
//! suppression, stress blocks and the end-to-end pre-emergent scenario.

use turfops::application::{Application, ApplicationType};
use turfops::dates::{Date, Timestamp, SECS_PER_DAY};
use turfops::environmental::{DataSource, EnvironmentalReading, EnvironmentalSummary};
use turfops::profile::{GrassType, LawnProfile};
use turfops::recommendation::Severity;
use turfops::rules::fertilizer::FertilizerRule;
use turfops::rules::grub_control::GrubControlRule;
use turfops::rules::pre_emergent::PreEmergentRule;
use turfops::rules::spring_nitrogen::SpringNitrogenRule;

fn cool_profile() -> LawnProfile {
    LawnProfile::new(
        "Main Lawn".to_string(),
        GrassType::TallFescue,
        "7a".to_string(),
        Timestamp { secs: 0 },
    )
}

fn warm_profile() -> LawnProfile {
    LawnProfile::new(
        "Main Lawn".to_string(),
        GrassType::Bermuda,
        "8a".to_string(),
        Timestamp { secs: 0 },
    )
}

fn summary_with_soil(avg: i64, current_soil: i64) -> EnvironmentalSummary {
    let mut current = EnvironmentalReading::new(DataSource::SoilData, Timestamp { secs: 0 });
    current.soil_temp_10_f = Some(current_soil);
    let mut s = EnvironmentalSummary::empty();
    s.current = Some(current);
    s.soil_temp_7day_avg_f = Some(avg);
    s
}

fn noon_of(d: Date) -> Timestamp {
    Timestamp { secs: d.day_number() * SECS_PER_DAY + 43_200 }
}

#[test]
fn pre_emergent_end_to_end() {
    // Cool-season profile, 57 °F 7-day average, March, no history: the
    // rule fires with Warning severity and reports the average.
    let rule = PreEmergentRule;
    let today = Date { year: 2025, month: 3, day: 15 };
    let env = summary_with_soil(57_000, 58_000);
    let history: Vec<Application> = Vec::new();
    let rec = rule
        .evaluate(&env, &cool_profile(), &history, &today, &noon_of(today))
        .expect("rule should fire");
    assert_eq!(rec.severity, Severity::Warning);
    assert_eq!(rec.id, "pre_emergent_2025");
    assert_eq!(rec.data_points[0].label, "7-Day Avg Soil Temp");
    assert_eq!(rec.data_points[0].value, "57.0°F");
    assert_eq!(rec.data_points[0].source, "NOAA USCRN");
    assert!(rec.is_active());
}

#[test]
fn pre_emergent_below_warning_band_is_advisory() {
    let rule = PreEmergentRule;
    let today = Date { year: 2025, month: 3, day: 15 };
    let env = summary_with_soil(52_000, 51_000);
    let history: Vec<Application> = Vec::new();
    let rec = rule
        .evaluate(&env, &cool_profile(), &history, &today, &noon_of(today))
        .unwrap();
    assert_eq!(rec.severity, Severity::Advisory);
    // Above the optimal band the alarm becomes critical.
    let late = summary_with_soil(65_000, 66_000);
    let rec_late = rule
        .evaluate(&late, &cool_profile(), &history, &today, &noon_of(today))
        .unwrap();
    assert_eq!(rec_late.severity, Severity::Critical);
    assert_eq!(rec_late.id, "pre_emergent_late_2025");
}

#[test]
fn pre_emergent_requires_inputs_and_season() {
    let rule = PreEmergentRule;
    let history: Vec<Application> = Vec::new();
    let today = Date { year: 2025, month: 3, day: 15 };

    // Missing 7-day average: no recommendation.
    let mut env = summary_with_soil(57_000, 58_000);
    env.soil_temp_7day_avg_f = None;
    assert!(rule.evaluate(&env, &cool_profile(), &history, &today, &noon_of(today)).is_none());

    // Missing current reading: no recommendation.
    let mut env2 = summary_with_soil(57_000, 58_000);
    env2.current = None;
    assert!(rule.evaluate(&env2, &cool_profile(), &history, &today, &noon_of(today)).is_none());

    // Warm-season grass: not relevant.
    let env3 = summary_with_soil(57_000, 58_000);
    assert!(rule.evaluate(&env3, &warm_profile(), &history, &today, &noon_of(today)).is_none());

    // Out of season (June).
    let june = Date { year: 2025, month: 6, day: 15 };
    assert!(rule.evaluate(&env3, &cool_profile(), &history, &june, &noon_of(june)).is_none());
}

#[test]
fn pre_emergent_duplicate_suppression() {
    let rule = PreEmergentRule;
    let today = Date { year: 2025, month: 3, day: 15 };
    let env = summary_with_soil(57_000, 58_000);

    // An application logged this year suppresses the rule outright.
    let this_year = vec![Application::new(
        1,
        ApplicationType::PreEmergent,
        Date { year: 2025, month: 2, day: 20 },
        Timestamp { secs: 0 },
    )];
    assert!(rule.evaluate(&env, &cool_profile(), &this_year, &today, &noon_of(today)).is_none());

    // One from an earlier year does not.
    let last_year = vec![Application::new(
        1,
        ApplicationType::PreEmergent,
        Date { year: 2024, month: 3, day: 20 },
        Timestamp { secs: 0 },
    )];
    assert!(rule.evaluate(&env, &cool_profile(), &last_year, &today, &noon_of(today)).is_some());
}

#[test]
fn grub_control_window_boundaries() {
    let rule = GrubControlRule;
    let history: Vec<Application> = Vec::new();
    let profile = cool_profile();
    let env = summary_with_soil(65_000, 66_000);

    // The day before the window opens: silent.
    let before = Date { year: 2025, month: 5, day: 14 };
    assert!(rule.evaluate(&env, &profile, &history, &before, &noon_of(before)).is_none());

    // The first day of the window: active.
    let start = Date { year: 2025, month: 5, day: 15 };
    let rec = rule.evaluate(&env, &profile, &history, &start, &noon_of(start)).unwrap();
    assert_eq!(rec.severity, Severity::Advisory);
    assert_eq!(rec.id, "grub_control_2025");
    // The window-close data point renders the calendar date.
    assert!(rec.data_points.iter().any(|d| d.label == "Window Closes" && d.value == "July 04"));

    // The last day: active, and urgent with no time left.
    let end = Date { year: 2025, month: 7, day: 4 };
    let rec_end = rule.evaluate(&env, &profile, &history, &end, &noon_of(end)).unwrap();
    assert_eq!(rec_end.severity, Severity::Warning);

    // The day after: silent again.
    let after = Date { year: 2025, month: 7, day: 5 };
    assert!(rule.evaluate(&env, &profile, &history, &after, &noon_of(after)).is_none());
}

#[test]
fn grub_control_duplicate_suppression() {
    let rule = GrubControlRule;
    let profile = cool_profile();
    let env = summary_with_soil(65_000, 66_000);
    let today = Date { year: 2025, month: 6, day: 1 };

    // An insecticide logged inside the window also suppresses the rule.
    let history = vec![Application::new(
        1,
        ApplicationType::Insecticide,
        Date { year: 2025, month: 5, day: 20 },
        Timestamp { secs: 0 },
    )];
    assert!(rule.evaluate(&env, &profile, &history, &today, &noon_of(today)).is_none());
}

#[test]
fn spring_nitrogen_messages_follow_soil_and_history() {
    let rule = SpringNitrogenRule;
    let profile = cool_profile();
    let today = Date { year: 2025, month: 3, day: 10 };
    let none: Vec<Application> = Vec::new();
    let spring_fert = vec![Application::new(
        1,
        ApplicationType::Fertilizer,
        Date { year: 2025, month: 2, day: 15 },
        Timestamp { secs: 0 },
    )];

    // Cold soil without a logged application: patience, informational.
    let cold = summary_with_soil(45_000, 44_000);
    let rec = rule.evaluate(&cold, &profile, &none, &today, &noon_of(today)).unwrap();
    assert_eq!(rec.id, "spring_n_wait");
    assert_eq!(rec.severity, Severity::Info);

    // Cold soil after an early application: a warning about the mistake.
    let rec2 = rule.evaluate(&cold, &profile, &spring_fert, &today, &noon_of(today)).unwrap();
    assert_eq!(rec2.id, "spring_n_too_early");
    assert_eq!(rec2.severity, Severity::Warning);

    // Ready band without an application: the window opens with a rate.
    let ready = summary_with_soil(57_000, 56_000);
    let rec3 = rule.evaluate(&ready, &profile, &none, &today, &noon_of(today)).unwrap();
    assert_eq!(rec3.id, "spring_n_ready");
    // 5000 sqft at 0.5 lb per 1000 sqft.
    assert!(rec3.suggested_action.as_ref().unwrap().contains("~2.5 lbs"));

    // Ready band after an application: nothing more to say.
    assert!(rule.evaluate(&ready, &profile, &spring_fert, &today, &noon_of(today)).is_none());
}

#[test]
fn fertilizer_block_escalates_with_stacked_stress() {
    let rule = FertilizerRule;
    let profile = cool_profile();
    let today = Date { year: 2025, month: 7, day: 10 };
    let history: Vec<Application> = Vec::new();

    // Heat alone: a warning.
    let mut current = EnvironmentalReading::new(DataSource::HomeAssistant, Timestamp { secs: 0 });
    current.ambient_temp_f = Some(87_000);
    let mut env = EnvironmentalSummary::empty();
    env.current = Some(current);
    let rec = rule.evaluate(&env, &profile, &history, &today, &noon_of(today)).unwrap();
    assert_eq!(rec.severity, Severity::Warning);

    // Extreme heat and extreme drought together: critical.
    let mut stressed = current;
    stressed.ambient_temp_f = Some(92_000);
    stressed.soil_moisture_10 = Some(40);
    let mut env2 = EnvironmentalSummary::empty();
    env2.current = Some(stressed);
    let rec2 = rule.evaluate(&env2, &profile, &history, &today, &noon_of(today)).unwrap();
    assert_eq!(rec2.severity, Severity::Critical);
    assert!(rec2.description.contains("drought stress"));
    assert!(rec2.description.contains("85°F heat stress threshold"));

    // No threshold breached: silently no recommendation.
    let mut calm = current;
    calm.ambient_temp_f = Some(75_000);
    calm.soil_moisture_10 = Some(250);
    let mut env3 = EnvironmentalSummary::empty();
    env3.current = Some(calm);
    assert!(rule.evaluate(&env3, &profile, &history, &today, &noon_of(today)).is_none());
}
