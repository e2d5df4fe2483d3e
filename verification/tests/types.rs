//! Parsing and display of the domain's closed enumerations.

use turfops::application::ApplicationType;
use turfops::environmental::{DataSource, Trend};
use turfops::forecast::WeatherCondition;
use turfops::profile::{GrassType, IrrigationType, SoilType};
use turfops::recommendation::{RecommendationCategory, Severity};

#[test]
fn application_type_from_str_valid() {
    assert_eq!(
        ApplicationType::from_str("PreEmergent"),
        Some(ApplicationType::PreEmergent)
    );
    assert_eq!(
        ApplicationType::from_str("pre-emergent"),
        Some(ApplicationType::PreEmergent)
    );
    assert_eq!(
        ApplicationType::from_str("pre emergent"),
        Some(ApplicationType::PreEmergent)
    );
    assert_eq!(
        ApplicationType::from_str("Fertilizer"),
        Some(ApplicationType::Fertilizer)
    );
    assert_eq!(
        ApplicationType::from_str("grubcontrol"),
        Some(ApplicationType::GrubControl)
    );
    assert_eq!(
        ApplicationType::from_str("grub control"),
        Some(ApplicationType::GrubControl)
    );
}

#[test]
fn application_type_from_str_invalid() {
    assert_eq!(ApplicationType::from_str("unknown"), None);
    assert_eq!(ApplicationType::from_str(""), None);
    assert_eq!(ApplicationType::from_str("spray"), None);
}

#[test]
fn application_type_round_trip() {
    // The debug form of every variant parses back to the same variant.
    for app_type in ApplicationType::all() {
        let debug_str = format!("{:?}", app_type);
        assert_eq!(
            ApplicationType::from_str(&debug_str),
            Some(app_type),
            "Round-trip failed for {:?}",
            app_type
        );
    }
}

#[test]
fn data_source_display() {
    assert_eq!(DataSource::SoilData.as_str(), "NOAA USCRN");
    assert_eq!(DataSource::HomeAssistant.as_str(), "Patio Sensor");
    assert_eq!(DataSource::Cached.as_str(), "Cached");
    assert_eq!(DataSource::Manual.as_str(), "Manual");
}

#[test]
fn trend_display() {
    assert!(Trend::Rising.as_str().contains("Rising"));
    assert!(Trend::Falling.as_str().contains("Falling"));
    assert!(Trend::Stable.as_str().contains("Stable"));
    assert!(Trend::Unknown.as_str().contains("Unknown"));
}

#[test]
fn weather_condition_from_owm_id() {
    assert_eq!(
        WeatherCondition::from_owm_id(200),
        WeatherCondition::Thunderstorm
    );
    assert_eq!(WeatherCondition::from_owm_id(500), WeatherCondition::Rain);
    assert_eq!(WeatherCondition::from_owm_id(800), WeatherCondition::Clear);
    assert_eq!(WeatherCondition::from_owm_id(801), WeatherCondition::Clouds);
    assert_eq!(WeatherCondition::from_owm_id(600), WeatherCondition::Snow);
}

#[test]
fn weather_condition_has_precipitation() {
    assert!(WeatherCondition::Rain.has_precipitation());
    assert!(WeatherCondition::Thunderstorm.has_precipitation());
    assert!(!WeatherCondition::Clear.has_precipitation());
    assert!(!WeatherCondition::Clouds.has_precipitation());
}

#[test]
fn grass_type_from_str_valid() {
    assert_eq!(
        GrassType::from_str("TallFescue"),
        Some(GrassType::TallFescue)
    );
    assert_eq!(
        GrassType::from_str("tall fescue"),
        Some(GrassType::TallFescue)
    );
    assert_eq!(GrassType::from_str("TTTF"), Some(GrassType::TallFescue));
    assert_eq!(
        GrassType::from_str("KentuckyBluegrass"),
        Some(GrassType::KentuckyBluegrass)
    );
    assert_eq!(
        GrassType::from_str("kbg"),
        Some(GrassType::KentuckyBluegrass)
    );
    assert_eq!(GrassType::from_str("bermuda"), Some(GrassType::Bermuda));
    assert_eq!(GrassType::from_str("zoysia"), Some(GrassType::Zoysia));
}

#[test]
fn grass_type_from_str_invalid() {
    assert_eq!(GrassType::from_str("unknown"), None);
    assert_eq!(GrassType::from_str(""), None);
    assert_eq!(GrassType::from_str("fescue"), None);
}

#[test]
fn grass_type_round_trip() {
    // The debug form of every variant parses back to the same variant.
    for grass_type in [
        GrassType::TallFescue,
        GrassType::KentuckyBluegrass,
        GrassType::PerennialRyegrass,
        GrassType::FineFescue,
        GrassType::Bermuda,
        GrassType::Zoysia,
        GrassType::StAugustine,
        GrassType::Mixed,
    ] {
        let debug_str = format!("{:?}", grass_type);
        assert_eq!(
            GrassType::from_str(&debug_str),
            Some(grass_type),
            "Round-trip failed for {:?}",
            grass_type
        );
    }
}

#[test]
fn grass_type_is_cool_season() {
    assert!(GrassType::TallFescue.is_cool_season());
    assert!(GrassType::KentuckyBluegrass.is_cool_season());
    assert!(GrassType::PerennialRyegrass.is_cool_season());
    assert!(GrassType::FineFescue.is_cool_season());
    assert!(!GrassType::Bermuda.is_cool_season());
    assert!(!GrassType::Zoysia.is_cool_season());
    assert!(!GrassType::StAugustine.is_cool_season());
}

#[test]
fn soil_type_from_str_valid() {
    assert_eq!(SoilType::from_str("clay"), Some(SoilType::Clay));
    assert_eq!(SoilType::from_str("Loam"), Some(SoilType::Loam));
    assert_eq!(SoilType::from_str("SANDY"), Some(SoilType::Sandy));
    assert_eq!(SoilType::from_str("silt loam"), Some(SoilType::SiltLoam));
    assert_eq!(SoilType::from_str("SiltLoam"), Some(SoilType::SiltLoam));
}

#[test]
fn soil_type_from_str_invalid() {
    assert_eq!(SoilType::from_str("dirt"), None);
    assert_eq!(SoilType::from_str(""), None);
}

#[test]
fn irrigation_type_from_str_valid() {
    assert_eq!(
        IrrigationType::from_str("InGround"),
        Some(IrrigationType::InGround)
    );
    assert_eq!(
        IrrigationType::from_str("in-ground"),
        Some(IrrigationType::InGround)
    );
    assert_eq!(IrrigationType::from_str("hose"), Some(IrrigationType::Hose));
    assert_eq!(
        IrrigationType::from_str("none"),
        Some(IrrigationType::NoIrrigation)
    );
}

#[test]
fn irrigation_type_from_str_invalid() {
    assert_eq!(IrrigationType::from_str("drip"), None);
    assert_eq!(IrrigationType::from_str(""), None);
}

#[test]
fn category_and_severity_display() {
    assert_eq!(RecommendationCategory::PreEmergent.as_str(), "Pre-Emergent");
    assert_eq!(
        RecommendationCategory::ApplicationTiming.as_str(),
        "Application Timing"
    );
    assert_eq!(
        RecommendationCategory::DiseasePressure.as_str(),
        "Disease Pressure"
    );
    assert_eq!(Severity::Info.as_str(), "Info");
    assert_eq!(Severity::Critical.as_str(), "Critical");
    assert!(Severity::Info < Severity::Advisory);
    assert!(Severity::Advisory < Severity::Warning);
    assert!(Severity::Warning < Severity::Critical);
    assert_eq!(Severity::Info.rank(), 0);
    assert_eq!(Severity::Critical.rank(), 3);
}
