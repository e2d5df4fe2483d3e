//! Configuration records and data-source connection status.
//!
//! These are the plain values behind the configuration file: the caller
//! parses the file and hands the library these records; coordinates are in
//! thousandths of a degree.

use crate::text;
use vstd::prelude::*;

verus! {

/// Which unit a sensor reports temperatures in.
#[derive(Clone, Copy, PartialEq, Eq, Structural, Debug, Default)]
pub enum TemperatureUnit {
    #[default]
    Fahrenheit,
    Celsius,
}

/// The default for a data source's `enabled` flag when the configuration
/// omits it.
pub fn default_enabled() -> (r: bool)
    ensures
        r == true,
{
    true
}

/// Station selection for the public soil-data network.
#[derive(Clone, Copy, PartialEq, Eq, Structural, Debug)]
pub struct NoaaConfig {
    pub station_wbanno: i32,
}

/// Connection settings for the soil-data database.
#[derive(Clone, Debug)]
pub struct SoilDataConfig {
    pub host: String,
    pub port: u16,
    pub database: String,
    pub user: String,
    pub password: String,
}

impl SoilDataConfig {
    /// The database connection string assembled from the parts.
    pub fn connection_string(&self) -> (r: String)
        ensures
            r@ == "postgres://"@ + self.user@ + ":"@ + self.password@ + "@"@ + self.host@ + ":"@
                + text::spec_digits(self.port as int) + "/"@ + self.database@,
    {
        let mut s = String::from_str("postgres://");
        s.append(self.user.as_str());
        s.append(":");
        s.append(self.password.as_str());
        s.append("@");
        s.append(self.host.as_str());
        s.append(":");
        s.append(text::fmt_u64(self.port as u64).as_str());
        s.append("/");
        s.append(self.database.as_str());
        proof {
            reveal_strlit(":");
            reveal_strlit("@");
            reveal_strlit("/");
            assert(s@ =~= "postgres://"@ + self.user@ + ":"@ + self.password@ + "@"@ + self.host@
                + ":"@ + text::spec_digits(self.port as int) + "/"@ + self.database@);
        }
        s
    }
}

/// Connection settings for the local ambient sensor hub.
#[derive(Clone, Debug)]
pub struct HomeAssistantConfig {
    pub url: String,
    pub token: String,
    pub temperature_entity: String,
    pub humidity_entity: String,
    pub temperature_unit: TemperatureUnit,
}

/// Connection settings for the weather-forecast provider; coordinates in
/// thousandths of a degree.
#[derive(Clone, Debug)]
pub struct OpenWeatherMapConfig {
    pub api_key: String,
    pub latitude: i64,
    pub longitude: i64,
    pub enabled: bool,
}

/// Which of the three data sources answered their last connection check.
#[derive(Clone, Copy, PartialEq, Eq, Structural, Debug, Default)]
pub struct ConnectionStatus {
    pub soildata: bool,
    pub homeassistant: bool,
    pub openweathermap: bool,
}

impl ConnectionStatus {
    /// Every data source is reachable.
    pub fn all_connected(&self) -> (r: bool)
        ensures
            r == (self.soildata && self.homeassistant && self.openweathermap),
    {
        self.soildata && self.homeassistant && self.openweathermap
    }

    /// At least one data source is reachable.
    pub fn any_connected(&self) -> (r: bool)
        ensures
            r == (self.soildata || self.homeassistant || self.openweathermap),
    {
        self.soildata || self.homeassistant || self.openweathermap
    }

    /// The core soil and ambient sources are reachable.
    pub fn core_connected(&self) -> (r: bool)
        ensures
            r == (self.soildata && self.homeassistant),
    {
        self.soildata && self.homeassistant
    }
}

} // verus!
