//! Environmental telemetry: point-in-time readings and the fused summary
//! the rules evaluate against. All measurements are in thousandths of
//! their unit (degrees Fahrenheit, percent, millimetres, or a 0-1 moisture
//! fraction).

use crate::dates::Timestamp;
use crate::forecast::WeatherForecast;
use crate::num;
use vstd::prelude::*;

verus! {

/// Bound on a single measurement in thousandths; generous enough for any
/// physical reading while keeping all sums within machine range.
pub const MEASURE_MILLI_MAX: i64 = 10000000;

#[derive(Clone, Copy, PartialEq, Eq, Structural, Debug)]
pub enum DataSource {
    SoilData,
    HomeAssistant,
    Cached,
    Manual,
}

impl DataSource {
    pub fn as_str(&self) -> (r: &'static str)
        ensures
            r@ == self.spec_str(),
    {
        match self {
            DataSource::SoilData => "NOAA USCRN",
            DataSource::HomeAssistant => "Patio Sensor",
            DataSource::Cached => "Cached",
            DataSource::Manual => "Manual",
        }
    }

    pub open spec fn spec_str(self) -> Seq<char> {
        match self {
            DataSource::SoilData => "NOAA USCRN"@,
            DataSource::HomeAssistant => "Patio Sensor"@,
            DataSource::Cached => "Cached"@,
            DataSource::Manual => "Manual"@,
        }
    }
}

/// Soil-temperature tendency over the last two days of hourly samples.
#[derive(Clone, Copy, PartialEq, Eq, Structural, Debug, Default)]
pub enum Trend {
    Rising,
    Falling,
    #[default]
    Stable,
    Unknown,
}

impl Trend {
    pub fn as_str(&self) -> (r: &'static str)
        ensures
            r@ == self.spec_str(),
    {
        match self {
            Trend::Rising => "↑ Rising",
            Trend::Falling => "↓ Falling",
            Trend::Stable => "→ Stable",
            Trend::Unknown => "? Unknown",
        }
    }

    pub open spec fn spec_str(self) -> Seq<char> {
        match self {
            Trend::Rising => "↑ Rising"@,
            Trend::Falling => "↓ Falling"@,
            Trend::Stable => "→ Stable"@,
            Trend::Unknown => "? Unknown"@,
        }
    }
}

/// One point-in-time measurement; any channel may be absent.
#[derive(Clone, Copy, PartialEq, Eq, Structural, Debug)]
pub struct EnvironmentalReading {
    pub timestamp: Timestamp,
    pub source: DataSource,
    pub soil_temp_5_f: Option<i64>,
    pub soil_temp_10_f: Option<i64>,
    pub soil_temp_20_f: Option<i64>,
    pub soil_temp_50_f: Option<i64>,
    pub soil_temp_100_f: Option<i64>,
    pub soil_moisture_5: Option<i64>,
    pub soil_moisture_10: Option<i64>,
    pub soil_moisture_20: Option<i64>,
    pub soil_moisture_50: Option<i64>,
    pub soil_moisture_100: Option<i64>,
    pub ambient_temp_f: Option<i64>,
    pub humidity_percent: Option<i64>,
    pub precipitation_mm: Option<i64>,
}

/// Bound on an accumulated total (a sum of many measurements).
pub const TOTAL_MILLI_MAX: i64 = 1000000000000;

pub open spec fn opt_in_range(v: Option<i64>) -> bool {
    match v {
        Some(x) => -MEASURE_MILLI_MAX <= x <= MEASURE_MILLI_MAX,
        None => true,
    }
}

pub open spec fn opt_in_total_range(v: Option<i64>) -> bool {
    match v {
        Some(x) => -TOTAL_MILLI_MAX <= x <= TOTAL_MILLI_MAX,
        None => true,
    }
}

impl EnvironmentalReading {
    /// Every present channel is within the fixed-point measurement range.
    pub open spec fn wf(self) -> bool {
        &&& opt_in_range(self.soil_temp_5_f)
        &&& opt_in_range(self.soil_temp_10_f)
        &&& opt_in_range(self.soil_temp_20_f)
        &&& opt_in_range(self.soil_temp_50_f)
        &&& opt_in_range(self.soil_temp_100_f)
        &&& opt_in_range(self.soil_moisture_5)
        &&& opt_in_range(self.soil_moisture_10)
        &&& opt_in_range(self.soil_moisture_20)
        &&& opt_in_range(self.soil_moisture_50)
        &&& opt_in_range(self.soil_moisture_100)
        &&& opt_in_range(self.ambient_temp_f)
        &&& opt_in_range(self.humidity_percent)
        &&& opt_in_range(self.precipitation_mm)
    }

    /// An empty reading from the given source at the given instant.
    pub fn new(source: DataSource, timestamp: Timestamp) -> (r: EnvironmentalReading)
        ensures
            r == EnvironmentalReading::spec_empty(source, timestamp),
            r.wf(),
    {
        EnvironmentalReading {
            timestamp,
            source,
            soil_temp_5_f: None,
            soil_temp_10_f: None,
            soil_temp_20_f: None,
            soil_temp_50_f: None,
            soil_temp_100_f: None,
            soil_moisture_5: None,
            soil_moisture_10: None,
            soil_moisture_20: None,
            soil_moisture_50: None,
            soil_moisture_100: None,
            ambient_temp_f: None,
            humidity_percent: None,
            precipitation_mm: None,
        }
    }

    pub open spec fn spec_empty(source: DataSource, timestamp: Timestamp) -> EnvironmentalReading {
        EnvironmentalReading {
            timestamp,
            source,
            soil_temp_5_f: None,
            soil_temp_10_f: None,
            soil_temp_20_f: None,
            soil_temp_50_f: None,
            soil_temp_100_f: None,
            soil_moisture_5: None,
            soil_moisture_10: None,
            soil_moisture_20: None,
            soil_moisture_50: None,
            soil_moisture_100: None,
            ambient_temp_f: None,
            humidity_percent: None,
            precipitation_mm: None,
        }
    }

    /// The moisture channel the rules read: 10 cm, falling back to 5 cm and
    /// then 20 cm — the depths most correlated with surface disease and
    /// drought risk.
    pub fn primary_soil_moisture(&self) -> (r: Option<i64>)
        ensures
            r == self.spec_primary_soil_moisture(),
    {
        match self.soil_moisture_10 {
            Some(v) => Some(v),
            None => match self.soil_moisture_5 {
                Some(v) => Some(v),
                None => self.soil_moisture_20,
            },
        }
    }

    pub open spec fn spec_primary_soil_moisture(self) -> Option<i64> {
        if self.soil_moisture_10 is Some {
            self.soil_moisture_10
        } else if self.soil_moisture_5 is Some {
            self.soil_moisture_5
        } else {
            self.soil_moisture_20
        }
    }
}

impl Default for EnvironmentalReading {
    /// An empty cached reading at the epoch instant.
    fn default() -> (r: EnvironmentalReading)
        ensures
            r == EnvironmentalReading::spec_empty(DataSource::Cached, Timestamp { secs: 0 }),
    {
        EnvironmentalReading::new(DataSource::Cached, Timestamp { secs: 0 })
    }
}

/// Fused view of the environment: current reading, 7-day rolling averages,
/// soil-temperature trend and an optional forecast.
#[derive(Clone, Debug)]
pub struct EnvironmentalSummary {
    pub current: Option<EnvironmentalReading>,
    pub soil_temp_7day_avg_f: Option<i64>,
    pub ambient_temp_7day_avg_f: Option<i64>,
    pub humidity_7day_avg: Option<i64>,
    pub precipitation_7day_total_mm: Option<i64>,
    pub soil_temp_trend: Trend,
    pub last_updated: Option<Timestamp>,
    pub forecast: Option<WeatherForecast>,
}

impl EnvironmentalSummary {
    pub open spec fn wf(self) -> bool {
        &&& match self.current {
            Some(c) => c.wf(),
            None => true,
        }
        &&& opt_in_range(self.soil_temp_7day_avg_f)
        &&& opt_in_range(self.ambient_temp_7day_avg_f)
        &&& opt_in_range(self.humidity_7day_avg)
        &&& opt_in_total_range(self.precipitation_7day_total_mm)
        &&& match self.forecast {
            Some(ref f) => f.wf(),
            None => true,
        }
    }

    /// An entirely empty summary; the engine must accept it and simply
    /// produce no (or few) recommendations.
    pub fn empty() -> (r: EnvironmentalSummary)
        ensures
            r.current is None,
            r.soil_temp_7day_avg_f is None,
            r.ambient_temp_7day_avg_f is None,
            r.humidity_7day_avg is None,
            r.precipitation_7day_total_mm is None,
            r.soil_temp_trend == Trend::Stable,
            r.last_updated is None,
            r.forecast is None,
            r.wf(),
    {
        EnvironmentalSummary {
            current: None,
            soil_temp_7day_avg_f: None,
            ambient_temp_7day_avg_f: None,
            humidity_7day_avg: None,
            precipitation_7day_total_mm: None,
            soil_temp_trend: Trend::Stable,
            last_updated: None,
            forecast: None,
        }
    }
}

impl Default for EnvironmentalSummary {
    fn default() -> (r: EnvironmentalSummary)
        ensures
            r.current is None,
            r.soil_temp_7day_avg_f is None,
            r.ambient_temp_7day_avg_f is None,
            r.humidity_7day_avg is None,
            r.precipitation_7day_total_mm is None,
            r.soil_temp_trend == Trend::Stable,
            r.last_updated is None,
            r.forecast is None,
            r.wf(),
    {
        EnvironmentalSummary::empty()
    }
}

/// Exact Celsius-to-Fahrenheit conversion on thousandths of a degree,
/// truncated toward zero at the thousandths place.
pub open spec fn spec_celsius_to_fahrenheit(c: int) -> int {
    num::spec_tdiv(c * 9, 5) + 32000
}

pub fn celsius_to_fahrenheit(c: i64) -> (f: i64)
    requires
        -MEASURE_MILLI_MAX <= c <= MEASURE_MILLI_MAX,
    ensures
        f == spec_celsius_to_fahrenheit(c as int),
{
    num::tdiv(c * 9, 5) + 32000
}

} // verus!
