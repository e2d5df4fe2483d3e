//! The weather forecast model.
//!
//! A forecast holds an hourly point series (3-hour granularity) and a daily
//! aggregate series derived deterministically from it when the forecast is
//! ingested: points are grouped by UTC calendar day, days are emitted in
//! ascending order, and each day carries max/min temperature, mean humidity,
//! summed precipitation, max precipitation probability, mean wind and the
//! most frequent weather condition (ties broken by first encounter). The
//! windowed queries the rules use are specified over the same model.

use crate::dates::{spec_day_number, Date, Timestamp, SECS_PER_DAY};
use crate::environmental::MEASURE_MILLI_MAX;
use vstd::prelude::*;

verus! {

/// Most points a forecast may hold.
pub const HOURLY_MAX: usize = 10000;

/// Bound on a daily aggregate's summed precipitation.
pub const DAY_PRECIP_MAX: i64 = 100000000000;

#[derive(Clone, Copy, PartialEq, Eq, Structural, Debug, Default)]
pub enum WeatherCondition {
    #[default]
    Clear,
    Clouds,
    Rain,
    Drizzle,
    Thunderstorm,
    Snow,
    Mist,
    Fog,
    Other,
}

impl WeatherCondition {
    pub open spec fn spec_from_owm_id(id: int) -> WeatherCondition {
        if 200 <= id <= 232 {
            WeatherCondition::Thunderstorm
        } else if 300 <= id <= 321 {
            WeatherCondition::Drizzle
        } else if 500 <= id <= 531 {
            WeatherCondition::Rain
        } else if 600 <= id <= 622 {
            WeatherCondition::Snow
        } else if id == 701 {
            WeatherCondition::Mist
        } else if id == 741 {
            WeatherCondition::Fog
        } else if id == 800 {
            WeatherCondition::Clear
        } else if 801 <= id <= 804 {
            WeatherCondition::Clouds
        } else {
            WeatherCondition::Other
        }
    }

    /// Map a provider condition code to its category.
    pub fn from_owm_id(id: u32) -> (r: WeatherCondition)
        ensures
            r == WeatherCondition::spec_from_owm_id(id as int),
    {
        if 200 <= id && id <= 232 {
            WeatherCondition::Thunderstorm
        } else if 300 <= id && id <= 321 {
            WeatherCondition::Drizzle
        } else if 500 <= id && id <= 531 {
            WeatherCondition::Rain
        } else if 600 <= id && id <= 622 {
            WeatherCondition::Snow
        } else if id == 701 {
            WeatherCondition::Mist
        } else if id == 741 {
            WeatherCondition::Fog
        } else if id == 800 {
            WeatherCondition::Clear
        } else if 801 <= id && id <= 804 {
            WeatherCondition::Clouds
        } else {
            WeatherCondition::Other
        }
    }

    pub fn as_str(&self) -> (r: &'static str)
        ensures
            r@ == self.spec_str(),
    {
        match self {
            WeatherCondition::Clear => "Clear",
            WeatherCondition::Clouds => "Cloudy",
            WeatherCondition::Rain => "Rain",
            WeatherCondition::Drizzle => "Drizzle",
            WeatherCondition::Thunderstorm => "Thunderstorm",
            WeatherCondition::Snow => "Snow",
            WeatherCondition::Mist => "Mist",
            WeatherCondition::Fog => "Fog",
            WeatherCondition::Other => "Other",
        }
    }

    pub open spec fn spec_str(self) -> Seq<char> {
        match self {
            WeatherCondition::Clear => "Clear"@,
            WeatherCondition::Clouds => "Cloudy"@,
            WeatherCondition::Rain => "Rain"@,
            WeatherCondition::Drizzle => "Drizzle"@,
            WeatherCondition::Thunderstorm => "Thunderstorm"@,
            WeatherCondition::Snow => "Snow"@,
            WeatherCondition::Mist => "Mist"@,
            WeatherCondition::Fog => "Fog"@,
            WeatherCondition::Other => "Other"@,
        }
    }

    pub fn symbol(&self) -> (r: &'static str)
        ensures
            r@ == match self {
                WeatherCondition::Clear => "☀"@,
                WeatherCondition::Clouds => "☁"@,
                WeatherCondition::Rain => "🌧"@,
                WeatherCondition::Drizzle => "🌦"@,
                WeatherCondition::Thunderstorm => "⛈"@,
                WeatherCondition::Snow => "❄"@,
                WeatherCondition::Mist => "🌫"@,
                WeatherCondition::Fog => "🌫"@,
                WeatherCondition::Other => "?"@,
            },
    {
        match self {
            WeatherCondition::Clear => "☀",
            WeatherCondition::Clouds => "☁",
            WeatherCondition::Rain => "🌧",
            WeatherCondition::Drizzle => "🌦",
            WeatherCondition::Thunderstorm => "⛈",
            WeatherCondition::Snow => "❄",
            WeatherCondition::Mist => "🌫",
            WeatherCondition::Fog => "🌫",
            WeatherCondition::Other => "?",
        }
    }

    /// Whether this condition involves precipitation.
    pub fn has_precipitation(&self) -> (r: bool)
        ensures
            r == (*self == WeatherCondition::Rain || *self == WeatherCondition::Drizzle || *self
                == WeatherCondition::Thunderstorm || *self == WeatherCondition::Snow),
    {
        matches!(
            self,
            WeatherCondition::Rain
                | WeatherCondition::Drizzle
                | WeatherCondition::Thunderstorm
                | WeatherCondition::Snow
        )
    }
}

/// Where the forecast was fetched for; coordinates in thousandths of a
/// degree.
#[derive(Clone, Debug)]
pub struct ForecastLocation {
    pub city: String,
    pub country: String,
    pub latitude: i64,
    pub longitude: i64,
}

/// A single 3-hour forecast point; measurements in thousandths of their
/// unit, probability in thousandths of 1 (0..=1000).
#[derive(Clone, Copy, PartialEq, Eq, Structural, Debug)]
pub struct ForecastPoint {
    pub timestamp: Timestamp,
    pub temp_f: i64,
    pub feels_like_f: i64,
    pub humidity_percent: i64,
    pub precipitation_mm: i64,
    pub precipitation_prob: i64,
    pub wind_speed_mph: i64,
    pub wind_gust_mph: Option<i64>,
    pub cloud_cover_percent: i64,
    pub weather_condition: WeatherCondition,
}

impl ForecastPoint {
    pub open spec fn wf(self) -> bool {
        &&& self.timestamp.valid()
        &&& -MEASURE_MILLI_MAX <= self.temp_f <= MEASURE_MILLI_MAX
        &&& -MEASURE_MILLI_MAX <= self.feels_like_f <= MEASURE_MILLI_MAX
        &&& 0 <= self.humidity_percent <= MEASURE_MILLI_MAX
        &&& 0 <= self.precipitation_mm <= MEASURE_MILLI_MAX
        &&& 0 <= self.precipitation_prob <= 1000
        &&& 0 <= self.wind_speed_mph <= MEASURE_MILLI_MAX
        &&& match self.wind_gust_mph {
            Some(g) => 0 <= g <= MEASURE_MILLI_MAX,
            None => true,
        }
        &&& 0 <= self.cloud_cover_percent <= MEASURE_MILLI_MAX
    }
}

/// Aggregate of one UTC calendar day of forecast points.
#[derive(Clone, Copy, PartialEq, Eq, Structural, Debug)]
pub struct DailyForecast {
    pub date: Date,
    pub high_temp_f: i64,
    pub low_temp_f: i64,
    pub avg_humidity: i64,
    pub total_precipitation_mm: i64,
    pub max_precipitation_prob: i64,
    pub dominant_condition: WeatherCondition,
    pub avg_wind_speed_mph: i64,
    pub max_wind_gust_mph: Option<i64>,
}

impl DailyForecast {
    pub open spec fn wf(self) -> bool {
        &&& self.date.valid()
        &&& -MEASURE_MILLI_MAX <= self.high_temp_f <= MEASURE_MILLI_MAX
        &&& -MEASURE_MILLI_MAX <= self.low_temp_f <= MEASURE_MILLI_MAX
        &&& 0 <= self.avg_humidity <= MEASURE_MILLI_MAX
        &&& 0 <= self.total_precipitation_mm <= DAY_PRECIP_MAX
        &&& 0 <= self.max_precipitation_prob <= 1000
        &&& 0 <= self.avg_wind_speed_mph <= MEASURE_MILLI_MAX
        &&& match self.max_wind_gust_mph {
            Some(g) => 0 <= g <= MEASURE_MILLI_MAX,
            None => true,
        }
    }
}

/// Positive rain outlook within a queried window.
#[derive(Clone, Copy, PartialEq, Eq, Structural, Debug)]
pub struct RainForecast {
    pub expected_mm: i64,
    pub max_probability: i64,
    pub first_expected: Option<Timestamp>,
}

/// The UTC day number a point falls on.
pub open spec fn point_day(p: ForecastPoint) -> int {
    p.timestamp.secs as int / (SECS_PER_DAY as int)
}

/// The points of `s` that fall on day `d`, in order.
pub open spec fn points_on_day(s: Seq<ForecastPoint>, d: int) -> Seq<ForecastPoint>
    decreases s.len(),
{
    if s.len() == 0 {
        Seq::empty()
    } else {
        let rest = points_on_day(s.drop_last(), d);
        if point_day(s.last()) == d {
            rest.push(s.last())
        } else {
            rest
        }
    }
}

pub open spec fn spec_max_temp(s: Seq<ForecastPoint>) -> i64
    decreases s.len(),
{
    if s.len() == 0 {
        0
    } else if s.len() == 1 {
        s[0].temp_f
    } else {
        let m = spec_max_temp(s.drop_last());
        if s.last().temp_f > m {
            s.last().temp_f
        } else {
            m
        }
    }
}

pub open spec fn spec_min_temp(s: Seq<ForecastPoint>) -> i64
    decreases s.len(),
{
    if s.len() == 0 {
        0
    } else if s.len() == 1 {
        s[0].temp_f
    } else {
        let m = spec_min_temp(s.drop_last());
        if s.last().temp_f < m {
            s.last().temp_f
        } else {
            m
        }
    }
}

pub open spec fn spec_sum_humidity(s: Seq<ForecastPoint>) -> int
    decreases s.len(),
{
    if s.len() == 0 {
        0
    } else {
        spec_sum_humidity(s.drop_last()) + s.last().humidity_percent
    }
}

pub open spec fn spec_sum_precip(s: Seq<ForecastPoint>) -> int
    decreases s.len(),
{
    if s.len() == 0 {
        0
    } else {
        spec_sum_precip(s.drop_last()) + s.last().precipitation_mm
    }
}

pub open spec fn spec_sum_wind(s: Seq<ForecastPoint>) -> int
    decreases s.len(),
{
    if s.len() == 0 {
        0
    } else {
        spec_sum_wind(s.drop_last()) + s.last().wind_speed_mph
    }
}

/// Maximum precipitation probability, never below zero.
pub open spec fn spec_max_prob(s: Seq<ForecastPoint>) -> i64
    decreases s.len(),
{
    if s.len() == 0 {
        0
    } else {
        let m = spec_max_prob(s.drop_last());
        if s.last().precipitation_prob > m {
            s.last().precipitation_prob
        } else {
            m
        }
    }
}

pub open spec fn spec_max_gust(s: Seq<ForecastPoint>) -> Option<i64>
    decreases s.len(),
{
    if s.len() == 0 {
        None
    } else {
        let m = spec_max_gust(s.drop_last());
        match s.last().wind_gust_mph {
            None => m,
            Some(g) => match m {
                None => Some(g),
                Some(x) => if g > x {
                    Some(g)
                } else {
                    Some(x)
                },
            },
        }
    }
}

/// How many points of `s` carry condition `c`.
pub open spec fn count_cond(s: Seq<ForecastPoint>, c: WeatherCondition) -> int
    decreases s.len(),
{
    if s.len() == 0 {
        0
    } else {
        count_cond(s.drop_last(), c) + if s.last().weather_condition == c {
            1int
        } else {
            0int
        }
    }
}

/// The running winner of the frequency scan over the first `i` points: a
/// later condition replaces the current winner only with a strictly greater
/// total count, so ties keep the earlier condition.
pub open spec fn spec_dominant_upto(s: Seq<ForecastPoint>, i: int) -> WeatherCondition
    decreases i,
{
    if i <= 1 {
        s[0].weather_condition
    } else {
        let prev = spec_dominant_upto(s, i - 1);
        if count_cond(s, s[i - 1].weather_condition) > count_cond(s, prev) {
            s[i - 1].weather_condition
        } else {
            prev
        }
    }
}

/// Most frequent condition in `s`, ties broken by first encounter.
pub open spec fn spec_dominant(s: Seq<ForecastPoint>) -> WeatherCondition {
    spec_dominant_upto(s, s.len() as int)
}

/// The deterministic aggregate of one day's points (meant for a non-empty
/// group). Means are rounded toward negative infinity at the thousandths
/// place.
pub open spec fn agg_day(group: Seq<ForecastPoint>, date: Date) -> DailyForecast {
    DailyForecast {
        date,
        high_temp_f: spec_max_temp(group),
        low_temp_f: spec_min_temp(group),
        avg_humidity: (spec_sum_humidity(group) / (group.len() as int)) as i64,
        total_precipitation_mm: spec_sum_precip(group) as i64,
        max_precipitation_prob: spec_max_prob(group),
        dominant_condition: spec_dominant(group),
        avg_wind_speed_mph: (spec_sum_wind(group) / (group.len() as int)) as i64,
        max_wind_gust_mph: spec_max_gust(group),
    }
}

/// The daily series is exactly the per-day aggregation of the hourly
/// series: dates strictly ascending, one entry per day that has points, and
/// each entry equal to its day's deterministic aggregate.
pub open spec fn is_daily_agg(hourly: Seq<ForecastPoint>, daily: Seq<DailyForecast>) -> bool {
    &&& forall|i: int, j: int|
        0 <= i < j < daily.len() ==> spec_day_number(#[trigger] daily[i].date) < spec_day_number(
            #[trigger] daily[j].date,
        )
    &&& forall|j: int|
        0 <= j < daily.len() ==> (#[trigger] daily[j]) == agg_day(
            points_on_day(hourly, spec_day_number(daily[j].date)),
            daily[j].date,
        )
    &&& forall|j: int|
        0 <= j < daily.len() ==> points_on_day(
            hourly,
            spec_day_number(#[trigger] daily[j].date),
        ).len() > 0
    &&& forall|i: int|
        0 <= i < hourly.len() ==> daily_lists_day(daily, point_day(#[trigger] hourly[i]))
}

/// Whether the daily series has an entry for day number `d`.
pub open spec fn daily_lists_day(daily: Seq<DailyForecast>, d: int) -> bool {
    exists|j: int| 0 <= j < daily.len() && spec_day_number(#[trigger] daily[j].date) == d
}

fn count_in(pts: &Vec<ForecastPoint>, c: WeatherCondition) -> (n: usize)
    ensures
        n == count_cond(pts@, c),
{
    let mut n: usize = 0;
    let mut i: usize = 0;
    while i < pts.len()
        invariant
            0 <= i <= pts@.len(),
            n == count_cond(pts@.subrange(0, i as int), c),
            n <= i,
        decreases pts@.len() - i,
    {
        proof {
            assert(pts@.subrange(0, i + 1).drop_last() =~= pts@.subrange(0, i as int));
            assert(pts@.subrange(0, i + 1).last() == pts@[i as int]);
        }
        if pts[i].weather_condition == c {
            n = n + 1;
        }
        i = i + 1;
    }
    proof {
        assert(pts@.subrange(0, pts@.len() as int) =~= pts@);
    }
    n
}

/// The most frequent condition among the points, ties broken by first
/// encounter.
fn dominant_of(pts: &Vec<ForecastPoint>) -> (c: WeatherCondition)
    requires
        pts@.len() > 0,
    ensures
        c == spec_dominant(pts@),
{
    let mut best = pts[0].weather_condition;
    let mut best_count = count_in(pts, best);
    let mut i: usize = 1;
    while i < pts.len()
        invariant
            1 <= i <= pts@.len(),
            best == spec_dominant_upto(pts@, i as int),
            best_count == count_cond(pts@, best),
        decreases pts@.len() - i,
    {
        let cnt = count_in(pts, pts[i].weather_condition);
        if cnt > best_count {
            best = pts[i].weather_condition;
            best_count = cnt;
        }
        i = i + 1;
    }
    best
}

/// The points of one day, in order; all inherit well-formedness.
fn group_for_day(hourly: &Vec<ForecastPoint>, d: i64) -> (g: Vec<ForecastPoint>)
    requires
        forall|i: int| 0 <= i < hourly@.len() ==> (#[trigger] hourly@[i]).wf(),
    ensures
        g@ == points_on_day(hourly@, d as int),
        forall|k: int| 0 <= k < g@.len() ==> (#[trigger] g@[k]).wf(),
        g@.len() <= hourly@.len(),
{
    let mut g: Vec<ForecastPoint> = Vec::new();
    let mut i: usize = 0;
    while i < hourly.len()
        invariant
            0 <= i <= hourly@.len(),
            forall|k: int| 0 <= k < hourly@.len() ==> (#[trigger] hourly@[k]).wf(),
            g@ == points_on_day(hourly@.subrange(0, i as int), d as int),
            forall|k: int| 0 <= k < g@.len() ==> (#[trigger] g@[k]).wf(),
            g@.len() <= i,
        decreases hourly@.len() - i,
    {
        proof {
            assert(hourly@.subrange(0, i + 1).drop_last() =~= hourly@.subrange(0, i as int));
            assert(hourly@.subrange(0, i + 1).last() == hourly@[i as int]);
        }
        let p = hourly[i];
        if p.timestamp.epoch_day() == d {
            g.push(p);
        }
        i = i + 1;
    }
    proof {
        assert(hourly@.subrange(0, hourly@.len() as int) =~= hourly@);
    }
    g
}

/// A point on day `d` guarantees the day's group is non-empty.
proof fn lemma_points_on_day_witness(s: Seq<ForecastPoint>, d: int, i: int)
    requires
        0 <= i < s.len(),
        point_day(s[i]) == d,
    ensures
        points_on_day(s, d).len() > 0,
    decreases s.len(),
{
    if i + 1 < s.len() {
        lemma_points_on_day_witness(s.drop_last(), d, i);
    }
}

/// Compute the deterministic aggregate of one (non-empty) day of points.
fn aggregate_day(group: &Vec<ForecastPoint>, date: Date) -> (r: DailyForecast)
    requires
        0 < group@.len() <= HOURLY_MAX,
        forall|k: int| 0 <= k < group@.len() ==> (#[trigger] group@[k]).wf(),
        date.valid(),
    ensures
        r == agg_day(group@, date),
        r.wf(),
{
    let first = group[0];
    let mut high: i64 = first.temp_f;
    let mut low: i64 = first.temp_f;
    let mut sum_hum: i64 = first.humidity_percent;
    let mut sum_precip: i64 = first.precipitation_mm;
    let mut max_prob: i64 = first.precipitation_prob;
    let mut sum_wind: i64 = first.wind_speed_mph;
    let mut max_gust: Option<i64> = first.wind_gust_mph;
    proof {
        let t = group@.subrange(0, 1);
        assert(t.len() == 1 && t[0] == group@[0] && t.last() == group@[0]);
        assert(t.drop_last() =~= Seq::<ForecastPoint>::empty());
        assert(spec_sum_humidity(t.drop_last()) == 0);
        assert(spec_sum_precip(t.drop_last()) == 0);
        assert(spec_sum_wind(t.drop_last()) == 0);
        assert(spec_max_prob(t.drop_last()) == 0);
        assert(spec_max_gust(t.drop_last()) is None);
        assert(group@[0].wf());
    }
    let mut i: usize = 1;
    while i < group.len()
        invariant
            1 <= i <= group@.len() <= HOURLY_MAX,
            forall|k: int| 0 <= k < group@.len() ==> (#[trigger] group@[k]).wf(),
            high == spec_max_temp(group@.subrange(0, i as int)),
            low == spec_min_temp(group@.subrange(0, i as int)),
            sum_hum == spec_sum_humidity(group@.subrange(0, i as int)),
            sum_precip == spec_sum_precip(group@.subrange(0, i as int)),
            max_prob == spec_max_prob(group@.subrange(0, i as int)),
            sum_wind == spec_sum_wind(group@.subrange(0, i as int)),
            max_gust == spec_max_gust(group@.subrange(0, i as int)),
            -MEASURE_MILLI_MAX <= high <= MEASURE_MILLI_MAX,
            -MEASURE_MILLI_MAX <= low <= MEASURE_MILLI_MAX,
            0 <= sum_hum <= i * MEASURE_MILLI_MAX,
            0 <= sum_precip <= i * MEASURE_MILLI_MAX,
            0 <= max_prob <= 1000,
            0 <= sum_wind <= i * MEASURE_MILLI_MAX,
            match max_gust {
                Some(g) => 0 <= g <= MEASURE_MILLI_MAX,
                None => true,
            },
        decreases group@.len() - i,
    {
        proof {
            assert(group@.subrange(0, i + 1).drop_last() =~= group@.subrange(0, i as int));
            assert(group@.subrange(0, i + 1).last() == group@[i as int]);
        }
        let p = group[i];
        if p.temp_f > high {
            high = p.temp_f;
        }
        if p.temp_f < low {
            low = p.temp_f;
        }
        sum_hum = sum_hum + p.humidity_percent;
        sum_precip = sum_precip + p.precipitation_mm;
        if p.precipitation_prob > max_prob {
            max_prob = p.precipitation_prob;
        }
        sum_wind = sum_wind + p.wind_speed_mph;
        max_gust = match (max_gust, p.wind_gust_mph) {
            (None, g) => g,
            (Some(x), None) => Some(x),
            (Some(x), Some(g)) => if g > x {
                Some(g)
            } else {
                Some(x)
            },
        };
        i = i + 1;
    }
    proof {
        assert(group@.subrange(0, group@.len() as int) =~= group@);
    }
    let n = group.len() as i64;
    let avg_humidity = sum_hum / n;
    let avg_wind = sum_wind / n;
    let dominant = dominant_of(group);
    let r = DailyForecast {
        date,
        high_temp_f: high,
        low_temp_f: low,
        avg_humidity,
        total_precipitation_mm: sum_precip,
        max_precipitation_prob: max_prob,
        dominant_condition: dominant,
        avg_wind_speed_mph: avg_wind,
        max_wind_gust_mph: max_gust,
    };
    proof {
        let len = group@.len() as int;
        vstd::arithmetic::div_mod::lemma_div_pos_is_pos(sum_hum as int, len);
        vstd::arithmetic::div_mod::lemma_div_pos_is_pos(sum_wind as int, len);
        vstd::arithmetic::div_mod::lemma_multiply_divide_le(
            sum_hum as int,
            len,
            MEASURE_MILLI_MAX as int,
        );
        vstd::arithmetic::div_mod::lemma_multiply_divide_le(
            sum_wind as int,
            len,
            MEASURE_MILLI_MAX as int,
        );
        assert(sum_hum <= len * MEASURE_MILLI_MAX) by (nonlinear_arith)
            requires
                sum_hum <= group@.len() * MEASURE_MILLI_MAX,
                len == group@.len() as int,
        ;
        assert(sum_wind <= len * MEASURE_MILLI_MAX) by (nonlinear_arith)
            requires
                sum_wind <= group@.len() * MEASURE_MILLI_MAX,
                len == group@.len() as int,
        ;
        assert(r == agg_day(group@, date));
    }
    r
}

/// The smallest point day strictly above `last`, if any.
fn min_day_above(hourly: &Vec<ForecastPoint>, last: Option<i64>) -> (cand: Option<i64>)
    requires
        forall|i: int| 0 <= i < hourly@.len() ==> (#[trigger] hourly@[i]).wf(),
    ensures
        match cand {
            None => forall|k: int|
                0 <= k < hourly@.len() ==> !day_above(point_day(#[trigger] hourly@[k]), last),
            Some(c) => {
                &&& day_above(c as int, last)
                &&& day_has_point(hourly@, c as int)
                &&& forall|k: int|
                    0 <= k < hourly@.len() && day_above(
                        point_day(#[trigger] hourly@[k]),
                        last,
                    ) ==> point_day(hourly@[k]) >= c as int
                &&& 0 <= c < crate::dates::days_before_year(crate::dates::MAX_YEAR as int + 1)
            },
        },
{
    let mut cand: Option<i64> = None;
    let mut i: usize = 0;
    while i < hourly.len()
        invariant
            0 <= i <= hourly@.len(),
            forall|k: int| 0 <= k < hourly@.len() ==> (#[trigger] hourly@[k]).wf(),
            match cand {
                None => forall|k: int|
                    0 <= k < i ==> !day_above(point_day(#[trigger] hourly@[k]), last),
                Some(c) => {
                    &&& day_above(c as int, last)
                    &&& day_has_point(hourly@, c as int)
                    &&& forall|k: int|
                        0 <= k < i && day_above(
                            point_day(#[trigger] hourly@[k]),
                            last,
                        ) ==> point_day(hourly@[k]) >= c as int
                    &&& 0 <= c < crate::dates::days_before_year(crate::dates::MAX_YEAR as int + 1)
                },
            },
        decreases hourly@.len() - i,
    {
        let d = hourly[i].timestamp.epoch_day();
        let above = match last {
            None => true,
            Some(l) => d > l,
        };
        if above {
            cand = match cand {
                None => Some(d),
                Some(c) => if d < c {
                    Some(d)
                } else {
                    Some(c)
                },
            };
        }
        i = i + 1;
    }
    cand
}

/// The day list is strictly ascending.
pub open spec fn days_sorted(days: Seq<i64>) -> bool {
    forall|a: int, b: int| 0 <= a < b < days.len() ==> days[a] < days[b]
}

/// Every listed day has at least one point.
pub open spec fn days_have_points(hourly: Seq<ForecastPoint>, days: Seq<i64>) -> bool {
    forall|j: int| 0 <= j < days.len() ==> day_has_point(hourly, #[trigger] days[j] as int)
}

/// Whether day number `d` occurs in the list.
pub open spec fn day_listed(days: Seq<i64>, d: int) -> bool {
    exists|j: int| 0 <= j < days.len() && #[trigger] days[j] == d
}

/// Every point's day is listed.
pub open spec fn days_cover_all(hourly: Seq<ForecastPoint>, days: Seq<i64>) -> bool {
    forall|i: int| 0 <= i < hourly.len() ==> day_listed(days, point_day(#[trigger] hourly[i]))
}

/// Every point whose day does not lie above the fence has its day listed.
spec fn days_cover_below(hourly: Seq<ForecastPoint>, days: Seq<i64>, fence: Option<i64>) -> bool {
    forall|i: int|
        0 <= i < hourly.len() && !day_above(point_day(#[trigger] hourly[i]), fence) ==> day_listed(
            days,
            point_day(hourly[i]),
        )
}

/// All listed days are in the supported range.
pub open spec fn days_in_bound(days: Seq<i64>) -> bool {
    forall|j: int|
        0 <= j < days.len() ==> 0 <= #[trigger] days[j] < crate::dates::days_before_year(
            crate::dates::MAX_YEAR as int + 1,
        )
}

/// Appending the least remaining day keeps the day-list invariants.
proof fn lemma_push_day(
    hourly: Seq<ForecastPoint>,
    prev: Seq<i64>,
    m: i64,
    fence: Option<i64>,
)
    requires
        days_sorted(prev),
        days_have_points(hourly, prev),
        days_cover_below(hourly, prev, fence),
        days_in_bound(prev),
        fence == if prev.len() == 0 {
            None::<i64>
        } else {
            Some(prev.last())
        },
        day_above(m as int, fence),
        day_has_point(hourly, m as int),
        forall|k: int|
            0 <= k < hourly.len() && day_above(point_day(#[trigger] hourly[k]), fence)
                ==> point_day(hourly[k]) >= m as int,
        0 <= m < crate::dates::days_before_year(crate::dates::MAX_YEAR as int + 1),
    ensures
        days_sorted(prev.push(m)),
        days_have_points(hourly, prev.push(m)),
        days_cover_below(hourly, prev.push(m), Some(m)),
        days_in_bound(prev.push(m)),
{
    let days = prev.push(m);
    assert(days.last() == m);
    assert forall|a: int, b: int| 0 <= a < b < days.len() implies days[a] < days[b] by {
        if b < prev.len() {
        } else {
            assert(days[b] == m);
            if a < prev.len() - 1 {
                assert(prev[a] < prev[prev.len() - 1]);
            }
        }
    };
    assert forall|j: int| 0 <= j < days.len() implies day_has_point(hourly, #[trigger] days[j] as int) by {
        if j < prev.len() {
            assert(day_has_point(hourly, prev[j] as int));
        }
    };
    assert forall|i: int|
        0 <= i < hourly.len() && !day_above(point_day(#[trigger] hourly[i]), Some(m)) implies day_listed(
        days,
        point_day(hourly[i]),
    ) by {
        let p = point_day(hourly[i]);
        if day_above(p, fence) {
            assert(p >= m as int);
            assert(p <= m as int);
            assert(days[days.len() - 1] == p);
        } else {
            assert(day_listed(prev, p));
            let j = choose|j: int| 0 <= j < prev.len() && #[trigger] prev[j] == p;
            assert(days[j] == p);
        }
    };
}

/// With no day above the fence left, the listed days cover every point.
proof fn lemma_days_complete(hourly: Seq<ForecastPoint>, days: Seq<i64>, fence: Option<i64>)
    requires
        days_cover_below(hourly, days, fence),
        forall|k: int|
            0 <= k < hourly.len() ==> !day_above(point_day(#[trigger] hourly[k]), fence),
    ensures
        days_cover_all(hourly, days),
{
    assert forall|i: int| 0 <= i < hourly.len() implies day_listed(
        days,
        point_day(#[trigger] hourly[i]),
    ) by {
        assert(!day_above(point_day(hourly[i]), fence));
    };
}

/// The distinct UTC day numbers of the points, in ascending order,
/// produced by extracting successive minima.
fn distinct_days_sorted(hourly: &Vec<ForecastPoint>) -> (days: Vec<i64>)
    requires
        forall|i: int| 0 <= i < hourly@.len() ==> (#[trigger] hourly@[i]).wf(),
    ensures
        days_sorted(days@),
        days_have_points(hourly@, days@),
        days_cover_all(hourly@, days@),
        days_in_bound(days@),
        days@.len() <= hourly@.len(),
{
    let ghost day_bound = crate::dates::days_before_year(crate::dates::MAX_YEAR as int + 1);
    let mut days: Vec<i64> = Vec::new();
    loop
        invariant
            forall|i: int| 0 <= i < hourly@.len() ==> (#[trigger] hourly@[i]).wf(),
            days_sorted(days@),
            days_have_points(hourly@, days@),
            days_cover_below(
                hourly@,
                days@,
                if days@.len() == 0 {
                    None::<i64>
                } else {
                    Some(days@.last())
                },
            ),
            days_in_bound(days@),
            day_bound == crate::dates::days_before_year(crate::dates::MAX_YEAR as int + 1),
        ensures
            days_sorted(days@),
            days_have_points(hourly@, days@),
            days_cover_all(hourly@, days@),
            days_in_bound(days@),
        decreases day_bound - if days@.len() == 0 {
            -1int
        } else {
            days@.last() as int
        },
    {
        let last: Option<i64> = if days.len() == 0 {
            None
        } else {
            Some(days[days.len() - 1])
        };
        let cand = min_day_above(hourly, last);
        match cand {
            None => {
                proof {
                    lemma_days_complete(hourly@, days@, last);
                }
                break ;
            },
            Some(m) => {
                let ghost prev = days@;
                days.push(m);
                proof {
                    lemma_push_day(hourly@, prev, m, last);
                    assert(days@ == prev.push(m));
                }
            },
        }
    }
    proof {
        lemma_distinct_listed_days_bounded(hourly@, days@);
    }
    days
}

/// A strictly ascending day list in which every day has a point cannot be
/// longer than the point series.
proof fn lemma_distinct_listed_days_bounded(hourly: Seq<ForecastPoint>, days: Seq<i64>)
    requires
        days_sorted(days),
        days_have_points(hourly, days),
    ensures
        days.len() <= hourly.len(),
{
    broadcast use vstd::set::group_set_axioms;

    let di = days.map_values(|d: i64| d as int);
    let pd = hourly.map_values(|p: ForecastPoint| point_day(p));
    assert(di.no_duplicates()) by {
        assert forall|a: int, b: int|
            0 <= a < di.len() && 0 <= b < di.len() && a != b implies di[a] != di[b] by {
            if a < b {
                assert(days[a] < days[b]);
            } else {
                assert(days[b] < days[a]);
            }
        };
    }
    di.unique_seq_to_set();
    assert(di.to_set().subset_of(pd.to_set())) by {
        assert forall|x: int| di.to_set().contains(x) implies pd.to_set().contains(x) by {
            let j = choose|j: int| 0 <= j < di.len() && di[j] == x;
            assert(day_has_point(hourly, days[j] as int));
            let i = choose|i: int| 0 <= i < hourly.len() && point_day(#[trigger] hourly[i]) == x;
            assert(pd[i] == x);
        };
    }
    pd.lemma_cardinality_of_set();
    vstd::set_lib::lemma_len_subset(di.to_set(), pd.to_set());
}

/// Whether some point of `s` falls on day `d`.
pub open spec fn day_has_point(s: Seq<ForecastPoint>, d: int) -> bool {
    exists|i: int| 0 <= i < s.len() && point_day(#[trigger] s[i]) == d
}

/// Whether a day number lies strictly after an optional lower fence.
pub open spec fn day_above(d: int, last: Option<i64>) -> bool {
    match last {
        None => true,
        Some(l) => d > l,
    }
}

/// A multi-day weather forecast: the hourly point series and the daily
/// aggregates derived from it.
#[derive(Clone, Debug)]
pub struct WeatherForecast {
    pub fetched_at: Timestamp,
    pub location: ForecastLocation,
    pub hourly: Vec<ForecastPoint>,
    pub daily_summary: Vec<DailyForecast>,
}

impl WeatherForecast {
    pub open spec fn wf(self) -> bool {
        &&& self.hourly@.len() <= HOURLY_MAX
        &&& self.daily_summary@.len() <= self.hourly@.len()
        &&& forall|i: int| 0 <= i < self.hourly@.len() ==> (#[trigger] self.hourly@[i]).wf()
        &&& forall|j: int|
            0 <= j < self.daily_summary@.len() ==> (#[trigger] self.daily_summary@[j]).wf()
        &&& is_daily_agg(self.hourly@, self.daily_summary@)
    }

    /// Ingest a forecast: keep the hourly series and derive the daily
    /// aggregates from it.
    pub fn new(fetched_at: Timestamp, location: ForecastLocation, hourly: Vec<ForecastPoint>) -> (r:
        WeatherForecast)
        requires
            hourly@.len() <= HOURLY_MAX,
            forall|i: int| 0 <= i < hourly@.len() ==> (#[trigger] hourly@[i]).wf(),
        ensures
            r.fetched_at == fetched_at,
            r.location == location,
            r.hourly@ == hourly@,
            r.wf(),
    {
        let mut daily: Vec<DailyForecast> = Vec::new();
        let days = distinct_days_sorted(&hourly);
        let mut k: usize = 0;
        while k < days.len()
            invariant
                0 <= k <= days@.len(),
                hourly@.len() <= HOURLY_MAX,
                forall|i: int| 0 <= i < hourly@.len() ==> (#[trigger] hourly@[i]).wf(),
                days_sorted(days@),
                days_have_points(hourly@, days@),
                days_cover_all(hourly@, days@),
                days_in_bound(days@),
                daily@.len() == k,
                forall|j: int|
                    0 <= j < k ==> spec_day_number(#[trigger] daily@[j].date) == days@[j] as int,
                forall|j: int|
                    0 <= j < k ==> (#[trigger] daily@[j]) == agg_day(
                        points_on_day(hourly@, days@[j] as int),
                        daily@[j].date,
                    ),
                forall|j: int| 0 <= j < k ==> (#[trigger] daily@[j]).wf(),
            decreases days@.len() - k,
        {
            let d = days[k];
            let date = crate::dates::date_from_day_number(d);
            let group = group_for_day(&hourly, d);
            proof {
                assert(day_has_point(hourly@, d as int));
                let w = choose|i: int|
                    0 <= i < hourly@.len() && point_day(#[trigger] hourly@[i]) == d as int;
                lemma_points_on_day_witness(hourly@, d as int, w);
            }
            let agg = aggregate_day(&group, date);
            daily.push(agg);
            k = k + 1;
        }
        let r = WeatherForecast { fetched_at, location, hourly, daily_summary: daily };
        proof {
            assert forall|i: int, j: int| 0 <= i < j < r.daily_summary@.len() implies spec_day_number(
                #[trigger] r.daily_summary@[i].date,
            ) < spec_day_number(#[trigger] r.daily_summary@[j].date) by {
                assert(days@[i] < days@[j]);
            };
            assert forall|j: int| 0 <= j < r.daily_summary@.len() implies (
            #[trigger] r.daily_summary@[j]) == agg_day(
                points_on_day(r.hourly@, spec_day_number(r.daily_summary@[j].date)),
                r.daily_summary@[j].date,
            ) by {
                assert(spec_day_number(r.daily_summary@[j].date) == days@[j] as int);
            };
            assert forall|j: int| 0 <= j < r.daily_summary@.len() implies points_on_day(
                r.hourly@,
                spec_day_number(#[trigger] r.daily_summary@[j].date),
            ).len() > 0 by {
                assert(day_has_point(r.hourly@, days@[j] as int));
                let w = choose|i: int|
                    0 <= i < r.hourly@.len() && point_day(#[trigger] r.hourly@[i]) == days@[j] as int;
                lemma_points_on_day_witness(r.hourly@, days@[j] as int, w);
            };
            assert forall|i: int| 0 <= i < r.hourly@.len() implies daily_lists_day(
                r.daily_summary@,
                point_day(#[trigger] r.hourly@[i]),
            ) by {
                assert(day_listed(days@, point_day(r.hourly@[i])));
                let j = choose|j: int|
                    0 <= j < days@.len() && #[trigger] days@[j] == point_day(r.hourly@[i]);
                assert(spec_day_number(r.daily_summary@[j].date) == point_day(r.hourly@[i]));
            };
        }
        r
    }
}

/// The hourly points at or before `cutoff` (seconds since the epoch), in
/// order.
pub open spec fn points_within(s: Seq<ForecastPoint>, cutoff: int) -> Seq<ForecastPoint>
    decreases s.len(),
{
    if s.len() == 0 {
        Seq::empty()
    } else {
        let rest = points_within(s.drop_last(), cutoff);
        if s.last().timestamp.secs <= cutoff {
            rest.push(s.last())
        } else {
            rest
        }
    }
}

/// Total precipitation over a window.
pub open spec fn rain_total(s: Seq<ForecastPoint>) -> int
    decreases s.len(),
{
    if s.len() == 0 {
        0
    } else {
        rain_total(s.drop_last()) + s.last().precipitation_mm
    }
}

/// Highest precipitation probability over a window, at least zero.
pub open spec fn rain_max_prob(s: Seq<ForecastPoint>) -> i64
    decreases s.len(),
{
    if s.len() == 0 {
        0
    } else {
        let m = rain_max_prob(s.drop_last());
        if s.last().precipitation_prob > m {
            s.last().precipitation_prob
        } else {
            m
        }
    }
}

/// The first point that signals rain: more than 0.1 mm of precipitation or
/// a probability above one half.
pub open spec fn first_rain_time(s: Seq<ForecastPoint>) -> Option<Timestamp>
    decreases s.len(),
{
    if s.len() == 0 {
        None
    } else {
        match first_rain_time(s.drop_last()) {
            Some(t) => Some(t),
            None => if s.last().precipitation_mm > 100 || s.last().precipitation_prob > 500 {
                Some(s.last().timestamp)
            } else {
                None
            },
        }
    }
}

/// The rain outlook over the points at or before `cutoff`: a positive
/// answer when the accumulated precipitation reaches the threshold or the
/// peak probability reaches one half.
pub open spec fn spec_rain_expected(
    hourly: Seq<ForecastPoint>,
    cutoff: int,
    threshold_mm: int,
) -> Option<RainForecast> {
    let w = points_within(hourly, cutoff);
    if rain_total(w) >= threshold_mm || rain_max_prob(w) >= 500 {
        Some(
            RainForecast {
                expected_mm: rain_total(w) as i64,
                max_probability: rain_max_prob(w),
                first_expected: first_rain_time(w),
            },
        )
    } else {
        None
    }
}

/// The daily entries on or before `cutoff_day` (a day number), in order.
pub open spec fn days_within(s: Seq<DailyForecast>, cutoff_day: int) -> Seq<DailyForecast>
    decreases s.len(),
{
    if s.len() == 0 {
        Seq::empty()
    } else {
        let rest = days_within(s.drop_last(), cutoff_day);
        if spec_day_number(s.last().date) <= cutoff_day {
            rest.push(s.last())
        } else {
            rest
        }
    }
}

/// Highest daily high over a window, absent when the window is empty.
pub open spec fn spec_max_high(s: Seq<DailyForecast>) -> Option<i64>
    decreases s.len(),
{
    if s.len() == 0 {
        None
    } else {
        match spec_max_high(s.drop_last()) {
            None => Some(s.last().high_temp_f),
            Some(m) => if s.last().high_temp_f > m {
                Some(s.last().high_temp_f)
            } else {
                Some(m)
            },
        }
    }
}

/// Summed daily highs over a window.
pub open spec fn sum_highs(s: Seq<DailyForecast>) -> int
    decreases s.len(),
{
    if s.len() == 0 {
        0
    } else {
        sum_highs(s.drop_last()) + s.last().high_temp_f
    }
}

/// Summed daily precipitation over a window.
pub open spec fn sum_day_precip(s: Seq<DailyForecast>) -> int
    decreases s.len(),
{
    if s.len() == 0 {
        0
    } else {
        sum_day_precip(s.drop_last()) + s.last().total_precipitation_mm
    }
}

impl WeatherForecast {
    /// The forecast points within the next `hours` hours of `now` (and any
    /// earlier points still in the series), in order.
    pub fn next_hours(&self, now: &Timestamp, hours: u32) -> (r: Vec<ForecastPoint>)
        requires
            self.wf(),
            now.valid(),
            hours <= 100000,
        ensures
            r@ == points_within(self.hourly@, now.secs + hours * 3600),
            forall|i: int| 0 <= i < r@.len() ==> (#[trigger] r@[i]).wf(),
            r@.len() <= self.hourly@.len(),
    {
        let cutoff = now.plus_hours(hours);
        let mut r: Vec<ForecastPoint> = Vec::new();
        let mut i: usize = 0;
        while i < self.hourly.len()
            invariant
                0 <= i <= self.hourly@.len(),
                forall|k: int| 0 <= k < self.hourly@.len() ==> (#[trigger] self.hourly@[k]).wf(),
                cutoff == now.secs + hours * 3600,
                r@ == points_within(self.hourly@.subrange(0, i as int), cutoff as int),
                forall|k: int| 0 <= k < r@.len() ==> (#[trigger] r@[k]).wf(),
                r@.len() <= i,
            decreases self.hourly@.len() - i,
        {
            proof {
                assert(self.hourly@.subrange(0, i + 1).drop_last() =~= self.hourly@.subrange(
                    0,
                    i as int,
                ));
                assert(self.hourly@.subrange(0, i + 1).last() == self.hourly@[i as int]);
            }
            let p = self.hourly[i];
            if p.timestamp.secs <= cutoff {
                r.push(p);
            }
            i = i + 1;
        }
        proof {
            assert(self.hourly@.subrange(0, self.hourly@.len() as int) =~= self.hourly@);
        }
        r
    }

    /// The daily entries within the next `days` days of `today` (and any
    /// earlier entries still in the series), in order.
    pub fn next_days(&self, today: &Date, days: u32) -> (r: Vec<DailyForecast>)
        requires
            self.wf(),
            today.valid(),
            days <= 100000,
        ensures
            r@ == days_within(self.daily_summary@, spec_day_number(*today) + days),
            forall|j: int| 0 <= j < r@.len() ==> (#[trigger] r@[j]).wf(),
            r@.len() <= self.daily_summary@.len(),
    {
        let cutoff: i64 = today.day_number() + days as i64;
        let mut r: Vec<DailyForecast> = Vec::new();
        let mut i: usize = 0;
        while i < self.daily_summary.len()
            invariant
                0 <= i <= self.daily_summary@.len(),
                forall|k: int|
                    0 <= k < self.daily_summary@.len() ==> (#[trigger] self.daily_summary@[k]).wf(),
                cutoff == spec_day_number(*today) + days,
                r@ == days_within(self.daily_summary@.subrange(0, i as int), cutoff as int),
                forall|k: int| 0 <= k < r@.len() ==> (#[trigger] r@[k]).wf(),
                r@.len() <= i,
            decreases self.daily_summary@.len() - i,
        {
            proof {
                assert(self.daily_summary@.subrange(0, i + 1).drop_last()
                    =~= self.daily_summary@.subrange(0, i as int));
                assert(self.daily_summary@.subrange(0, i + 1).last()
                    == self.daily_summary@[i as int]);
            }
            let d = self.daily_summary[i];
            if d.date.day_number() <= cutoff {
                r.push(d);
            }
            i = i + 1;
        }
        proof {
            assert(self.daily_summary@.subrange(0, self.daily_summary@.len() as int)
                =~= self.daily_summary@);
        }
        r
    }

    /// The rain outlook within the next `hours` hours: positive when the
    /// accumulated precipitation reaches `threshold_mm` or the peak
    /// probability reaches one half; the threshold governs accumulation
    /// only, so a high probability alone can still signal rain.
    pub fn rain_expected_within(&self, now: &Timestamp, hours: u32, threshold_mm: i64) -> (r:
        Option<RainForecast>)
        requires
            self.wf(),
            now.valid(),
            hours <= 100000,
        ensures
            r == spec_rain_expected(self.hourly@, now.secs + hours * 3600, threshold_mm as int),
            match r {
                Some(rf) => 0 <= rf.expected_mm <= crate::environmental::TOTAL_MILLI_MAX && 0
                    <= rf.max_probability <= 1000,
                None => true,
            },
    {
        let points = self.next_hours(now, hours);
        let ghost w = points@;
        let mut total: i64 = 0;
        let mut max_prob: i64 = 0;
        let mut first: Option<Timestamp> = None;
        let mut i: usize = 0;
        proof {
            assert(w.subrange(0, 0) =~= Seq::<ForecastPoint>::empty());
        }
        while i < points.len()
            invariant
                0 <= i <= w.len() == points@.len(),
                points@ == w,
                w.len() <= HOURLY_MAX,
                forall|k: int| 0 <= k < w.len() ==> (#[trigger] w[k]).wf(),
                total == rain_total(w.subrange(0, i as int)),
                0 <= total <= i * MEASURE_MILLI_MAX,
                max_prob == rain_max_prob(w.subrange(0, i as int)),
                0 <= max_prob <= 1000,
                first == first_rain_time(w.subrange(0, i as int)),
            decreases w.len() - i,
        {
            proof {
                assert(w.subrange(0, i + 1).drop_last() =~= w.subrange(0, i as int));
                assert(w.subrange(0, i + 1).last() == w[i as int]);
            }
            let p = points[i];
            total = total + p.precipitation_mm;
            if p.precipitation_prob > max_prob {
                max_prob = p.precipitation_prob;
            }
            if first.is_none() && (p.precipitation_mm > 100 || p.precipitation_prob > 500) {
                first = Some(p.timestamp);
            }
            i = i + 1;
        }
        proof {
            assert(w.subrange(0, w.len() as int) =~= w);
        }
        if total >= threshold_mm || max_prob >= 500 {
            Some(RainForecast { expected_mm: total, max_probability: max_prob, first_expected: first })
        } else {
            None
        }
    }

    /// The highest daily high within the next `days` days; absent when the
    /// window holds no day.
    pub fn max_temp_next_days(&self, today: &Date, days: u32) -> (r: Option<i64>)
        requires
            self.wf(),
            today.valid(),
            days <= 100000,
        ensures
            r == spec_max_high(days_within(self.daily_summary@, spec_day_number(*today) + days)),
            match r {
                Some(m) => -MEASURE_MILLI_MAX <= m <= MEASURE_MILLI_MAX,
                None => true,
            },
    {
        let window = self.next_days(today, days);
        let ghost w = window@;
        let mut r: Option<i64> = None;
        let mut i: usize = 0;
        proof {
            assert(w.subrange(0, 0) =~= Seq::<DailyForecast>::empty());
        }
        while i < window.len()
            invariant
                0 <= i <= w.len() == window@.len(),
                window@ == w,
                forall|k: int| 0 <= k < w.len() ==> (#[trigger] w[k]).wf(),
                r == spec_max_high(w.subrange(0, i as int)),
                match r {
                    Some(m) => -MEASURE_MILLI_MAX <= m <= MEASURE_MILLI_MAX,
                    None => true,
                },
            decreases w.len() - i,
        {
            proof {
                assert(w.subrange(0, i + 1).drop_last() =~= w.subrange(0, i as int));
                assert(w.subrange(0, i + 1).last() == w[i as int]);
            }
            let h = window[i].high_temp_f;
            r = match r {
                None => Some(h),
                Some(m) => if h > m {
                    Some(h)
                } else {
                    Some(m)
                },
            };
            i = i + 1;
        }
        proof {
            assert(w.subrange(0, w.len() as int) =~= w);
        }
        r
    }

    /// How many leading days of the daily series (from its start, not from
    /// today) have an average humidity at or above the threshold — a
    /// prefix-run count that stops at the first failing day.
    pub fn consecutive_high_humidity_days(&self, threshold: i64) -> (n: u32)
        requires
            self.wf(),
        ensures
            n <= self.daily_summary@.len(),
            forall|j: int|
                0 <= j < n ==> (#[trigger] self.daily_summary@[j]).avg_humidity >= threshold,
            n < self.daily_summary@.len() ==> self.daily_summary@[n as int].avg_humidity
                < threshold,
    {
        let mut n: usize = 0;
        while n < self.daily_summary.len() && self.daily_summary[n].avg_humidity >= threshold
            invariant
                self.wf(),
                0 <= n <= self.daily_summary@.len() <= HOURLY_MAX,
                forall|j: int|
                    0 <= j < n ==> (#[trigger] self.daily_summary@[j]).avg_humidity >= threshold,
            decreases self.daily_summary@.len() - n,
        {
            n = n + 1;
        }
        n as u32
    }
}

} // verus!
