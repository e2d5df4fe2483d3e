//! Aggregate calculations over environmental readings: degree days, period
//! averages, sustained-condition checks, the soil-temperature trend and the
//! assembly of an environmental summary. All quantities are in thousandths
//! of their unit; averages use truncating division, exactly as specified.

use crate::application::{Application, ApplicationType};
use crate::dates::{spec_day_number, Date, Timestamp};
use crate::environmental::{
    EnvironmentalReading, EnvironmentalSummary, Trend, MEASURE_MILLI_MAX, TOTAL_MILLI_MAX,
};
use crate::num;
use vstd::prelude::*;

verus! {

/// Most readings a period calculation may consume.
pub const READINGS_MAX: usize = 100000;

/// Every reading of a series is well-formed.
pub open spec fn readings_wf(s: Seq<EnvironmentalReading>) -> bool {
    forall|i: int| 0 <= i < s.len() ==> (#[trigger] s[i]).wf()
}

/// The positive part of `temp - base`, the hourly degree-day contribution.
pub open spec fn gdd_term(temp: Option<i64>, base: int) -> int {
    match temp {
        Some(t) => if t - base > 0 {
            t - base
        } else {
            0
        },
        None => 0,
    }
}

/// Summed hourly degree-day contributions.
pub open spec fn gdd_sum(s: Seq<EnvironmentalReading>, base: int) -> int
    decreases s.len(),
{
    if s.len() == 0 {
        0
    } else {
        gdd_sum(s.drop_last(), base) + gdd_term(s.last().ambient_temp_f, base)
    }
}

/// Growing degree days accumulated by hourly readings, converted to a daily
/// figure by dividing by 24 (rounded down).
pub fn calculate_gdd(readings: &Vec<EnvironmentalReading>, base_temp_f: i64) -> (r: i64)
    requires
        readings@.len() <= READINGS_MAX,
        readings_wf(readings@),
        -MEASURE_MILLI_MAX <= base_temp_f <= MEASURE_MILLI_MAX,
    ensures
        r == gdd_sum(readings@, base_temp_f as int) / 24,
{
    let mut sum: i64 = 0;
    let mut i: usize = 0;
    while i < readings.len()
        invariant
            0 <= i <= readings@.len() <= READINGS_MAX,
            readings_wf(readings@),
            -MEASURE_MILLI_MAX <= base_temp_f <= MEASURE_MILLI_MAX,
            sum == gdd_sum(readings@.subrange(0, i as int), base_temp_f as int),
            0 <= sum <= 20000000 * i,
        decreases readings@.len() - i,
    {
        proof {
            assert(readings@.subrange(0, i + 1).drop_last() =~= readings@.subrange(0, i as int));
            assert(readings@.subrange(0, i + 1).last() == readings@[i as int]);
        }
        proof {
            assert(readings@[i as int].wf());
            assert(crate::environmental::opt_in_range(readings@[i as int].ambient_temp_f));
        }
        match readings[i].ambient_temp_f {
            Some(t) => {
                proof {
                    assert(-MEASURE_MILLI_MAX <= t <= MEASURE_MILLI_MAX);
                }
                if t - base_temp_f > 0 {
                    sum = sum + (t - base_temp_f);
                }
            },
            None => {},
        }
        i = i + 1;
    }
    proof {
        assert(readings@.subrange(0, readings@.len() as int) =~= readings@);
    }
    sum / 24
}

/// The soil-temperature channel closest to the requested depth; depths
/// other than the five measured ones fall back to 10 cm.
pub open spec fn temp_at_depth(r: EnvironmentalReading, depth_cm: int) -> Option<i64> {
    if depth_cm == 5 {
        r.soil_temp_5_f
    } else if depth_cm == 20 {
        r.soil_temp_20_f
    } else if depth_cm == 50 {
        r.soil_temp_50_f
    } else if depth_cm == 100 {
        r.soil_temp_100_f
    } else {
        r.soil_temp_10_f
    }
}

/// The soil-moisture channel closest to the requested depth, with the same
/// fallback.
pub open spec fn moisture_at_depth(r: EnvironmentalReading, depth_cm: int) -> Option<i64> {
    if depth_cm == 5 {
        r.soil_moisture_5
    } else if depth_cm == 20 {
        r.soil_moisture_20
    } else if depth_cm == 50 {
        r.soil_moisture_50
    } else if depth_cm == 100 {
        r.soil_moisture_100
    } else {
        r.soil_moisture_10
    }
}

/// Sum of the present values of an optional channel, selected by `sel`.
pub open spec fn opt_sum(s: Seq<Option<i64>>) -> int
    decreases s.len(),
{
    if s.len() == 0 {
        0
    } else {
        opt_sum(s.drop_last()) + match s.last() {
            Some(v) => v as int,
            None => 0,
        }
    }
}

/// How many values of an optional channel are present.
pub open spec fn opt_count(s: Seq<Option<i64>>) -> int
    decreases s.len(),
{
    if s.len() == 0 {
        0
    } else {
        opt_count(s.drop_last()) + match s.last() {
            Some(_) => 1int,
            None => 0int,
        }
    }
}

/// The average of the present values: their sum divided by their number,
/// truncated toward zero; absent when no value is present.
pub open spec fn opt_avg(s: Seq<Option<i64>>) -> Option<i64> {
    if opt_count(s) == 0 {
        None
    } else {
        Some(num::spec_tdiv(opt_sum(s), opt_count(s)) as i64)
    }
}

/// Sum and count of one optional channel over a series of readings.
fn channel_sum_count(vals: &Vec<Option<i64>>) -> (r: (i64, usize))
    requires
        vals@.len() <= READINGS_MAX,
        forall|i: int|
            0 <= i < vals@.len() ==> match #[trigger] vals@[i] {
                Some(v) => -MEASURE_MILLI_MAX <= v <= MEASURE_MILLI_MAX,
                None => true,
            },
    ensures
        r.0 == opt_sum(vals@),
        r.1 == opt_count(vals@),
        -TOTAL_MILLI_MAX <= r.0 <= TOTAL_MILLI_MAX,
        r.1 <= vals@.len(),
{
    let mut sum: i64 = 0;
    let mut count: usize = 0;
    let mut i: usize = 0;
    while i < vals.len()
        invariant
            0 <= i <= vals@.len() <= READINGS_MAX,
            forall|k: int|
                0 <= k < vals@.len() ==> match #[trigger] vals@[k] {
                    Some(v) => -MEASURE_MILLI_MAX <= v <= MEASURE_MILLI_MAX,
                    None => true,
                },
            sum == opt_sum(vals@.subrange(0, i as int)),
            count == opt_count(vals@.subrange(0, i as int)),
            count <= i,
            -(i * MEASURE_MILLI_MAX) <= sum <= i * MEASURE_MILLI_MAX,
        decreases vals@.len() - i,
    {
        proof {
            assert(vals@.subrange(0, i + 1).drop_last() =~= vals@.subrange(0, i as int));
            assert(vals@.subrange(0, i + 1).last() == vals@[i as int]);
        }
        match vals[i] {
            Some(v) => {
                sum = sum + v;
                count = count + 1;
            },
            None => {},
        }
        i = i + 1;
    }
    proof {
        assert(vals@.subrange(0, vals@.len() as int) =~= vals@);
    }
    (sum, count)
}

/// Average of the present values, truncated toward zero.
fn avg_of(vals: &Vec<Option<i64>>) -> (r: Option<i64>)
    requires
        vals@.len() <= READINGS_MAX,
        forall|i: int|
            0 <= i < vals@.len() ==> match #[trigger] vals@[i] {
                Some(v) => -MEASURE_MILLI_MAX <= v <= MEASURE_MILLI_MAX,
                None => true,
            },
    ensures
        r == opt_avg(vals@),
        match r {
            Some(a) => -MEASURE_MILLI_MAX <= a <= MEASURE_MILLI_MAX,
            None => true,
        },
{
    let (sum, count) = channel_sum_count(vals);
    if count == 0 {
        None
    } else {
        let a = num::tdiv(sum, count as i64);
        proof {
            lemma_opt_sum_bound(vals@, MEASURE_MILLI_MAX as int);
            lemma_tdiv_avg_bound(sum as int, count as int, MEASURE_MILLI_MAX as int);
        }
        Some(a)
    }
}

/// A sum of present values, each bounded by `b`, is bounded by the count
/// times `b`.
proof fn lemma_opt_sum_bound(s: Seq<Option<i64>>, b: int)
    requires
        forall|i: int|
            0 <= i < s.len() ==> match #[trigger] s[i] {
                Some(v) => -b <= v <= b,
                None => true,
            },
        b >= 0,
    ensures
        -(opt_count(s) * b) <= opt_sum(s) <= opt_count(s) * b,
        0 <= opt_count(s) <= s.len(),
    decreases s.len(),
{
    if s.len() > 0 {
        lemma_opt_sum_bound(s.drop_last(), b);
        assert(s.drop_last().len() == s.len() - 1);
        let c = opt_count(s.drop_last());
        match s.last() {
            Some(v) => {
                assert(opt_count(s) == c + 1);
                assert((c + 1) * b == c * b + b) by (nonlinear_arith);
            },
            None => {},
        }
    }
}

/// A truncated average of values bounded by `m` is bounded by `m`.
proof fn lemma_tdiv_avg_bound(sum: int, count: int, m: int)
    requires
        count > 0,
        m >= 0,
        -(count * m) <= sum <= count * m,
    ensures
        -m <= num::spec_tdiv(sum, count) <= m,
{
    if sum >= 0 {
        vstd::arithmetic::div_mod::lemma_div_pos_is_pos(sum, count);
        vstd::arithmetic::div_mod::lemma_multiply_divide_le(sum, count, m);
    } else {
        vstd::arithmetic::div_mod::lemma_div_pos_is_pos(-sum, count);
        vstd::arithmetic::div_mod::lemma_multiply_divide_le(-sum, count, m);
    }
}

/// Collect one soil-temperature channel from a series of readings.
fn collect_temps(readings: &Vec<EnvironmentalReading>, depth_cm: u32) -> (vals: Vec<Option<i64>>)
    requires
        readings_wf(readings@),
    ensures
        vals@.len() == readings@.len(),
        forall|i: int|
            0 <= i < vals@.len() ==> #[trigger] vals@[i] == temp_at_depth(
                readings@[i],
                depth_cm as int,
            ),
        forall|i: int|
            0 <= i < vals@.len() ==> match #[trigger] vals@[i] {
                Some(v) => -MEASURE_MILLI_MAX <= v <= MEASURE_MILLI_MAX,
                None => true,
            },
{
    let mut vals: Vec<Option<i64>> = Vec::new();
    let mut i: usize = 0;
    while i < readings.len()
        invariant
            0 <= i <= readings@.len(),
            readings_wf(readings@),
            vals@.len() == i,
            forall|k: int|
                0 <= k < i ==> #[trigger] vals@[k] == temp_at_depth(readings@[k], depth_cm as int),
            forall|k: int|
                0 <= k < i ==> match #[trigger] vals@[k] {
                    Some(v) => -MEASURE_MILLI_MAX <= v <= MEASURE_MILLI_MAX,
                    None => true,
                },
        decreases readings@.len() - i,
    {
        let r = &readings[i];
        let v = if depth_cm == 5 {
            r.soil_temp_5_f
        } else if depth_cm == 20 {
            r.soil_temp_20_f
        } else if depth_cm == 50 {
            r.soil_temp_50_f
        } else if depth_cm == 100 {
            r.soil_temp_100_f
        } else {
            r.soil_temp_10_f
        };
        vals.push(v);
        i = i + 1;
    }
    vals
}

/// The map of `temp_at_depth` over a series.
pub open spec fn temps_of(s: Seq<EnvironmentalReading>, depth_cm: int) -> Seq<Option<i64>> {
    s.map_values(|r: EnvironmentalReading| temp_at_depth(r, depth_cm))
}

/// The map of `moisture_at_depth` over a series.
pub open spec fn moistures_of(s: Seq<EnvironmentalReading>, depth_cm: int) -> Seq<Option<i64>> {
    s.map_values(|r: EnvironmentalReading| moisture_at_depth(r, depth_cm))
}

/// Average soil temperature at a depth over a period; absent when no
/// reading reports that channel.
pub fn average_soil_temp(readings: &Vec<EnvironmentalReading>, depth_cm: u32) -> (r: Option<i64>)
    requires
        readings@.len() <= READINGS_MAX,
        readings_wf(readings@),
    ensures
        r == opt_avg(temps_of(readings@, depth_cm as int)),
        crate::environmental::opt_in_range(r),
{
    let vals = collect_temps(readings, depth_cm);
    proof {
        assert(vals@ =~= temps_of(readings@, depth_cm as int));
    }
    avg_of(&vals)
}

/// Average soil moisture at a depth over a period; absent when no reading
/// reports that channel.
pub fn average_soil_moisture(readings: &Vec<EnvironmentalReading>, depth_cm: u32) -> (r: Option<
    i64,
>)
    requires
        readings@.len() <= READINGS_MAX,
        readings_wf(readings@),
    ensures
        r == opt_avg(moistures_of(readings@, depth_cm as int)),
        crate::environmental::opt_in_range(r),
{
    let mut vals: Vec<Option<i64>> = Vec::new();
    let mut i: usize = 0;
    while i < readings.len()
        invariant
            0 <= i <= readings@.len(),
            readings_wf(readings@),
            vals@.len() == i,
            forall|k: int|
                0 <= k < i ==> #[trigger] vals@[k] == moisture_at_depth(
                    readings@[k],
                    depth_cm as int,
                ),
            forall|k: int|
                0 <= k < i ==> match #[trigger] vals@[k] {
                    Some(v) => -MEASURE_MILLI_MAX <= v <= MEASURE_MILLI_MAX,
                    None => true,
                },
        decreases readings@.len() - i,
    {
        let r = &readings[i];
        let v = if depth_cm == 5 {
            r.soil_moisture_5
        } else if depth_cm == 20 {
            r.soil_moisture_20
        } else if depth_cm == 50 {
            r.soil_moisture_50
        } else if depth_cm == 100 {
            r.soil_moisture_100
        } else {
            r.soil_moisture_10
        };
        vals.push(v);
        i = i + 1;
    }
    proof {
        assert(vals@ =~= moistures_of(readings@, depth_cm as int));
    }
    avg_of(&vals)
}

/// Summed non-negative precipitation over a period; negative values are
/// missing-data markers and are skipped.
pub open spec fn precip_sum(s: Seq<EnvironmentalReading>) -> int
    decreases s.len(),
{
    if s.len() == 0 {
        0
    } else {
        precip_sum(s.drop_last()) + match s.last().precipitation_mm {
            Some(p) => if p >= 0 {
                p as int
            } else {
                0
            },
            None => 0,
        }
    }
}

pub fn total_precipitation(readings: &Vec<EnvironmentalReading>) -> (r: i64)
    requires
        readings@.len() <= READINGS_MAX,
        readings_wf(readings@),
    ensures
        r == precip_sum(readings@),
        0 <= r <= TOTAL_MILLI_MAX,
{
    let mut sum: i64 = 0;
    let mut i: usize = 0;
    while i < readings.len()
        invariant
            0 <= i <= readings@.len() <= READINGS_MAX,
            readings_wf(readings@),
            sum == precip_sum(readings@.subrange(0, i as int)),
            0 <= sum <= i * MEASURE_MILLI_MAX,
        decreases readings@.len() - i,
    {
        proof {
            assert(readings@.subrange(0, i + 1).drop_last() =~= readings@.subrange(0, i as int));
            assert(readings@.subrange(0, i + 1).last() == readings@[i as int]);
        }
        match readings[i].precipitation_mm {
            Some(p) => {
                if p >= 0 {
                    sum = sum + p;
                }
            },
            None => {},
        }
        i = i + 1;
    }
    proof {
        assert(readings@.subrange(0, readings@.len() as int) =~= readings@);
    }
    sum
}

/// The present humidity values among the first `hours` readings.
pub open spec fn recent_humidity(s: Seq<EnvironmentalReading>, hours: int) -> Seq<Option<i64>> {
    s.take(if hours < s.len() {
        hours
    } else {
        s.len() as int
    }).map_values(|r: EnvironmentalReading| r.humidity_percent)
}

/// Whether humidity has been sustained at or above `threshold` over the
/// most recent `hours` readings: at least half the expected samples must be
/// present, and every present sample must meet the threshold.
pub fn sustained_high_humidity(
    readings: &Vec<EnvironmentalReading>,
    threshold: i64,
    hours: usize,
) -> (r: bool)
    requires
        readings@.len() <= READINGS_MAX,
        readings_wf(readings@),
    ensures
        r == ({
            let h = recent_humidity(readings@, hours as int);
            opt_count(h) >= hours / 2 && (forall|i: int|
                0 <= i < h.len() ==> match #[trigger] h[i] {
                    Some(v) => v >= threshold,
                    None => true,
                })
        }),
{
    let n = if hours < readings.len() {
        hours
    } else {
        readings.len()
    };
    let ghost h = recent_humidity(readings@, hours as int);
    proof {
        assert(h.len() == n);
    }
    let mut count: usize = 0;
    let mut all_ok: bool = true;
    let mut i: usize = 0;
    while i < n
        invariant
            0 <= i <= n <= readings@.len(),
            readings_wf(readings@),
            h == recent_humidity(readings@, hours as int),
            h.len() == n,
            forall|k: int| 0 <= k < n ==> #[trigger] h[k] == readings@[k].humidity_percent,
            count == opt_count(h.subrange(0, i as int)),
            count <= i,
            all_ok == (forall|k: int|
                0 <= k < i ==> match #[trigger] h[k] {
                    Some(v) => v >= threshold,
                    None => true,
                }),
        decreases n - i,
    {
        proof {
            assert(h.subrange(0, i + 1).drop_last() =~= h.subrange(0, i as int));
            assert(h.subrange(0, i + 1).last() == h[i as int]);
        }
        match readings[i].humidity_percent {
            Some(v) => {
                count = count + 1;
                if v < threshold {
                    all_ok = false;
                }
            },
            None => {},
        }
        i = i + 1;
    }
    proof {
        assert(h.subrange(0, n as int) =~= h);
    }
    count >= hours / 2 && all_ok
}

/// Summed fertilizer nitrogen rate since the season start (thousandths of a
/// pound per 1000 sqft).
pub open spec fn nitrogen_sum(s: Seq<Application>, season_start: Date) -> int
    decreases s.len(),
{
    if s.len() == 0 {
        0
    } else {
        nitrogen_sum(s.drop_last(), season_start) + ({
            let a = s.last();
            if a.application_type == ApplicationType::Fertilizer && spec_day_number(
                a.application_date,
            ) >= spec_day_number(season_start) {
                match a.rate_per_1000sqft {
                    Some(rt) => rt as int,
                    None => 0,
                }
            } else {
                0
            }
        })
    }
}

/// Nitrogen applied since the season start, summed over the fertilizer
/// records in the history.
pub fn nitrogen_this_season(applications: &Vec<Application>, season_start: Date) -> (r: i64)
    requires
        applications@.len() <= READINGS_MAX,
        crate::application::history_wf(applications@),
        season_start.valid(),
    ensures
        r == nitrogen_sum(applications@, season_start),
{
    let start_day = season_start.day_number();
    let mut sum: i64 = 0;
    let mut i: usize = 0;
    while i < applications.len()
        invariant
            0 <= i <= applications@.len() <= READINGS_MAX,
            crate::application::history_wf(applications@),
            season_start.valid(),
            start_day == spec_day_number(season_start),
            sum == nitrogen_sum(applications@.subrange(0, i as int), season_start),
            0 <= sum <= i * crate::application::APPLICATION_MILLI_MAX,
        decreases applications@.len() - i,
    {
        proof {
            assert(applications@.subrange(0, i + 1).drop_last() =~= applications@.subrange(
                0,
                i as int,
            ));
            assert(applications@.subrange(0, i + 1).last() == applications@[i as int]);
        }
        let a = &applications[i];
        if a.application_type == ApplicationType::Fertilizer && a.application_date.day_number()
            >= start_day {
            match a.rate_per_1000sqft {
                Some(rt) => {
                    proof {
                        vstd::arithmetic::mul::lemma_mul_inequality(
                            i as int,
                            READINGS_MAX as int,
                            crate::application::APPLICATION_MILLI_MAX as int,
                        );
                    }
                    sum = sum + rt;
                },
                None => {},
            }
        }
        i = i + 1;
    }
    proof {
        assert(applications@.subrange(0, applications@.len() as int) =~= applications@);
    }
    sum
}

/// The soil-temperature trend over the last two days of hourly readings
/// (most recent first): the 10 cm averages of the first 24 and the next 24
/// readings are compared; a difference above 2 °F is Rising, below -2 °F is
/// Falling, anything else Stable. Fewer than 48 readings, or either window
/// without a single 10 cm sample, give Unknown.
pub open spec fn spec_trend(s: Seq<EnvironmentalReading>) -> Trend {
    if s.len() < 48 {
        Trend::Unknown
    } else {
        let recent = temps_of(s.take(24), 10);
        let previous = temps_of(s.subrange(24, 48), 10);
        let nr = opt_count(recent);
        let np = opt_count(previous);
        if nr == 0 || np == 0 {
            Trend::Unknown
        } else {
            let lhs = opt_sum(recent) * np - opt_sum(previous) * nr;
            if lhs > 2000 * nr * np {
                Trend::Rising
            } else if lhs < -(2000 * nr * np) {
                Trend::Falling
            } else {
                Trend::Stable
            }
        }
    }
}

/// Compute the soil-temperature trend; compares the rolling averages as
/// exact rationals by cross-multiplication.
pub fn calculate_trend(readings: &Vec<EnvironmentalReading>) -> (t: Trend)
    requires
        readings@.len() <= READINGS_MAX,
        readings_wf(readings@),
    ensures
        t == spec_trend(readings@),
{
    if readings.len() < 48 {
        return Trend::Unknown;
    }
    let mut recent: Vec<Option<i64>> = Vec::new();
    let mut i: usize = 0;
    while i < 24
        invariant
            0 <= i <= 24,
            readings@.len() >= 48,
            readings_wf(readings@),
            recent@.len() == i,
            forall|k: int| 0 <= k < i ==> #[trigger] recent@[k] == temp_at_depth(readings@[k], 10),
            forall|k: int|
                0 <= k < i ==> match #[trigger] recent@[k] {
                    Some(v) => -MEASURE_MILLI_MAX <= v <= MEASURE_MILLI_MAX,
                    None => true,
                },
        decreases 24 - i,
    {
        recent.push(readings[i].soil_temp_10_f);
        i = i + 1;
    }
    let mut previous: Vec<Option<i64>> = Vec::new();
    let mut j: usize = 24;
    while j < 48
        invariant
            24 <= j <= 48,
            readings@.len() >= 48,
            readings_wf(readings@),
            previous@.len() == j - 24,
            forall|k: int|
                0 <= k < j - 24 ==> #[trigger] previous@[k] == temp_at_depth(
                    readings@[k + 24],
                    10,
                ),
            forall|k: int|
                0 <= k < j - 24 ==> match #[trigger] previous@[k] {
                    Some(v) => -MEASURE_MILLI_MAX <= v <= MEASURE_MILLI_MAX,
                    None => true,
                },
        decreases 48 - j,
    {
        previous.push(readings[j].soil_temp_10_f);
        j = j + 1;
    }
    proof {
        assert(recent@ =~= temps_of(readings@.take(24), 10));
        assert(previous@ =~= temps_of(readings@.subrange(24, 48), 10));
    }
    let (sum_r, nr) = channel_sum_count(&recent);
    let (sum_p, np) = channel_sum_count(&previous);
    if nr == 0 || np == 0 {
        return Trend::Unknown;
    }
    proof {
        lemma_opt_sum_bound(recent@, MEASURE_MILLI_MAX as int);
        lemma_opt_sum_bound(previous@, MEASURE_MILLI_MAX as int);
        assert(nr <= 24 && np <= 24);
        assert(sum_r * np <= 24 * MEASURE_MILLI_MAX * 24 && sum_r * np >= -(24
            * MEASURE_MILLI_MAX * 24)) by (nonlinear_arith)
            requires
                -(24 * MEASURE_MILLI_MAX) <= sum_r <= 24 * MEASURE_MILLI_MAX,
                0 <= np <= 24,
        ;
        assert(sum_p * nr <= 24 * MEASURE_MILLI_MAX * 24 && sum_p * nr >= -(24
            * MEASURE_MILLI_MAX * 24)) by (nonlinear_arith)
            requires
                -(24 * MEASURE_MILLI_MAX) <= sum_p <= 24 * MEASURE_MILLI_MAX,
                0 <= nr <= 24,
        ;
        assert(0 <= 2000 * (nr as int) * (np as int) <= 2000 * 24 * 24) by (nonlinear_arith)
            requires
                1 <= nr <= 24,
                1 <= np <= 24,
        ;
    }
    let lhs: i64 = sum_r * (np as i64) - sum_p * (nr as i64);
    let band: i64 = 2000 * (nr as i64) * (np as i64);
    if lhs > band {
        Trend::Rising
    } else if lhs < -band {
        Trend::Falling
    } else {
        Trend::Stable
    }
}

/// Assemble an environmental summary from a current reading and the last
/// seven days of readings: 10 cm soil-temperature, ambient-temperature and
/// humidity averages, total precipitation and the soil-temperature trend.
pub fn build_summary(
    current: Option<EnvironmentalReading>,
    readings: &Vec<EnvironmentalReading>,
    now: Timestamp,
) -> (s: EnvironmentalSummary)
    requires
        readings@.len() <= READINGS_MAX,
        readings_wf(readings@),
        match current {
            Some(c) => c.wf(),
            None => true,
        },
    ensures
        s.current == current,
        s.last_updated == Some(now),
        s.forecast is None,
        readings@.len() == 0 ==> {
            &&& s.soil_temp_7day_avg_f is None
            &&& s.ambient_temp_7day_avg_f is None
            &&& s.humidity_7day_avg is None
            &&& s.precipitation_7day_total_mm is None
            &&& s.soil_temp_trend == Trend::Stable
        },
        readings@.len() > 0 ==> {
            &&& s.soil_temp_7day_avg_f == opt_avg(temps_of(readings@, 10))
            &&& s.ambient_temp_7day_avg_f == opt_avg(
                readings@.map_values(|r: EnvironmentalReading| r.ambient_temp_f),
            )
            &&& s.humidity_7day_avg == opt_avg(
                readings@.map_values(|r: EnvironmentalReading| r.humidity_percent),
            )
            &&& s.precipitation_7day_total_mm == Some(precip_sum(readings@) as i64)
            &&& s.soil_temp_trend == spec_trend(readings@)
        },
        s.wf(),
{
    let mut summary = EnvironmentalSummary::empty();
    let ghost c = current;
    summary.current = current;
    summary.last_updated = Some(now);
    if readings.len() == 0 {
        return summary;
    }
    summary.soil_temp_7day_avg_f = average_soil_temp(readings, 10);
    let mut ambients: Vec<Option<i64>> = Vec::new();
    let mut humidities: Vec<Option<i64>> = Vec::new();
    let mut i: usize = 0;
    while i < readings.len()
        invariant
            0 <= i <= readings@.len() <= READINGS_MAX,
            readings_wf(readings@),
            ambients@.len() == i,
            humidities@.len() == i,
            forall|k: int| 0 <= k < i ==> #[trigger] ambients@[k] == readings@[k].ambient_temp_f,
            forall|k: int|
                0 <= k < i ==> #[trigger] humidities@[k] == readings@[k].humidity_percent,
            forall|k: int|
                0 <= k < i ==> match #[trigger] ambients@[k] {
                    Some(v) => -MEASURE_MILLI_MAX <= v <= MEASURE_MILLI_MAX,
                    None => true,
                },
            forall|k: int|
                0 <= k < i ==> match #[trigger] humidities@[k] {
                    Some(v) => -MEASURE_MILLI_MAX <= v <= MEASURE_MILLI_MAX,
                    None => true,
                },
        decreases readings@.len() - i,
    {
        ambients.push(readings[i].ambient_temp_f);
        humidities.push(readings[i].humidity_percent);
        i = i + 1;
    }
    proof {
        assert(ambients@ =~= readings@.map_values(|r: EnvironmentalReading| r.ambient_temp_f));
        assert(humidities@ =~= readings@.map_values(
            |r: EnvironmentalReading| r.humidity_percent,
        ));
    }
    summary.ambient_temp_7day_avg_f = avg_of(&ambients);
    summary.humidity_7day_avg = avg_of(&humidities);
    summary.precipitation_7day_total_mm = Some(total_precipitation(readings));
    summary.soil_temp_trend = calculate_trend(readings);
    proof {
        assert(crate::environmental::opt_in_range(summary.soil_temp_7day_avg_f));
        assert(crate::environmental::opt_in_range(summary.ambient_temp_7day_avg_f));
        assert(crate::environmental::opt_in_range(summary.humidity_7day_avg));
        assert(crate::environmental::opt_in_total_range(summary.precipitation_7day_total_mm));
    }
    summary
}

} // verus!
