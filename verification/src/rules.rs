//! The agronomic rule set.
//!
//! Every rule is a pure function from an environmental summary, a lawn
//! profile, an application history and the evaluation date and instant to an
//! optional recommendation. A rule that lacks a needed optional input
//! returns no recommendation — absence of data is a normal outcome, never an
//! error. Each rule's contract pins the full recommendation it produces.

pub mod application_window;
pub mod disease_pressure;
pub mod engine;
pub mod fall_fertilization;
pub mod fall_overseeding;
pub mod fertilizer;
pub mod fungicide;
pub mod grub_control;
pub mod heat_stress;
pub mod irrigation_forecast;
pub mod pre_emergent;
pub mod rain_delay;
pub mod spring_nitrogen;

use crate::application::{history_wf, Application, ApplicationType};
use crate::calculations::READINGS_MAX;
use crate::dates::{spec_day_number, Date, Timestamp};
use crate::environmental::EnvironmentalSummary;
use crate::profile::LawnProfile;
use vstd::prelude::*;

verus! {

/// What every rule requires of its inputs: well-formed values and a history
/// short enough to scan.
pub open spec fn inputs_wf(
    env: EnvironmentalSummary,
    profile: LawnProfile,
    history: Seq<Application>,
    today: Date,
    now: Timestamp,
) -> bool {
    &&& env.wf()
    &&& profile.wf()
    &&& history_wf(history)
    &&& history.len() <= READINGS_MAX
    &&& today.valid()
    &&& now.valid()
}

/// Whether a history record matches a duplicate-suppression query: one of
/// up to two action types, logged in the given year, and (when a window
/// start is given) on or after that day.
pub open spec fn app_matches(
    a: Application,
    ty: ApplicationType,
    ty2: Option<ApplicationType>,
    year: int,
    min_day: Option<int>,
) -> bool {
    &&& (a.application_type == ty || ty2 == Some(a.application_type))
    &&& a.application_date.year == year
    &&& match min_day {
        Some(d) => spec_day_number(a.application_date) >= d,
        None => true,
    }
}

/// Whether any history record matches the query.
pub open spec fn spec_has_matching(
    history: Seq<Application>,
    ty: ApplicationType,
    ty2: Option<ApplicationType>,
    year: int,
    min_day: Option<int>,
) -> bool {
    exists|i: int| 0 <= i < history.len() && app_matches(#[trigger] history[i], ty, ty2, year, min_day)
}

/// Scan the history for a qualifying record.
pub fn has_matching(
    history: &Vec<Application>,
    ty: ApplicationType,
    ty2: Option<ApplicationType>,
    year: i32,
    min_day: Option<i64>,
) -> (r: bool)
    requires
        history_wf(history@),
    ensures
        r == spec_has_matching(
            history@,
            ty,
            ty2,
            year as int,
            match min_day {
                Some(d) => Some(d as int),
                None => None,
            },
        ),
{
    let ghost mq: Option<int> = match min_day {
        Some(d) => Some(d as int),
        None => None,
    };
    let mut i: usize = 0;
    while i < history.len()
        invariant
            0 <= i <= history@.len(),
            history_wf(history@),
            mq == (match min_day {
                Some(d) => Some(d as int),
                None => None::<int>,
            }),
            forall|k: int| 0 <= k < i ==> !app_matches(#[trigger] history@[k], ty, ty2, year as int, mq),
        decreases history@.len() - i,
    {
        let a = &history[i];
        let type_ok = a.application_type == ty || match ty2 {
            Some(t2) => a.application_type == t2,
            None => false,
        };
        let year_ok = a.application_date.year == year;
        let day_ok = match min_day {
            Some(d) => a.application_date.day_number() >= d,
            None => true,
        };
        if type_ok && year_ok && day_ok {
            proof {
                assert(app_matches(history@[i as int], ty, ty2, year as int, mq));
            }
            return true;
        }
        i = i + 1;
    }
    false
}

/// How many history records match the query.
pub open spec fn spec_match_count(
    history: Seq<Application>,
    ty: ApplicationType,
    year: int,
    min_day: int,
) -> int
    decreases history.len(),
{
    if history.len() == 0 {
        0
    } else {
        spec_match_count(history.drop_last(), ty, year, min_day) + if app_matches(
            history.last(),
            ty,
            None,
            year,
            Some(min_day),
        ) {
            1int
        } else {
            0int
        }
    }
}

/// The latest application date (as a day number) among the matching
/// records.
pub open spec fn spec_last_match_day(
    history: Seq<Application>,
    ty: ApplicationType,
    year: int,
    min_day: int,
) -> Option<int>
    decreases history.len(),
{
    if history.len() == 0 {
        None
    } else {
        let rest = spec_last_match_day(history.drop_last(), ty, year, min_day);
        if app_matches(history.last(), ty, None, year, Some(min_day)) {
            let d = spec_day_number(history.last().application_date);
            match rest {
                None => Some(d),
                Some(m) => if d > m {
                    Some(d)
                } else {
                    Some(m)
                },
            }
        } else {
            rest
        }
    }
}

/// Count the matching records and find the latest matching date.
pub fn match_stats(
    history: &Vec<Application>,
    ty: ApplicationType,
    year: i32,
    min_day: i64,
) -> (r: (usize, Option<i64>))
    requires
        history_wf(history@),
        history@.len() <= READINGS_MAX,
    ensures
        r.0 == spec_match_count(history@, ty, year as int, min_day as int),
        match (r.1, spec_last_match_day(history@, ty, year as int, min_day as int)) {
            (None, None) => true,
            (Some(l), Some(d)) => l == d && 0 <= l <= 3000000,
            _ => false,
        },
{
    let mut count: usize = 0;
    let mut last: Option<i64> = None;
    let mut i: usize = 0;
    while i < history.len()
        invariant
            0 <= i <= history@.len() <= READINGS_MAX,
            history_wf(history@),
            count == spec_match_count(history@.subrange(0, i as int), ty, year as int, min_day as int),
            count <= i,
            match (last, spec_last_match_day(
                history@.subrange(0, i as int),
                ty,
                year as int,
                min_day as int,
            )) {
                (None, None) => true,
                (Some(l), Some(d)) => l == d && 0 <= l <= 3000000,
                _ => false,
            },
        decreases history@.len() - i,
    {
        proof {
            assert(history@.subrange(0, i + 1).drop_last() =~= history@.subrange(0, i as int));
            assert(history@.subrange(0, i + 1).last() == history@[i as int]);
        }
        let a = &history[i];
        if a.application_type == ty && a.application_date.year == year
            && a.application_date.day_number() >= min_day {
            count = count + 1;
            let d = a.application_date.day_number();
            last = match last {
                None => Some(d),
                Some(m) => if d > m {
                    Some(d)
                } else {
                    Some(m)
                },
            };
        }
        i = i + 1;
    }
    proof {
        assert(history@.subrange(0, history@.len() as int) =~= history@);
    }
    (count, last)
}

} // verus!
