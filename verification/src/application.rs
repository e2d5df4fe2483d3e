//! Application history: past lawn-care actions that the rules consult for
//! duplicate suppression and seasonal accounting.

use crate::dates::{Date, Timestamp};
use crate::text;
use vstd::prelude::*;

verus! {

/// Upper bound on the fixed-point quantities a record may carry
/// (thousandths of a unit).
pub const APPLICATION_MILLI_MAX: i64 = 1000000000000;

#[derive(Clone, Copy, PartialEq, Eq, Structural, Debug)]
pub enum ApplicationType {
    PreEmergent,
    PostEmergent,
    Fertilizer,
    Fungicide,
    Insecticide,
    GrubControl,
    Overseed,
    Aeration,
    Dethatching,
    Lime,
    Sulfur,
    Wetting,
    Other,
}

impl ApplicationType {
    pub fn as_str(&self) -> (r: &'static str)
        ensures
            r@ == self.spec_str(),
    {
        match self {
            ApplicationType::PreEmergent => "Pre-Emergent",
            ApplicationType::PostEmergent => "Post-Emergent",
            ApplicationType::Fertilizer => "Fertilizer",
            ApplicationType::Fungicide => "Fungicide",
            ApplicationType::Insecticide => "Insecticide",
            ApplicationType::GrubControl => "Grub Control",
            ApplicationType::Overseed => "Overseed",
            ApplicationType::Aeration => "Aeration",
            ApplicationType::Dethatching => "Dethatching",
            ApplicationType::Lime => "Lime",
            ApplicationType::Sulfur => "Sulfur",
            ApplicationType::Wetting => "Wetting Agent",
            ApplicationType::Other => "Other",
        }
    }

    pub open spec fn spec_str(self) -> Seq<char> {
        match self {
            ApplicationType::PreEmergent => "Pre-Emergent"@,
            ApplicationType::PostEmergent => "Post-Emergent"@,
            ApplicationType::Fertilizer => "Fertilizer"@,
            ApplicationType::Fungicide => "Fungicide"@,
            ApplicationType::Insecticide => "Insecticide"@,
            ApplicationType::GrubControl => "Grub Control"@,
            ApplicationType::Overseed => "Overseed"@,
            ApplicationType::Aeration => "Aeration"@,
            ApplicationType::Dethatching => "Dethatching"@,
            ApplicationType::Lime => "Lime"@,
            ApplicationType::Sulfur => "Sulfur"@,
            ApplicationType::Wetting => "Wetting Agent"@,
            ApplicationType::Other => "Other"@,
        }
    }

    pub open spec fn spec_from_str(s: Seq<char>) -> Option<ApplicationType> {
        let f = text::spec_folded(s, true);
        if f == "preemergent"@ {
            Some(ApplicationType::PreEmergent)
        } else if f == "postemergent"@ {
            Some(ApplicationType::PostEmergent)
        } else if f == "fertilizer"@ {
            Some(ApplicationType::Fertilizer)
        } else if f == "fungicide"@ {
            Some(ApplicationType::Fungicide)
        } else if f == "insecticide"@ {
            Some(ApplicationType::Insecticide)
        } else if f == "grubcontrol"@ {
            Some(ApplicationType::GrubControl)
        } else if f == "overseed"@ {
            Some(ApplicationType::Overseed)
        } else if f == "aeration"@ {
            Some(ApplicationType::Aeration)
        } else if f == "dethatching"@ {
            Some(ApplicationType::Dethatching)
        } else if f == "lime"@ {
            Some(ApplicationType::Lime)
        } else if f == "sulfur"@ {
            Some(ApplicationType::Sulfur)
        } else if f == "wetting"@ || f == "wettingagent"@ {
            Some(ApplicationType::Wetting)
        } else if f == "other"@ {
            Some(ApplicationType::Other)
        } else {
            None
        }
    }

    /// Parse a user-entered action type, ignoring letter case, hyphens and
    /// spaces.
    pub fn from_str(s: &str) -> (r: Option<ApplicationType>)
        ensures
            r == ApplicationType::spec_from_str(s@),
    {
        if text::folded_matches(s, "preemergent", true) {
            Some(ApplicationType::PreEmergent)
        } else if text::folded_matches(s, "postemergent", true) {
            Some(ApplicationType::PostEmergent)
        } else if text::folded_matches(s, "fertilizer", true) {
            Some(ApplicationType::Fertilizer)
        } else if text::folded_matches(s, "fungicide", true) {
            Some(ApplicationType::Fungicide)
        } else if text::folded_matches(s, "insecticide", true) {
            Some(ApplicationType::Insecticide)
        } else if text::folded_matches(s, "grubcontrol", true) {
            Some(ApplicationType::GrubControl)
        } else if text::folded_matches(s, "overseed", true) {
            Some(ApplicationType::Overseed)
        } else if text::folded_matches(s, "aeration", true) {
            Some(ApplicationType::Aeration)
        } else if text::folded_matches(s, "dethatching", true) {
            Some(ApplicationType::Dethatching)
        } else if text::folded_matches(s, "lime", true) {
            Some(ApplicationType::Lime)
        } else if text::folded_matches(s, "sulfur", true) {
            Some(ApplicationType::Sulfur)
        } else if text::folded_matches(s, "wetting", true) || text::folded_matches(
            s,
            "wettingagent",
            true,
        ) {
            Some(ApplicationType::Wetting)
        } else if text::folded_matches(s, "other", true) {
            Some(ApplicationType::Other)
        } else {
            None
        }
    }

    /// Every action type, in declaration order.
    pub fn all() -> (r: Vec<ApplicationType>)
        ensures
            r@ =~= seq![
                ApplicationType::PreEmergent,
                ApplicationType::PostEmergent,
                ApplicationType::Fertilizer,
                ApplicationType::Fungicide,
                ApplicationType::Insecticide,
                ApplicationType::GrubControl,
                ApplicationType::Overseed,
                ApplicationType::Aeration,
                ApplicationType::Dethatching,
                ApplicationType::Lime,
                ApplicationType::Sulfur,
                ApplicationType::Wetting,
                ApplicationType::Other,
            ],
    {
        let mut v: Vec<ApplicationType> = Vec::new();
        v.push(ApplicationType::PreEmergent);
        v.push(ApplicationType::PostEmergent);
        v.push(ApplicationType::Fertilizer);
        v.push(ApplicationType::Fungicide);
        v.push(ApplicationType::Insecticide);
        v.push(ApplicationType::GrubControl);
        v.push(ApplicationType::Overseed);
        v.push(ApplicationType::Aeration);
        v.push(ApplicationType::Dethatching);
        v.push(ApplicationType::Lime);
        v.push(ApplicationType::Sulfur);
        v.push(ApplicationType::Wetting);
        v.push(ApplicationType::Other);
        v
    }
}

/// Point-in-time weather captured when an action was logged; every field is
/// in thousandths of its unit.
#[derive(Clone, Copy, PartialEq, Eq, Structural, Debug)]
pub struct WeatherSnapshot {
    pub soil_temp_10cm_f: Option<i64>,
    pub ambient_temp_f: Option<i64>,
    pub humidity_percent: Option<i64>,
    pub soil_moisture: Option<i64>,
}

/// One logged lawn-care action. Rates and coverage are in thousandths of
/// their unit (pounds per 1000 sqft, square feet).
#[derive(Clone, Debug)]
pub struct Application {
    pub id: Option<i64>,
    pub lawn_profile_id: i64,
    pub application_type: ApplicationType,
    pub product_name: Option<String>,
    pub application_date: Date,
    pub rate_per_1000sqft: Option<i64>,
    pub coverage_sqft: Option<i64>,
    pub notes: Option<String>,
    pub weather_snapshot: Option<WeatherSnapshot>,
    pub created_at: Timestamp,
}

impl Application {
    /// The record's date is a real calendar date and its quantities are in
    /// the fixed-point range.
    pub open spec fn wf(self) -> bool {
        &&& self.application_date.valid()
        &&& match self.rate_per_1000sqft {
            Some(r) => 0 <= r <= APPLICATION_MILLI_MAX,
            None => true,
        }
        &&& match self.coverage_sqft {
            Some(c) => 0 <= c <= APPLICATION_MILLI_MAX,
            None => true,
        }
    }

    pub fn new(
        lawn_profile_id: i64,
        application_type: ApplicationType,
        date: Date,
        created_at: Timestamp,
    ) -> (r: Application)
        requires
            date.valid(),
        ensures
            r.id is None,
            r.lawn_profile_id == lawn_profile_id,
            r.application_type == application_type,
            r.product_name is None,
            r.application_date == date,
            r.rate_per_1000sqft is None,
            r.coverage_sqft is None,
            r.notes is None,
            r.weather_snapshot is None,
            r.created_at == created_at,
            r.wf(),
    {
        Application {
            id: None,
            lawn_profile_id,
            application_type,
            product_name: None,
            application_date: date,
            rate_per_1000sqft: None,
            coverage_sqft: None,
            notes: None,
            weather_snapshot: None,
            created_at,
        }
    }

    pub fn with_product(self, name: &str) -> (r: Application)
        ensures
            r == (Application { product_name: Some(r.product_name->0), ..self }),
            r.product_name->0@ == name@,
    {
        Application { product_name: Some(name.to_owned()), ..self }
    }

    pub fn with_rate(self, rate: i64) -> (r: Application)
        ensures
            r == (Application { rate_per_1000sqft: Some(rate), ..self }),
    {
        Application { rate_per_1000sqft: Some(rate), ..self }
    }

    pub fn with_coverage(self, sqft: i64) -> (r: Application)
        ensures
            r == (Application { coverage_sqft: Some(sqft), ..self }),
    {
        Application { coverage_sqft: Some(sqft), ..self }
    }

    pub fn with_notes(self, notes: &str) -> (r: Application)
        ensures
            r == (Application { notes: Some(r.notes->0), ..self }),
            r.notes->0@ == notes@,
    {
        Application { notes: Some(notes.to_owned()), ..self }
    }

    pub fn with_weather(self, snapshot: WeatherSnapshot) -> (r: Application)
        ensures
            r == (Application { weather_snapshot: Some(snapshot), ..self }),
    {
        Application { weather_snapshot: Some(snapshot), ..self }
    }
}

/// Every record in a history is well-formed.
pub open spec fn history_wf(history: Seq<Application>) -> bool {
    forall|i: int| 0 <= i < history.len() ==> (#[trigger] history[i]).wf()
}

} // verus!
