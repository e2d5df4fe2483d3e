//! Recommendations: the engine's output records.
//!
//! A `Recommendation` carries a rule identifier, a category, an ordered
//! severity, human-readable text, labeled data points and an optional
//! suggested action. Its mathematical model (`RecModel`) abstracts every
//! string as a character sequence, so each rule's contract can pin the full
//! record it produces.

use crate::dates::Timestamp;
use vstd::prelude::*;

verus! {

#[derive(Clone, Copy, PartialEq, Eq, Structural, Debug)]
pub enum RecommendationCategory {
    PreEmergent,
    GrubControl,
    Fertilizer,
    Fungicide,
    Overseeding,
    Irrigation,
    Mowing,
    FrostWarning,
    HeatStress,
    ApplicationTiming,
    DiseasePressure,
    General,
}

impl RecommendationCategory {
    pub fn as_str(&self) -> (r: &'static str)
        ensures
            r@ == self.spec_str(),
    {
        match self {
            RecommendationCategory::PreEmergent => "Pre-Emergent",
            RecommendationCategory::GrubControl => "Grub Control",
            RecommendationCategory::Fertilizer => "Fertilizer",
            RecommendationCategory::Fungicide => "Fungicide",
            RecommendationCategory::Overseeding => "Overseeding",
            RecommendationCategory::Irrigation => "Irrigation",
            RecommendationCategory::Mowing => "Mowing",
            RecommendationCategory::FrostWarning => "Frost Warning",
            RecommendationCategory::HeatStress => "Heat Stress",
            RecommendationCategory::ApplicationTiming => "Application Timing",
            RecommendationCategory::DiseasePressure => "Disease Pressure",
            RecommendationCategory::General => "General",
        }
    }

    pub open spec fn spec_str(self) -> Seq<char> {
        match self {
            RecommendationCategory::PreEmergent => "Pre-Emergent"@,
            RecommendationCategory::GrubControl => "Grub Control"@,
            RecommendationCategory::Fertilizer => "Fertilizer"@,
            RecommendationCategory::Fungicide => "Fungicide"@,
            RecommendationCategory::Overseeding => "Overseeding"@,
            RecommendationCategory::Irrigation => "Irrigation"@,
            RecommendationCategory::Mowing => "Mowing"@,
            RecommendationCategory::FrostWarning => "Frost Warning"@,
            RecommendationCategory::HeatStress => "Heat Stress"@,
            RecommendationCategory::ApplicationTiming => "Application Timing"@,
            RecommendationCategory::DiseasePressure => "Disease Pressure"@,
            RecommendationCategory::General => "General"@,
        }
    }
}

/// Urgency tiers, ordered `Info < Advisory < Warning < Critical`.
#[derive(Clone, Copy, PartialEq, Eq, PartialOrd, Ord, Structural, Debug)]
pub enum Severity {
    Info,
    Advisory,
    Warning,
    Critical,
}

impl Severity {
    /// Position in the severity order: `Info` is 0, `Critical` is 3.
    pub open spec fn spec_rank(self) -> int {
        match self {
            Severity::Info => 0,
            Severity::Advisory => 1,
            Severity::Warning => 2,
            Severity::Critical => 3,
        }
    }

    pub fn rank(&self) -> (r: u32)
        ensures
            r == self.spec_rank(),
    {
        match self {
            Severity::Info => 0,
            Severity::Advisory => 1,
            Severity::Warning => 2,
            Severity::Critical => 3,
        }
    }

    pub fn as_str(&self) -> (r: &'static str)
        ensures
            r@ == self.spec_str(),
    {
        match self {
            Severity::Info => "Info",
            Severity::Advisory => "Advisory",
            Severity::Warning => "Warning",
            Severity::Critical => "Critical",
        }
    }

    pub open spec fn spec_str(self) -> Seq<char> {
        match self {
            Severity::Info => "Info"@,
            Severity::Advisory => "Advisory"@,
            Severity::Warning => "Warning"@,
            Severity::Critical => "Critical"@,
        }
    }

    pub fn symbol(&self) -> (r: &'static str)
        ensures
            r@ == match self {
                Severity::Info => "i"@,
                Severity::Advisory => ">"@,
                Severity::Warning => "!"@,
                Severity::Critical => "!!"@,
            },
    {
        match self {
            Severity::Info => "i",
            Severity::Advisory => ">",
            Severity::Warning => "!",
            Severity::Critical => "!!",
        }
    }
}

/// One labeled measurement shown beside a recommendation.
#[derive(Clone, Debug)]
pub struct DataPoint {
    pub label: String,
    pub value: String,
    pub source: String,
}

pub struct DataPointModel {
    pub label: Seq<char>,
    pub value: Seq<char>,
    pub source: Seq<char>,
}

impl View for DataPoint {
    type V = DataPointModel;

    open spec fn view(&self) -> DataPointModel {
        DataPointModel { label: self.label@, value: self.value@, source: self.source@ }
    }
}

/// Model of a data point built from borrowed label and source and an owned
/// value.
pub open spec fn dp_model(label: Seq<char>, value: Seq<char>, source: Seq<char>) -> DataPointModel {
    DataPointModel { label, value, source }
}

impl DataPoint {
    pub fn new(label: &str, value: String, source: &str) -> (r: DataPoint)
        ensures
            r@ == dp_model(label@, value@, source@),
    {
        DataPoint { label: label.to_owned(), value, source: source.to_owned() }
    }
}

/// The mathematical model of a recommendation.
#[verifier::ext_equal]
pub struct RecModel {
    pub id: Seq<char>,
    pub category: RecommendationCategory,
    pub severity: Severity,
    pub title: Seq<char>,
    pub description: Seq<char>,
    pub explanation: Seq<char>,
    pub data_points: Seq<DataPointModel>,
    pub suggested_action: Option<Seq<char>>,
    pub created_at: Timestamp,
    pub dismissed: bool,
    pub addressed: bool,
}

impl RecModel {
    pub open spec fn with_explanation(self, explanation: Seq<char>) -> RecModel {
        RecModel { explanation, ..self }
    }

    pub open spec fn with_data_point(
        self,
        label: Seq<char>,
        value: Seq<char>,
        source: Seq<char>,
    ) -> RecModel {
        RecModel { data_points: self.data_points.push(dp_model(label, value, source)), ..self }
    }

    pub open spec fn with_action(self, action: Seq<char>) -> RecModel {
        RecModel { suggested_action: Some(action), ..self }
    }
}

/// A freshly built recommendation: no explanation, no data points, no
/// suggested action, and both user flags clear.
pub open spec fn rec_model(
    id: Seq<char>,
    category: RecommendationCategory,
    severity: Severity,
    title: Seq<char>,
    description: Seq<char>,
    created_at: Timestamp,
) -> RecModel {
    RecModel {
        id,
        category,
        severity,
        title,
        description,
        explanation: Seq::empty(),
        data_points: Seq::empty(),
        suggested_action: None,
        created_at,
        dismissed: false,
        addressed: false,
    }
}

/// An engine-produced recommendation record. The `dismissed` and
/// `addressed` flags belong to the consumer; the engine always leaves them
/// clear.
#[derive(Clone, Debug)]
pub struct Recommendation {
    pub id: String,
    pub category: RecommendationCategory,
    pub severity: Severity,
    pub title: String,
    pub description: String,
    pub explanation: String,
    pub data_points: Vec<DataPoint>,
    pub suggested_action: Option<String>,
    pub created_at: Timestamp,
    pub dismissed: bool,
    pub addressed: bool,
}

impl View for Recommendation {
    type V = RecModel;

    open spec fn view(&self) -> RecModel {
        RecModel {
            id: self.id@,
            category: self.category,
            severity: self.severity,
            title: self.title@,
            description: self.description@,
            explanation: self.explanation@,
            data_points: self.data_points@.map_values(|d: DataPoint| d@),
            suggested_action: match self.suggested_action {
                Some(ref a) => Some(a@),
                None => None,
            },
            created_at: self.created_at,
            dismissed: self.dismissed,
            addressed: self.addressed,
        }
    }
}

impl Recommendation {
    pub fn new(
        id: String,
        category: RecommendationCategory,
        severity: Severity,
        title: String,
        description: String,
        created_at: Timestamp,
    ) -> (r: Recommendation)
        ensures
            r@ == rec_model(id@, category, severity, title@, description@, created_at),
    {
        let r = Recommendation {
            id,
            category,
            severity,
            title,
            description,
            explanation: String::new(),
            data_points: Vec::new(),
            suggested_action: None,
            created_at,
            dismissed: false,
            addressed: false,
        };
        proof {
            assert(r@ =~= rec_model(r.id@, category, severity, r.title@, r.description@, created_at));
        }
        r
    }

    pub fn with_explanation(self, explanation: String) -> (r: Recommendation)
        ensures
            r@ == self@.with_explanation(explanation@),
    {
        let ghost m = self@;
        let ghost e = explanation@;
        let r = Recommendation { explanation, ..self };
        proof {
            assert(r@ =~= m.with_explanation(e));
        }
        r
    }

    pub fn with_data_point(self, label: &str, value: String, source: &str) -> (r: Recommendation)
        ensures
            r@ == self@.with_data_point(label@, value@, source@),
    {
        let ghost m = self@;
        let ghost v = value@;
        let Recommendation {
            id,
            category,
            severity,
            title,
            description,
            explanation,
            mut data_points,
            suggested_action,
            created_at,
            dismissed,
            addressed,
        } = self;
        data_points.push(DataPoint::new(label, value, source));
        let r = Recommendation {
            id,
            category,
            severity,
            title,
            description,
            explanation,
            data_points,
            suggested_action,
            created_at,
            dismissed,
            addressed,
        };
        proof {
            assert(r.data_points@.map_values(|d: DataPoint| d@) =~= m.data_points.push(
                dp_model(label@, v, source@),
            ));
            assert(r@ =~= m.with_data_point(label@, v, source@));
        }
        r
    }

    pub fn with_action(self, action: String) -> (r: Recommendation)
        ensures
            r@ == self@.with_action(action@),
    {
        let ghost m = self@;
        let ghost a = action@;
        let r = Recommendation { suggested_action: Some(action), ..self };
        proof {
            assert(r@ =~= m.with_action(a));
        }
        r
    }

    /// Active means neither dismissed nor addressed.
    pub fn is_active(&self) -> (r: bool)
        ensures
            r == (!self.dismissed && !self.addressed),
    {
        !self.dismissed && !self.addressed
    }
}

/// The model of an optional recommendation.
pub open spec fn opt_model(r: Option<Recommendation>) -> Option<RecModel> {
    match r {
        Some(rec) => Some(rec@),
        None => None,
    }
}

} // verus!
