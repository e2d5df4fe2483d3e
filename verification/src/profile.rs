//! Lawn profiles: grass, soil and irrigation classifications plus the
//! profile record the rules read.

use crate::dates::Timestamp;
use crate::text;
use vstd::prelude::*;

verus! {

/// Upper bound on the fixed-point quantities a profile may carry
/// (thousandths of a unit).
pub const PROFILE_MILLI_MAX: i64 = 1000000000000;

#[derive(Clone, Copy, PartialEq, Eq, Structural, Debug)]
pub enum GrassType {
    KentuckyBluegrass,
    TallFescue,
    PerennialRyegrass,
    FineFescue,
    Bermuda,
    Zoysia,
    StAugustine,
    Mixed,
}

impl GrassType {
    pub fn as_str(&self) -> (r: &'static str)
        ensures
            r@ == self.spec_str(),
    {
        match self {
            GrassType::KentuckyBluegrass => "Kentucky Bluegrass",
            GrassType::TallFescue => "Tall Fescue",
            GrassType::PerennialRyegrass => "Perennial Ryegrass",
            GrassType::FineFescue => "Fine Fescue",
            GrassType::Bermuda => "Bermuda",
            GrassType::Zoysia => "Zoysia",
            GrassType::StAugustine => "St. Augustine",
            GrassType::Mixed => "Mixed",
        }
    }

    pub open spec fn spec_str(self) -> Seq<char> {
        match self {
            GrassType::KentuckyBluegrass => "Kentucky Bluegrass"@,
            GrassType::TallFescue => "Tall Fescue"@,
            GrassType::PerennialRyegrass => "Perennial Ryegrass"@,
            GrassType::FineFescue => "Fine Fescue"@,
            GrassType::Bermuda => "Bermuda"@,
            GrassType::Zoysia => "Zoysia"@,
            GrassType::StAugustine => "St. Augustine"@,
            GrassType::Mixed => "Mixed"@,
        }
    }

    /// Whether this species follows cool-season growth physiology; several
    /// rules gate entirely on this.
    pub fn is_cool_season(&self) -> (r: bool)
        ensures
            r == self.spec_cool_season(),
    {
        matches!(
            self,
            GrassType::KentuckyBluegrass
                | GrassType::TallFescue
                | GrassType::PerennialRyegrass
                | GrassType::FineFescue
        )
    }

    pub open spec fn spec_cool_season(self) -> bool {
        self == GrassType::KentuckyBluegrass || self == GrassType::TallFescue || self
            == GrassType::PerennialRyegrass || self == GrassType::FineFescue
    }

    pub open spec fn spec_from_str(s: Seq<char>) -> Option<GrassType> {
        let f = text::spec_folded(s, false);
        if f == "kentuckybluegrass"@ || f == "kentucky bluegrass"@ || f == "kbg"@ {
            Some(GrassType::KentuckyBluegrass)
        } else if f == "tallfescue"@ || f == "tall fescue"@ || f == "tttf"@ {
            Some(GrassType::TallFescue)
        } else if f == "perennialryegrass"@ || f == "perennial ryegrass"@ || f == "prg"@ {
            Some(GrassType::PerennialRyegrass)
        } else if f == "finefescue"@ || f == "fine fescue"@ {
            Some(GrassType::FineFescue)
        } else if f == "bermuda"@ {
            Some(GrassType::Bermuda)
        } else if f == "zoysia"@ {
            Some(GrassType::Zoysia)
        } else if f == "staugustine"@ || f == "st. augustine"@ || f == "st augustine"@ {
            Some(GrassType::StAugustine)
        } else if f == "mixed"@ {
            Some(GrassType::Mixed)
        } else {
            None
        }
    }

    /// Parse a user-entered grass type, ignoring letter case.
    pub fn from_str(s: &str) -> (r: Option<GrassType>)
        ensures
            r == GrassType::spec_from_str(s@),
    {
        if text::folded_matches(s, "kentuckybluegrass", false) || text::folded_matches(
            s,
            "kentucky bluegrass",
            false,
        ) || text::folded_matches(s, "kbg", false) {
            Some(GrassType::KentuckyBluegrass)
        } else if text::folded_matches(s, "tallfescue", false) || text::folded_matches(
            s,
            "tall fescue",
            false,
        ) || text::folded_matches(s, "tttf", false) {
            Some(GrassType::TallFescue)
        } else if text::folded_matches(s, "perennialryegrass", false) || text::folded_matches(
            s,
            "perennial ryegrass",
            false,
        ) || text::folded_matches(s, "prg", false) {
            Some(GrassType::PerennialRyegrass)
        } else if text::folded_matches(s, "finefescue", false) || text::folded_matches(
            s,
            "fine fescue",
            false,
        ) {
            Some(GrassType::FineFescue)
        } else if text::folded_matches(s, "bermuda", false) {
            Some(GrassType::Bermuda)
        } else if text::folded_matches(s, "zoysia", false) {
            Some(GrassType::Zoysia)
        } else if text::folded_matches(s, "staugustine", false) || text::folded_matches(
            s,
            "st. augustine",
            false,
        ) || text::folded_matches(s, "st augustine", false) {
            Some(GrassType::StAugustine)
        } else if text::folded_matches(s, "mixed", false) {
            Some(GrassType::Mixed)
        } else {
            None
        }
    }
}

#[derive(Clone, Copy, PartialEq, Eq, Structural, Debug)]
pub enum SoilType {
    Clay,
    Loam,
    Sandy,
    SiltLoam,
    ClayLoam,
    SandyLoam,
}

impl SoilType {
    pub fn as_str(&self) -> (r: &'static str)
        ensures
            r@ == self.spec_str(),
    {
        match self {
            SoilType::Clay => "Clay",
            SoilType::Loam => "Loam",
            SoilType::Sandy => "Sandy",
            SoilType::SiltLoam => "Silt Loam",
            SoilType::ClayLoam => "Clay Loam",
            SoilType::SandyLoam => "Sandy Loam",
        }
    }

    pub open spec fn spec_str(self) -> Seq<char> {
        match self {
            SoilType::Clay => "Clay"@,
            SoilType::Loam => "Loam"@,
            SoilType::Sandy => "Sandy"@,
            SoilType::SiltLoam => "Silt Loam"@,
            SoilType::ClayLoam => "Clay Loam"@,
            SoilType::SandyLoam => "Sandy Loam"@,
        }
    }

    pub open spec fn spec_from_str(s: Seq<char>) -> Option<SoilType> {
        let f = text::spec_folded(s, false);
        if f == "clay"@ {
            Some(SoilType::Clay)
        } else if f == "loam"@ {
            Some(SoilType::Loam)
        } else if f == "sandy"@ {
            Some(SoilType::Sandy)
        } else if f == "siltloam"@ || f == "silt loam"@ {
            Some(SoilType::SiltLoam)
        } else if f == "clayloam"@ || f == "clay loam"@ {
            Some(SoilType::ClayLoam)
        } else if f == "sandyloam"@ || f == "sandy loam"@ {
            Some(SoilType::SandyLoam)
        } else {
            None
        }
    }

    /// Parse a user-entered soil type, ignoring letter case.
    pub fn from_str(s: &str) -> (r: Option<SoilType>)
        ensures
            r == SoilType::spec_from_str(s@),
    {
        if text::folded_matches(s, "clay", false) {
            Some(SoilType::Clay)
        } else if text::folded_matches(s, "loam", false) {
            Some(SoilType::Loam)
        } else if text::folded_matches(s, "sandy", false) {
            Some(SoilType::Sandy)
        } else if text::folded_matches(s, "siltloam", false) || text::folded_matches(
            s,
            "silt loam",
            false,
        ) {
            Some(SoilType::SiltLoam)
        } else if text::folded_matches(s, "clayloam", false) || text::folded_matches(
            s,
            "clay loam",
            false,
        ) {
            Some(SoilType::ClayLoam)
        } else if text::folded_matches(s, "sandyloam", false) || text::folded_matches(
            s,
            "sandy loam",
            false,
        ) {
            Some(SoilType::SandyLoam)
        } else {
            None
        }
    }
}

#[derive(Clone, Copy, PartialEq, Eq, Structural, Debug)]
pub enum IrrigationType {
    InGround,
    Hose,
    NoIrrigation,
}

impl IrrigationType {
    pub fn as_str(&self) -> (r: &'static str)
        ensures
            r@ == self.spec_str(),
    {
        match self {
            IrrigationType::InGround => "In-Ground",
            IrrigationType::Hose => "Hose/Sprinkler",
            IrrigationType::NoIrrigation => "None",
        }
    }

    pub open spec fn spec_str(self) -> Seq<char> {
        match self {
            IrrigationType::InGround => "In-Ground"@,
            IrrigationType::Hose => "Hose/Sprinkler"@,
            IrrigationType::NoIrrigation => "None"@,
        }
    }

    pub open spec fn spec_from_str(s: Seq<char>) -> Option<IrrigationType> {
        let f = text::spec_folded(s, false);
        if f == "inground"@ || f == "in-ground"@ || f == "in ground"@ {
            Some(IrrigationType::InGround)
        } else if f == "hose"@ || f == "sprinkler"@ || f == "hose/sprinkler"@ {
            Some(IrrigationType::Hose)
        } else if f == "none"@ {
            Some(IrrigationType::NoIrrigation)
        } else {
            None
        }
    }

    /// Parse a user-entered irrigation type, ignoring letter case.
    pub fn from_str(s: &str) -> (r: Option<IrrigationType>)
        ensures
            r == IrrigationType::spec_from_str(s@),
    {
        if text::folded_matches(s, "inground", false) || text::folded_matches(s, "in-ground", false)
            || text::folded_matches(s, "in ground", false) {
            Some(IrrigationType::InGround)
        } else if text::folded_matches(s, "hose", false) || text::folded_matches(
            s,
            "sprinkler",
            false,
        ) || text::folded_matches(s, "hose/sprinkler", false) {
            Some(IrrigationType::Hose)
        } else if text::folded_matches(s, "none", false) {
            Some(IrrigationType::NoIrrigation)
        } else {
            None
        }
    }
}

/// A lawn profile; the engine only ever reads it. The lawn area is carried
/// in thousandths of a square foot.
#[derive(Clone, Debug)]
pub struct LawnProfile {
    pub id: Option<i64>,
    pub name: String,
    pub grass_type: GrassType,
    pub usda_zone: String,
    pub soil_type: Option<SoilType>,
    pub lawn_size_sqft: Option<i64>,
    pub irrigation_type: Option<IrrigationType>,
    pub created_at: Timestamp,
    pub updated_at: Timestamp,
}

impl LawnProfile {
    /// The profile's numeric fields are within the fixed-point range.
    pub open spec fn wf(self) -> bool {
        match self.lawn_size_sqft {
            Some(sz) => 0 <= sz <= PROFILE_MILLI_MAX,
            None => true,
        }
    }

    pub fn new(name: String, grass_type: GrassType, usda_zone: String, now: Timestamp) -> (r:
        LawnProfile)
        ensures
            r.id is None,
            r.name == name,
            r.grass_type == grass_type,
            r.usda_zone == usda_zone,
            r.soil_type is None,
            r.lawn_size_sqft is None,
            r.irrigation_type is None,
            r.created_at == now,
            r.updated_at == now,
            r.wf(),
    {
        LawnProfile {
            id: None,
            name,
            grass_type,
            usda_zone,
            soil_type: None,
            lawn_size_sqft: None,
            irrigation_type: None,
            created_at: now,
            updated_at: now,
        }
    }
}

} // verus!
