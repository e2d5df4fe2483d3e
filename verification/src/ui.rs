//! Interaction state for the terminal front end.
//!
//! Only the pure state machines live here: screen selection, list
//! selection and filtering, the calendar cursor and the settings editor.
//! Rendering belongs to the caller.

use crate::application::ApplicationType;
use crate::dates::{Date, MAX_YEAR, MIN_YEAR};
use crate::profile::{GrassType, IrrigationType, LawnProfile, SoilType};
use crate::text;
use vstd::prelude::*;
use vstd::string::StringSliceAdditionalSpecFns;

verus! {

#[derive(Clone, Copy, PartialEq, Eq, Structural, Debug)]
pub enum Screen {
    Dashboard,
    Calendar,
    Applications,
    Environmental,
    Recommendations,
    Settings,
}

impl Screen {
    /// The screen bound to a keyboard shortcut, if any.
    pub fn from_key(c: char) -> (r: Option<Screen>)
        ensures
            r == Screen::spec_from_key(c),
    {
        match c {
            '1' => Some(Screen::Dashboard),
            '2' => Some(Screen::Calendar),
            '3' => Some(Screen::Applications),
            '4' => Some(Screen::Environmental),
            '5' => Some(Screen::Recommendations),
            's' | 'S' => Some(Screen::Settings),
            _ => None,
        }
    }

    pub open spec fn spec_from_key(c: char) -> Option<Screen> {
        if c == '1' {
            Some(Screen::Dashboard)
        } else if c == '2' {
            Some(Screen::Calendar)
        } else if c == '3' {
            Some(Screen::Applications)
        } else if c == '4' {
            Some(Screen::Environmental)
        } else if c == '5' {
            Some(Screen::Recommendations)
        } else if c == 's' || c == 'S' {
            Some(Screen::Settings)
        } else {
            None
        }
    }
}

/// The dashboard is read-only and carries no state.
pub struct DashboardState {}

impl DashboardState {
    pub fn new() -> DashboardState {
        DashboardState {  }
    }
}

/// The calendar cursor: a year and month in view and an optional selected
/// date.
#[derive(Clone, Copy, PartialEq, Eq, Structural, Debug)]
pub struct CalendarState {
    pub year: i32,
    pub month: u32,
    pub selected_date: Option<Date>,
}

impl CalendarState {
    /// Open the calendar on today's month with today selected.
    pub fn new(today: Date) -> (r: CalendarState)
        requires
            today.valid(),
        ensures
            r.year == today.year,
            r.month == today.month,
            r.selected_date == Some(today),
    {
        CalendarState { year: today.year, month: today.month, selected_date: Some(today) }
    }

    /// Step one month back, rolling over the year boundary.
    pub fn prev_month(&mut self)
        requires
            1 <= old(self).month <= 12,
            MIN_YEAR < old(self).year <= MAX_YEAR,
        ensures
            final(self).month == if old(self).month == 1 {
                12int
            } else {
                old(self).month - 1
            },
            final(self).year == if old(self).month == 1 {
                old(self).year - 1
            } else {
                old(self).year as int
            },
            final(self).selected_date == old(self).selected_date,
    {
        if self.month == 1 {
            self.month = 12;
            self.year = self.year - 1;
        } else {
            self.month = self.month - 1;
        }
    }

    /// Step one month forward, rolling over the year boundary.
    pub fn next_month(&mut self)
        requires
            1 <= old(self).month <= 12,
            MIN_YEAR <= old(self).year < MAX_YEAR,
        ensures
            final(self).month == if old(self).month == 12 {
                1int
            } else {
                old(self).month + 1
            },
            final(self).year == if old(self).month == 12 {
                old(self).year + 1
            } else {
                old(self).year as int
            },
            final(self).selected_date == old(self).selected_date,
    {
        if self.month == 12 {
            self.month = 1;
            self.year = self.year + 1;
        } else {
            self.month = self.month + 1;
        }
    }
}

/// Selection and filter state of the applications table.
#[derive(Clone, Copy, PartialEq, Eq, Structural, Debug)]
pub struct ApplicationsState {
    pub selected_index: usize,
    pub filter_type: Option<ApplicationType>,
}

impl ApplicationsState {
    pub fn new() -> (r: ApplicationsState)
        ensures
            r.selected_index == 0,
            r.filter_type is None,
    {
        ApplicationsState { selected_index: 0, filter_type: None }
    }

    /// Move the selection down, never past the last of `max` rows.
    pub fn next(&mut self, max: usize)
        ensures
            final(self).selected_index == if max > 0 && old(self).selected_index < max - 1 {
                old(self).selected_index + 1
            } else {
                old(self).selected_index as int
            },
            final(self).filter_type == old(self).filter_type,
    {
        if max > 0 && self.selected_index < max - 1 {
            self.selected_index = self.selected_index + 1;
        }
    }

    /// Move the selection up, never before the first row.
    pub fn prev(&mut self)
        ensures
            final(self).selected_index == if old(self).selected_index > 0 {
                old(self).selected_index - 1
            } else {
                0int
            },
            final(self).filter_type == old(self).filter_type,
    {
        if self.selected_index > 0 {
            self.selected_index = self.selected_index - 1;
        }
    }

    /// Cycle the type filter through the common action types and back to
    /// no filter, resetting the selection.
    pub fn cycle_filter(&mut self)
        ensures
            final(self).selected_index == 0,
            final(self).filter_type == ApplicationsState::spec_next_filter(old(self).filter_type),
    {
        self.filter_type = match self.filter_type {
            None => Some(ApplicationType::PreEmergent),
            Some(ApplicationType::PreEmergent) => Some(ApplicationType::Fertilizer),
            Some(ApplicationType::Fertilizer) => Some(ApplicationType::Fungicide),
            Some(ApplicationType::Fungicide) => Some(ApplicationType::GrubControl),
            Some(ApplicationType::GrubControl) => Some(ApplicationType::Overseed),
            Some(ApplicationType::Overseed) => None,
            Some(_) => None,
        };
        self.selected_index = 0;
    }

    pub open spec fn spec_next_filter(f: Option<ApplicationType>) -> Option<ApplicationType> {
        match f {
            None => Some(ApplicationType::PreEmergent),
            Some(ApplicationType::PreEmergent) => Some(ApplicationType::Fertilizer),
            Some(ApplicationType::Fertilizer) => Some(ApplicationType::Fungicide),
            Some(ApplicationType::Fungicide) => Some(ApplicationType::GrubControl),
            Some(ApplicationType::GrubControl) => Some(ApplicationType::Overseed),
            _ => None,
        }
    }
}

/// Selection state of the recommendations list.
#[derive(Clone, Copy, PartialEq, Eq, Structural, Debug)]
pub struct RecommendationsState {
    pub selected_index: usize,
}

impl RecommendationsState {
    pub fn new() -> (r: RecommendationsState)
        ensures
            r.selected_index == 0,
    {
        RecommendationsState { selected_index: 0 }
    }

    /// Move the selection down, never past the last of `max` rows.
    pub fn next(&mut self, max: usize)
        ensures
            final(self).selected_index == if max > 0 && old(self).selected_index < max - 1 {
                old(self).selected_index + 1
            } else {
                old(self).selected_index as int
            },
    {
        if max > 0 && self.selected_index < max - 1 {
            self.selected_index = self.selected_index + 1;
        }
    }

    /// Move the selection up, never before the first row.
    pub fn prev(&mut self)
        ensures
            final(self).selected_index == if old(self).selected_index > 0 {
                old(self).selected_index - 1
            } else {
                0int
            },
    {
        if self.selected_index > 0 {
            self.selected_index = self.selected_index - 1;
        }
    }
}

/// The editable fields of the settings form, in display order.
#[derive(Clone, Copy, PartialEq, Eq, Structural, Debug)]
pub enum SettingsField {
    Name,
    GrassType,
    UsdaZone,
    SoilType,
    LawnSize,
    IrrigationType,
}

impl SettingsField {
    /// Every field, in display order.
    pub fn all() -> (r: Vec<SettingsField>)
        ensures
            r@ =~= seq![
                SettingsField::Name,
                SettingsField::GrassType,
                SettingsField::UsdaZone,
                SettingsField::SoilType,
                SettingsField::LawnSize,
                SettingsField::IrrigationType,
            ],
    {
        let mut v: Vec<SettingsField> = Vec::new();
        v.push(SettingsField::Name);
        v.push(SettingsField::GrassType);
        v.push(SettingsField::UsdaZone);
        v.push(SettingsField::SoilType);
        v.push(SettingsField::LawnSize);
        v.push(SettingsField::IrrigationType);
        v
    }

    pub fn label(&self) -> (r: &'static str)
        ensures
            r@ == match self {
                SettingsField::Name => "Lawn Name"@,
                SettingsField::GrassType => "Grass Type"@,
                SettingsField::UsdaZone => "USDA Zone"@,
                SettingsField::SoilType => "Soil Type"@,
                SettingsField::LawnSize => "Lawn Size (sqft)"@,
                SettingsField::IrrigationType => "Irrigation"@,
            },
    {
        match self {
            SettingsField::Name => "Lawn Name",
            SettingsField::GrassType => "Grass Type",
            SettingsField::UsdaZone => "USDA Zone",
            SettingsField::SoilType => "Soil Type",
            SettingsField::LawnSize => "Lawn Size (sqft)",
            SettingsField::IrrigationType => "Irrigation",
        }
    }

    pub open spec fn spec_next(self) -> SettingsField {
        match self {
            SettingsField::Name => SettingsField::GrassType,
            SettingsField::GrassType => SettingsField::UsdaZone,
            SettingsField::UsdaZone => SettingsField::SoilType,
            SettingsField::SoilType => SettingsField::LawnSize,
            SettingsField::LawnSize => SettingsField::IrrigationType,
            SettingsField::IrrigationType => SettingsField::Name,
        }
    }

    /// The field after this one, wrapping at the end of the form.
    pub fn next(&self) -> (r: SettingsField)
        ensures
            r == self.spec_next(),
    {
        match self {
            SettingsField::Name => SettingsField::GrassType,
            SettingsField::GrassType => SettingsField::UsdaZone,
            SettingsField::UsdaZone => SettingsField::SoilType,
            SettingsField::SoilType => SettingsField::LawnSize,
            SettingsField::LawnSize => SettingsField::IrrigationType,
            SettingsField::IrrigationType => SettingsField::Name,
        }
    }

    /// The field before this one, wrapping at the start of the form; the
    /// inverse of `next`.
    pub fn prev(&self) -> (r: SettingsField)
        ensures
            r == SettingsField::spec_prev(*self),
            r.spec_next() == *self,
    {
        match self {
            SettingsField::Name => SettingsField::IrrigationType,
            SettingsField::GrassType => SettingsField::Name,
            SettingsField::UsdaZone => SettingsField::GrassType,
            SettingsField::SoilType => SettingsField::UsdaZone,
            SettingsField::LawnSize => SettingsField::SoilType,
            SettingsField::IrrigationType => SettingsField::LawnSize,
        }
    }

    pub open spec fn spec_prev(f: SettingsField) -> SettingsField {
        match f {
            SettingsField::Name => SettingsField::IrrigationType,
            SettingsField::GrassType => SettingsField::Name,
            SettingsField::UsdaZone => SettingsField::GrassType,
            SettingsField::SoilType => SettingsField::UsdaZone,
            SettingsField::LawnSize => SettingsField::SoilType,
            SettingsField::IrrigationType => SettingsField::LawnSize,
        }
    }
}

/// The settings editor: the focused field and the in-progress edit.
pub struct SettingsState {
    pub focused_field: SettingsField,
    pub editing: bool,
    pub edit_buffer: String,
    pub profile_modified: bool,
}

impl SettingsState {
    pub fn new() -> (r: SettingsState)
        ensures
            r.focused_field == SettingsField::Name,
            r.editing == false,
            r.edit_buffer@ == Seq::<char>::empty(),
            r.profile_modified == false,
    {
        SettingsState {
            focused_field: SettingsField::Name,
            editing: false,
            edit_buffer: String::new(),
            profile_modified: false,
        }
    }

    pub fn next_field(&mut self)
        ensures
            final(self).focused_field == old(self).focused_field.spec_next(),
            final(self).editing == old(self).editing,
            final(self).edit_buffer == old(self).edit_buffer,
            final(self).profile_modified == old(self).profile_modified,
    {
        self.focused_field = self.focused_field.next();
    }

    pub fn prev_field(&mut self)
        ensures
            final(self).focused_field == SettingsField::spec_prev(old(self).focused_field),
            final(self).editing == old(self).editing,
            final(self).edit_buffer == old(self).edit_buffer,
            final(self).profile_modified == old(self).profile_modified,
    {
        self.focused_field = self.focused_field.prev();
    }

    /// Begin editing the focused field, seeding the buffer with its
    /// current value.
    pub fn start_editing(&mut self, current_value: &str)
        ensures
            final(self).editing == true,
            final(self).edit_buffer@ == current_value@,
            final(self).focused_field == old(self).focused_field,
            final(self).profile_modified == old(self).profile_modified,
    {
        self.editing = true;
        self.edit_buffer = current_value.to_owned();
    }

    /// Abandon the edit, clearing the buffer.
    pub fn cancel_editing(&mut self)
        ensures
            final(self).editing == false,
            final(self).edit_buffer@ == Seq::<char>::empty(),
            final(self).focused_field == old(self).focused_field,
            final(self).profile_modified == old(self).profile_modified,
    {
        self.editing = false;
        self.edit_buffer = String::new();
    }

    /// Commit the edit: hand the buffer out, clear it and mark the profile
    /// modified.
    pub fn finish_editing(&mut self) -> (r: String)
        ensures
            r@ == old(self).edit_buffer@,
            final(self).editing == false,
            final(self).edit_buffer@ == Seq::<char>::empty(),
            final(self).profile_modified == true,
            final(self).focused_field == old(self).focused_field,
    {
        self.editing = false;
        self.profile_modified = true;
        let r = self.edit_buffer.clone();
        self.edit_buffer = String::new();
        r
    }
}

/// The variant identifier of a grass type, as the settings form shows it.
pub fn grass_type_ident(g: GrassType) -> (r: &'static str)
    ensures
        r@ == spec_grass_type_ident(g),
{
    match g {
        GrassType::KentuckyBluegrass => "KentuckyBluegrass",
        GrassType::TallFescue => "TallFescue",
        GrassType::PerennialRyegrass => "PerennialRyegrass",
        GrassType::FineFescue => "FineFescue",
        GrassType::Bermuda => "Bermuda",
        GrassType::Zoysia => "Zoysia",
        GrassType::StAugustine => "StAugustine",
        GrassType::Mixed => "Mixed",
    }
}

pub open spec fn spec_grass_type_ident(g: GrassType) -> Seq<char> {
    match g {
        GrassType::KentuckyBluegrass => "KentuckyBluegrass"@,
        GrassType::TallFescue => "TallFescue"@,
        GrassType::PerennialRyegrass => "PerennialRyegrass"@,
        GrassType::FineFescue => "FineFescue"@,
        GrassType::Bermuda => "Bermuda"@,
        GrassType::Zoysia => "Zoysia"@,
        GrassType::StAugustine => "StAugustine"@,
        GrassType::Mixed => "Mixed"@,
    }
}

/// The variant identifier of a soil type.
pub fn soil_type_ident(s: SoilType) -> (r: &'static str)
    ensures
        r@ == spec_soil_type_ident(s),
{
    match s {
        SoilType::Clay => "Clay",
        SoilType::Loam => "Loam",
        SoilType::Sandy => "Sandy",
        SoilType::SiltLoam => "SiltLoam",
        SoilType::ClayLoam => "ClayLoam",
        SoilType::SandyLoam => "SandyLoam",
    }
}

pub open spec fn spec_soil_type_ident(s: SoilType) -> Seq<char> {
    match s {
        SoilType::Clay => "Clay"@,
        SoilType::Loam => "Loam"@,
        SoilType::Sandy => "Sandy"@,
        SoilType::SiltLoam => "SiltLoam"@,
        SoilType::ClayLoam => "ClayLoam"@,
        SoilType::SandyLoam => "SandyLoam"@,
    }
}

/// The variant identifier of an irrigation type.
pub fn irrigation_type_ident(i: IrrigationType) -> (r: &'static str)
    ensures
        r@ == spec_irrigation_type_ident(i),
{
    match i {
        IrrigationType::InGround => "InGround",
        IrrigationType::Hose => "Hose",
        IrrigationType::NoIrrigation => "NoIrrigation",
    }
}

pub open spec fn spec_irrigation_type_ident(i: IrrigationType) -> Seq<char> {
    match i {
        IrrigationType::InGround => "InGround"@,
        IrrigationType::Hose => "Hose"@,
        IrrigationType::NoIrrigation => "NoIrrigation"@,
    }
}

/// The value of one settings field, rendered for the editor: identifiers
/// for the enumerated fields, the plain number for the lawn size, and an
/// empty string for an unset optional field.
pub open spec fn spec_field_value(profile: LawnProfile, field: SettingsField) -> Seq<char> {
    match field {
        SettingsField::Name => profile.name@,
        SettingsField::GrassType => spec_grass_type_ident(profile.grass_type),
        SettingsField::UsdaZone => profile.usda_zone@,
        SettingsField::SoilType => match profile.soil_type {
            Some(s) => spec_soil_type_ident(s),
            None => Seq::empty(),
        },
        SettingsField::LawnSize => match profile.lawn_size_sqft {
            Some(sz) => text::spec_milli_trim(sz as int),
            None => Seq::empty(),
        },
        SettingsField::IrrigationType => match profile.irrigation_type {
            Some(i) => spec_irrigation_type_ident(i),
            None => Seq::empty(),
        },
    }
}

/// Read one settings field of the profile as editable text.
pub fn get_field_value(profile: &LawnProfile, field: SettingsField) -> (r: String)
    requires
        profile.wf(),
    ensures
        r@ == spec_field_value(*profile, field),
{
    match field {
        SettingsField::Name => profile.name.clone(),
        SettingsField::GrassType => String::from_str(grass_type_ident(profile.grass_type)),
        SettingsField::UsdaZone => profile.usda_zone.clone(),
        SettingsField::SoilType => match profile.soil_type {
            Some(s) => String::from_str(soil_type_ident(s)),
            None => String::new(),
        },
        SettingsField::LawnSize => match profile.lawn_size_sqft {
            Some(sz) => text::fmt_milli_trim(sz),
            None => String::new(),
        },
        SettingsField::IrrigationType => match profile.irrigation_type {
            Some(i) => String::from_str(irrigation_type_ident(i)),
            None => String::new(),
        },
    }
}

/// Apply edited text to one settings field of the profile.
pub fn apply_field_value(profile: &mut LawnProfile, field: SettingsField, value: &str)
    requires
        old(profile).wf(),
    ensures
        final(profile).wf(),
        final(profile).name@ == (match field {
            SettingsField::Name => if value@.len() > 0 {
                value@
            } else {
                old(profile).name@
            },
            _ => old(profile).name@,
        }),
        final(profile).grass_type == (match field {
            SettingsField::GrassType => match GrassType::spec_from_str(value@) {
                Some(g) => g,
                None => old(profile).grass_type,
            },
            _ => old(profile).grass_type,
        }),
        final(profile).usda_zone@ == (match field {
            SettingsField::UsdaZone => if value@.len() > 0 {
                value@
            } else {
                old(profile).usda_zone@
            },
            _ => old(profile).usda_zone@,
        }),
        final(profile).soil_type == (match field {
            SettingsField::SoilType => SoilType::spec_from_str(value@),
            _ => old(profile).soil_type,
        }),
        final(profile).lawn_size_sqft == (match field {
            SettingsField::LawnSize => if value@.len() > 0 && text::all_digits(value@)
                && text::digits_val(value@) <= 1000000000 {
                Some((text::digits_val(value@) * 1000) as i64)
            } else {
                None::<i64>
            },
            _ => old(profile).lawn_size_sqft,
        }),
        final(profile).irrigation_type == (match field {
            SettingsField::IrrigationType => IrrigationType::spec_from_str(value@),
            _ => old(profile).irrigation_type,
        }),
        final(profile).id == old(profile).id,
        final(profile).created_at == old(profile).created_at,
        final(profile).updated_at == old(profile).updated_at,
{
    match field {
        SettingsField::Name => {
            if !value.is_empty() {
                profile.name = value.to_owned();
            }
        },
        SettingsField::GrassType => {
            match GrassType::from_str(value) {
                Some(g) => {
                    profile.grass_type = g;
                },
                None => {},
            }
        },
        SettingsField::UsdaZone => {
            if !value.is_empty() {
                profile.usda_zone = value.to_owned();
            }
        },
        SettingsField::SoilType => {
            profile.soil_type = SoilType::from_str(value);
        },
        SettingsField::LawnSize => {
            profile.lawn_size_sqft = match text::parse_u64(value, 1000000000) {
                Some(v) => Some((v as i64) * 1000),
                None => None,
            };
        },
        SettingsField::IrrigationType => {
            profile.irrigation_type = IrrigationType::from_str(value);
        },
    }
}

/// A labeled single-line text input with a cursor.
pub struct InputWidget<'a> {
    pub label: &'a str,
    pub value: &'a str,
    pub focused: bool,
    pub cursor_position: usize,
}

impl<'a> InputWidget<'a> {
    /// A fresh input showing `value` with the cursor at its end.
    pub fn new(label: &'a str, value: &'a str) -> (r: InputWidget<'a>)
        ensures
            r.label == label,
            r.value == value,
            r.focused == false,
            r.cursor_position == value.spec_bytes().len() as usize,
    {
        InputWidget { label, value, focused: false, cursor_position: value.len() }
    }

    pub fn focused(self, focused: bool) -> (r: InputWidget<'a>)
        ensures
            r == (InputWidget { focused, ..self }),
    {
        InputWidget { focused, ..self }
    }

    pub fn cursor(self, position: usize) -> (r: InputWidget<'a>)
        ensures
            r == (InputWidget { cursor_position: position, ..self }),
    {
        InputWidget { cursor_position: position, ..self }
    }
}

/// A labeled chooser over a fixed option list.
pub struct SelectWidget<'a> {
    pub label: &'a str,
    pub options: &'a [&'a str],
    pub selected: usize,
    pub focused: bool,
}

impl<'a> SelectWidget<'a> {
    pub fn new(label: &'a str, options: &'a [&'a str], selected: usize) -> (r: SelectWidget<'a>)
        ensures
            r.label == label,
            r.options == options,
            r.selected == selected,
            r.focused == false,
    {
        SelectWidget { label, options, selected, focused: false }
    }

    pub fn focused(self, focused: bool) -> (r: SelectWidget<'a>)
        ensures
            r == (SelectWidget { focused, ..self }),
    {
        SelectWidget { focused, ..self }
    }
}

} // verus!
