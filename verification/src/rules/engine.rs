//! The rule evaluation engine.
//!
//! The engine holds the fixed, ordered rule registry. One evaluation pass
//! invokes every rule exactly once, in registry order, and returns the
//! non-absent results in that same order; the engine itself is stateless
//! and side-effect free, and a pass over an entirely empty summary simply
//! yields an empty (or short) list.

use crate::application::Application;
use crate::dates::{Date, Timestamp};
use crate::environmental::EnvironmentalSummary;
use crate::profile::LawnProfile;
use crate::recommendation::{opt_model, RecModel, Recommendation};
use crate::rules::application_window::ApplicationWindowRule;
use crate::rules::disease_pressure::DiseasePressureRule;
use crate::rules::fall_fertilization::FallFertilizationRule;
use crate::rules::fall_overseeding::FallOverseedingRule;
use crate::rules::fertilizer::FertilizerRule;
use crate::rules::fungicide::FungicideRule;
use crate::rules::grub_control::GrubControlRule;
use crate::rules::heat_stress::HeatStressRule;
use crate::rules::inputs_wf;
use crate::rules::irrigation_forecast::IrrigationForecastRule;
use crate::rules::pre_emergent::PreEmergentRule;
use crate::rules::rain_delay::RainDelayRule;
use crate::rules::spring_nitrogen::SpringNitrogenRule;
use crate::text;
use vstd::prelude::*;

verus! {

/// One rule of the fixed registry.
#[derive(Clone, Copy, PartialEq, Eq, Structural, Debug)]
pub enum RuleKind {
    PreEmergent,
    SpringNitrogen,
    GrubControl,
    Fertilizer,
    Fungicide,
    FallOverseeding,
    FallFertilization,
    RainDelay,
    IrrigationForecast,
    HeatStress,
    ApplicationWindow,
    DiseasePressure,
}

/// What one rule returns, at the specification level.
pub open spec fn spec_rule_eval(
    k: RuleKind,
    env: EnvironmentalSummary,
    profile: LawnProfile,
    history: Seq<Application>,
    today: Date,
    now: Timestamp,
) -> Option<RecModel> {
    match k {
        RuleKind::PreEmergent => PreEmergentRule::spec_evaluate(env, profile, history, today, now),
        RuleKind::SpringNitrogen => SpringNitrogenRule::spec_evaluate(
            env,
            profile,
            history,
            today,
            now,
        ),
        RuleKind::GrubControl => GrubControlRule::spec_evaluate(env, profile, history, today, now),
        RuleKind::Fertilizer => FertilizerRule::spec_evaluate(env, profile, history, today, now),
        RuleKind::Fungicide => FungicideRule::spec_evaluate(env, profile, history, today, now),
        RuleKind::FallOverseeding => FallOverseedingRule::spec_evaluate(
            env,
            profile,
            history,
            today,
            now,
        ),
        RuleKind::FallFertilization => FallFertilizationRule::spec_evaluate(
            env,
            profile,
            history,
            today,
            now,
        ),
        RuleKind::RainDelay => RainDelayRule::spec_evaluate(env, profile, history, today, now),
        RuleKind::IrrigationForecast => IrrigationForecastRule::spec_evaluate(
            env,
            profile,
            history,
            today,
            now,
        ),
        RuleKind::HeatStress => HeatStressRule::spec_evaluate(env, profile, history, today, now),
        RuleKind::ApplicationWindow => ApplicationWindowRule::spec_evaluate(
            env,
            profile,
            history,
            today,
            now,
        ),
        RuleKind::DiseasePressure => DiseasePressureRule::spec_evaluate(
            env,
            profile,
            history,
            today,
            now,
        ),
    }
}

pub open spec fn spec_rule_id(k: RuleKind) -> Seq<char> {
    match k {
        RuleKind::PreEmergent => "pre_emergent"@,
        RuleKind::SpringNitrogen => "spring_nitrogen"@,
        RuleKind::GrubControl => "grub_control"@,
        RuleKind::Fertilizer => "fertilizer_block"@,
        RuleKind::Fungicide => "fungicide_risk"@,
        RuleKind::FallOverseeding => "fall_overseeding"@,
        RuleKind::FallFertilization => "fall_fertilization"@,
        RuleKind::RainDelay => "rain_delay"@,
        RuleKind::IrrigationForecast => "irrigation_forecast"@,
        RuleKind::HeatStress => "heat_stress"@,
        RuleKind::ApplicationWindow => "application_window"@,
        RuleKind::DiseasePressure => "disease_pressure"@,
    }
}

pub open spec fn spec_rule_name(k: RuleKind) -> Seq<char> {
    match k {
        RuleKind::PreEmergent => "Pre-Emergent Timing"@,
        RuleKind::SpringNitrogen => "Spring Nitrogen Delay"@,
        RuleKind::GrubControl => "Grub Control Timing"@,
        RuleKind::Fertilizer => "Fertilizer Stress Avoidance"@,
        RuleKind::Fungicide => "Fungicide Disease Risk"@,
        RuleKind::FallOverseeding => "Fall Overseeding Window"@,
        RuleKind::FallFertilization => "Fall Fertilization Program"@,
        RuleKind::RainDelay => "Rain Delay"@,
        RuleKind::IrrigationForecast => "Irrigation From Forecast"@,
        RuleKind::HeatStress => "Heat Stress Warning"@,
        RuleKind::ApplicationWindow => "Optimal Application Window"@,
        RuleKind::DiseasePressure => "Disease Pressure Forecast"@,
    }
}

/// The fixed registry: spring rules, summer rules, fall rules, then the
/// year-round forecast-based rules.
pub open spec fn registry() -> Seq<RuleKind> {
    seq![
        RuleKind::PreEmergent,
        RuleKind::SpringNitrogen,
        RuleKind::GrubControl,
        RuleKind::Fertilizer,
        RuleKind::Fungicide,
        RuleKind::FallOverseeding,
        RuleKind::FallFertilization,
        RuleKind::RainDelay,
        RuleKind::IrrigationForecast,
        RuleKind::HeatStress,
        RuleKind::ApplicationWindow,
        RuleKind::DiseasePressure,
    ]
}

/// The concatenation of the non-absent rule results, in rule order.
pub open spec fn engine_outputs(
    ks: Seq<RuleKind>,
    env: EnvironmentalSummary,
    profile: LawnProfile,
    history: Seq<Application>,
    today: Date,
    now: Timestamp,
) -> Seq<RecModel>
    decreases ks.len(),
{
    if ks.len() == 0 {
        Seq::empty()
    } else {
        engine_outputs(ks.drop_last(), env, profile, history, today, now) + (match spec_rule_eval(
            ks.last(),
            env,
            profile,
            history,
            today,
            now,
        ) {
            Some(m) => seq![m],
            None => Seq::empty(),
        })
    }
}

/// The rules of `ks` whose evaluation returns a recommendation, in order.
pub open spec fn firing_rules(
    ks: Seq<RuleKind>,
    env: EnvironmentalSummary,
    profile: LawnProfile,
    history: Seq<Application>,
    today: Date,
    now: Timestamp,
) -> Seq<RuleKind>
    decreases ks.len(),
{
    if ks.len() == 0 {
        Seq::empty()
    } else {
        firing_rules(ks.drop_last(), env, profile, history, today, now) + (if spec_rule_eval(
            ks.last(),
            env,
            profile,
            history,
            today,
            now,
        ) is Some {
            seq![ks.last()]
        } else {
            Seq::empty()
        })
    }
}

/// Pass-through law: one evaluation pass returns exactly one
/// recommendation per firing rule, in registry order — the output list is
/// the firing rules' results, element for element. In particular its
/// length is the number of rules that fire, and rules that return nothing
/// leave no trace.
pub proof fn lemma_engine_pass_through(
    ks: Seq<RuleKind>,
    env: EnvironmentalSummary,
    profile: LawnProfile,
    history: Seq<Application>,
    today: Date,
    now: Timestamp,
)
    ensures
        engine_outputs(ks, env, profile, history, today, now) == firing_rules(
            ks,
            env,
            profile,
            history,
            today,
            now,
        ).map_values(|k: RuleKind| spec_rule_eval(k, env, profile, history, today, now)->0),
        engine_outputs(ks, env, profile, history, today, now).len() == firing_rules(
            ks,
            env,
            profile,
            history,
            today,
            now,
        ).len(),
    decreases ks.len(),
{
    let f = |k: RuleKind| spec_rule_eval(k, env, profile, history, today, now)->0;
    if ks.len() == 0 {
        assert(engine_outputs(ks, env, profile, history, today, now) =~= firing_rules(
            ks,
            env,
            profile,
            history,
            today,
            now,
        ).map_values(f));
    } else {
        lemma_engine_pass_through(ks.drop_last(), env, profile, history, today, now);
        assert(engine_outputs(ks, env, profile, history, today, now) =~= firing_rules(
            ks,
            env,
            profile,
            history,
            today,
            now,
        ).map_values(f));
    }
}

/// Distinct rules carry distinct identifiers; a duplicate would be a
/// configuration error, ruled out here once and for all.
pub proof fn lemma_rule_ids_unique(a: RuleKind, b: RuleKind)
    requires
        a != b,
    ensures
        spec_rule_id(a) != spec_rule_id(b),
{
    broadcast use vstd::string::group_string_axioms;

    reveal_strlit("pre_emergent");
    reveal_strlit("spring_nitrogen");
    reveal_strlit("grub_control");
    reveal_strlit("fertilizer_block");
    reveal_strlit("fungicide_risk");
    reveal_strlit("fall_overseeding");
    reveal_strlit("fall_fertilization");
    reveal_strlit("rain_delay");
    reveal_strlit("irrigation_forecast");
    reveal_strlit("heat_stress");
    reveal_strlit("application_window");
    reveal_strlit("disease_pressure");
    assert("pre_emergent"@.len() == 12);
    assert("spring_nitrogen"@.len() == 15);
    assert("grub_control"@.len() == 12);
    assert("fertilizer_block"@.len() == 16);
    assert("fungicide_risk"@.len() == 14);
    assert("fall_overseeding"@.len() == 16);
    assert("fall_fertilization"@.len() == 18);
    assert("rain_delay"@.len() == 10);
    assert("irrigation_forecast"@.len() == 19);
    assert("heat_stress"@.len() == 11);
    assert("application_window"@.len() == 18);
    assert("disease_pressure"@.len() == 16);
    assert("pre_emergent"@ != "grub_control"@) by {
        assert("pre_emergent"@[0] == 'p' && "grub_control"@[0] == 'g');
    }
    assert("fertilizer_block"@ != "fall_overseeding"@) by {
        assert("fertilizer_block"@[1] == 'e' && "fall_overseeding"@[1] == 'a');
    }
    assert("fertilizer_block"@ != "disease_pressure"@) by {
        assert("fertilizer_block"@[0] == 'f' && "disease_pressure"@[0] == 'd');
    }
    assert("fall_overseeding"@ != "disease_pressure"@) by {
        assert("fall_overseeding"@[0] == 'f' && "disease_pressure"@[0] == 'd');
    }
    assert("fall_fertilization"@ != "application_window"@) by {
        assert("fall_fertilization"@[0] == 'f' && "application_window"@[0] == 'a');
    }
}

/// The first registry rule carrying the given identifier.
pub open spec fn find_rule(ks: Seq<RuleKind>, id: Seq<char>) -> Option<RuleKind>
    decreases ks.len(),
{
    if ks.len() == 0 {
        None
    } else if spec_rule_id(ks.first()) == id {
        Some(ks.first())
    } else {
        find_rule(ks.drop_first(), id)
    }
}

/// The rule evaluation engine: an immutable, ordered rule registry.
pub struct RulesEngine {
    pub rules: Vec<RuleKind>,
}

impl RulesEngine {
    /// The engine holds exactly the fixed registry.
    pub open spec fn wf(self) -> bool {
        self.rules@ == registry()
    }

    /// Build the engine with the fixed registry.
    pub fn new() -> (r: RulesEngine)
        ensures
            r.wf(),
    {
        let mut rules: Vec<RuleKind> = Vec::new();
        rules.push(RuleKind::PreEmergent);
        rules.push(RuleKind::SpringNitrogen);
        rules.push(RuleKind::GrubControl);
        rules.push(RuleKind::Fertilizer);
        rules.push(RuleKind::Fungicide);
        rules.push(RuleKind::FallOverseeding);
        rules.push(RuleKind::FallFertilization);
        rules.push(RuleKind::RainDelay);
        rules.push(RuleKind::IrrigationForecast);
        rules.push(RuleKind::HeatStress);
        rules.push(RuleKind::ApplicationWindow);
        rules.push(RuleKind::DiseasePressure);
        let r = RulesEngine { rules };
        proof {
            assert(r.rules@ =~= registry());
        }
        r
    }

    /// Evaluate one rule of the registry.
    pub fn evaluate_kind(
        k: RuleKind,
        env: &EnvironmentalSummary,
        profile: &LawnProfile,
        history: &Vec<Application>,
        today: &Date,
        now: &Timestamp,
    ) -> (r: Option<Recommendation>)
        requires
            inputs_wf(*env, *profile, history@, *today, *now),
        ensures
            opt_model(r) == spec_rule_eval(k, *env, *profile, history@, *today, *now),
    {
        match k {
            RuleKind::PreEmergent => {
                let rule = PreEmergentRule;
                rule.evaluate(env, profile, history, today, now)
            },
            RuleKind::SpringNitrogen => {
                let rule = SpringNitrogenRule;
                rule.evaluate(env, profile, history, today, now)
            },
            RuleKind::GrubControl => {
                let rule = GrubControlRule;
                rule.evaluate(env, profile, history, today, now)
            },
            RuleKind::Fertilizer => {
                let rule = FertilizerRule;
                rule.evaluate(env, profile, history, today, now)
            },
            RuleKind::Fungicide => {
                let rule = FungicideRule;
                rule.evaluate(env, profile, history, today, now)
            },
            RuleKind::FallOverseeding => {
                let rule = FallOverseedingRule;
                rule.evaluate(env, profile, history, today, now)
            },
            RuleKind::FallFertilization => {
                let rule = FallFertilizationRule;
                rule.evaluate(env, profile, history, today, now)
            },
            RuleKind::RainDelay => {
                let rule = RainDelayRule;
                rule.evaluate(env, profile, history, today, now)
            },
            RuleKind::IrrigationForecast => {
                let rule = IrrigationForecastRule;
                rule.evaluate(env, profile, history, today, now)
            },
            RuleKind::HeatStress => {
                let rule = HeatStressRule;
                rule.evaluate(env, profile, history, today, now)
            },
            RuleKind::ApplicationWindow => {
                let rule = ApplicationWindowRule;
                rule.evaluate(env, profile, history, today, now)
            },
            RuleKind::DiseasePressure => {
                let rule = DiseasePressureRule;
                rule.evaluate(env, profile, history, today, now)
            },
        }
    }

    /// One full evaluation pass: every rule once, in registry order, the
    /// non-absent results concatenated in that same order.
    pub fn evaluate(
        &self,
        env: &EnvironmentalSummary,
        profile: &LawnProfile,
        history: &Vec<Application>,
        today: &Date,
        now: &Timestamp,
    ) -> (out: Vec<Recommendation>)
        requires
            self.wf(),
            inputs_wf(*env, *profile, history@, *today, *now),
        ensures
            out@.map_values(|rec: Recommendation| rec@) == engine_outputs(
                registry(),
                *env,
                *profile,
                history@,
                *today,
                *now,
            ),
    {
        let mut out: Vec<Recommendation> = Vec::new();
        let mut i: usize = 0;
        proof {
            assert(out@.map_values(|rec: Recommendation| rec@) =~= engine_outputs(
                registry().subrange(0, 0),
                *env,
                *profile,
                history@,
                *today,
                *now,
            ));
        }
        while i < self.rules.len()
            invariant
                0 <= i <= self.rules@.len(),
                self.wf(),
                inputs_wf(*env, *profile, history@, *today, *now),
                out@.map_values(|rec: Recommendation| rec@) == engine_outputs(
                    registry().subrange(0, i as int),
                    *env,
                    *profile,
                    history@,
                    *today,
                    *now,
                ),
            decreases self.rules@.len() - i,
        {
            proof {
                assert(registry().subrange(0, i + 1).drop_last() =~= registry().subrange(
                    0,
                    i as int,
                ));
                assert(registry().subrange(0, i + 1).last() == registry()[i as int]);
            }
            let ghost before = out@;
            match Self::evaluate_kind(self.rules[i], env, profile, history, today, now) {
                Some(rec) => {
                    out.push(rec);
                    proof {
                        assert(out@.map_values(|rec: Recommendation| rec@) =~= before.map_values(
                            |rec: Recommendation| rec@,
                        ).push(out@.last()@));
                    }
                },
                None => {},
            }
            proof {
                assert(out@.map_values(|rec: Recommendation| rec@) =~= engine_outputs(
                    registry().subrange(0, i + 1),
                    *env,
                    *profile,
                    history@,
                    *today,
                    *now,
                ));
            }
            i = i + 1;
        }
        proof {
            assert(registry().subrange(0, registry().len() as int) =~= registry());
        }
        out
    }

    /// Evaluate only the rule with the given identifier, if any.
    pub fn evaluate_rule(
        &self,
        rule_id: &str,
        env: &EnvironmentalSummary,
        profile: &LawnProfile,
        history: &Vec<Application>,
        today: &Date,
        now: &Timestamp,
    ) -> (r: Option<Recommendation>)
        requires
            self.wf(),
            inputs_wf(*env, *profile, history@, *today, *now),
        ensures
            opt_model(r) == (match find_rule(registry(), rule_id@) {
                None => None,
                Some(k) => spec_rule_eval(k, *env, *profile, history@, *today, *now),
            }),
    {
        let mut i: usize = 0;
        proof {
            assert(registry().subrange(0, registry().len() as int) =~= registry());
        }
        while i < self.rules.len()
            invariant
                0 <= i <= self.rules@.len(),
                self.wf(),
                inputs_wf(*env, *profile, history@, *today, *now),
                find_rule(registry(), rule_id@) == find_rule(
                    registry().subrange(i as int, registry().len() as int),
                    rule_id@,
                ),
            decreases self.rules@.len() - i,
        {
            let k = self.rules[i];
            proof {
                let rest = registry().subrange(i as int, registry().len() as int);
                assert(rest.first() == registry()[i as int]);
                assert(rest.drop_first() =~= registry().subrange(
                    i + 1,
                    registry().len() as int,
                ));
            }
            if text::str_eq(Self::rule_id_str(k), rule_id) {
                return Self::evaluate_kind(k, env, profile, history, today, now);
            }
            i = i + 1;
        }
        proof {
            assert(registry().subrange(
                registry().len() as int,
                registry().len() as int,
            ).len() == 0);
        }
        None
    }

    /// The identifier of one registry rule.
    pub fn rule_id_str(k: RuleKind) -> (r: &'static str)
        ensures
            r@ == spec_rule_id(k),
    {
        match k {
            RuleKind::PreEmergent => "pre_emergent",
            RuleKind::SpringNitrogen => "spring_nitrogen",
            RuleKind::GrubControl => "grub_control",
            RuleKind::Fertilizer => "fertilizer_block",
            RuleKind::Fungicide => "fungicide_risk",
            RuleKind::FallOverseeding => "fall_overseeding",
            RuleKind::FallFertilization => "fall_fertilization",
            RuleKind::RainDelay => "rain_delay",
            RuleKind::IrrigationForecast => "irrigation_forecast",
            RuleKind::HeatStress => "heat_stress",
            RuleKind::ApplicationWindow => "application_window",
            RuleKind::DiseasePressure => "disease_pressure",
        }
    }

    /// The display name of one registry rule.
    pub fn rule_name_str(k: RuleKind) -> (r: &'static str)
        ensures
            r@ == spec_rule_name(k),
    {
        match k {
            RuleKind::PreEmergent => "Pre-Emergent Timing",
            RuleKind::SpringNitrogen => "Spring Nitrogen Delay",
            RuleKind::GrubControl => "Grub Control Timing",
            RuleKind::Fertilizer => "Fertilizer Stress Avoidance",
            RuleKind::Fungicide => "Fungicide Disease Risk",
            RuleKind::FallOverseeding => "Fall Overseeding Window",
            RuleKind::FallFertilization => "Fall Fertilization Program",
            RuleKind::RainDelay => "Rain Delay",
            RuleKind::IrrigationForecast => "Irrigation From Forecast",
            RuleKind::HeatStress => "Heat Stress Warning",
            RuleKind::ApplicationWindow => "Optimal Application Window",
            RuleKind::DiseasePressure => "Disease Pressure Forecast",
        }
    }

    /// Identifier and display name of every registered rule, in order.
    pub fn list_rules(&self) -> (r: Vec<(&'static str, &'static str)>)
        requires
            self.wf(),
        ensures
            r@.len() == registry().len(),
            forall|i: int|
                0 <= i < r@.len() ==> (#[trigger] r@[i]).0@ == spec_rule_id(registry()[i])
                    && r@[i].1@ == spec_rule_name(registry()[i]),
    {
        let mut r: Vec<(&'static str, &'static str)> = Vec::new();
        let mut i: usize = 0;
        while i < self.rules.len()
            invariant
                0 <= i <= self.rules@.len(),
                self.wf(),
                r@.len() == i,
                forall|j: int|
                    0 <= j < i ==> (#[trigger] r@[j]).0@ == spec_rule_id(registry()[j])
                        && r@[j].1@ == spec_rule_name(registry()[j]),
            decreases self.rules@.len() - i,
        {
            let k = self.rules[i];
            r.push((Self::rule_id_str(k), Self::rule_name_str(k)));
            i = i + 1;
        }
        r
    }
}

impl Default for RulesEngine {
    /// The default engine is the fixed registry.
    fn default() -> (r: RulesEngine)
        ensures
            r.wf(),
    {
        RulesEngine::new()
    }
}

} // verus!
