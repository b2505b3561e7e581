//! Agent-facing compiler commands: the skill catalog, code explanations and repair-plan reports.
//!
//! Printing, and the skill documents themselves (text files shipped with the tool), belong to
//! the command-line program; which skill a name means and what each report holds is here.
use vstd::prelude::*;
use crate::ast::Module;
use crate::diagnostics::{
    entry_of, explain_code, fix_plan, plan_of, spec_parse_code, str_eq, validate_report, ExplainEntry, FixPlan,
    ValidateReport,
};
use crate::text::text;
use crate::validate::{spec_validate_module, valid_module, validate_module};

verus! {

/// The skill documents shipped with the tool.
#[derive(Clone, Copy, Debug, PartialEq, Eq, Structural)]
pub enum Skill {
    Language,
    Diagnostics,
    Limits,
    Decoder,
}

/// Every skill, in catalog order.
pub open spec fn all_skills() -> Seq<Skill> {
    seq![Skill::Language, Skill::Diagnostics, Skill::Limits, Skill::Decoder]
}

/// The name a skill is requested by.
pub open spec fn spec_skill_name(s: Skill) -> Seq<char> {
    match s {
        Skill::Language => "language"@,
        Skill::Diagnostics => "diagnostics"@,
        Skill::Limits => "limits"@,
        Skill::Decoder => "decoder"@,
    }
}

/// One-line summary of a skill.
pub open spec fn spec_skill_summary(s: Skill) -> Seq<char> {
    match s {
        Skill::Language => "Program IR v2 syntax and agent workflow"@,
        Skill::Diagnostics => "VCIR_* validation codes and repair ids"@,
        Skill::Limits => "Tier-1 caps and execution budgets"@,
        Skill::Decoder => "Latent z and ONNX I/O contract"@,
    }
}

/// The skill named `name`, if there is one.
pub open spec fn spec_find_skill(name: Seq<char>) -> Option<Skill> {
    if name == "language"@ {
        Some(Skill::Language)
    } else if name == "diagnostics"@ {
        Some(Skill::Diagnostics)
    } else if name == "limits"@ {
        Some(Skill::Limits)
    } else if name == "decoder"@ {
        Some(Skill::Decoder)
    } else {
        None
    }
}

impl Skill {
    /// The name this skill is requested by.
    pub fn name(self) -> (r: &'static str)
        ensures
            r@ == spec_skill_name(self),
    {
        match self {
            Skill::Language => "language",
            Skill::Diagnostics => "diagnostics",
            Skill::Limits => "limits",
            Skill::Decoder => "decoder",
        }
    }
}

/// The skill named `name`, if there is one.
pub fn find_skill(name: &str) -> (r: Option<Skill>)
    ensures
        r == spec_find_skill(name@),
{
    if str_eq(name, "language") {
        Some(Skill::Language)
    } else if str_eq(name, "diagnostics") {
        Some(Skill::Diagnostics)
    } else if str_eq(name, "limits") {
        Some(Skill::Limits)
    } else if str_eq(name, "decoder") {
        Some(Skill::Decoder)
    } else {
        None
    }
}

/// The names of every skill, in catalog order.
pub fn skill_names() -> (r: Vec<&'static str>)
    ensures
        r@.len() == all_skills().len(),
        forall|k: int| 0 <= k < r@.len() ==> (#[trigger] r@[k])@ == spec_skill_name(all_skills()[k]),
{
    vec![Skill::Language.name(), Skill::Diagnostics.name(), Skill::Limits.name(), Skill::Decoder.name()]
}

/// One-line summary of the skill named `name` (empty for an unknown name).
pub fn skill_summary(name: &str) -> (r: String)
    ensures
        spec_find_skill(name@) matches Some(s) ==> r@ == spec_skill_summary(s),
        spec_find_skill(name@) is None ==> r@.len() == 0,
{
    match find_skill(name) {
        Some(Skill::Language) => text("Program IR v2 syntax and agent workflow"),
        Some(Skill::Diagnostics) => text("VCIR_* validation codes and repair ids"),
        Some(Skill::Limits) => text("Tier-1 caps and execution budgets"),
        Some(Skill::Decoder) => text("Latent z and ONNX I/O contract"),
        None => String::new(),
    }
}

/// A skill's name and summary.
#[derive(Clone, Debug, PartialEq, Eq)]
pub struct SkillMeta {
    pub name: String,
    pub summary: String,
}

/// The skill catalog.
#[derive(Clone, Debug, PartialEq, Eq)]
pub struct SkillsList {
    pub skills: Vec<SkillMeta>,
}

/// A skill's name and document.
#[derive(Clone, Debug, PartialEq, Eq)]
pub struct SkillDocument {
    pub name: String,
    pub body: String,
}

/// The skill catalog: every skill's name and summary, in catalog order.
pub fn skills_list() -> (r: SkillsList)
    ensures
        r.skills@.len() == all_skills().len(),
        forall|k: int|
            0 <= k < r.skills@.len() ==> (#[trigger] r.skills@[k]).name@ == spec_skill_name(all_skills()[k])
                && r.skills@[k].summary@ == spec_skill_summary(all_skills()[k]),
{
    let names = skill_names();
    let mut skills: Vec<SkillMeta> = Vec::new();
    let mut i: usize = 0;
    while i < names.len()
        invariant
            names@.len() == all_skills().len(),
            forall|k: int| 0 <= k < names@.len() ==> (#[trigger] names@[k])@ == spec_skill_name(all_skills()[k]),
            i <= names@.len(),
            skills@.len() == i,
            forall|k: int|
                0 <= k < i ==> (#[trigger] skills@[k]).name@ == spec_skill_name(all_skills()[k])
                    && skills@[k].summary@ == spec_skill_summary(all_skills()[k]),
        decreases names@.len() - i,
    {
        proof {
            reveal_strlit("language");
            reveal_strlit("diagnostics");
            reveal_strlit("limits");
            reveal_strlit("decoder");
        }
        let summary = skill_summary(names[i]);
        skills.push(SkillMeta { name: text(names[i]), summary });
        i = i + 1;
    }
    SkillsList { skills }
}

/// The message for a skill name that is not in the catalog.
pub fn unknown_skill_message(name: &str) -> (r: String)
    ensures
        r@ == "unknown skill `"@ + name@ + "` (try: language, diagnostics, limits, decoder)"@,
{
    let mut out = String::new();
    out.append("unknown skill `");
    out.append(name);
    out.append("` (try: language, diagnostics, limits, decoder)");
    out
}

/// The catalog entry for diagnostic code `code`, or the message naming it as unknown.
pub fn run_explain(code: &str) -> (r: Result<ExplainEntry, String>)
    ensures
        spec_parse_code(code@) matches Some(c) ==> (r matches Ok(x) && entry_of(x, c)),
        spec_parse_code(code@) is None ==> (r matches Err(m) && m@ == "unknown diagnostic code `"@ + code@
            + "`"@),
{
    match explain_code(code) {
        Some(entry) => Ok(entry),
        None => {
            let mut out = String::new();
            out.append("unknown diagnostic code `");
            out.append(code);
            out.append("`");
            Err(out)
        },
    }
}

/// What `fix --plan` reports on one file.
#[derive(Clone, Debug)]
pub struct FixPlanReport {
    pub ok: bool,
    pub source: String,
    pub parse_error: Option<String>,
    pub validate: Option<ValidateReport>,
    pub plans: Option<Vec<FixPlan>>,
}

/// The repair-plan report for a file named `source`: its parse error, or its validation
/// report and, when it does not validate, the plan for its error.
pub fn fix_plan_report(source: &str, parsed: Result<Module, String>) -> (r: FixPlanReport)
    ensures
        r.source@ == source@,
        parsed matches Err(m) ==> !r.ok && (r.parse_error matches Some(p) && p@ == m@) && r.validate is None
            && r.plans is None,
        parsed matches Ok(module) ==> r.ok == valid_module(module) && r.parse_error is None && (r.validate matches Some(
            v,
        ) && v.ok == r.ok),
        parsed matches Ok(module) ==> (valid_module(module) ==> r.plans is None),
        parsed matches Ok(module) ==> (!valid_module(module) ==> (r.plans matches Some(ps) && ps@.len() == 1
            && plan_of(ps@[0], spec_validate_module(module)->Err_0))),
{
    match parsed {
        Ok(module) => {
            let validate = validate_report(&module);
            let plans = match validate_module(&module) {
                Ok(()) => None,
                Err(e) => {
                    let p = fix_plan(&e);
                    proof {
                        crate::diagnostics::lemma_same_error_plan(p, e, spec_validate_module(module)->Err_0);
                    }
                    Some(vec![p])
                },
            };
            FixPlanReport { ok: validate.ok, source: text(source), parse_error: None, validate: Some(validate), plans }
        },
        Err(e) => FixPlanReport { ok: false, source: text(source), parse_error: Some(e), validate: None, plans: None },
    }
}

} // verus!
