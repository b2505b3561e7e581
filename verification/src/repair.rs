//! Bounded repair loop (check, then diagnostic and fix plan, then optionally a synthesis step):
//! the decisions of each step and the records they leave. Reading and writing the working file
//! and running the refiner are the command-line program's.
use vstd::prelude::*;
use crate::ast::Module;
use crate::diagnostics::{fix_plan, plan_of, report_of, validate_report, FixPlan, ValidateReport};
use crate::oracle::{CheckSummary, FailedCaseDetail};
use crate::text::text;
use crate::validate::{spec_validate_module, valid_module, validate_module};

verus! {

/// Settings of one repair run.
#[derive(Clone, Debug, PartialEq, Eq)]
pub struct AgentRepairOptions {
    pub max_steps: usize,
    pub synthesize: bool,
    pub synthesize_steps: usize,
    pub refiner_seed: u64,
    pub fuel: u64,
    pub max_wall_ms: Option<u64>,
    pub json: bool,
    /// Where to write the repaired program; by default the input is updated in place.
    pub write_output: Option<String>,
}

/// What one step of the loop found and did.
#[derive(Clone, Debug)]
pub struct RepairStep {
    pub step: usize,
    pub check: CheckSummary,
    pub validation_code: Option<String>,
    pub validate_report: Option<ValidateReport>,
    pub fix_plan: Option<FixPlan>,
    pub counterexample: Option<FailedCaseDetail>,
    /// `pass`, `report` or `synthesize`.
    pub action: String,
    pub synthesize_ok: Option<bool>,
}

/// The record of a whole repair run.
#[derive(Clone, Debug)]
pub struct AgentRepairReport {
    pub ok: bool,
    pub source: String,
    pub steps_taken: usize,
    pub max_steps: usize,
    pub steps: Vec<RepairStep>,
    pub output_path: Option<String>,
}

/// Why a repair run cannot start.
#[derive(Clone, Copy, Debug, PartialEq, Eq)]
pub enum RepairRequestError {
    NoSteps,
    NoCases,
}

impl RepairRequestError {
    /// The message of this error.
    pub fn message(&self) -> (r: &'static str)
        ensures
            *self == RepairRequestError::NoSteps ==> r@ == "max_steps must be at least 1"@,
            *self == RepairRequestError::NoCases ==> r@ == "repair requires at least one spec case (--spec or --manifest)"@,
    {
        match self {
            RepairRequestError::NoSteps => "max_steps must be at least 1",
            RepairRequestError::NoCases => "repair requires at least one spec case (--spec or --manifest)",
        }
    }
}

/// A run needs at least one step and at least one case (checked in that order).
pub fn check_repair_request(max_steps: usize, cases: usize) -> (r: Result<(), RepairRequestError>)
    ensures
        max_steps == 0 ==> r == Err::<(), RepairRequestError>(RepairRequestError::NoSteps),
        max_steps > 0 && cases == 0 ==> r == Err::<(), RepairRequestError>(RepairRequestError::NoCases),
        max_steps > 0 && cases > 0 ==> r is Ok,
{
    if max_steps == 0 {
        Err(RepairRequestError::NoSteps)
    } else if cases == 0 {
        Err(RepairRequestError::NoCases)
    } else {
        Ok(())
    }
}

/// A step synthesizes when asked to, when the program parsed and validated but failed a case,
/// and when a later step is left to check the result.
pub open spec fn spec_should_synthesize(synthesize: bool, check: CheckSummary, step: usize, max_steps: usize) -> bool {
    synthesize && check.parse_ok && check.validate_ok && !check.run_ok && step + 1 < max_steps
}

/// Whether step `step` synthesizes (see [`spec_should_synthesize`]).
pub fn should_synthesize(synthesize: bool, check: &CheckSummary, step: usize, max_steps: usize) -> (r: bool)
    ensures
        r == spec_should_synthesize(synthesize, *check, step, max_steps),
{
    synthesize && check.parse_ok && check.validate_ok && !check.run_ok && step < max_steps && step + 1 < max_steps
}

/// The refiner seed of step `step`: the run's seed advanced by the step number (wrapping).
pub fn refiner_seed_for_step(seed: u64, step: usize) -> (r: u64)
    ensures
        r == (seed as int + step as int) % 0x1_0000_0000_0000_0000,
{
    let s = step as u64;
    let r = seed.wrapping_add(s);
    assert(r == (seed as int + step as int) % 0x1_0000_0000_0000_0000) by (nonlinear_arith)
        requires
            r == (seed as int + s as int) % 0x1_0000_0000_0000_0000,
            s as int == step as int,
    ;
    r
}

fn copy_opt_string(s: &Option<String>) -> (r: Option<String>)
    ensures
        r == *s,
{
    match s {
        Some(x) => Some(x.clone()),
        None => None,
    }
}

fn copy_detail(d: &Option<FailedCaseDetail>) -> (r: Option<FailedCaseDetail>)
    ensures
        r matches Some(x) ==> (d matches Some(y) && x.args@ == y.args@ && x.expect_i32 == y.expect_i32
            && x.got_i32 == y.got_i32 && x.invoke_error == y.invoke_error),
        r is None <==> d is None,
{
    match d {
        Some(x) => {
            let mut args: Vec<i32> = Vec::new();
            let mut i: usize = 0;
            while i < x.args.len()
                invariant
                    i <= x.args@.len(),
                    args@ == x.args@.take(i as int),
                decreases x.args@.len() - i,
            {
                args.push(x.args[i]);
                i = i + 1;
                assert(args@ =~= x.args@.take(i as int));
            }
            assert(x.args@.take(x.args@.len() as int) =~= x.args@);
            Some(
                FailedCaseDetail {
                    args,
                    expect_i32: x.expect_i32,
                    got_i32: x.got_i32,
                    invoke_error: copy_opt_string(&x.invoke_error),
                },
            )
        },
        None => None,
    }
}

/// `r` records step `step` whose check `check` passed.
pub open spec fn pass_record(r: RepairStep, step: usize, check: CheckSummary) -> bool {
    &&& r.step == step
    &&& r.check == check
    &&& r.action@ == "pass"@
    &&& r.validation_code is None && r.validate_report is None && r.fix_plan is None && r.counterexample is None
    &&& r.synthesize_ok is None
}

/// `r` records step `step` whose check `check` failed: the check's validation code and
/// counterexample; for a working program that parsed, its validation report and, when it does
/// not validate, the plan for its error; and the synthesis outcome, if the step ran one.
pub open spec fn failed_record(
    r: RepairStep,
    step: usize,
    check: CheckSummary,
    working: Option<Module>,
    synthesize: Option<bool>,
) -> bool {
    &&& r.step == step
    &&& r.check == check
    &&& r.validation_code == check.validation_code
    &&& (r.counterexample is Some <==> check.failed_case is Some)
    &&& (r.counterexample matches Some(x) ==> (check.failed_case matches Some(y) && x.args@ == y.args@
        && x.expect_i32 == y.expect_i32 && x.got_i32 == y.got_i32 && x.invoke_error == y.invoke_error))
    &&& r.synthesize_ok == synthesize
    &&& (synthesize is Some ==> r.action@ == "synthesize"@)
    &&& (synthesize is None ==> r.action@ == "report"@)
    &&& match working {
        None => r.validate_report is None && r.fix_plan is None,
        Some(m) => (r.validate_report matches Some(v) && report_of(v, m)) && (valid_module(m) ==> r.fix_plan is None)
            && (!valid_module(m) ==> (r.fix_plan matches Some(p) && plan_of(p, spec_validate_module(m)->Err_0))),
    }
}

/// The record of a step whose check passed.
pub fn pass_step(step: usize, check: CheckSummary) -> (r: RepairStep)
    ensures
        pass_record(r, step, check),
        r.step == step,
        r.check == check,
        r.action@ == "pass"@,
        r.validation_code is None && r.validate_report is None && r.fix_plan is None && r.counterexample is None
            && r.synthesize_ok is None,
{
    RepairStep {
        step,
        check,
        validation_code: None,
        validate_report: None,
        fix_plan: None,
        counterexample: None,
        action: text("pass"),
        synthesize_ok: None,
    }
}

/// The record of a step whose check failed: the check's validation code and counterexample,
/// and, when the working file parsed (`working`), its validation report and the plan for its
/// error. `synthesize` is the outcome of this step's synthesis, if it ran one.
pub fn failed_step(step: usize, check: CheckSummary, working: Option<&Module>, synthesize: Option<bool>) -> (r: RepairStep)
    ensures
        failed_record(r, step, check, match working {
            Some(m) => Some(*m),
            None => None,
        }, synthesize),
        r.step == step,
        r.check == check,
        r.validation_code == check.validation_code,
        r.counterexample is Some <==> check.failed_case is Some,
        r.synthesize_ok == synthesize,
        synthesize is Some ==> r.action@ == "synthesize"@,
        synthesize is None ==> r.action@ == "report"@,
        working is None ==> r.validate_report is None && r.fix_plan is None,
        working matches Some(m) ==> (r.validate_report matches Some(v) && v.ok == valid_module(*m)),
        working matches Some(m) ==> (valid_module(*m) ==> r.fix_plan is None),
        working matches Some(m) ==> (!valid_module(*m) ==> (r.fix_plan matches Some(p) && plan_of(
            p,
            spec_validate_module(*m)->Err_0,
        ))),
{
    let validation_code = copy_opt_string(&check.validation_code);
    let counterexample = copy_detail(&check.failed_case);
    let mut validate = None;
    let mut plan = None;
    match working {
        Some(module) => {
            validate = Some(validate_report(module));
            match validate_module(module) {
                Ok(()) => {},
                Err(e) => {
                    let p = fix_plan(&e);
                    proof {
                        crate::diagnostics::lemma_same_error_plan(p, e, spec_validate_module(*module)->Err_0);
                    }
                    plan = Some(p);
                },
            }
        },
        None => {},
    }
    let action = match synthesize {
        Some(_) => text("synthesize"),
        None => text("report"),
    };
    RepairStep {
        step,
        check,
        validation_code,
        validate_report: validate,
        fix_plan: plan,
        counterexample,
        action,
        synthesize_ok: synthesize,
    }
}

/// The record of a run over `steps`.
pub fn repair_report(ok: bool, source: &str, max_steps: usize, steps: Vec<RepairStep>, output_path: Option<String>) -> (r:
    AgentRepairReport)
    ensures
        r.ok == ok,
        r.source@ == source@,
        r.steps_taken == steps@.len(),
        r.max_steps == max_steps,
        r.steps@ == steps@,
        r.output_path == output_path,
{
    let steps_taken = steps.len();
    AgentRepairReport { ok, source: text(source), steps_taken, max_steps, steps, output_path }
}

/// What the repair loop asks the program to do next.
#[derive(Clone, Copy, Debug, PartialEq, Eq)]
pub enum RepairAction {
    /// Check the working program against the cases and report with [`RepairLoop::on_check`].
    Check,
    /// Run the refiner with this seed from the working program and report with
    /// [`RepairLoop::on_synthesis`].
    Synthesize { seed: u64 },
    /// The loop is over; take the record with [`RepairLoop::finish`].
    Finish,
}

/// What the steps of a run record: they are numbered from 0; a step whose check passed is the
/// last one and is labelled `pass`, and the run passed exactly when its last step's check did;
/// a step labelled `synthesize` followed a check that parsed and validated but failed a case,
/// in a run that synthesizes.
pub open spec fn repair_record_fits(steps: Seq<RepairStep>, ok: bool, synthesize: bool) -> bool {
    &&& forall|k: int| 0 <= k < steps.len() ==> (#[trigger] steps[k]).step == k
    &&& forall|k: int|
        0 <= k < steps.len() && (#[trigger] steps[k]).check.ok ==> k == steps.len() - 1 && steps[k].action@ == "pass"@
    &&& ok <==> (steps.len() > 0 && steps.last().check.ok)
    &&& forall|k: int|
        0 <= k < steps.len() && (#[trigger] steps[k]).action@ == "synthesize"@ ==> synthesize && steps[k].check.parse_ok
            && steps[k].check.validate_ok && !steps[k].check.run_ok
}

/// Recording one more step, numbered next, that is labelled `pass` when its check passed and
/// `synthesize` only after a failed check that parsed and validated, keeps a failed run's
/// record fitting; the run passed after it exactly when its check did.
pub proof fn lemma_record_push(before: Seq<RepairStep>, r: RepairStep, synthesize: bool)
    requires
        repair_record_fits(before, false, synthesize),
        r.step == before.len(),
        r.check.ok ==> r.action@ == "pass"@,
        r.action@ == "synthesize"@ ==> synthesize && r.check.parse_ok && r.check.validate_ok && !r.check.run_ok,
    ensures
        repair_record_fits(before.push(r), r.check.ok, synthesize),
{
    let after = before.push(r);
    assert forall|k: int| 0 <= k < before.len() implies #[trigger] after[k] == before[k] by {}
    assert forall|k: int| 0 <= k < after.len() && (#[trigger] after[k]).check.ok implies k == after.len() - 1
        && after[k].action@ == "pass"@ by {
        if k < before.len() {
            assert(before[k].check.ok);
        }
    }
    assert forall|k: int| 0 <= k < after.len() && (#[trigger] after[k]).action@ == "synthesize"@ implies synthesize
        && after[k].check.parse_ok && after[k].check.validate_ok && !after[k].check.run_ok by {
        if k < before.len() {
            assert(before[k].action@ == "synthesize"@);
        }
    }
}

/// A check whose step waits for the outcome of its synthesis.
struct PendingStep {
    check: CheckSummary,
    working: Option<Module>,
}

/// The state of a bounded repair loop: the steps recorded so far, and whether the program
/// passed.
pub struct RepairLoop {
    max_steps: usize,
    synthesize: bool,
    refiner_seed: u64,
    steps: Vec<RepairStep>,
    ok: bool,
    pending: Option<PendingStep>,
}

impl RepairLoop {
    /// Steps recorded so far.
    pub closed spec fn taken(&self) -> nat {
        self.steps@.len()
    }

    /// The step budget.
    pub closed spec fn budget(&self) -> usize {
        self.max_steps
    }

    /// The refiner seed of the run (step `k` synthesizes with it advanced by `k`).
    pub closed spec fn seed(&self) -> u64 {
        self.refiner_seed
    }

    /// Whether failing checks may be followed by a synthesis.
    pub closed spec fn synthesizes(&self) -> bool {
        self.synthesize
    }

    /// Whether a passing check has been recorded.
    pub closed spec fn passed(&self) -> bool {
        self.ok
    }

    /// The steps recorded so far.
    pub closed spec fn recorded(&self) -> Seq<RepairStep> {
        self.steps@
    }

    /// The check whose step awaits its synthesis outcome.
    pub closed spec fn pending_check(&self) -> CheckSummary {
        self.pending->0.check
    }

    /// The working program (if it parsed) of the step that awaits its synthesis outcome.
    pub closed spec fn pending_working(&self) -> Option<Module> {
        self.pending->0.working
    }

    /// Whether a synthesis outcome is awaited.
    pub closed spec fn awaiting_synthesis(&self) -> bool {
        self.pending is Some
    }

    /// Whether a passing check has been recorded.
    pub fn succeeded(&self) -> (r: bool)
        ensures
            r == self.passed(),
    {
        self.ok
    }

    /// Steps recorded so far.
    pub fn steps_taken(&self) -> (r: usize)
        ensures
            r == self.taken(),
    {
        self.steps.len()
    }

    /// The loop's own invariant: steps are numbered from 0, within the budget; a pass is the
    /// last step; a synthesis is awaited only with a step of the budget left after it.
    pub closed spec fn wf(&self) -> bool {
        &&& self.steps@.len() <= self.max_steps
        &&& forall|k: int| 0 <= k < self.steps@.len() ==> (#[trigger] self.steps@[k]).step == k
        &&& self.ok ==> self.steps@.len() > 0 && self.steps@.last().action@ == "pass"@ && self.pending is None
        &&& self.pending is Some ==> self.steps@.len() + 1 < self.max_steps
        &&& repair_record_fits(self.steps@, self.ok, self.synthesize)
        &&& self.pending matches Some(p) ==> !p.check.ok && spec_should_synthesize(
            self.synthesize,
            p.check,
            self.steps@.len() as usize,
            self.max_steps,
        )
    }

    /// A loop for `options`, refused when it has no step or no case to check.
    pub fn new(options: &AgentRepairOptions, cases: usize) -> (r: Result<(RepairLoop, RepairAction), RepairRequestError>)
        ensures
            r is Err <==> (options.max_steps == 0 || cases == 0),
            options.max_steps == 0 ==> r == Err::<(RepairLoop, RepairAction), RepairRequestError>(RepairRequestError::NoSteps),
            options.max_steps > 0 && cases == 0 ==> r == Err::<(RepairLoop, RepairAction), RepairRequestError>(
                RepairRequestError::NoCases,
            ),
            r matches Ok((l, a)) ==> l.synthesizes() == options.synthesize && l.seed() == options.refiner_seed,
            r matches Ok((l, a)) ==> l.wf() && l.taken() == 0 && !l.passed() && !l.awaiting_synthesis() && l.budget()
                == options.max_steps && a == RepairAction::Check,
    {
        check_repair_request(options.max_steps, cases)?;
        Ok(
            (
                RepairLoop {
                    max_steps: options.max_steps,
                    synthesize: options.synthesize,
                    refiner_seed: options.refiner_seed,
                    steps: Vec::new(),
                    ok: false,
                    pending: None,
                },
                RepairAction::Check,
            ),
        )
    }

    fn next_after_step(&self) -> (a: RepairAction)
        requires
            self.wf(),
            self.pending is None,
        ensures
            (a == RepairAction::Finish) <==> (self.ok || self.steps@.len() >= self.max_steps),
            a != RepairAction::Finish ==> a == RepairAction::Check,
    {
        if self.ok || self.steps.len() >= self.max_steps {
            RepairAction::Finish
        } else {
            RepairAction::Check
        }
    }

    /// Records the outcome of checking the working program (`working`: the program, if it
    /// parsed). A pass ends the loop; otherwise the step either asks for a synthesis or is
    /// recorded as a report, and the loop goes on while budget is left.
    pub fn on_check(&mut self, check: CheckSummary, working: Option<Module>) -> (a: RepairAction)
        requires
            old(self).wf(),
            !old(self).passed(),
            !old(self).awaiting_synthesis(),
            old(self).taken() < old(self).budget(),
        ensures
            final(self).wf(),
            final(self).budget() == old(self).budget(),
            final(self).seed() == old(self).seed(),
            check.ok ==> final(self).passed() && final(self).taken() == old(self).taken() + 1 && a == RepairAction::Finish,
            !check.ok && spec_should_synthesize(old(self).synthesizes(), check, old(self).taken() as usize, old(self).budget())
                ==> (final(self).awaiting_synthesis() && final(self).taken() == old(self).taken() && a
                == RepairAction::Synthesize {
                seed: ((old(self).seed() as int + old(self).taken()) % 0x1_0000_0000_0000_0000) as u64,
            }),
            !check.ok && !spec_should_synthesize(old(self).synthesizes(), check, old(self).taken() as usize, old(self).budget())
                ==> (!final(self).passed() && final(self).taken() == old(self).taken() + 1 && (a == RepairAction::Finish
                <==> final(self).taken() == final(self).budget()) && (a != RepairAction::Finish ==> a == RepairAction::Check)),
            check.ok ==> final(self).recorded() == old(self).recorded().push(final(self).recorded().last()) && pass_record(
                final(self).recorded().last(),
                old(self).taken() as usize,
                check,
            ),
            !check.ok && spec_should_synthesize(old(self).synthesizes(), check, old(self).taken() as usize, old(self).budget())
                ==> final(self).recorded() == old(self).recorded() && final(self).pending_check() == check
                && final(self).pending_working() == working,
            !check.ok && !spec_should_synthesize(old(self).synthesizes(), check, old(self).taken() as usize, old(self).budget())
                ==> final(self).recorded() == old(self).recorded().push(final(self).recorded().last()) && failed_record(
                final(self).recorded().last(),
                old(self).taken() as usize,
                check,
                working,
                None,
            ),
    {
        proof {
            reveal_strlit("pass");
            reveal_strlit("report");
            reveal_strlit("synthesize");
            assert("pass"@ != "synthesize"@ && "report"@ != "synthesize"@) by {
                assert("pass"@.len() != "synthesize"@.len() && "report"@.len() != "synthesize"@.len());
            }
        }
        let step = self.steps.len();
        let ghost before = self.steps@;
        if check.ok {
            let record = pass_step(step, check);
            self.steps.push(record);
            self.ok = true;
            proof {
                lemma_record_push(before, self.steps@.last(), self.synthesize);
                assert(self.steps@ == before.push(self.steps@.last()));
            }
            return RepairAction::Finish;
        }
        if should_synthesize(self.synthesize, &check, step, self.max_steps) {
            let seed = refiner_seed_for_step(self.refiner_seed, step);
            self.pending = Some(PendingStep { check, working });
            return RepairAction::Synthesize { seed };
        }
        let record = match &working {
            Some(m) => failed_step(step, check, Some(m), None),
            None => failed_step(step, check, None, None),
        };
        self.steps.push(record);
        proof {
            lemma_record_push(before, self.steps@.last(), self.synthesize);
            assert(self.steps@ == before.push(self.steps@.last()));
        }
        self.next_after_step()
    }

    /// Records the outcome of the synthesis the last check asked for, and goes on with the
    /// next check (a synthesis always leaves a step of the budget for it).
    pub fn on_synthesis(&mut self, succeeded: bool) -> (a: RepairAction)
        requires
            old(self).wf(),
            old(self).awaiting_synthesis(),
        ensures
            final(self).wf(),
            final(self).budget() == old(self).budget(),
            final(self).seed() == old(self).seed(),
            final(self).taken() == old(self).taken() + 1,
            !final(self).passed() && !final(self).awaiting_synthesis(),
            a == RepairAction::Check,
            final(self).recorded() == old(self).recorded().push(final(self).recorded().last()),
            failed_record(
                final(self).recorded().last(),
                old(self).taken() as usize,
                old(self).pending_check(),
                old(self).pending_working(),
                Some(succeeded),
            ),
    {
        proof {
            reveal_strlit("pass");
            reveal_strlit("report");
            reveal_strlit("synthesize");
        }
        let step = self.steps.len();
        let ghost before = self.steps@;
        let pending = self.pending.take();
        match pending {
            Some(p) => {
                let record = match &p.working {
                    Some(m) => failed_step(step, p.check, Some(m), Some(succeeded)),
                    None => failed_step(step, p.check, None, Some(succeeded)),
                };
                self.steps.push(record);
                proof {
                    lemma_record_push(before, self.steps@.last(), self.synthesize);
                    assert(self.steps@ == before.push(self.steps@.last()));
                }
            },
            None => {},
        }
        RepairAction::Check
    }

    /// The record of the run, for the program named `source`.
    pub fn finish(self, source: &str, output_path: Option<String>) -> (r: AgentRepairReport)
        requires
            self.wf(),
        ensures
            r.ok == self.passed(),
            r.steps_taken == self.taken(),
            r.max_steps == self.budget(),
            r.source@ == source@,
            r.steps_taken <= r.max_steps,
            r.steps@ == self.recorded(),
            r.steps_taken == r.steps@.len(),
            r.output_path == output_path,
            repair_record_fits(r.steps@, r.ok, self.synthesizes()),
    {
        repair_report(self.ok, source, self.max_steps, self.steps, output_path)
    }
}

} // verus!
