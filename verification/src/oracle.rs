//! In-process Program IR oracle: a parsed module is validated, lowered, admitted, compiled and
//! run against input/output cases, and the outcome is summarized for tools.
//!
//! Reading and parsing the file is the caller's; what each stage records is verified here.
use vstd::prelude::*;
use crate::ast::Module;
use crate::diagnostics::{code_str, error_code};
use crate::exec::{i32_args, i32_result, CompiledModule, InvokeSession, Limits, RunError, MAX_WASM_BYTES};
use crate::lower::{lower_module, lowered_bytes};
use crate::render::{lemma_same_error_message, spec_message};
use crate::text::{decimal, push_decimal, push_signed_decimal, signed_decimal, text};
use crate::validate::{spec_validate_module, valid_module, validate_module, ValidationError};

verus! {

/// Hard cap on the files a tool reads (manifests, Program IR, Wasm).
pub const MAX_CLI_FILE_BYTES: usize = 16777216;

/// One benchmark case: the arguments and the `i32` the export must return.
#[derive(Clone, Debug, PartialEq, Eq)]
pub struct BenchCase {
    pub args: Vec<i32>,
    pub expect_i32: i32,
}

/// The first case that failed, with what came back.
#[derive(Clone, Debug, PartialEq, Eq)]
pub struct FailedCaseDetail {
    pub args: Vec<i32>,
    pub expect_i32: i32,
    pub got_i32: Option<i32>,
    pub invoke_error: Option<String>,
}

/// Outcome of checking one Program IR file against a set of cases.
#[derive(Clone, Debug, PartialEq, Eq)]
pub struct CheckSummary {
    pub parse_ok: bool,
    pub validate_ok: bool,
    pub compile_ok: bool,
    pub run_ok: bool,
    pub cases_passed: usize,
    pub cases_total: usize,
    pub ok: bool,
    pub validation_code: Option<String>,
    pub failed_case_index: Option<usize>,
    pub failed_case: Option<FailedCaseDetail>,
    pub errors: Vec<String>,
}

/// A summary in which no stage passed and nothing is recorded yet.
pub open spec fn blank_summary(s: CheckSummary, cases_total: usize) -> bool {
    &&& !s.parse_ok && !s.validate_ok && !s.compile_ok && !s.run_ok && !s.ok
    &&& s.cases_passed == 0
    &&& s.cases_total == cases_total
    &&& s.validation_code is None
    &&& s.failed_case_index is None
    &&& s.failed_case is None
}

fn new_summary(cases_total: usize) -> (s: CheckSummary)
    ensures
        blank_summary(s, cases_total),
        s.errors@.len() == 0,
{
    CheckSummary {
        parse_ok: false,
        validate_ok: false,
        compile_ok: false,
        run_ok: false,
        cases_passed: 0,
        cases_total,
        ok: false,
        validation_code: None,
        failed_case_index: None,
        failed_case: None,
        errors: Vec::new(),
    }
}

/// `label: message` as one string.
fn labeled(label: &str, message: &str) -> (r: String)
    ensures
        r@ == label@ + message@,
{
    let mut out = String::new();
    out.append(label);
    out.append(message);
    out
}

/// Records a validation failure: its code, and its message as an error.
pub fn record_validation_failure(summary: &mut CheckSummary, e: &ValidationError)
    ensures
        final(summary).validation_code matches Some(c) && c@ == code_str(error_code(*e)),
        final(summary).errors@ == old(summary).errors@.push(final(summary).errors@.last()),
        final(summary).errors@.last()@ == "validate_module: "@ + spec_message(*e),
        final(summary).parse_ok == old(summary).parse_ok,
        final(summary).validate_ok == old(summary).validate_ok,
        final(summary).compile_ok == old(summary).compile_ok,
        final(summary).run_ok == old(summary).run_ok,
        final(summary).ok == old(summary).ok,
        final(summary).cases_passed == old(summary).cases_passed,
        final(summary).cases_total == old(summary).cases_total,
        final(summary).failed_case_index == old(summary).failed_case_index,
        final(summary).failed_case == old(summary).failed_case,
{
    summary.validation_code = Some(text(e.code().as_str()));
    let m = e.message();
    summary.errors.push(labeled("validate_module: ", m.as_str()));
}

/// The error text of a failed case run.
fn case_error_text(i: usize, e: &RunError) -> (r: String)
    ensures
        r@ == "case "@ + decimal(i as nat) + ": "@ + crate::exec::run_message(*e),
{
    let mut out = String::new();
    out.append("case ");
    push_decimal(&mut out, i as u64);
    out.append(": ");
    let m = e.message();
    out.append(m.as_str());
    out
}

/// The error text of a case that returned the wrong value.
fn case_mismatch_text(i: usize, expected: i32, got: i32) -> (r: String)
    ensures
        r@ == "case "@ + decimal(i as nat) + ": expected "@ + signed_decimal(expected as int) + ", got "@
            + signed_decimal(got as int),
{
    let mut out = String::new();
    out.append("case ");
    push_decimal(&mut out, i as u64);
    out.append(": expected ");
    push_signed_decimal(&mut out, expected as i64);
    out.append(", got ");
    push_signed_decimal(&mut out, got as i64);
    out
}

fn copy_args(v: &Vec<i32>) -> (r: Vec<i32>)
    ensures
        r@ == v@,
{
    let mut out: Vec<i32> = Vec::new();
    let mut i: usize = 0;
    while i < v.len()
        invariant
            i <= v@.len(),
            out@ == v@.take(i as int),
        decreases v@.len() - i,
    {
        out.push(v[i]);
        i = i + 1;
        assert(out@ =~= v@.take(i as int));
    }
    assert(v@.take(v@.len() as int) =~= v@);
    out
}

/// Whether a case's outcome is a pass: it returned the expected `i32`.
pub open spec fn case_passes(o: Result<i32, RunError>, c: BenchCase) -> bool {
    o == Ok::<i32, RunError>(c.expect_i32)
}

/// How many of the first `n` cases passed.
pub open spec fn passed_count(outcomes: Seq<Result<i32, RunError>>, cases: Seq<BenchCase>, n: int) -> nat
    decreases n,
{
    if n <= 0 {
        0
    } else {
        passed_count(outcomes, cases, n - 1) + if case_passes(outcomes[n - 1], cases[n - 1]) {
            1nat
        } else {
            0nat
        }
    }
}

/// The last of the first `n` cases that failed, if any.
pub open spec fn last_failure(outcomes: Seq<Result<i32, RunError>>, cases: Seq<BenchCase>, n: int) -> Option<int>
    decreases n,
{
    if n <= 0 {
        None
    } else if !case_passes(outcomes[n - 1], cases[n - 1]) {
        Some(n - 1)
    } else {
        last_failure(outcomes, cases, n - 1)
    }
}

/// The error text of failed case `i`.
pub open spec fn failure_text(i: int, o: Result<i32, RunError>, c: BenchCase) -> Seq<char> {
    match o {
        Ok(got) => "case "@ + decimal(i as nat) + ": expected "@ + signed_decimal(c.expect_i32 as int) + ", got "@
            + signed_decimal(got as int),
        Err(e) => "case "@ + decimal(i as nat) + ": "@ + crate::exec::run_message(e),
    }
}

/// The error texts of the failed cases among the first `n`, in order.
pub open spec fn failure_texts(outcomes: Seq<Result<i32, RunError>>, cases: Seq<BenchCase>, n: int) -> Seq<Seq<char>>
    decreases n,
{
    if n <= 0 {
        Seq::empty()
    } else if case_passes(outcomes[n - 1], cases[n - 1]) {
        failure_texts(outcomes, cases, n - 1)
    } else {
        failure_texts(outcomes, cases, n - 1).push(failure_text(n - 1, outcomes[n - 1], cases[n - 1]))
    }
}

/// Every case among the first `n` either passed or has its error text.
pub proof fn lemma_failures_and_passes(outcomes: Seq<Result<i32, RunError>>, cases: Seq<BenchCase>, n: int)
    requires
        0 <= n,
    ensures
        failure_texts(outcomes, cases, n).len() + passed_count(outcomes, cases, n) == n,
        last_failure(outcomes, cases, n) is None <==> failure_texts(outcomes, cases, n).len() == 0,
        last_failure(outcomes, cases, n) matches Some(i) ==> 0 <= i < n,
    decreases n,
{
    if n > 0 {
        lemma_failures_and_passes(outcomes, cases, n - 1);
    }
}

/// The texts of a list of errors.
pub open spec fn error_texts(errors: Seq<String>) -> Seq<Seq<char>> {
    errors.map_values(|e: String| e@)
}

/// What a failure record says of case `c`, whose outcome was `o`.
pub open spec fn failure_detail(d: FailedCaseDetail, o: Result<i32, RunError>, c: BenchCase) -> bool {
    &&& d.args@ == c.args@
    &&& d.expect_i32 == c.expect_i32
    &&& match o {
        Ok(got) => d.got_i32 == Some(got) && d.invoke_error is None,
        Err(e) => d.got_i32 is None && (d.invoke_error matches Some(m) && m@ == crate::exec::run_message(e)),
    }
}

/// The run stage's part of a summary, as a function of the cases' outcomes: the counts, the
/// last failure with its record, one error text per failed case in order, and `run_ok` and
/// `ok` (every one of at least one case passed).
pub open spec fn tally_fits(s: CheckSummary, outcomes: Seq<Result<i32, RunError>>, cases: Seq<BenchCase>) -> bool {
    &&& s.cases_total == cases.len()
    &&& s.cases_passed == passed_count(outcomes, cases, cases.len() as int)
    &&& s.run_ok == (s.cases_passed == s.cases_total && s.cases_total > 0)
    &&& s.ok == (s.validate_ok && s.compile_ok && s.run_ok)
    &&& match last_failure(outcomes, cases, cases.len() as int) {
        None => s.failed_case_index is None && s.failed_case is None,
        Some(i) => s.failed_case_index == Some(i as usize) && (s.failed_case matches Some(d) && failure_detail(
            d,
            outcomes[i],
            cases[i],
        )),
    }
    &&& error_texts(s.errors@) == failure_texts(outcomes, cases, cases.len() as int)
}

/// Summarizes the outcomes of running `cases` (one outcome per case, in order) on a module that
/// parsed, validated and compiled.
pub fn tally_cases(outcomes: &[Result<i32, RunError>], cases: &[BenchCase]) -> (r: CheckSummary)
    requires
        outcomes@.len() == cases@.len(),
    ensures
        r.parse_ok && r.validate_ok && r.compile_ok && r.validation_code is None,
        tally_fits(r, outcomes@, cases@),
        r.errors@.len() + r.cases_passed == cases@.len(),
{
    let n = cases.len();
    let mut summary = new_summary(n);
    summary.parse_ok = true;
    summary.validate_ok = true;
    summary.compile_ok = true;
    let mut i: usize = 0;
    while i < n
        invariant
            n == cases@.len(),
            n == outcomes@.len(),
            i <= n,
            summary.parse_ok && summary.validate_ok && summary.compile_ok,
            !summary.run_ok && !summary.ok,
            summary.validation_code is None,
            summary.cases_total == n,
            summary.cases_passed == passed_count(outcomes@, cases@, i as int),
            match last_failure(outcomes@, cases@, i as int) {
                None => summary.failed_case_index is None && summary.failed_case is None,
                Some(j) => summary.failed_case_index == Some(j as usize) && (summary.failed_case matches Some(d)
                    && failure_detail(d, outcomes@[j], cases@[j])),
            },
            error_texts(summary.errors@) == failure_texts(outcomes@, cases@, i as int),
        decreases n - i,
    {
        proof {
            lemma_failures_and_passes(outcomes@, cases@, i as int);
        }
        let case = &cases[i];
        let ghost before = summary.errors@;
        match &outcomes[i] {
            Ok(got) => {
                if *got == case.expect_i32 {
                    summary.cases_passed = summary.cases_passed + 1;
                } else {
                    summary.failed_case_index = Some(i);
                    summary.failed_case = Some(
                        FailedCaseDetail {
                            args: copy_args(&case.args),
                            expect_i32: case.expect_i32,
                            got_i32: Some(*got),
                            invoke_error: None,
                        },
                    );
                    summary.errors.push(case_mismatch_text(i, case.expect_i32, *got));
                    assert(error_texts(summary.errors@) =~= error_texts(before).push(
                        failure_text(i as int, outcomes@[i as int], cases@[i as int]),
                    ));
                }
            },
            Err(e) => {
                summary.failed_case_index = Some(i);
                summary.failed_case = Some(
                    FailedCaseDetail {
                        args: copy_args(&case.args),
                        expect_i32: case.expect_i32,
                        got_i32: None,
                        invoke_error: Some(e.message()),
                    },
                );
                summary.errors.push(case_error_text(i, e));
                assert(error_texts(summary.errors@) =~= error_texts(before).push(
                    failure_text(i as int, outcomes@[i as int], cases@[i as int]),
                ));
            },
        }
        i = i + 1;
    }
    proof {
        lemma_failures_and_passes(outcomes@, cases@, n as int);
    }
    summary.run_ok = summary.cases_passed == summary.cases_total && n > 0;
    summary.ok = summary.validate_ok && summary.compile_ok && summary.run_ok;
    summary
}

/// A valid module whose lowered Wasm fits the module size budget: it goes on to compilation.
pub open spec fn lowering_admitted(m: Module) -> bool {
    valid_module(m) && lowered_bytes(m).len() <= MAX_WASM_BYTES
}

/// No stage after the ones a summary records as passed has passed or recorded anything.
pub open spec fn no_run(s: CheckSummary, cases_total: usize) -> bool {
    &&& !s.run_ok && !s.ok
    &&& s.cases_passed == 0
    &&& s.cases_total == cases_total
    &&& s.failed_case_index is None
    &&& s.failed_case is None
}

/// What the stages before compilation record: the parse error (against `label`); the
/// validation failure, with its code; the lowered Wasm over the size budget; or, for a module
/// that goes on to compilation, nothing but the three passed stages.
pub open spec fn stage_summary(s: CheckSummary, parsed: Result<Module, String>, label: Seq<char>, cases_total: usize) -> bool {
    match parsed {
        Err(m) => blank_summary(s, cases_total) && error_texts(s.errors@) == seq![
            "parse Program IR "@ + label + ": "@ + m@,
        ],
        Ok(module) => if !valid_module(module) {
            &&& s.parse_ok && !s.validate_ok && !s.compile_ok && no_run(s, cases_total)
            &&& s.validation_code matches Some(c) && c@ == code_str(error_code(spec_validate_module(module)->Err_0))
            &&& error_texts(s.errors@) == seq!["validate_module: "@ + spec_message(spec_validate_module(module)->Err_0)]
        } else if !lowering_admitted(module) {
            &&& s.parse_ok && s.validate_ok && !s.compile_ok && no_run(s, cases_total)
            &&& s.validation_code is None
            &&& error_texts(s.errors@) == seq![
                "wasm size "@ + decimal(lowered_bytes(module).len()) + " exceeds max "@ + decimal(MAX_WASM_BYTES as nat),
            ]
        } else {
            &&& s.parse_ok && s.validate_ok && s.compile_ok && no_run(s, cases_total)
            &&& s.validation_code is None
            &&& s.errors@.len() == 0
        },
    }
}

/// Runs the stages before compilation (see [`stage_summary`]); for a module that goes on to
/// compilation, also its lowered Wasm.
pub fn evaluate_stages(parsed: Result<Module, String>, source_label: &str, cases_total: usize) -> (r: (
    CheckSummary,
    Option<Vec<u8>>,
))
    ensures
        stage_summary(r.0, parsed, source_label@, cases_total),
        r.1 is Some <==> r.0.compile_ok,
        r.1 matches Some(w) ==> (parsed matches Ok(m) && w@ == lowered_bytes(m)),
{
    let mut summary = new_summary(cases_total);
    let module = match parsed {
        Ok(m) => m,
        Err(e) => {
            let mut label = String::new();
            label.append("parse Program IR ");
            label.append(source_label);
            label.append(": ");
            summary.errors.push(labeled(label.as_str(), e.as_str()));
            assert(error_texts(summary.errors@) =~= seq!["parse Program IR "@ + source_label@ + ": "@ + e@]);
            return (summary, None);
        },
    };
    summary.parse_ok = true;
    match validate_module(&module) {
        Ok(()) => {},
        Err(e) => {
            proof {
                lemma_same_error_message(e, spec_validate_module(module)->Err_0);
            }
            record_validation_failure(&mut summary, &e);
            assert(error_texts(summary.errors@) =~= seq![
                "validate_module: "@ + spec_message(spec_validate_module(module)->Err_0),
            ]);
            return (summary, None);
        },
    }
    summary.validate_ok = true;
    let wasm = match lower_module(&module) {
        Ok(w) => w,
        Err(e) => {
            proof {
                assert(false);
            }
            return (summary, None);
        },
    };
    if wasm.len() > MAX_WASM_BYTES {
        let mut out = String::new();
        out.append("wasm size ");
        push_decimal(&mut out, wasm.len() as u64);
        out.append(" exceeds max ");
        push_decimal(&mut out, MAX_WASM_BYTES as u64);
        summary.errors.push(out);
        assert(error_texts(summary.errors@) =~= seq![
            "wasm size "@ + decimal(lowered_bytes(module).len()) + " exceeds max "@ + decimal(MAX_WASM_BYTES as nat),
        ]);
        return (summary, None);
    }
    summary.compile_ok = true;
    (summary, Some(wasm))
}

/// `b` is `a` with one more error, and nothing else changed.
pub open spec fn one_more_error(a: CheckSummary, b: CheckSummary, text: Seq<char>) -> bool {
    &&& b.errors@.len() == a.errors@.len() + 1
    &&& b.errors@.drop_last() == a.errors@
    &&& b.errors@.last()@ == text
    &&& b == CheckSummary { errors: b.errors, ..a }
}

/// Records that compiling the lowered Wasm failed with `message`.
pub fn record_compile_failure(summary: &mut CheckSummary, message: &str)
    ensures
        one_more_error(*old(summary), *final(summary), "instantiate: "@ + message@),
{
    let ghost before = summary.errors@;
    summary.errors.push(labeled("instantiate: ", message));
    assert(summary.errors@.drop_last() =~= before);
}

/// Records that instantiating the compiled module or finding its export failed with `message`.
pub fn record_prepare_failure(summary: &mut CheckSummary, message: &str)
    ensures
        one_more_error(*old(summary), *final(summary), "prepare invoke: "@ + message@),
{
    let ghost before = summary.errors@;
    summary.errors.push(labeled("prepare invoke: ", message));
    assert(summary.errors@.drop_last() =~= before);
}

/// `sess` ran `module`'s lowered bytes `source` and export `export`, made exactly one call per
/// case, in order, with the case's arguments, under `fuel` and `wall_ms`, and `outcomes` are
/// what those calls came to as `i32` results.
pub open spec fn ran_cases(
    sess: InvokeSession,
    outcomes: Seq<Result<i32, RunError>>,
    source: Seq<u8>,
    export: Seq<char>,
    fuel: u64,
    wall_ms: Option<u64>,
    cases: Seq<BenchCase>,
) -> bool {
    &&& sess.source() == source
    &&& sess.export() == export
    &&& sess.calls().len() == cases.len()
    &&& outcomes.len() == cases.len()
    &&& forall|i: int|
        0 <= i < cases.len() ==> sess.calls()[i].0 == i32_args((#[trigger] cases[i]).args@) && sess.calls()[i].1
            == fuel && sess.calls()[i].2 == wall_ms && i32_result(outcomes[i], sess.calls()[i].3)
}

/// The one error of a summary is the compiler's, or the instantiation's or export lookup's,
/// with message `m`.
pub open spec fn compile_stage_error(s: CheckSummary, m: Seq<char>) -> bool {
    error_texts(s.errors@) == seq!["instantiate: "@ + m] || error_texts(s.errors@) == seq!["prepare invoke: "@ + m]
}

/// The summary of a module that went on to compilation: the compiler, or the instantiation or
/// export lookup, failed (one error, nothing run); or a session running the module's lowered
/// bytes and export `export` ran the cases, and the summary is the tally of their outcomes.
pub open spec fn evaluated(
    s: CheckSummary,
    module: Module,
    export: Seq<char>,
    fuel: u64,
    wall_ms: Option<u64>,
    cases: Seq<BenchCase>,
) -> bool {
    &&& s.parse_ok && s.validate_ok && s.compile_ok && s.validation_code is None
    &&& {
        ||| no_run(s, cases.len() as usize) && exists|m: Seq<char>| #[trigger] compile_stage_error(s, m)
        ||| exists|sess: InvokeSession, outcomes: Seq<Result<i32, RunError>>|
            #[trigger] ran_cases(sess, outcomes, lowered_bytes(module), export, fuel, wall_ms, cases) && tally_fits(
                s,
                outcomes,
                cases,
            )
    }
}

/// Everything a check of `parsed` against `cases` says (see [`evaluate_vcir_bytes`]).
pub open spec fn evaluation_fits(
    s: CheckSummary,
    parsed: Result<Module, String>,
    label: Seq<char>,
    export: Seq<char>,
    fuel: u64,
    wall_ms: Option<u64>,
    cases: Seq<BenchCase>,
) -> bool {
    &&& s.cases_total == cases.len()
    &&& s.parse_ok == parsed is Ok
    &&& (parsed matches Ok(m) && lowering_admitted(m)) ==> evaluated(s, parsed->Ok_0, export, fuel, wall_ms, cases)
    &&& !(parsed matches Ok(m) && lowering_admitted(m)) ==> stage_summary(s, parsed, label, cases.len() as usize)
    &&& s.compile_ok ==> s.validate_ok
    &&& s.validate_ok ==> s.parse_ok
    &&& s.run_ok ==> s.compile_ok && s.cases_total > 0 && s.cases_passed == s.cases_total
    &&& s.ok == (s.validate_ok && s.compile_ok && s.run_ok)
    &&& s.ok == (s.errors@.len() == 0 && s.cases_total > 0)
}

/// Checks a parsed Program IR module (or the parse error, reported against `source_label`)
/// against `cases`: validation, lowering, the lowered Wasm size budget, compilation, then each
/// case with `fuel` and `max_wall_ms`. Later cases still run after a failed one; the last
/// failure is the one recorded. The wall-clock cap sets each call's epoch deadline; the
/// interrupt itself comes from a host watchdog on the session's engine, which this function
/// does not run (a host that enforces the cap drives [`evaluate_stages`], its own compile and
/// calls, and [`tally_cases`]).
pub fn evaluate_vcir_bytes(
    parsed: Result<Module, String>,
    source_label: &str,
    export: &str,
    fuel: u64,
    max_wall_ms: Option<u64>,
    cases: &[BenchCase],
) -> (r: CheckSummary)
    ensures
        evaluation_fits(r, parsed, source_label@, export@, fuel, max_wall_ms, cases@),
{
    let ghost input = parsed;
    let (mut summary, lowered) = evaluate_stages(parsed, source_label, cases.len());
    let wasm = match lowered {
        Some(w) => w,
        None => {
            assert(error_texts(summary.errors@).len() == summary.errors@.len());
            return summary;
        },
    };
    let ghost module = input->Ok_0;
    let compiled = match CompiledModule::new(wasm.as_slice()) {
        Ok(c) => c,
        Err(e) => {
            let m = e.message();
            record_compile_failure(&mut summary, m.as_str());
            assert(error_texts(summary.errors@) =~= seq!["instantiate: "@ + m@]);
            assert(compile_stage_error(summary, m@));
            assert(error_texts(summary.errors@).len() == summary.errors@.len());
            return summary;
        },
    };
    let limits = Limits { fuel, max_wall_ms };
    let mut session = match compiled.prepare_invoke(export) {
        Ok(s) => s,
        Err(e) => {
            let m = e.message();
            record_prepare_failure(&mut summary, m.as_str());
            assert(error_texts(summary.errors@) =~= seq!["prepare invoke: "@ + m@]);
            assert(compile_stage_error(summary, m@));
            assert(error_texts(summary.errors@).len() == summary.errors@.len());
            return summary;
        },
    };
    let n = cases.len();
    let mut outcomes: Vec<Result<i32, RunError>> = Vec::new();
    let mut i: usize = 0;
    while i < n
        invariant
            n == cases@.len(),
            i <= n,
            outcomes@.len() == i,
            session.source() == lowered_bytes(module),
            session.export() == export@,
            session.wf(),
            session.calls().len() == i,
            limits.fuel == fuel,
            limits.max_wall_ms == max_wall_ms,
            forall|j: int|
                0 <= j < i ==> session.calls()[j].0 == i32_args((#[trigger] cases@[j]).args@) && session.calls()[j].1
                    == fuel && session.calls()[j].2 == max_wall_ms && i32_result(outcomes@[j], session.calls()[j].3),
        decreases n - i,
    {
        let got = session.invoke_i32_return(cases[i].args.as_slice(), limits);
        outcomes.push(got);
        proof {
            assert forall|j: int| 0 <= j < i + 1 implies session.calls()[j].0 == i32_args(
                (#[trigger] cases@[j]).args@,
            ) && session.calls()[j].1 == fuel && session.calls()[j].2 == max_wall_ms && i32_result(
                outcomes@[j],
                session.calls()[j].3,
            ) by {
                if j < i {
                    assert(session.calls()[j] == session.calls().drop_last()[j]);
                }
            }
        }
        i = i + 1;
    }
    let r = tally_cases(outcomes.as_slice(), cases);
    proof {
        assert(ran_cases(session, outcomes@, lowered_bytes(module), export@, fuel, max_wall_ms, cases@));
    }
    r
}

/// Checks a Program IR file: `loaded` is what reading it gave (the read error, or the parse
/// outcome of its bytes), `input_label` how the file is named in messages.
pub fn evaluate_vcir_path(
    loaded: Result<Result<Module, String>, String>,
    input_label: &str,
    export: &str,
    fuel: u64,
    max_wall_ms: Option<u64>,
    cases: &[BenchCase],
) -> (r: CheckSummary)
    ensures
        loaded matches Err(m) ==> blank_summary(r, cases@.len() as usize) && error_texts(r.errors@) == seq![
            "read "@ + input_label@ + ": "@ + m@,
        ],
        loaded matches Ok(parsed) ==> evaluation_fits(r, parsed, input_label@, export@, fuel, max_wall_ms, cases@),
{
    match loaded {
        Ok(parsed) => evaluate_vcir_bytes(parsed, input_label, export, fuel, max_wall_ms, cases),
        Err(e) => {
            let mut summary = new_summary(cases.len());
            let mut label = String::new();
            label.append("read ");
            label.append(input_label);
            label.append(": ");
            summary.errors.push(labeled(label.as_str(), e.as_str()));
            assert(error_texts(summary.errors@) =~= seq!["read "@ + input_label@ + ": "@ + e@]);
            summary
        },
    }
}

} // verus!
