use vectorc::cli::{resolve_suite_manifest, ManifestBase};
use vectorc::agent::{find_skill, skill_summary, skills_list, unknown_skill_message, fix_plan_report, Skill};
use vectorc::cli::{
    case_source, check_manifest_schema, check_program_path, check_spec_schema, check_suite, check_z_len,
    default_export, default_fuel, ensure_case_limits, ensure_spec_limits, ensure_wasm_emit_size, minimal_add_seed,
    sha256_hex, tally_eval, CaseSource, CliError, PathPart, MAX_BENCH_CASES,
};
use vectorc::inspect::{inspect_summary, opcode_histogram};
use vectorc::repair::{
    check_repair_request, failed_step, pass_step, refiner_seed_for_step, repair_report, should_synthesize, RepairAction,
    RepairLoop, RepairRequestError,
};
use vectorc::{
    evaluate_vcir_bytes, evaluate_vcir_path, run_explain, validate_module, BenchCase, Func, FuncSig, Instr,
    Module, Spec, SpecCase, ValType, MAX_PARAMS, PROGRAM_IR_VERSION,
};

fn add_cases() -> Vec<BenchCase> {
    vec![BenchCase { args: vec![1, 2], expect_i32: 3 }, BenchCase { args: vec![40, 2], expect_i32: 42 }]
}

fn sub_module() -> Module {
    Module {
        program_ir_version: PROGRAM_IR_VERSION,
        export_name: "run".into(),
        func: Func {
            sig: FuncSig { params: vec![ValType::I32, ValType::I32], results: vec![ValType::I32] },
            locals: vec![],
            body: vec![Instr::LocalGet { index: 0 }, Instr::LocalGet { index: 1 }, Instr::I32Sub, Instr::Return],
        },
    }
}

#[test]
fn evaluate_passes_a_correct_program() {
    let s = evaluate_vcir_bytes(Ok(minimal_add_seed()), "add.vcir", "run", 50_000, None, &add_cases());
    assert!(s.parse_ok && s.validate_ok && s.compile_ok && s.run_ok && s.ok);
    assert_eq!((s.cases_passed, s.cases_total), (2, 2));
    assert!(s.errors.is_empty());
    assert!(s.failed_case.is_none());
}

#[test]
fn evaluate_records_the_failing_case() {
    let s = evaluate_vcir_bytes(Ok(sub_module()), "sub.vcir", "run", 50_000, None, &add_cases());
    assert!(s.compile_ok && !s.run_ok && !s.ok);
    assert_eq!(s.cases_passed, 0);
    assert_eq!(s.failed_case_index, Some(1));
    let d = s.failed_case.expect("detail");
    assert_eq!(d.args, vec![40, 2]);
    assert_eq!(d.got_i32, Some(38));
    assert_eq!(s.errors, vec!["case 0: expected 3, got -1".to_string(), "case 1: expected 42, got 38".to_string()]);
}

#[test]
fn evaluate_reports_parse_and_validation_failures() {
    let s = evaluate_vcir_bytes(Err("EOF while parsing".into()), "x.vcir", "run", 1, None, &add_cases());
    assert!(!s.parse_ok && !s.ok);
    assert_eq!(s.errors, vec!["parse Program IR x.vcir: EOF while parsing".to_string()]);
    let mut bad = sub_module();
    bad.func.body.pop();
    let s = evaluate_vcir_bytes(Ok(bad), "x.vcir", "run", 1, None, &add_cases());
    assert!(s.parse_ok && !s.validate_ok);
    assert_eq!(s.validation_code.as_deref(), Some("VCIR_CTL005"));
    assert_eq!(s.errors, vec!["validate_module: function body must end with return".to_string()]);
    let s = evaluate_vcir_path(Err("No such file".into()), "y.vcir", "run", 1, None, &add_cases());
    assert_eq!(s.errors, vec!["read y.vcir: No such file".to_string()]);
    assert_eq!(s.cases_total, 2);
}

#[test]
fn evaluate_reports_a_missing_export() {
    let s = evaluate_vcir_bytes(Ok(minimal_add_seed()), "add.vcir", "main", 50_000, None, &add_cases());
    assert!(s.compile_ok && !s.ok);
    assert_eq!(s.errors, vec!["prepare invoke: missing export `main`".to_string()]);
}

#[test]
fn explain_known_and_unknown_codes() {
    let e = run_explain("VCIR_STK001").expect("known code");
    assert_eq!(e.title, "Stack underflow");
    assert_eq!(run_explain("VCIR_XYZ").unwrap_err(), "unknown diagnostic code `VCIR_XYZ`");
}

#[test]
fn skill_catalog() {
    let list = skills_list();
    let names: Vec<&str> = list.skills.iter().map(|s| s.name.as_str()).collect();
    assert_eq!(names, vec!["language", "diagnostics", "limits", "decoder"]);
    assert_eq!(list.skills[3].summary, "Latent z and ONNX I/O contract");
    assert_eq!(find_skill("limits"), Some(Skill::Limits));
    assert_eq!(find_skill("nope"), None);
    assert_eq!(skill_summary("nope"), "");
    assert_eq!(unknown_skill_message("x"), "unknown skill `x` (try: language, diagnostics, limits, decoder)");
}

#[test]
fn fix_plan_report_of_an_invalid_file() {
    let mut bad = sub_module();
    bad.func.body.pop();
    let r = fix_plan_report("bad.vcir", Ok(bad));
    assert!(!r.ok);
    assert_eq!(r.plans.as_ref().map(|p| p.len()), Some(1));
    assert_eq!(r.plans.unwrap()[0].code, "VCIR_CTL005");
    let r = fix_plan_report("ok.vcir", Ok(sub_module()));
    assert!(r.ok && r.plans.is_none());
    let r = fix_plan_report("x.vcir", Err("bad json".into()));
    assert!(!r.ok && r.validate.is_none());
    assert_eq!(r.parse_error.as_deref(), Some("bad json"));
}

#[test]
fn repair_decisions() {
    assert_eq!(check_repair_request(0, 3), Err(RepairRequestError::NoSteps));
    assert_eq!(check_repair_request(2, 0), Err(RepairRequestError::NoCases));
    assert_eq!(check_repair_request(2, 1), Ok(()));
    let failing = evaluate_vcir_bytes(Ok(sub_module()), "sub.vcir", "run", 50_000, None, &add_cases());
    assert!(should_synthesize(true, &failing, 0, 2));
    assert!(!should_synthesize(true, &failing, 1, 2));
    assert!(!should_synthesize(false, &failing, 0, 2));
    assert_eq!(refiner_seed_for_step(u64::MAX, 2), 1);
    let module = sub_module();
    let step = failed_step(0, failing.clone(), Some(&module), Some(true));
    assert_eq!(step.action, "synthesize");
    assert_eq!(step.counterexample.as_ref().map(|c| c.expect_i32), Some(42));
    assert!(step.fix_plan.is_none());
    let passed = evaluate_vcir_bytes(Ok(minimal_add_seed()), "add.vcir", "run", 50_000, None, &add_cases());
    let report = repair_report(true, "sub.vcir", 2, vec![step, pass_step(1, passed)], None);
    assert_eq!(report.steps_taken, 2);
    assert_eq!(report.steps[1].action, "pass");
}

#[test]
fn case_limits() {
    assert_eq!(ensure_case_limits(&[]), Err(CliError::NoCases));
    let too_many_args = vec![BenchCase { args: vec![0; MAX_PARAMS + 1], expect_i32: 0 }];
    assert_eq!(
        ensure_case_limits(&too_many_args),
        Err(CliError::TooManyArgs { case: 0, count: MAX_PARAMS + 1, max: MAX_PARAMS })
    );
    let many = vec![BenchCase { args: vec![], expect_i32: 0 }; MAX_BENCH_CASES + 1];
    assert_eq!(ensure_case_limits(&many).unwrap_err().message(), "too many cases (10001 > 10000)");
    assert_eq!(ensure_case_limits(&add_cases()), Ok(()));
    let spec = Spec { cases: vec![SpecCase { args: vec![1], expect_i32: 1 }] };
    assert_eq!(ensure_spec_limits(&spec), Ok(()));
    assert_eq!(ensure_spec_limits(&Spec { cases: vec![] }).unwrap_err().message(), "spec must contain at least one case");
}

#[test]
fn input_checks() {
    assert!(ensure_wasm_emit_size(&[0u8; 16]).is_ok());
    assert_eq!(check_manifest_schema(2).unwrap_err().message(), "unsupported benchmark schema_version 2");
    assert_eq!(check_suite(1, 0), Err(CliError::EmptySuite));
    assert_eq!(check_spec_schema(None), Ok(()));
    assert_eq!(check_spec_schema(Some(3)).unwrap_err().message(), "unsupported synthesize spec schema_version 3 (only 1 supported)");
    assert_eq!(check_program_path(true, &[PathPart::Normal]), Err(CliError::AbsoluteProgramPath));
    assert_eq!(check_program_path(false, &[PathPart::Normal, PathPart::ParentDir]).unwrap_err().message(), "program_path must not contain `..`");
    assert_eq!(check_program_path(false, &[PathPart::CurDir, PathPart::Normal]), Ok(()));
    assert_eq!(case_source(true, false), Ok(CaseSource::Spec));
    assert_eq!(case_source(true, true).unwrap_err().message(), "provide only one of --spec or --manifest");
    assert_eq!(check_z_len(3).unwrap_err().message(), "z length must be exactly 256 (got 3) \u{2014} see Z_CONTRACT");
    assert_eq!(default_export(), "run");
    assert_eq!(default_fuel(), 50_000);
    validate_module(&minimal_add_seed()).expect("seed validates");
}

#[test]
fn eval_tally() {
    let pass = evaluate_vcir_bytes(Ok(minimal_add_seed()), "a", "run", 50_000, None, &add_cases());
    let fail = evaluate_vcir_bytes(Ok(sub_module()), "b", "run", 50_000, None, &add_cases());
    let counts = tally_eval(&[pass, fail]);
    assert_eq!((counts.tasks_total, counts.tasks_passed, counts.validate_ok, counts.compile_ok), (2, 1, 2, 2));
    assert_eq!((counts.cases_passed, counts.cases_total), (2, 4));
}

#[test]
fn opcode_histogram_counts_nested_instructions_in_name_order() {
    let body = vec![
        Instr::LocalGet { index: 0 },
        Instr::Block { result: Some(ValType::I32), body: vec![Instr::LocalGet { index: 0 }, Instr::I32Const { value: 1 }, Instr::I32Add] },
        Instr::Return,
    ];
    let h = opcode_histogram(&body);
    let expected: Vec<(String, usize)> = vec![
        ("block".into(), 1),
        ("i32_add".into(), 1),
        ("i32_const".into(), 1),
        ("local_get".into(), 2),
        ("return".into(), 1),
    ];
    assert_eq!(h, expected);
    assert_eq!(h.iter().map(|(_, n)| n).sum::<usize>(), vectorc::instr_tree_node_count(&body));
    let m = minimal_add_seed();
    let s = inspect_summary(&m);
    assert_eq!(s.params, vec!["i32".to_string(), "i32".to_string()]);
    assert_eq!(s.instruction_tree_nodes, 4);
    assert_eq!(s.max_control_nesting_depth, 0);
}

#[test]
fn digest_is_lower_hex_sha256() {
    assert_eq!(sha256_hex(b"abc"), "ba7816bf8f01cfea414140de5dae2223b00361a396177a9cb410ff61f20015ad");
    assert_eq!(sha256_hex(b"").len(), 64);
}

#[test]
fn repair_loop_checks_synthesizes_and_passes() {
    let opts = vectorc::AgentRepairOptions {
        max_steps: 3,
        synthesize: true,
        synthesize_steps: 10,
        refiner_seed: 5,
        fuel: 50_000,
        max_wall_ms: None,
        json: false,
        write_output: None,
    };
    let (mut state, action) = RepairLoop::new(&opts, 2).expect("loop");
    assert_eq!(action, RepairAction::Check);
    let failing = evaluate_vcir_bytes(Ok(sub_module()), "sub.vcir", "run", 50_000, None, &add_cases());
    assert_eq!(state.on_check(failing, Some(sub_module())), RepairAction::Synthesize { seed: 5 });
    assert_eq!(state.on_synthesis(true), RepairAction::Check);
    let passing = evaluate_vcir_bytes(Ok(minimal_add_seed()), "add.vcir", "run", 50_000, None, &add_cases());
    assert_eq!(state.on_check(passing, None), RepairAction::Finish);
    assert!(state.succeeded());
    let report = state.finish("sub.vcir", None);
    assert!(report.ok);
    assert_eq!(report.steps_taken, 2);
    assert_eq!(report.steps[0].action, "synthesize");
    assert_eq!(report.steps[0].synthesize_ok, Some(true));
    assert_eq!(report.steps[1].action, "pass");
}

#[test]
fn repair_loop_stops_at_its_budget() {
    let mut opts = vectorc::AgentRepairOptions {
        max_steps: 1,
        synthesize: true,
        synthesize_steps: 10,
        refiner_seed: 0,
        fuel: 50_000,
        max_wall_ms: None,
        json: false,
        write_output: None,
    };
    let (mut state, _) = RepairLoop::new(&opts, 2).expect("loop");
    let failing = evaluate_vcir_bytes(Ok(sub_module()), "sub.vcir", "run", 50_000, None, &add_cases());
    assert_eq!(state.on_check(failing, Some(sub_module())), RepairAction::Finish);
    let report = state.finish("sub.vcir", None);
    assert!(!report.ok);
    assert_eq!(report.steps[0].action, "report");
    opts.max_steps = 0;
    assert!(matches!(RepairLoop::new(&opts, 2), Err(RepairRequestError::NoSteps)));
}

#[test]
fn suite_manifest_paths_resolve_relative_and_repo_root_first() {
    assert_eq!(resolve_suite_manifest(true, &[PathPart::RootDir, PathPart::Normal], true, true), Err(CliError::AbsoluteManifestPath));
    assert_eq!(resolve_suite_manifest(false, &[PathPart::ParentDir, PathPart::Normal], true, true), Err(CliError::ParentInManifestPath));
    assert_eq!(resolve_suite_manifest(false, &[PathPart::Normal, PathPart::Normal], true, true), Ok(Some(ManifestBase::RepoRoot)));
    assert_eq!(resolve_suite_manifest(false, &[PathPart::Normal], false, true), Ok(Some(ManifestBase::SuiteDir)));
    assert_eq!(resolve_suite_manifest(false, &[PathPart::Normal], false, false), Ok(None));
    assert_eq!(CliError::AbsoluteManifestPath.message(), "suite manifest path must be relative");
}
