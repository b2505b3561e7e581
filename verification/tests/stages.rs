use vectorc::cli::minimal_add_seed;
use vectorc::exec::WasmScalar;
use vectorc::inspect::walk_op_histogram;
use vectorc::oracle::{evaluate_stages, record_compile_failure, record_prepare_failure, tally_cases};
use vectorc::repair::{RepairAction, RepairLoop, RepairRequestError};
use vectorc::{
    evaluate_vcir_bytes, instr_tree_node_count, lower_module, max_control_nesting_depth, AgentRepairOptions, BenchCase,
    CheckSummary, CompiledModule, DecodeError, Func, FuncSig, Instr, LatentDecoder, Limits, Module, ModuleSpecCache,
    OrtLatentDecoder, RunError, Spec, SpecCase, ValType, EMBEDDING_DIM, PROGRAM_IR_VERSION,
};

fn add_cases() -> Vec<BenchCase> {
    vec![BenchCase { args: vec![1, 2], expect_i32: 3 }, BenchCase { args: vec![40, 2], expect_i32: 42 }]
}

fn opts(max_steps: usize) -> AgentRepairOptions {
    AgentRepairOptions {
        max_steps,
        synthesize: false,
        synthesize_steps: 10,
        refiner_seed: 1,
        fuel: 10_000,
        max_wall_ms: None,
        json: false,
        write_output: None,
    }
}

fn passing_summary() -> CheckSummary {
    tally_cases(&[Ok(3), Ok(42)], &add_cases())
}

#[test]
fn tally_counts_passes_and_keeps_the_last_failure() {
    let outcomes = [Ok(3), Ok(7), Err(RunError::Trapped("boom".into()))];
    let cases = vec![
        BenchCase { args: vec![1, 2], expect_i32: 3 },
        BenchCase { args: vec![5, 5], expect_i32: 10 },
        BenchCase { args: vec![0, 0], expect_i32: 0 },
    ];
    let s = tally_cases(&outcomes, &cases);
    assert!(s.parse_ok && s.validate_ok && s.compile_ok && !s.run_ok && !s.ok);
    assert_eq!((s.cases_passed, s.cases_total), (1, 3));
    assert_eq!(s.failed_case_index, Some(2));
    let d = s.failed_case.expect("failure record");
    assert_eq!((d.args, d.expect_i32, d.got_i32), (vec![0, 0], 0, None));
    assert_eq!(d.invoke_error.as_deref(), Some("wasm invoke trapped: boom"));
    assert_eq!(s.errors, vec!["case 1: expected 10, got 7".to_string(), "case 2: wasm invoke trapped: boom".to_string()]);
}

#[test]
fn tally_of_all_passes_is_ok() {
    let s = passing_summary();
    assert!(s.run_ok && s.ok && s.errors.is_empty());
    assert_eq!(s.cases_passed, 2);
    let empty = tally_cases(&[], &[]);
    assert!(!empty.run_ok && !empty.ok && empty.errors.is_empty());
}

#[test]
fn empty_case_list_compiles_but_never_passes() {
    let s = evaluate_vcir_bytes(Ok(minimal_add_seed()), "add.vcir", "run", 50_000, None, &[]);
    assert!(s.parse_ok && s.validate_ok && s.compile_ok);
    assert!(!s.run_ok && !s.ok);
    assert_eq!(s.cases_total, 0);
}

#[test]
fn stages_hand_over_the_lowered_module() {
    let (s, wasm) = evaluate_stages(Ok(minimal_add_seed()), "add.vcir", 2);
    assert!(s.compile_ok && s.errors.is_empty());
    assert_eq!(wasm.expect("lowered"), lower_module(&minimal_add_seed()).expect("lower"));
    let (s, wasm) = evaluate_stages(Err("bad json".into()), "x.vcir", 2);
    assert!(wasm.is_none() && !s.parse_ok);
    assert_eq!(s.errors, vec!["parse Program IR x.vcir: bad json".to_string()]);
}

#[test]
fn stage_failures_are_recorded_with_their_labels() {
    let (mut s, _) = evaluate_stages(Ok(minimal_add_seed()), "add.vcir", 1);
    record_compile_failure(&mut s, "too slow");
    assert_eq!(s.errors, vec!["instantiate: too slow".to_string()]);
    record_prepare_failure(&mut s, "missing export `go`");
    assert_eq!(s.errors[1], "prepare invoke: missing export `go`");
    assert!(s.compile_ok && !s.run_ok && !s.ok);
}

#[test]
fn lowered_module_starts_with_the_wasm_header() {
    let wasm = lower_module(&minimal_add_seed()).expect("lower");
    assert_eq!(&wasm[..8], &[0x00, 0x61, 0x73, 0x6d, 0x01, 0x00, 0x00, 0x00]);
}

#[test]
fn satisfies_runs_every_case() {
    let mut cache = ModuleSpecCache::new();
    let spec = Spec { cases: vec![SpecCase { args: vec![1, 2], expect_i32: 3 }, SpecCase { args: vec![2, 2], expect_i32: 4 }] };
    assert!(cache.satisfies(&minimal_add_seed(), &spec, 10_000, None).is_ok());
    let wrong = Spec { cases: vec![SpecCase { args: vec![1, 2], expect_i32: 3 }, SpecCase { args: vec![2, 2], expect_i32: 5 }] };
    assert!(cache.satisfies(&minimal_add_seed(), &wrong, 10_000, None).is_err());
}

#[test]
fn session_calls_run_with_the_given_fuel() {
    let wasm = lower_module(&minimal_add_seed()).expect("lower");
    let compiled = CompiledModule::new(&wasm).expect("compile");
    let mut session = compiled.prepare_invoke("run").expect("prepare");
    assert_eq!(session.export_name(), "run");
    assert!(session.invoke_i32_return(&[1, 2], Limits { fuel: 0, max_wall_ms: None }).is_err());
    assert_eq!(session.invoke_scalar_return(&[WasmScalar::I32(1), WasmScalar::I32(2)], Limits { fuel: 10_000, max_wall_ms: None }), Ok(WasmScalar::I32(3)));
}

#[test]
fn repair_needs_cases_once_steps_are_given() {
    assert_eq!(RepairLoop::new(&opts(3), 0).err(), Some(RepairRequestError::NoCases));
    assert_eq!(RepairLoop::new(&opts(0), 0).err(), Some(RepairRequestError::NoSteps));
}

#[test]
fn repair_report_keeps_the_recorded_steps() {
    let (mut state, action) = RepairLoop::new(&opts(3), 2).expect("loop");
    assert_eq!(action, RepairAction::Check);
    let failing = tally_cases(&[Ok(3), Ok(0)], &add_cases());
    assert_eq!(state.on_check(failing, None), RepairAction::Check);
    assert_eq!(state.on_check(passing_summary(), None), RepairAction::Finish);
    let report = state.finish("add.vcir", Some("out.vcir".into()));
    assert!(report.ok);
    assert_eq!(report.steps_taken, report.steps.len());
    assert_eq!(report.steps.len(), 2);
    assert_eq!(report.steps[0].action, "report");
    assert_eq!(report.steps[1].action, "pass");
    assert_eq!((report.steps[0].step, report.steps[1].step), (0, 1));
    assert_eq!(report.output_path.as_deref(), Some("out.vcir"));
}

#[test]
fn onnx_decoder_checks_length_then_model() {
    let d = OrtLatentDecoder::new();
    assert_eq!(d.model_path(), None);
    assert_eq!(d.decode_z_len(3).unwrap_err(), DecodeError::WrongLength { expected: EMBEDDING_DIM, got: 3 });
    assert_eq!(d.decode_z_len(EMBEDDING_DIM).unwrap_err(), DecodeError::NoModelPath);
    assert!(DecodeError::NoModelPath.message().contains("no ONNX model path configured"));
    let d = OrtLatentDecoder::with_model_path("decoder.onnx");
    assert_eq!(d.model_path(), Some("decoder.onnx"));
    assert_eq!(d.decode_z_len(EMBEDDING_DIM).unwrap_err(), DecodeError::RuntimeUnavailable);
}

fn nested_body() -> Vec<Instr> {
    vec![
        Instr::I32Const { value: 1 },
        Instr::Block { result: Some(ValType::I32), body: vec![Instr::I32Const { value: 2 }, Instr::I32Add] },
    ]
}

#[test]
fn node_counts_add_over_concatenation() {
    let a = nested_body();
    let b = vec![Instr::I32Const { value: 3 }, Instr::Return];
    let mut ab = a.clone();
    ab.extend(b.clone());
    assert_eq!(instr_tree_node_count(&ab), instr_tree_node_count(&a) + instr_tree_node_count(&b));
    assert_eq!(instr_tree_node_count(&ab), 6);
    assert_eq!(max_control_nesting_depth(&ab), 1);
}

#[test]
fn histogram_grows_by_the_node_count() {
    let body = nested_body();
    let mut counts = vec![1usize; vectorc::inspect::OP_TAGS];
    let before: usize = counts.iter().sum();
    walk_op_histogram(&body, &mut counts);
    let after: usize = counts.iter().sum();
    assert_eq!(after - before, instr_tree_node_count(&body));
}

#[test]
fn constant_module_passes_its_case() {
    let m = Module {
        program_ir_version: PROGRAM_IR_VERSION,
        export_name: "run".into(),
        func: Func {
            sig: FuncSig { params: vec![], results: vec![ValType::I32] },
            locals: vec![],
            body: vec![Instr::I32Const { value: 7 }, Instr::Return],
        },
    };
    let s = evaluate_vcir_bytes(Ok(m), "seven.vcir", "run", 10_000, None, &[BenchCase { args: vec![], expect_i32: 7 }]);
    assert!(s.ok);
}

#[test]
fn failed_step_of_a_parsed_program_keeps_its_report_and_plan() {
    let mut bad = minimal_add_seed();
    bad.func.body.pop();
    let check = evaluate_vcir_bytes(Ok(bad.clone()), "bad.vcir", "run", 10_000, None, &add_cases());
    assert!(!check.validate_ok);
    let (mut state, _) = RepairLoop::new(&opts(2), 2).expect("loop");
    assert_eq!(state.on_check(check.clone(), Some(bad)), RepairAction::Check);
    let report = state.finish("bad.vcir", None);
    let step = &report.steps[0];
    assert_eq!(step.action, "report");
    assert_eq!(step.validation_code, check.validation_code);
    let v = step.validate_report.as_ref().expect("validation report");
    assert!(!v.ok);
    assert!(step.fix_plan.is_some());
    assert_eq!(report.output_path, None);
}
