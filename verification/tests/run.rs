use vectorc::exec::{check_call_shape, map_call_failure, CallFailure, ValKind};
use vectorc::policy::{policy_verdict, FirstEntry, FirstImport, PayloadKind, PayloadScan, WasmEncoding};
use vectorc::{
    check_wasm_policy, invoke_i32_return, lower_module, CompileLimits, CompiledModule, Func, FuncSig, Instr, Limits,
    Module, PolicyError, RunError, ValType, WasmPolicy, WasmScalar, MAX_WASM_BYTES, PROGRAM_IR_VERSION,
};

fn limits(fuel: u64) -> Limits {
    Limits { fuel, max_wall_ms: None }
}

fn wasm_run_returns_i32() -> Vec<u8> {
    wat::parse_str(
        r#"
        (module
          (func $run (export "run") (param i32 i32) (result i32)
            (local.get 0)
            (local.get 1)
            (i32.add))
        )"#,
    )
    .expect("wat")
}

fn rejection(wasm: &[u8]) -> String {
    match CompiledModule::new(wasm) {
        Err(e) => e.message(),
        Ok(_) => panic!("module should be rejected"),
    }
}

fn binop_module(op: Instr) -> Module {
    Module {
        program_ir_version: PROGRAM_IR_VERSION,
        export_name: "run".into(),
        func: Func {
            sig: FuncSig { params: vec![ValType::I32, ValType::I32], results: vec![ValType::I32] },
            locals: vec![],
            body: vec![Instr::LocalGet { index: 0 }, Instr::LocalGet { index: 1 }, op, Instr::Return],
        },
    }
}

#[test]
fn invoke_session_matches_one_shot() {
    let wasm = wasm_run_returns_i32();
    let cmp = CompiledModule::new(&wasm).expect("compile");
    let limits = limits(100_000);
    let mut session = cmp.prepare_invoke("run").expect("prepare");
    let a = session.invoke_i32_return(&[2, 40], limits).expect("session invoke");
    let b = invoke_i32_return(&wasm, "run", &[2, 40], limits).expect("one shot");
    assert_eq!(a, b);
}

#[test]
fn compile_default_wall_ms_accepts_small_module() {
    let wasm = wasm_run_returns_i32();
    CompiledModule::new(&wasm).expect("default compile should accept small module");
}

#[test]
fn compiled_reuse_matches_one_shot() {
    let wasm = wasm_run_returns_i32();
    let cmp = CompiledModule::new(&wasm).expect("compile");
    let a = cmp.invoke_i32_return("run", &[2, 40], limits(100_000)).expect("invoke reuse");
    let b = invoke_i32_return(&wasm, "run", &[2, 40], limits(100_000)).expect("one shot");
    assert_eq!(a, b);
}

#[test]
fn missing_export_errors() {
    let wasm = wat::parse_str("(module (func (export \"other\") (result i32) (i32.const 0)))").expect("wat");
    let err = invoke_i32_return(&wasm, "run", &[], limits(10_000)).unwrap_err();
    assert!(err.message().contains("missing export"), "{}", err.message());
}

#[test]
fn arity_mismatch_errors() {
    let wasm = wasm_run_returns_i32();
    let err = invoke_i32_return(&wasm, "run", &[1], limits(10_000)).unwrap_err();
    assert!(err.message().contains("arity"), "{}", err.message());
    assert_eq!(err, RunError::Arity { expected: 2, got: 1 });
}

#[test]
fn zero_fuel_returns_error() {
    let wasm = wat::parse_str(r#"(module (func (export "run") (result i32) (i32.const 7)))"#).expect("wat");
    assert!(invoke_i32_return(&wasm, "run", &[], limits(0)).is_err(), "zero fuel should prevent successful execution");
}

#[test]
fn oversize_module_rejected() {
    let big = vec![0u8; MAX_WASM_BYTES + 1];
    assert!(CompiledModule::new(&big).is_err(), "oversized wasm accepted");
    assert_eq!(
        CompiledModule::new(&big).err().map(|e| e.message()),
        Some(format!("wasm module too large ({} bytes, max {})", MAX_WASM_BYTES + 1, MAX_WASM_BYTES))
    );
}

#[test]
fn module_with_import_rejected() {
    let wasm = wat::parse_str(
        r#"
        (module
          (import "env" "noop" (func))
          (func (export "run") (result i32) (i32.const 0))
        )"#,
    )
    .expect("wat");
    let err = rejection(&wasm);
    assert!(err.contains("imports not allowed"), "unexpected error: {err}");
    assert_eq!(err, "wasm imports not allowed (found import `env` / `noop`)");
}

#[test]
fn module_with_memory_rejected() {
    let wasm = wat::parse_str(
        r#"
        (module
          (memory 1)
          (func (export "run") (result i32) (i32.const 0))
        )"#,
    )
    .expect("wat");
    let err = rejection(&wasm);
    assert!(err.contains("memories not allowed"), "unexpected error: {err}");
}

#[test]
fn module_with_table_rejected() {
    let wasm = wat::parse_str(
        r#"
        (module
          (table 1 funcref)
          (func (export "run") (result i32) (i32.const 0))
        )"#,
    )
    .expect("wat");
    let err = rejection(&wasm);
    assert!(err.contains("tables not allowed"), "unexpected error: {err}");
}

#[test]
fn module_with_start_rejected() {
    let wasm = wat::parse_str(
        r#"
        (module
          (func $start)
          (start $start)
          (func (export "run") (result i32) (i32.const 0))
        )"#,
    )
    .expect("wat");
    let err = rejection(&wasm);
    assert!(err.contains("start function not allowed"), "unexpected error: {err}");
}

#[test]
fn module_with_global_rejected() {
    let wasm = wat::parse_str(
        r#"
        (module
          (global i32 (i32.const 0))
          (func (export "run") (result i32)
            (i32.const 0)))
        "#,
    )
    .expect("wat");
    let err = rejection(&wasm);
    assert!(err.contains("globals not allowed"), "unexpected error: {err}");
}

#[test]
fn module_with_element_segment_rejected() {
    let wasm = wat::parse_str(
        r#"
        (module
          (table 1 funcref)
          (elem (i32.const 0) 0)
          (func (export "run") (result i32) (i32.const 0))
        )"#,
    )
    .expect("wat");
    let err = match CompiledModule::new_with_policy(&wasm, WasmPolicy { allow_tables: true, ..WasmPolicy::default() }) {
        Err(e) => e.message(),
        Ok(_) => panic!("element segment module should be rejected"),
    };
    assert!(err.contains("element segments not allowed"), "unexpected error: {err}");
}

#[test]
fn module_with_data_segment_rejected() {
    let wasm = wat::parse_str(
        r#"
        (module
          (data "x")
          (func (export "run") (result i32)
            (i32.const 0)))
        "#,
    )
    .expect("wat");
    let err = rejection(&wasm);
    assert!(err.contains("data segments not allowed"), "unexpected error: {err}");
}

#[test]
fn wasm_component_encoding_rejected() {
    let wasm: Vec<u8> = vec![0x00, 0x61, 0x73, 0x6d, 0x0d, 0x00, 0x01, 0x00];
    let msg = rejection(&wasm);
    assert!(msg.contains("only core WebAssembly") || msg.contains("encoding"), "unexpected error: {msg}");
}

#[test]
fn lowered_add_passes_default_policy_and_compiles() {
    let wasm = lower_module(&binop_module(Instr::I32Add)).expect("lower add");
    check_wasm_policy(&wasm, WasmPolicy::default()).expect("policy scan");
    CompiledModule::new(&wasm).expect("compile");
}

#[test]
fn lowered_mul_passes_default_policy_and_compiles() {
    let wasm = lower_module(&binop_module(Instr::I32Mul)).expect("lower mul");
    check_wasm_policy(&wasm, WasmPolicy::default()).expect("policy scan");
    CompiledModule::new(&wasm).expect("compile");
}

#[test]
fn lowered_max_f32_passes_default_policy_and_compiles() {
    let m = Module {
        program_ir_version: PROGRAM_IR_VERSION,
        export_name: "run".into(),
        func: Func {
            sig: FuncSig { params: vec![ValType::F32, ValType::F32], results: vec![ValType::F32] },
            locals: vec![],
            body: vec![
                Instr::LocalGet { index: 0 },
                Instr::LocalGet { index: 1 },
                Instr::F32Gt,
                Instr::IfElse {
                    result: Some(ValType::F32),
                    then_body: vec![Instr::LocalGet { index: 0 }],
                    else_body: vec![Instr::LocalGet { index: 1 }],
                },
                Instr::Return,
            ],
        },
    };
    let wasm = lower_module(&m).expect("lower max_f32");
    check_wasm_policy(&wasm, WasmPolicy::default()).expect("policy scan");
    CompiledModule::new(&wasm).expect("compile");
}

#[test]
fn imports_pass_when_the_policy_allows_them() {
    let wasm = wat::parse_str(
        r#"
        (module
          (import "env" "noop" (func))
          (func (export "run") (result i32) (i32.const 0))
        )"#,
    )
    .expect("wat");
    assert_eq!(check_wasm_policy(&wasm, WasmPolicy::default()).unwrap_err(), PolicyError::Import {
        module: "env".into(),
        name: "noop".into()
    });
    let permissive = WasmPolicy { allow_imports: true, ..WasmPolicy::default() };
    assert_eq!(check_wasm_policy(&wasm, permissive), Ok(()));
}

#[test]
fn unparsable_bytes_are_refused_with_the_parser_message() {
    let err = check_wasm_policy(&[0x00, 0x61, 0x73], WasmPolicy::default()).unwrap_err();
    assert!(matches!(err, PolicyError::Parse(_)), "{err:?}");
}

#[test]
fn policy_verdict_takes_the_first_refused_payload() {
    let scan = PayloadScan {
        payloads: vec![
            PayloadKind::Version(WasmEncoding::Module),
            PayloadKind::MemorySection(FirstEntry::Absent),
            PayloadKind::TableSection(FirstEntry::Present),
            PayloadKind::StartSection,
        ],
        failure: Some("late".into()),
    };
    assert_eq!(policy_verdict(&scan, WasmPolicy::default()), Err(PolicyError::Table));
    let tables_ok = WasmPolicy { allow_tables: true, ..WasmPolicy::default() };
    assert_eq!(policy_verdict(&scan, tables_ok), Err(PolicyError::Start));
    let imports = PayloadScan {
        payloads: vec![PayloadKind::ImportSection(FirstImport::Grouped { module: "m".into() })],
        failure: None,
    };
    assert_eq!(policy_verdict(&imports, WasmPolicy::default()).unwrap_err().message(), "wasm imports not allowed (found import module `m`)");
    let clean = PayloadScan { payloads: vec![PayloadKind::Other], failure: Some("bad section".into()) };
    assert_eq!(policy_verdict(&clean, WasmPolicy::default()), Err(PolicyError::Parse("bad section".into())));
}

#[test]
fn call_shape_checks_arity_results_and_types() {
    let i32s = vec![ValKind::I32, ValKind::I32];
    let one = vec![ValKind::I32];
    assert_eq!(check_call_shape(&i32s, &one, &[WasmScalar::I32(1)]), Err(RunError::Arity { expected: 2, got: 1 }));
    assert_eq!(
        check_call_shape(&i32s, &vec![], &[WasmScalar::I32(1), WasmScalar::I32(2)]),
        Err(RunError::ResultCount(0))
    );
    let err = check_call_shape(&i32s, &one, &[WasmScalar::I32(1), WasmScalar::I64(2)]).unwrap_err();
    assert_eq!(err, RunError::ParamType { index: 1, expected: ValKind::I32, passed: ValKind::I64 });
    assert_eq!(err.message(), "param 1: wasm expects i32, caller passed i64");
    assert_eq!(
        check_call_shape(&vec![], &vec![ValKind::Other("v128".into())], &[]),
        Err(RunError::UnsupportedResult(ValKind::Other("v128".into())))
    );
    assert_eq!(check_call_shape(&i32s, &one, &[WasmScalar::I32(1), WasmScalar::I32(2)]), Ok(ValKind::I32));
}

#[test]
fn interrupted_call_under_a_wall_clock_cap_is_a_timeout() {
    let interrupted = CallFailure { interrupted: true, detail: "interrupt".into() };
    assert_eq!(map_call_failure(interrupted.clone(), Some(250)), RunError::WallClockTimeout(250));
    assert_eq!(RunError::WallClockTimeout(250).message(), "wall-clock timeout exceeded (250 ms)");
    assert_eq!(map_call_failure(interrupted, None), RunError::Trapped("interrupt".into()));
    let trap = CallFailure { interrupted: false, detail: "unreachable".into() };
    assert_eq!(map_call_failure(trap, Some(5)).message(), "wasm invoke trapped: unreachable");
}

#[test]
fn defaults_of_the_limits() {
    assert_eq!(CompileLimits::default().max_wall_ms, Some(30_000));
    assert_eq!(CompileLimits::unbounded().max_wall_ms, None);
    assert_eq!(Limits::default(), Limits { fuel: 50_000, max_wall_ms: None });
    assert_eq!(WasmPolicy::default(), WasmPolicy { allow_imports: false, allow_memory: false, allow_tables: false });
}

#[test]
fn wrong_result_type_is_named() {
    let wasm = wat::parse_str(r#"(module (func (export "run") (result i64) (i64.const -5)))"#).expect("wat");
    let err = invoke_i32_return(&wasm, "run", &[], limits(10_000)).unwrap_err();
    assert_eq!(err.message(), "expected i32 return from wasm export `run`, got I64(-5)");
}

#[test]
fn session_shares_the_module_engine() {
    let wasm = wasm_run_returns_i32();
    let cmp = CompiledModule::new(&wasm).expect("compile");
    let session = cmp.prepare_invoke("run").expect("prepare");
    assert!(wasmtime::Engine::same(&cmp.engine(), &session.engine()));
    let other = CompiledModule::new(&wasm).expect("compile again");
    assert!(!wasmtime::Engine::same(&cmp.engine(), &other.engine()));
}

#[test]
fn session_reports_argument_errors_against_its_export() {
    let wasm = wasm_run_returns_i32();
    let cmp = CompiledModule::new(&wasm).expect("compile");
    let mut session = cmp.prepare_invoke("run").expect("prepare");
    let err = session.invoke_i32_return(&[7], limits(10_000)).unwrap_err();
    assert_eq!(err, RunError::Arity { expected: 2, got: 1 });
    let err = session
        .invoke_scalar_return(&[WasmScalar::I32(1), WasmScalar::F64(0)], limits(10_000))
        .unwrap_err();
    assert_eq!(err, RunError::ParamType { index: 1, expected: ValKind::I32, passed: ValKind::F64 });
    assert_eq!(session.invoke_i32_return(&[40, 2], limits(10_000)).expect("call after errors"), 42);
}
