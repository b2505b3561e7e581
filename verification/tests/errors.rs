use vectorc::cli::{case_source, check_program_path, ensure_wasm_emit_size, CliError, PathPart};
use vectorc::bridge::{validate_ir_json_output_contract, validate_z_input_contract, ContractError, GraphPort, PortType};
use vectorc::policy::{policy_verdict, FirstEntry, FirstImport, PayloadKind, PayloadScan, WasmEncoding};
use vectorc::{
    validate_module, wrong_sub_add_signature, CompiledModule, Func, FuncSig, Instr, Limits, Module,
    ModuleSpecCache, PolicyError, RefineError, RunError, Spec, SpecCase, ValType, ValidationError, WasmPolicy,
    MAX_WASM_BYTES, PROGRAM_IR_VERSION,
};

fn one_payload(kind: PayloadKind) -> PayloadScan {
    PayloadScan { payloads: vec![PayloadKind::Version(WasmEncoding::Module), kind], failure: None }
}

fn i32_module(body: Vec<Instr>) -> Module {
    Module {
        program_ir_version: PROGRAM_IR_VERSION,
        export_name: "run".into(),
        func: Func { sig: FuncSig { params: vec![ValType::I32], results: vec![ValType::I32] }, locals: vec![], body },
    }
}

#[test]
fn every_policy_refusal_has_its_message() {
    let p = WasmPolicy::default();
    let cases = [
        (PayloadKind::ModuleSection, "nested wasm modules not allowed"),
        (PayloadKind::CoreTypeSection, "wasm component model sections not allowed"),
        (PayloadKind::ComponentExportSection, "wasm component model sections not allowed"),
        (PayloadKind::TagSection(FirstEntry::Present), "wasm tags not allowed"),
        (PayloadKind::DataCountSection, "wasm data count section not allowed"),
        (PayloadKind::DataSection(FirstEntry::Present), "wasm data segments not allowed"),
        (PayloadKind::ElementSection(FirstEntry::Present), "wasm element segments not allowed"),
        (PayloadKind::GlobalSection(FirstEntry::Present), "wasm globals not allowed"),
        (PayloadKind::StartSection, "wasm start function not allowed"),
    ];
    for (kind, message) in cases {
        assert_eq!(policy_verdict(&one_payload(kind), p).unwrap_err().message(), message);
    }
    assert_eq!(policy_verdict(&one_payload(PayloadKind::TagSection(FirstEntry::Absent)), p), Ok(()));
    assert_eq!(
        policy_verdict(&one_payload(PayloadKind::MemorySection(FirstEntry::Unreadable("bad memory".into()))), p),
        Err(PolicyError::Parse("bad memory".into()))
    );
    assert_eq!(
        policy_verdict(&one_payload(PayloadKind::ImportSection(FirstImport::Unreadable("bad import".into()))), p),
        Err(PolicyError::Parse("bad import".into()))
    );
    assert_eq!(
        policy_verdict(&PayloadScan { payloads: vec![PayloadKind::Version(WasmEncoding::Component)], failure: None }, p)
            .unwrap_err()
            .message(),
        "only core WebAssembly modules supported (encoding=Component)"
    );
}

#[test]
fn a_module_wasmtime_refuses_is_a_compile_error() {
    let wasm = wat::parse_str(r#"(module (func (export "run") (result i32) (i64.const 1)))"#).expect("wat");
    match CompiledModule::new(&wasm) {
        Err(RunError::Compile(_)) => {}
        Err(other) => panic!("expected a compile error, got {other:?}"),
        Ok(_) => panic!("ill-typed module compiled"),
    }
}

#[test]
fn a_session_reports_a_non_i32_result() {
    let wasm = wat::parse_str(r#"(module (func (export "run") (result i64) (i64.const 7)))"#).expect("wat");
    let module = CompiledModule::new(&wasm).expect("compile");
    let mut session = module.prepare_invoke("run").expect("prepare");
    let err = session.invoke_i32_return(&[], Limits { fuel: 10_000, max_wall_ms: None }).unwrap_err();
    assert_eq!(err, RunError::ExpectedI32(vectorc::WasmScalar::I64(7)));
    assert_eq!(err.message(), "expected i32 return, got I64(7)");
}

#[test]
fn spec_check_errors() {
    let spec = Spec { cases: vec![SpecCase { args: vec![1, 2], expect_i32: 3 }] };
    let mut cache = ModuleSpecCache::new();
    let mut invalid = wrong_sub_add_signature();
    invalid.func.body.pop();
    assert!(matches!(cache.satisfies(&invalid, &spec, 50_000, None), Err(RefineError::Lower(_))));
    let err = cache.satisfies(&wrong_sub_add_signature(), &spec, 0, None).unwrap_err();
    assert!(matches!(err, RefineError::Invoke { case: 0, .. }), "{err:?}");
    assert_eq!(err.message(), "invoke case 0");
}

#[test]
fn control_stack_errors() {
    let branches = i32_module(vec![
        Instr::LocalGet { index: 0 },
        Instr::IfElse { result: None, then_body: vec![Instr::I32Const { value: 1 }], else_body: vec![] },
        Instr::LocalGet { index: 0 },
        Instr::Return,
    ]);
    assert_eq!(validate_module(&branches), Err(ValidationError::BranchStackMismatch));
    let block = i32_module(vec![
        Instr::Block { result: None, body: vec![Instr::I32Const { value: 1 }] },
        Instr::Return,
    ]);
    assert_eq!(
        validate_module(&block),
        Err(ValidationError::InvalidBlockStack { enter_len: 0, leave_len: 1, expected_delta: 0 })
    );
}

#[test]
fn remaining_input_refusals() {
    assert_eq!(
        check_program_path(false, &[PathPart::Prefix, PathPart::Normal]).unwrap_err().message(),
        "program_path contains invalid components"
    );
    assert_eq!(case_source(false, false).unwrap_err(), CliError::NoCaseSource);
    let big = vec![0u8; MAX_WASM_BYTES + 1];
    assert_eq!(
        ensure_wasm_emit_size(&big).unwrap_err().message(),
        format!("lowered Wasm exceeds limit ({} bytes, max {})", MAX_WASM_BYTES + 1, MAX_WASM_BYTES)
    );
    let z = GraphPort { name: "z".into(), port_type: PortType::Other("Map".into()) };
    assert_eq!(
        validate_z_input_contract(&[z], 256).unwrap_err(),
        ContractError::InputNotTensor("Map".into())
    );
    let out = GraphPort { name: "program_ir_json".into(), port_type: PortType::Other("Sequence".into()) };
    assert_eq!(
        validate_ir_json_output_contract(&[out]).unwrap_err().message(),
        "decoder output \"program_ir_json\" must be a tensor (got Sequence)"
    );
}
