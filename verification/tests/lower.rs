use vectorc::{
    invoke_i32_return, invoke_scalar_return, lower_module, Func, FuncSig, Instr, Limits, LowerError, Module, ValType,
    ValidationError, WasmScalar, PROGRAM_IR_VERSION,
};

fn binop_module(op: Instr) -> Module {
    Module {
        program_ir_version: PROGRAM_IR_VERSION,
        export_name: "run".into(),
        func: Func {
            sig: FuncSig { params: vec![ValType::I32, ValType::I32], results: vec![ValType::I32] },
            locals: vec![],
            body: vec![Instr::LocalGet { index: 0 }, Instr::LocalGet { index: 1 }, op, Instr::Return],
        },
    }
}

fn max_f32_module() -> Module {
    Module {
        program_ir_version: PROGRAM_IR_VERSION,
        export_name: "run".into(),
        func: Func {
            sig: FuncSig { params: vec![ValType::F32, ValType::F32], results: vec![ValType::F32] },
            locals: vec![],
            body: vec![
                Instr::LocalGet { index: 0 },
                Instr::LocalGet { index: 1 },
                Instr::F32Gt,
                Instr::IfElse {
                    result: Some(ValType::F32),
                    then_body: vec![Instr::LocalGet { index: 0 }],
                    else_body: vec![Instr::LocalGet { index: 1 }],
                },
                Instr::Return,
            ],
        },
    }
}

fn limits() -> Limits {
    Limits { fuel: 100_000, max_wall_ms: None }
}

#[test]
fn lowered_add_has_the_expected_bytes() {
    let wasm = lower_module(&binop_module(Instr::I32Add)).expect("lower");
    let expected: Vec<u8> = vec![
        0x00, 0x61, 0x73, 0x6d, 0x01, 0x00, 0x00, 0x00, 0x01, 0x07, 0x01, 0x60, 0x02, 0x7f, 0x7f, 0x01, 0x7f, 0x03,
        0x02, 0x01, 0x00, 0x07, 0x07, 0x01, 0x03, 0x72, 0x75, 0x6e, 0x00, 0x00, 0x0a, 0x0a, 0x01, 0x08, 0x00, 0x20,
        0x00, 0x20, 0x01, 0x6a, 0x0f, 0x0b,
    ];
    assert_eq!(wasm, expected);
}

#[test]
fn lowering_an_invalid_module_reports_the_validation_error() {
    let mut m = binop_module(Instr::I32Add);
    m.func.body.pop();
    assert_eq!(lower_module(&m), Err(LowerError::Validation(ValidationError::MissingReturn)));
}

#[test]
fn lower_and_invoke_add_fixture() {
    let wasm = lower_module(&binop_module(Instr::I32Add)).expect("lower");
    assert_eq!(invoke_i32_return(&wasm, "run", &[40, 2], limits()).expect("invoke"), 42);
}

#[test]
fn lower_and_invoke_mul_fixture() {
    let wasm = lower_module(&binop_module(Instr::I32Mul)).expect("lower");
    assert_eq!(invoke_i32_return(&wasm, "run", &[6, 7], limits()).expect("invoke"), 42);
}

#[test]
fn lower_and_invoke_max_f32_fixture() {
    let wasm = lower_module(&max_f32_module()).expect("lower");
    let args = [WasmScalar::F32(3.0f32.to_bits()), WasmScalar::F32(5.0f32.to_bits())];
    match invoke_scalar_return(&wasm, "run", &args, limits()).expect("invoke") {
        WasmScalar::F32(bits) => assert!((f32::from_bits(bits) - 5.0).abs() < 1e-5),
        other => panic!("expected f32 result, got {other:?}"),
    }
    let args = [WasmScalar::F32(2.0f32.to_bits()), WasmScalar::F32(1.0f32.to_bits())];
    match invoke_scalar_return(&wasm, "run", &args, limits()).expect("invoke") {
        WasmScalar::F32(bits) => assert!((f32::from_bits(bits) - 2.0).abs() < 1e-5),
        other => panic!("expected f32 result, got {other:?}"),
    }
}

#[test]
fn lowered_locals_and_control_run() {
    let m = Module {
        program_ir_version: PROGRAM_IR_VERSION,
        export_name: "run".into(),
        func: Func {
            sig: FuncSig { params: vec![ValType::I32], results: vec![ValType::I32] },
            locals: vec![ValType::I32, ValType::I32, ValType::I64],
            body: vec![
                Instr::LocalGet { index: 0 },
                Instr::LocalSet { index: 1 },
                Instr::Block {
                    result: Some(ValType::I32),
                    body: vec![Instr::LocalGet { index: 1 }, Instr::I32Const { value: 1 }, Instr::I32Sub],
                },
                Instr::Return,
            ],
        },
    };
    let wasm = lower_module(&m).expect("lower");
    assert_eq!(invoke_i32_return(&wasm, "run", &[10], limits()).expect("invoke"), 9);
}

#[test]
fn lowering_depends_only_on_the_program() {
    let m = max_f32_module();
    let copy = m.clone();
    assert_eq!(lower_module(&m).expect("lower"), lower_module(&copy).expect("lower copy"));
}
