use vectorc::{
    instr_tree_node_count, max_control_nesting_depth, validate_module, Func, FuncSig, Instr, Module, ValType,
    ValidationError, MAX_BODY_INSTRS, MAX_DECLARED_LOCALS, MAX_EXPORT_NAME_LEN, MAX_PARAMS, PROGRAM_IR_VERSION,
};

fn minimal_module(export_name: String, sig: FuncSig, locals: Vec<ValType>, body: Vec<Instr>) -> Module {
    Module { program_ir_version: 2, export_name, func: Func { sig, locals, body } }
}

fn i32_sig(params: usize) -> FuncSig {
    FuncSig { params: vec![ValType::I32; params], results: vec![ValType::I32] }
}

#[test]
fn validates_add_two_params() {
    let module = Module {
        program_ir_version: 2,
        export_name: "run".into(),
        func: Func {
            sig: FuncSig { params: vec![ValType::I32, ValType::I32], results: vec![ValType::I32] },
            locals: vec![],
            body: vec![Instr::LocalGet { index: 0 }, Instr::LocalGet { index: 1 }, Instr::I32Add, Instr::Return],
        },
    };
    validate_module(&module).unwrap();
}

#[test]
fn if_else_float_max() {
    let module = Module {
        program_ir_version: 2,
        export_name: "run".into(),
        func: Func {
            sig: FuncSig { params: vec![ValType::F32, ValType::F32], results: vec![ValType::F32] },
            locals: vec![],
            body: vec![
                Instr::LocalGet { index: 0 },
                Instr::LocalGet { index: 1 },
                Instr::F32Gt,
                Instr::IfElse {
                    result: Some(ValType::F32),
                    then_body: vec![Instr::LocalGet { index: 0 }],
                    else_body: vec![Instr::LocalGet { index: 1 }],
                },
                Instr::Return,
            ],
        },
    };
    validate_module(&module).unwrap();
}

#[test]
fn rejects_missing_return() {
    let module = Module {
        program_ir_version: 2,
        export_name: "run".into(),
        func: Func {
            sig: FuncSig { params: vec![ValType::I32], results: vec![ValType::I32] },
            locals: vec![],
            body: vec![Instr::LocalGet { index: 0 }],
        },
    };
    assert!(matches!(validate_module(&module), Err(ValidationError::MissingReturn)));
}

#[test]
fn rejects_export_name_too_long() {
    let name = "a".repeat(MAX_EXPORT_NAME_LEN + 1);
    let module = minimal_module(
        name,
        FuncSig { params: vec![], results: vec![ValType::I32] },
        vec![],
        vec![Instr::I32Const { value: 0 }, Instr::Return],
    );
    assert_eq!(
        validate_module(&module),
        Err(ValidationError::ExportNameTooLong { len: MAX_EXPORT_NAME_LEN + 1, max: MAX_EXPORT_NAME_LEN })
    );
}

#[test]
fn rejects_too_many_params() {
    let module = minimal_module(
        "run".into(),
        FuncSig { params: vec![ValType::I32; MAX_PARAMS + 1], results: vec![ValType::I32] },
        vec![],
        vec![Instr::I32Const { value: 0 }, Instr::Return],
    );
    assert_eq!(
        validate_module(&module),
        Err(ValidationError::TooManyParams { count: MAX_PARAMS + 1, max: MAX_PARAMS })
    );
}

#[test]
fn rejects_too_many_declared_locals() {
    let module = minimal_module(
        "run".into(),
        FuncSig { params: vec![], results: vec![ValType::I32] },
        vec![ValType::I32; MAX_DECLARED_LOCALS + 1],
        vec![Instr::I32Const { value: 0 }, Instr::Return],
    );
    assert_eq!(
        validate_module(&module),
        Err(ValidationError::TooManyDeclaredLocals { count: MAX_DECLARED_LOCALS + 1, max: MAX_DECLARED_LOCALS })
    );
}

#[test]
fn rejects_body_too_large_flat() {
    let mut body: Vec<Instr> = (0..MAX_BODY_INSTRS).map(|i| Instr::I32Const { value: i as i32 }).collect();
    body.push(Instr::Drop);
    body.push(Instr::Return);
    let module = minimal_module("run".into(), FuncSig { params: vec![], results: vec![ValType::I32] }, vec![], body);
    assert_eq!(
        validate_module(&module),
        Err(ValidationError::BodyTooLarge { count: MAX_BODY_INSTRS + 2, max: MAX_BODY_INSTRS })
    );
}

#[test]
fn accepts_limits_at_boundary() {
    let name = "a".repeat(MAX_EXPORT_NAME_LEN);
    let mut body = Vec::with_capacity(MAX_BODY_INSTRS);
    for _ in 0..(MAX_BODY_INSTRS - 2) / 2 {
        body.push(Instr::I64Const { value: 0 });
        body.push(Instr::Drop);
    }
    body.push(Instr::I32Const { value: 0 });
    body.push(Instr::Return);
    assert_eq!(body.len(), MAX_BODY_INSTRS);
    let module = minimal_module(
        name,
        FuncSig { params: vec![ValType::I32; MAX_PARAMS], results: vec![ValType::I32] },
        vec![ValType::I32; MAX_DECLARED_LOCALS],
        body,
    );
    validate_module(&module).unwrap();
}

#[test]
fn return_inside_nested_control_rejected() {
    let m = Module {
        program_ir_version: PROGRAM_IR_VERSION,
        export_name: "run".into(),
        func: Func {
            sig: FuncSig { params: vec![], results: vec![ValType::I32] },
            locals: vec![],
            body: vec![
                Instr::Block { result: None, body: vec![Instr::I32Const { value: 1 }, Instr::Return] },
                Instr::Return,
            ],
        },
    };
    assert!(matches!(validate_module(&m), Err(ValidationError::ReturnInsideNestedControl)));
}

#[test]
fn bad_version_is_rejected_with_both_versions() {
    let mut m = minimal_module("run".into(), i32_sig(0), vec![], vec![Instr::I32Const { value: 0 }, Instr::Return]);
    m.program_ir_version = 7;
    assert_eq!(validate_module(&m), Err(ValidationError::UnsupportedVersion(7, PROGRAM_IR_VERSION)));
}

#[test]
fn blank_export_name_is_rejected() {
    let m = minimal_module(" \t\n".into(), i32_sig(0), vec![], vec![Instr::I32Const { value: 0 }, Instr::Return]);
    assert_eq!(validate_module(&m), Err(ValidationError::EmptyExportName));
}

#[test]
fn export_name_length_counts_utf8_bytes() {
    let name = "\u{e9}".repeat(MAX_EXPORT_NAME_LEN / 2 + 1);
    let m = minimal_module(name, i32_sig(0), vec![], vec![Instr::I32Const { value: 0 }, Instr::Return]);
    assert_eq!(
        validate_module(&m),
        Err(ValidationError::ExportNameTooLong { len: 2 * (MAX_EXPORT_NAME_LEN / 2 + 1), max: MAX_EXPORT_NAME_LEN })
    );
}

#[test]
fn multiple_results_are_rejected() {
    let m = minimal_module(
        "run".into(),
        FuncSig { params: vec![], results: vec![ValType::I32, ValType::I32] },
        vec![],
        vec![Instr::I32Const { value: 0 }, Instr::Return],
    );
    assert_eq!(validate_module(&m), Err(ValidationError::BadResultArity));
}

#[test]
fn local_out_of_range_is_rejected() {
    let m = minimal_module("run".into(), i32_sig(1), vec![ValType::I64], vec![Instr::LocalGet { index: 2 }, Instr::Return]);
    assert_eq!(validate_module(&m), Err(ValidationError::LocalOob { index: 2, total: 2 }));
}

#[test]
fn stack_underflow_names_the_instruction() {
    let m = minimal_module("run".into(), i32_sig(1), vec![], vec![Instr::LocalGet { index: 0 }, Instr::I32Add, Instr::Return]);
    let err = validate_module(&m).unwrap_err();
    assert_eq!(err, ValidationError::StackUnderflow { instr: Instr::I32Add });
    assert_eq!(err.message(), "stack underflow before I32Add");
}

#[test]
fn stack_type_mismatch_reports_both_types() {
    let m = minimal_module(
        "run".into(),
        i32_sig(0),
        vec![],
        vec![Instr::I64Const { value: 1 }, Instr::I32Const { value: 2 }, Instr::I32Add, Instr::Return],
    );
    let err = validate_module(&m).unwrap_err();
    assert_eq!(
        err,
        ValidationError::StackTypeMismatch { expected: ValType::I32, actual: ValType::I64, instr: Instr::I32Add }
    );
    assert_eq!(err.message(), "stack type mismatch before I32Add: expected I32, found I64");
}

#[test]
fn wrong_return_depth_is_rejected() {
    let m = minimal_module(
        "run".into(),
        i32_sig(0),
        vec![],
        vec![Instr::I32Const { value: 1 }, Instr::I32Const { value: 2 }, Instr::Return],
    );
    assert_eq!(validate_module(&m), Err(ValidationError::BadReturnStack { depth: 2, expected: 1 }));
}

#[test]
fn mismatched_if_else_branches_are_rejected() {
    let m = minimal_module(
        "run".into(),
        i32_sig(1),
        vec![],
        vec![
            Instr::LocalGet { index: 0 },
            Instr::IfElse {
                result: None,
                then_body: vec![Instr::I32Const { value: 1 }],
                else_body: vec![],
            },
            Instr::I32Const { value: 0 },
            Instr::Return,
        ],
    );
    assert!(validate_module(&m).is_err());
}

#[test]
fn nesting_deeper_than_the_limit_is_rejected() {
    let mut inner = vec![Instr::I32Const { value: 0 }, Instr::Drop];
    for _ in 0..(vectorc::MAX_CONTROL_DEPTH + 1) {
        inner = vec![Instr::Block { result: None, body: inner }];
    }
    inner.push(Instr::I32Const { value: 0 });
    inner.push(Instr::Return);
    let m = minimal_module("run".into(), i32_sig(0), vec![], inner);
    assert_eq!(
        validate_module(&m),
        Err(ValidationError::ControlNestingTooDeep { max: vectorc::MAX_CONTROL_DEPTH })
    );
}

#[test]
fn tree_metrics_count_nested_bodies() {
    let body = vec![
        Instr::LocalGet { index: 0 },
        Instr::IfElse {
            result: Some(ValType::I32),
            then_body: vec![Instr::Block { result: Some(ValType::I32), body: vec![Instr::I32Const { value: 1 }] }],
            else_body: vec![Instr::I32Const { value: 2 }],
        },
        Instr::Return,
    ];
    assert_eq!(instr_tree_node_count(&body), 6);
    assert_eq!(max_control_nesting_depth(&body), 2);
    assert_eq!(max_control_nesting_depth(&[Instr::Return]), 0);
}

#[test]
fn a_copy_validates_like_the_original() {
    let m = minimal_module(
        "run".into(),
        i32_sig(1),
        vec![],
        vec![
            Instr::LocalGet { index: 0 },
            Instr::Block { result: Some(ValType::I32), body: vec![Instr::I32Const { value: 1 }] },
            Instr::I32Add,
            Instr::Return,
        ],
    );
    let copy = m.clone();
    assert_eq!(copy, m);
    assert_eq!(validate_module(&copy), validate_module(&m));
    let mut broken = m.clone();
    broken.func.body.remove(1);
    assert_eq!(validate_module(&broken.clone()), validate_module(&broken));
}
