use vectorc::{
    all_explain_entries, explain_code, fix_plan, parse_summary, validate_report, DiagnosticCode, Func, FuncSig, Instr,
    Module, ValType, ValidationError, PROGRAM_IR_VERSION,
};

fn add_module() -> Module {
    Module {
        program_ir_version: PROGRAM_IR_VERSION,
        export_name: "run".into(),
        func: Func {
            sig: FuncSig { params: vec![ValType::I32, ValType::I32], results: vec![ValType::I32] },
            locals: vec![],
            body: vec![Instr::LocalGet { index: 0 }, Instr::LocalGet { index: 1 }, Instr::I32Add, Instr::Return],
        },
    }
}

#[test]
fn codes_are_stable() {
    let err = ValidationError::EmptyExportName;
    assert_eq!(err.code().as_str(), "VCIR_EXP001");
    assert_eq!(explain_code("VCIR_EXP001").unwrap().title, "Empty export_name");
}

#[test]
fn validate_report_ok_add_shape() {
    let report = validate_report(&add_module());
    assert!(report.ok);
    assert!(report.diagnostics.is_none());
}

#[test]
fn every_code_text_parses_back() {
    let entries = all_explain_entries();
    assert_eq!(entries.len(), 16);
    for e in &entries {
        let again = explain_code(&e.code).expect("catalog code parses");
        assert_eq!(again.code, e.code);
        assert_eq!(again.title, e.title);
    }
    assert_eq!(entries[0].code, DiagnosticCode::VcirVer001.as_str());
    assert!(explain_code("VCIR_NOPE999").is_none());
}

#[test]
fn invalid_module_report_has_one_diagnostic() {
    let mut m = add_module();
    m.func.body.pop();
    let report = validate_report(&m);
    assert!(!report.ok);
    let diags = report.diagnostics.expect("diagnostics");
    assert_eq!(diags.len(), 1);
    assert_eq!(diags[0].code, "VCIR_CTL005");
    assert_eq!(diags[0].severity, "error");
    assert_eq!(diags[0].repair.id, "append-trailing-return");
}

#[test]
fn fix_plan_names_the_code_and_repair() {
    let plan = fix_plan(&ValidationError::MissingReturn);
    assert_eq!(plan.code, "VCIR_CTL005");
    assert_eq!(plan.repair_id, "append-trailing-return");
    assert_eq!(plan.safety, "safe");
    assert_eq!(plan.steps.len(), 2);
    assert_eq!(plan.steps[1].action, "append-return");
    let diag = ValidationError::MissingReturn.diagnostic();
    assert_eq!(diag.code, plan.code);
    assert_eq!(diag.repair.id, plan.repair_id);
}

#[test]
fn version_fix_plan_names_the_version() {
    let plan = fix_plan(&ValidationError::UnsupportedVersion(3, PROGRAM_IR_VERSION));
    assert_eq!(plan.code, "VCIR_VER001");
    assert_eq!(plan.steps[1].detail, "Set \"program_ir_version\": 2 at module root.");
}

#[test]
fn parse_summary_lists_labels_and_top_level_kinds() {
    let s = parse_summary(&add_module());
    assert_eq!(s.export_name, "run");
    assert_eq!(s.program_ir_version, 2);
    assert_eq!(s.params, vec!["i32".to_string(), "i32".to_string()]);
    assert_eq!(s.results, vec!["i32".to_string()]);
    assert_eq!(s.declared_locals, 0);
    assert_eq!(s.top_level_body_kinds, vec!["local_get", "local_get", "i32_add", "return"]);
}

#[test]
fn messages_match_the_errors() {
    assert_eq!(ValidationError::UnsupportedVersion(1, 2).message(), "unsupported program_ir_version: 1 (expected 2)");
    assert_eq!(ValidationError::LocalOob { index: 3, total: 2 }.message(), "local index 3 out of range (locals 2)");
    assert_eq!(
        ValidationError::ControlNestingTooDeep { max: 32 }.message(),
        "control nesting exceeds maximum depth (32)"
    );
}
