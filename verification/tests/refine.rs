use vectorc::refine::body_templates;
use vectorc::{
    wrong_sub_add_signature, Func, FuncSig, Instr, ModuleSpecCache, Module, RandomIrRefiner, RefineError, Spec, SpecCase,
    ValType, ValidationError, PROGRAM_IR_VERSION,
};

fn add_spec() -> Spec {
    Spec {
        cases: vec![
            SpecCase { args: vec![1, 2], expect_i32: 3 },
            SpecCase { args: vec![40, 2], expect_i32: 42 },
            SpecCase { args: vec![-1, 1], expect_i32: 0 },
        ],
    }
}

#[test]
fn random_refiner_finds_add_from_sub() {
    let spec = add_spec();
    let initial = wrong_sub_add_signature();
    let refiner = RandomIrRefiner::new(0xADD5EED);
    let refined = refiner.refine(&initial, &spec, 50_000, 256).expect("should find add program");
    let mut cache = ModuleSpecCache::new();
    cache.satisfies(&refined, &spec, 50_000, None).expect("refined module passes spec");
    assert!(
        refined.func.body.windows(2).any(|w| {
            matches!(
                (&w[0], &w[1]),
                (&Instr::LocalGet { index: 0 }, &Instr::LocalGet { index: 1 })
                    | (&Instr::LocalGet { index: 1 }, &Instr::LocalGet { index: 0 })
            )
        }),
        "expected i32 add of both params"
    );
    assert!(refined.func.body.contains(&Instr::I32Add));
}

#[test]
fn refine_returns_initial_when_already_correct() {
    let spec = add_spec();
    let initial = Module {
        program_ir_version: PROGRAM_IR_VERSION,
        export_name: "run".into(),
        func: Func {
            sig: FuncSig { params: vec![ValType::I32, ValType::I32], results: vec![ValType::I32] },
            locals: vec![],
            body: vec![Instr::LocalGet { index: 0 }, Instr::LocalGet { index: 1 }, Instr::I32Add, Instr::Return],
        },
    };
    let refiner = RandomIrRefiner::new(1);
    let out = refiner.refine(&initial, &spec, 50_000, 10).expect("noop refine");
    assert_eq!(out, initial);
}

#[test]
fn refine_refuses_an_empty_spec() {
    let err = RandomIrRefiner::new(1).refine(&wrong_sub_add_signature(), &Spec { cases: vec![] }, 1000, 10).unwrap_err();
    assert_eq!(err, RefineError::EmptySpec);
    assert_eq!(err.message(), "spec must contain at least one case");
}

#[test]
fn refine_refuses_an_invalid_start() {
    let mut initial = wrong_sub_add_signature();
    initial.func.body.pop();
    let err = RandomIrRefiner::new(1).refine(&initial, &add_spec(), 1000, 10).unwrap_err();
    assert_eq!(err, RefineError::Invalid(ValidationError::MissingReturn));
}

#[test]
fn refine_without_steps_is_exhausted() {
    let err = RandomIrRefiner::new(3).refine(&wrong_sub_add_signature(), &add_spec(), 50_000, 0).unwrap_err();
    assert_eq!(err, RefineError::Exhausted { steps: 0, cases: 3 });
    assert_eq!(err.message(), "refinement exhausted 0 steps without satisfying 3 case(s)");
}

#[test]
fn spec_check_reports_the_failing_case() {
    let mut cache = ModuleSpecCache::new();
    let err = cache.satisfies(&wrong_sub_add_signature(), &add_spec(), 50_000, None).unwrap_err();
    assert_eq!(err, RefineError::Mismatch { case: 0, expected: 3, got: -1 });
    assert_eq!(err.message(), "case 0: expected 3, got -1");
}

#[test]
fn templates_follow_the_signature() {
    let two = body_templates(&FuncSig { params: vec![ValType::I32, ValType::I32], results: vec![ValType::I32] });
    assert_eq!(two.len(), 4);
    assert_eq!(two[2], vec![Instr::LocalGet { index: 0 }, Instr::LocalGet { index: 1 }, Instr::I32Mul, Instr::Return]);
    let none = body_templates(&FuncSig { params: vec![], results: vec![ValType::I32] });
    assert_eq!(none, vec![vec![Instr::I32Const { value: 0 }, Instr::Return], vec![Instr::I32Const { value: 42 }, Instr::Return]]);
    let one = body_templates(&FuncSig { params: vec![ValType::I64], results: vec![ValType::I32] });
    assert_eq!(one, vec![vec![Instr::LocalGet { index: 0 }, Instr::Return]]);
    assert!(body_templates(&FuncSig { params: vec![], results: vec![ValType::I64] }).is_empty());
}
