//! VectorCompiler library: Program IR v2, its validator and diagnostics, Wasm lowering,
//! Wasm policy checks and execution, and verifier-driven refinement.
use vstd::prelude::*;

pub mod ast;
pub mod limits;
pub mod metrics;
pub mod text;
pub mod validate;
pub mod lower;
pub mod render;
pub mod diagnostics;
pub mod policy;
pub mod exec;
pub mod runtime;
pub mod refine;
pub mod oracle;
pub mod agent;
pub mod repair;
pub mod inspect;
pub mod bridge;
pub mod cli;
pub mod laws;
pub mod semantics;

pub use ast::{Func, FuncSig, Instr, Module, ValType, PROGRAM_IR_VERSION};
pub use limits::{MAX_BODY_INSTRS, MAX_CONTROL_DEPTH, MAX_DECLARED_LOCALS, MAX_EXPORT_NAME_LEN, MAX_PARAMS};
pub use metrics::{instr_tree_node_count, max_control_nesting_depth};
pub use validate::{validate_func, validate_module, ValidationError};
pub use lower::{lower_module, FloatOp, IntOp, LowerError, WasmConst, WasmOp};
pub use diagnostics::{
    all_explain_entries, explain_code, fix_plan, parse_summary, validate_report, Diagnostic, DiagnosticCode,
    ExplainEntry, FixPlan, FixStep, ParseSummary, RepairHint, ValidateReport,
};
pub use policy::{check_wasm_policy, PolicyError, WasmPolicy};
pub use exec::{
    invoke_i32_return, invoke_scalar_return, CompileLimits, CompiledModule, InvokeSession, Limits, RunError, WasmScalar,
    MAX_WASM_BYTES,
};
pub use refine::{wrong_sub_add_signature, ModuleSpecCache, ProgramRefiner, RandomIrRefiner, RefineError, Spec, SpecCase};
pub use oracle::{evaluate_vcir_bytes, evaluate_vcir_path, BenchCase, CheckSummary, FailedCaseDetail};
pub use agent::{run_explain, FixPlanReport, SkillDocument, SkillMeta, SkillsList};
pub use repair::{AgentRepairOptions, AgentRepairReport, RepairStep};
pub use bridge::{DecodeError, GoldenLatentDecoder, LatentDecoder, OrtLatentDecoder, StubLatentDecoder, EMBEDDING_DIM};

verus! {
}
