//! Stable validation diagnostics and repair metadata for agent workflows.
use vstd::prelude::*;
use crate::ast::{model, models, Instr, Module, ValType, lemma_models, lemma_models_pointwise};
use crate::render::{
    instr_debug, instrs_debug, push_instr_debug, spec_message, valtype_debug, valtype_debug_str,
};
use crate::text::{decimal, push_decimal, text};
use crate::validate::{same_error, spec_validate_module, valid_module, validate_module, ValidationError};

verus! {

/// Machine-stable diagnostic code (pattern-matchable across toolchains).
#[derive(Clone, Copy, Debug, PartialEq, Eq, Hash, Structural)]
pub enum DiagnosticCode {
    VcirVer001,
    VcirExp001,
    VcirExp002,
    VcirLim001,
    VcirLim002,
    VcirLim003,
    VcirSig001,
    VcirLoc001,
    VcirStk001,
    VcirStk002,
    VcirStk003,
    VcirCtl001,
    VcirCtl002,
    VcirCtl003,
    VcirCtl004,
    VcirCtl005,
}

/// The text of a code (`VCIR_VER001`, ...).
pub open spec fn code_str(c: DiagnosticCode) -> Seq<char> {
    match c {
        DiagnosticCode::VcirVer001 => "VCIR_VER001"@,
        DiagnosticCode::VcirExp001 => "VCIR_EXP001"@,
        DiagnosticCode::VcirExp002 => "VCIR_EXP002"@,
        DiagnosticCode::VcirLim001 => "VCIR_LIM001"@,
        DiagnosticCode::VcirLim002 => "VCIR_LIM002"@,
        DiagnosticCode::VcirLim003 => "VCIR_LIM003"@,
        DiagnosticCode::VcirSig001 => "VCIR_SIG001"@,
        DiagnosticCode::VcirLoc001 => "VCIR_LOC001"@,
        DiagnosticCode::VcirStk001 => "VCIR_STK001"@,
        DiagnosticCode::VcirStk002 => "VCIR_STK002"@,
        DiagnosticCode::VcirStk003 => "VCIR_STK003"@,
        DiagnosticCode::VcirCtl001 => "VCIR_CTL001"@,
        DiagnosticCode::VcirCtl002 => "VCIR_CTL002"@,
        DiagnosticCode::VcirCtl003 => "VCIR_CTL003"@,
        DiagnosticCode::VcirCtl004 => "VCIR_CTL004"@,
        DiagnosticCode::VcirCtl005 => "VCIR_CTL005"@,
    }
}

/// Every code, in catalog order.
pub open spec fn all_codes() -> Seq<DiagnosticCode> {
    seq![
        DiagnosticCode::VcirVer001,
        DiagnosticCode::VcirExp001,
        DiagnosticCode::VcirExp002,
        DiagnosticCode::VcirLim001,
        DiagnosticCode::VcirLim002,
        DiagnosticCode::VcirLim003,
        DiagnosticCode::VcirSig001,
        DiagnosticCode::VcirLoc001,
        DiagnosticCode::VcirStk001,
        DiagnosticCode::VcirStk002,
        DiagnosticCode::VcirStk003,
        DiagnosticCode::VcirCtl001,
        DiagnosticCode::VcirCtl002,
        DiagnosticCode::VcirCtl003,
        DiagnosticCode::VcirCtl004,
        DiagnosticCode::VcirCtl005,
    ]
}

/// The code whose text is `s`, if any.
pub open spec fn spec_parse_code(s: Seq<char>) -> Option<DiagnosticCode> {
    if s == "VCIR_VER001"@ {
        Some(DiagnosticCode::VcirVer001)
    } else if s == "VCIR_EXP001"@ {
        Some(DiagnosticCode::VcirExp001)
    } else if s == "VCIR_EXP002"@ {
        Some(DiagnosticCode::VcirExp002)
    } else if s == "VCIR_LIM001"@ {
        Some(DiagnosticCode::VcirLim001)
    } else if s == "VCIR_LIM002"@ {
        Some(DiagnosticCode::VcirLim002)
    } else if s == "VCIR_LIM003"@ {
        Some(DiagnosticCode::VcirLim003)
    } else if s == "VCIR_SIG001"@ {
        Some(DiagnosticCode::VcirSig001)
    } else if s == "VCIR_LOC001"@ {
        Some(DiagnosticCode::VcirLoc001)
    } else if s == "VCIR_STK001"@ {
        Some(DiagnosticCode::VcirStk001)
    } else if s == "VCIR_STK002"@ {
        Some(DiagnosticCode::VcirStk002)
    } else if s == "VCIR_STK003"@ {
        Some(DiagnosticCode::VcirStk003)
    } else if s == "VCIR_CTL001"@ {
        Some(DiagnosticCode::VcirCtl001)
    } else if s == "VCIR_CTL002"@ {
        Some(DiagnosticCode::VcirCtl002)
    } else if s == "VCIR_CTL003"@ {
        Some(DiagnosticCode::VcirCtl003)
    } else if s == "VCIR_CTL004"@ {
        Some(DiagnosticCode::VcirCtl004)
    } else if s == "VCIR_CTL005"@ {
        Some(DiagnosticCode::VcirCtl005)
    } else {
        None
    }
}

/// The code of each validation error.
pub open spec fn error_code(e: ValidationError) -> DiagnosticCode {
    match e {
        ValidationError::UnsupportedVersion(_, _) => DiagnosticCode::VcirVer001,
        ValidationError::EmptyExportName => DiagnosticCode::VcirExp001,
        ValidationError::ExportNameTooLong { .. } => DiagnosticCode::VcirExp002,
        ValidationError::TooManyParams { .. } => DiagnosticCode::VcirLim001,
        ValidationError::TooManyDeclaredLocals { .. } => DiagnosticCode::VcirLim002,
        ValidationError::BodyTooLarge { .. } => DiagnosticCode::VcirLim003,
        ValidationError::BadResultArity => DiagnosticCode::VcirSig001,
        ValidationError::LocalOob { .. } => DiagnosticCode::VcirLoc001,
        ValidationError::StackUnderflow { .. } => DiagnosticCode::VcirStk001,
        ValidationError::BadReturnStack { .. } => DiagnosticCode::VcirStk002,
        ValidationError::StackTypeMismatch { .. } => DiagnosticCode::VcirStk003,
        ValidationError::ReturnInsideNestedControl => DiagnosticCode::VcirCtl001,
        ValidationError::ControlNestingTooDeep { .. } => DiagnosticCode::VcirCtl002,
        ValidationError::BranchStackMismatch => DiagnosticCode::VcirCtl003,
        ValidationError::InvalidBlockStack { .. } => DiagnosticCode::VcirCtl004,
        ValidationError::MissingReturn => DiagnosticCode::VcirCtl005,
    }
}

impl DiagnosticCode {
    /// The code's stable text.
    pub fn as_str(self) -> (r: &'static str)
        ensures
            r@ == code_str(self),
    {
        match self {
            DiagnosticCode::VcirVer001 => "VCIR_VER001",
            DiagnosticCode::VcirExp001 => "VCIR_EXP001",
            DiagnosticCode::VcirExp002 => "VCIR_EXP002",
            DiagnosticCode::VcirLim001 => "VCIR_LIM001",
            DiagnosticCode::VcirLim002 => "VCIR_LIM002",
            DiagnosticCode::VcirLim003 => "VCIR_LIM003",
            DiagnosticCode::VcirSig001 => "VCIR_SIG001",
            DiagnosticCode::VcirLoc001 => "VCIR_LOC001",
            DiagnosticCode::VcirStk001 => "VCIR_STK001",
            DiagnosticCode::VcirStk002 => "VCIR_STK002",
            DiagnosticCode::VcirStk003 => "VCIR_STK003",
            DiagnosticCode::VcirCtl001 => "VCIR_CTL001",
            DiagnosticCode::VcirCtl002 => "VCIR_CTL002",
            DiagnosticCode::VcirCtl003 => "VCIR_CTL003",
            DiagnosticCode::VcirCtl004 => "VCIR_CTL004",
            DiagnosticCode::VcirCtl005 => "VCIR_CTL005",
        }
    }
}

impl ValidationError {
    /// The stable diagnostic code of this error.
    pub fn code(&self) -> (r: DiagnosticCode)
        ensures
            r == error_code(*self),
    {
        match self {
            ValidationError::UnsupportedVersion(_, _) => DiagnosticCode::VcirVer001,
            ValidationError::EmptyExportName => DiagnosticCode::VcirExp001,
            ValidationError::ExportNameTooLong { .. } => DiagnosticCode::VcirExp002,
            ValidationError::TooManyParams { .. } => DiagnosticCode::VcirLim001,
            ValidationError::TooManyDeclaredLocals { .. } => DiagnosticCode::VcirLim002,
            ValidationError::BodyTooLarge { .. } => DiagnosticCode::VcirLim003,
            ValidationError::BadResultArity => DiagnosticCode::VcirSig001,
            ValidationError::LocalOob { .. } => DiagnosticCode::VcirLoc001,
            ValidationError::StackUnderflow { .. } => DiagnosticCode::VcirStk001,
            ValidationError::BadReturnStack { .. } => DiagnosticCode::VcirStk002,
            ValidationError::StackTypeMismatch { .. } => DiagnosticCode::VcirStk003,
            ValidationError::ReturnInsideNestedControl => DiagnosticCode::VcirCtl001,
            ValidationError::ControlNestingTooDeep { .. } => DiagnosticCode::VcirCtl002,
            ValidationError::BranchStackMismatch => DiagnosticCode::VcirCtl003,
            ValidationError::InvalidBlockStack { .. } => DiagnosticCode::VcirCtl004,
            ValidationError::MissingReturn => DiagnosticCode::VcirCtl005,
        }
    }

    /// The structured diagnostic for this error.
    pub fn diagnostic(&self) -> (r: Diagnostic)
        ensures
            diagnostic_of(r, *self),
    {
        let code = self.code();
        let (expected, actual, repair) = field_hints(self);
        Diagnostic {
            code: text(code.as_str()),
            message: self.message(),
            expected,
            actual,
            severity: "error",
            repair,
        }
    }
}

/// A repair suggestion.
#[derive(Clone, Copy, Debug)]
pub struct RepairHint {
    pub id: &'static str,
    /// `safe` = unlikely to change intended semantics; `heuristic` = may need human review.
    pub safety: &'static str,
    pub summary: &'static str,
}

/// A validation diagnostic.
#[derive(Clone, Debug)]
pub struct Diagnostic {
    pub code: String,
    pub message: String,
    pub expected: String,
    pub actual: String,
    pub severity: &'static str,
    pub repair: RepairHint,
}

/// Catalog entry for a code.
#[derive(Clone, Debug)]
pub struct ExplainEntry {
    pub code: String,
    pub title: String,
    pub detail: String,
    pub repair: RepairHint,
}

/// One step of a repair plan.
#[derive(Clone, Debug)]
pub struct FixStep {
    pub action: &'static str,
    pub detail: String,
}

/// A typed repair plan for one error.
#[derive(Clone, Debug)]
pub struct FixPlan {
    pub code: String,
    pub repair_id: String,
    pub safety: String,
    pub steps: Vec<FixStep>,
}

/// Outcome of validating one module, for tools.
#[derive(Clone, Debug)]
pub struct ValidateReport {
    pub ok: bool,
    pub program_ir_version: Option<u32>,
    pub export_name: Option<String>,
    pub diagnostics: Option<Vec<Diagnostic>>,
}

/// Repair id, safety and summary of each code.
pub open spec fn spec_repair(c: DiagnosticCode) -> (Seq<char>, Seq<char>, Seq<char>) {
    match c {
        DiagnosticCode::VcirVer001 => (
            "set-program-ir-version"@,
            "safe"@,
            "Set program_ir_version to the workspace PROGRAM_IR_VERSION (2)."@,
        ),
        DiagnosticCode::VcirExp001 => (
            "set-export-name"@,
            "safe"@,
            "Provide a non-empty export_name (typically \"run\")."@,
        ),
        DiagnosticCode::VcirExp002 => (
            "shorten-export-name"@,
            "safe"@,
            "Shorten export_name to within MAX_EXPORT_NAME_LEN UTF-8 bytes."@,
        ),
        DiagnosticCode::VcirLim001 => (
            "reduce-params"@,
            "heuristic"@,
            "Reduce parameter count or split into multiple functions (IR v2 allows one export)."@,
        ),
        DiagnosticCode::VcirLim002 => (
            "reduce-locals"@,
            "heuristic"@,
            "Remove or reuse locals to stay within MAX_DECLARED_LOCALS."@,
        ),
        DiagnosticCode::VcirLim003 => (
            "shrink-body"@,
            "heuristic"@,
            "Shrink the instruction tree (fewer nodes / less control nesting)."@,
        ),
        DiagnosticCode::VcirSig001 => (
            "fix-signature-single-result"@,
            "safe"@,
            "Program IR v2 requires exactly one scalar result type in func.sig.results."@,
        ),
        DiagnosticCode::VcirLoc001 => (
            "fix-local-index"@,
            "safe"@,
            "Use local indices in [0, params+declared_locals); fix local_get/local_set."@,
        ),
        DiagnosticCode::VcirStk001 => (
            "insert-stack-operands"@,
            "heuristic"@,
            "Push required operand types onto the stack before this instruction."@,
        ),
        DiagnosticCode::VcirStk002 => (
            "align-return-stack"@,
            "heuristic"@,
            "Ensure the stack holds exactly one value of the declared result type before return."@,
        ),
        DiagnosticCode::VcirStk003 => (
            "fix-stack-types"@,
            "heuristic"@,
            "Insert conversions or change preceding instructions so stack types match."@,
        ),
        DiagnosticCode::VcirCtl001 => (
            "move-return-to-function-end"@,
            "safe"@,
            "Only the final top-level instruction may be return; use block values instead."@,
        ),
        DiagnosticCode::VcirCtl002 => (
            "reduce-control-nesting"@,
            "heuristic"@,
            "Flatten block/if_else nesting to stay within MAX_CONTROL_DEPTH."@,
        ),
        DiagnosticCode::VcirCtl003 => (
            "balance-if-else-branches"@,
            "heuristic"@,
            "Make then/else branches leave identical stack heights and result types."@,
        ),
        DiagnosticCode::VcirCtl004 => (
            "fix-block-stack-delta"@,
            "heuristic"@,
            "Adjust block body so stack delta matches the block's declared result arity."@,
        ),
        DiagnosticCode::VcirCtl005 => (
            "append-trailing-return"@,
            "safe"@,
            "End func.body with a single return instruction at top level."@,
        ),
    }
}

/// `h` is the repair hint of code `c`.
pub open spec fn hint_is(h: RepairHint, c: DiagnosticCode) -> bool {
    &&& h.id@ == spec_repair(c).0
    &&& h.safety@ == spec_repair(c).1
    &&& h.summary@ == spec_repair(c).2
}

/// Catalog title of each code.
pub open spec fn spec_title(c: DiagnosticCode) -> Seq<char> {
    match c {
        DiagnosticCode::VcirVer001 => "Unsupported program_ir_version"@,
        DiagnosticCode::VcirExp001 => "Empty export_name"@,
        DiagnosticCode::VcirExp002 => "export_name too long"@,
        DiagnosticCode::VcirLim001 => "Too many parameters"@,
        DiagnosticCode::VcirLim002 => "Too many declared locals"@,
        DiagnosticCode::VcirLim003 => "Function body too large"@,
        DiagnosticCode::VcirSig001 => "Invalid result arity"@,
        DiagnosticCode::VcirLoc001 => "Local index out of range"@,
        DiagnosticCode::VcirStk001 => "Stack underflow"@,
        DiagnosticCode::VcirStk002 => "Bad stack at return"@,
        DiagnosticCode::VcirStk003 => "Stack type mismatch"@,
        DiagnosticCode::VcirCtl001 => "return inside nested control"@,
        DiagnosticCode::VcirCtl002 => "Control nesting too deep"@,
        DiagnosticCode::VcirCtl003 => "if_else branch stack mismatch"@,
        DiagnosticCode::VcirCtl004 => "block stack mismatch"@,
        DiagnosticCode::VcirCtl005 => "Missing trailing return"@,
    }
}

/// Catalog detail text of each code.
pub open spec fn spec_detail(c: DiagnosticCode) -> Seq<char> {
    match c {
        DiagnosticCode::VcirVer001 => "Program IR files must declare program_ir_version matching the workspace validator."@,
        DiagnosticCode::VcirExp001 => "Wasm export name must be non-empty for lowering."@,
        DiagnosticCode::VcirExp002 => "export_name is bounded to prevent abuse; shorten the UTF-8 name."@,
        DiagnosticCode::VcirLim001 => "Tier-1 cap on parameters per function."@,
        DiagnosticCode::VcirLim002 => "Tier-1 cap on declared locals (excluding parameters)."@,
        DiagnosticCode::VcirLim003 => "Instruction tree node count exceeds MAX_BODY_INSTRS."@,
        DiagnosticCode::VcirSig001 => "v2 modules expose one function with exactly one scalar return type."@,
        DiagnosticCode::VcirLoc001 => "local_get/local_set index must refer to a parameter or declared local slot."@,
        DiagnosticCode::VcirStk001 => "An instruction consumed more stack values than were available."@,
        DiagnosticCode::VcirStk002 => "return must see exactly one value of the declared result type on the stack."@,
        DiagnosticCode::VcirStk003 => "Stack types must match each instruction's Wasm-like typing rules."@,
        DiagnosticCode::VcirCtl001 => "Structured control uses block/if_else; return is only allowed at function end."@,
        DiagnosticCode::VcirCtl002 => "block/if_else nesting exceeds MAX_CONTROL_DEPTH."@,
        DiagnosticCode::VcirCtl003 => "Both branches of if_else must leave the same stack shape."@,
        DiagnosticCode::VcirCtl004 => "A block's body must leave the stack in the state promised by the block type."@,
        DiagnosticCode::VcirCtl005 => "The function body must end with a top-level return."@,
    }
}

/// The `expected` and `actual` texts of a diagnostic for `e`.
pub open spec fn spec_hints(e: ValidationError) -> (Seq<char>, Seq<char>) {
    match e {
        ValidationError::UnsupportedVersion(got, want) => (
            "program_ir_version == "@ + decimal(want as nat),
            "program_ir_version == "@ + decimal(got as nat),
        ),
        ValidationError::EmptyExportName => ("non-empty export_name"@, "empty or whitespace export_name"@),
        ValidationError::ExportNameTooLong { len, max } => (
            "export_name.len() <= "@ + decimal(max as nat),
            "export_name.len() == "@ + decimal(len as nat),
        ),
        ValidationError::TooManyParams { count, max } => (
            "params.len() <= "@ + decimal(max as nat),
            "params.len() == "@ + decimal(count as nat),
        ),
        ValidationError::TooManyDeclaredLocals { count, max } => (
            "locals.len() <= "@ + decimal(max as nat),
            "locals.len() == "@ + decimal(count as nat),
        ),
        ValidationError::BodyTooLarge { count, max } => (
            "instruction_tree_nodes <= "@ + decimal(max as nat),
            "instruction_tree_nodes == "@ + decimal(count as nat),
        ),
        ValidationError::BadResultArity => ("func.sig.results.len() == 1"@, "func.sig.results.len() != 1"@),
        ValidationError::LocalOob { index, total } => (
            "local index < "@ + decimal(total as nat),
            "local index == "@ + decimal(index as nat),
        ),
        ValidationError::StackUnderflow { instr } => (
            "stack non-empty before "@ + instr_debug(instr),
            "stack underflow"@,
        ),
        ValidationError::BadReturnStack { depth, expected } => (
            "stack depth == "@ + decimal(expected as nat) + " before return"@,
            "stack depth == "@ + decimal(depth as nat),
        ),
        ValidationError::StackTypeMismatch { expected, actual, instr } => (
            "stack top == "@ + valtype_debug(expected) + " before "@ + instr_debug(instr),
            "stack top == "@ + valtype_debug(actual),
        ),
        ValidationError::ReturnInsideNestedControl => (
            "return only as final top-level instruction"@,
            "return inside block/if_else"@,
        ),
        ValidationError::ControlNestingTooDeep { max } => (
            "control_nesting_depth <= "@ + decimal(max as nat),
            "control nesting too deep"@,
        ),
        ValidationError::BranchStackMismatch => (
            "if_else branches leave identical stacks"@,
            "branch stack mismatch"@,
        ),
        ValidationError::InvalidBlockStack { enter_len, leave_len, expected_delta } => (
            "block stack delta == "@ + decimal(expected_delta as nat),
            "entered at "@ + decimal(enter_len as nat) + ", left at "@ + decimal(leave_len as nat),
        ),
        ValidationError::MissingReturn => ("func.body ends with return"@, "missing or misplaced return"@),
    }
}

/// `d` is the diagnostic of `e`.
pub open spec fn diagnostic_of(d: Diagnostic, e: ValidationError) -> bool {
    &&& d.code@ == code_str(error_code(e))
    &&& d.message@ == spec_message(e)
    &&& d.expected@ == spec_hints(e).0
    &&& d.actual@ == spec_hints(e).1
    &&& d.severity@ == "error"@
    &&& hint_is(d.repair, error_code(e))
}

/// `x` is the catalog entry of code `c`.
pub open spec fn entry_of(x: ExplainEntry, c: DiagnosticCode) -> bool {
    &&& x.code@ == code_str(c)
    &&& x.title@ == spec_title(c)
    &&& x.detail@ == spec_detail(c)
    &&& hint_is(x.repair, c)
}

/// Actions and details of the repair plan for `e`.
pub open spec fn spec_fix_steps(e: ValidationError) -> Seq<(Seq<char>, Seq<char>)> {
    let c = error_code(e);
    let first = seq![(spec_repair(c).0, spec_repair(c).2)];
    match e {
        ValidationError::UnsupportedVersion(_, want) => first.push(
            ("edit-json-field"@, "Set \"program_ir_version\": "@ + decimal(want as nat) + " at module root."@),
        ),
        ValidationError::StackUnderflow { instr } => first.push(
            ("inspect-predecessors"@, "Add producers for operands required before "@ + instr_debug(instr) + "."@),
        ),
        ValidationError::StackTypeMismatch { expected, actual, instr } => first.push(
            (
                "insert-conversion-or-op"@,
                "Need "@ + valtype_debug(expected) + " on stack before "@ + instr_debug(instr) + "; found "@
                    + valtype_debug(actual) + "."@,
            ),
        ),
        ValidationError::ReturnInsideNestedControl => first.push(
            ("restructure-control"@, "Hoist computation into block bodies; keep a single trailing return."@),
        ),
        ValidationError::MissingReturn => first.push(
            ("append-return"@, "Add { \"return\": null } as the last element of func.body."@),
        ),
        _ => first,
    }
}

/// `p` is the repair plan of `e`.
pub open spec fn plan_of(p: FixPlan, e: ValidationError) -> bool {
    let c = error_code(e);
    &&& p.code@ == code_str(c)
    &&& p.repair_id@ == spec_repair(c).0
    &&& p.safety@ == spec_repair(c).1
    &&& p.steps@.len() == spec_fix_steps(e).len()
    &&& forall|k: int|
        0 <= k < p.steps@.len() ==> (#[trigger] p.steps@[k]).action@ == spec_fix_steps(e)[k].0
            && p.steps@[k].detail@ == spec_fix_steps(e)[k].1
}

/// Text equality of two string slices.
pub fn str_eq(a: &str, b: &str) -> (r: bool)
    ensures
        r == (a@ == b@),
{
    let x = text(a);
    let y = text(b);
    x == y
}

/// The catalog entry for the code spelled `code`, if it is one.
pub fn explain_code(code: &str) -> (r: Option<ExplainEntry>)
    ensures
        r is Some <==> spec_parse_code(code@) is Some,
        r matches Some(x) ==> entry_of(x, spec_parse_code(code@)->Some_0),
{
    let dc = match parse_code(code) {
        Some(dc) => dc,
        None => {
            return None;
        },
    };
    Some(explain_entry(dc))
}

/// The catalog entry of one code.
fn explain_entry(dc: DiagnosticCode) -> (r: ExplainEntry)
    ensures
        entry_of(r, dc),
{
    ExplainEntry {
        code: text(dc.as_str()),
        title: explain_title(dc),
        detail: explain_detail(dc),
        repair: repair_for_code(dc),
    }
}

/// Every catalog entry, in code order.
pub fn all_explain_entries() -> (r: Vec<ExplainEntry>)
    ensures
        r@.len() == all_codes().len(),
        forall|k: int| 0 <= k < r@.len() ==> entry_of(#[trigger] r@[k], all_codes()[k]),
{
    let codes = vec![
        DiagnosticCode::VcirVer001,
        DiagnosticCode::VcirExp001,
        DiagnosticCode::VcirExp002,
        DiagnosticCode::VcirLim001,
        DiagnosticCode::VcirLim002,
        DiagnosticCode::VcirLim003,
        DiagnosticCode::VcirSig001,
        DiagnosticCode::VcirLoc001,
        DiagnosticCode::VcirStk001,
        DiagnosticCode::VcirStk002,
        DiagnosticCode::VcirStk003,
        DiagnosticCode::VcirCtl001,
        DiagnosticCode::VcirCtl002,
        DiagnosticCode::VcirCtl003,
        DiagnosticCode::VcirCtl004,
        DiagnosticCode::VcirCtl005,
    ];
    assert(codes@ =~= all_codes());
    let mut out: Vec<ExplainEntry> = Vec::new();
    let mut i: usize = 0;
    while i < codes.len()
        invariant
            i <= codes@.len(),
            codes@ == all_codes(),
            out@.len() == i,
            forall|k: int| 0 <= k < i ==> entry_of(#[trigger] out@[k], all_codes()[k]),
        decreases codes.len() - i,
    {
        out.push(explain_entry(codes[i]));
        i = i + 1;
    }
    out
}

/// The repair plan for `err`.
pub fn fix_plan(err: &ValidationError) -> (r: FixPlan)
    ensures
        plan_of(r, *err),
{
    let dc = err.code();
    let repair = repair_for_code(dc);
    FixPlan {
        code: text(dc.as_str()),
        repair_id: text(repair.id),
        safety: text(repair.safety),
        steps: fix_steps(err),
    }
}

/// Validates `module` and reports the outcome with at most one diagnostic.
/// `r` is the validation report of `m`: whether it validates, its version and export name, and
/// for an invalid module the one diagnostic of its error.
pub open spec fn report_of(r: ValidateReport, m: Module) -> bool {
    &&& r.ok == valid_module(m)
    &&& r.program_ir_version == Some(m.program_ir_version)
    &&& r.export_name matches Some(n) && n@ == m.export_name@
    &&& valid_module(m) ==> r.diagnostics is None
    &&& !valid_module(m) ==> (r.diagnostics matches Some(ds) && ds@.len() == 1 && diagnostic_of(
        ds@[0],
        spec_validate_module(m)->Err_0,
    ))
}

pub fn validate_report(module: &Module) -> (r: ValidateReport)
    ensures
        report_of(r, *module),
        r.ok == valid_module(*module),
        r.program_ir_version == Some(module.program_ir_version),
        r.export_name matches Some(n) && n@ == module.export_name@,
        valid_module(*module) ==> r.diagnostics is None,
        !valid_module(*module) ==> (r.diagnostics matches Some(ds) && ds@.len() == 1 && diagnostic_of(
            ds@[0],
            spec_validate_module(*module)->Err_0,
        )),
{
    match validate_module(module) {
        Ok(()) => ValidateReport {
            ok: true,
            program_ir_version: Some(module.program_ir_version),
            export_name: Some(module.export_name.clone()),
            diagnostics: None,
        },
        Err(e) => {
            let d = e.diagnostic();
            proof {
                lemma_same_error_diagnostic(d, e, spec_validate_module(*module)->Err_0);
            }
            let mut ds: Vec<Diagnostic> = Vec::new();
            ds.push(d);
            ValidateReport {
                ok: false,
                program_ir_version: Some(module.program_ir_version),
                export_name: Some(module.export_name.clone()),
                diagnostics: Some(ds),
            }
        },
    }
}

fn parse_code(s: &str) -> (r: Option<DiagnosticCode>)
    ensures
        r == spec_parse_code(s@),
{
    if str_eq(s, "VCIR_VER001") {
        Some(DiagnosticCode::VcirVer001)
    } else if str_eq(s, "VCIR_EXP001") {
        Some(DiagnosticCode::VcirExp001)
    } else if str_eq(s, "VCIR_EXP002") {
        Some(DiagnosticCode::VcirExp002)
    } else if str_eq(s, "VCIR_LIM001") {
        Some(DiagnosticCode::VcirLim001)
    } else if str_eq(s, "VCIR_LIM002") {
        Some(DiagnosticCode::VcirLim002)
    } else if str_eq(s, "VCIR_LIM003") {
        Some(DiagnosticCode::VcirLim003)
    } else if str_eq(s, "VCIR_SIG001") {
        Some(DiagnosticCode::VcirSig001)
    } else if str_eq(s, "VCIR_LOC001") {
        Some(DiagnosticCode::VcirLoc001)
    } else if str_eq(s, "VCIR_STK001") {
        Some(DiagnosticCode::VcirStk001)
    } else if str_eq(s, "VCIR_STK002") {
        Some(DiagnosticCode::VcirStk002)
    } else if str_eq(s, "VCIR_STK003") {
        Some(DiagnosticCode::VcirStk003)
    } else if str_eq(s, "VCIR_CTL001") {
        Some(DiagnosticCode::VcirCtl001)
    } else if str_eq(s, "VCIR_CTL002") {
        Some(DiagnosticCode::VcirCtl002)
    } else if str_eq(s, "VCIR_CTL003") {
        Some(DiagnosticCode::VcirCtl003)
    } else if str_eq(s, "VCIR_CTL004") {
        Some(DiagnosticCode::VcirCtl004)
    } else if str_eq(s, "VCIR_CTL005") {
        Some(DiagnosticCode::VcirCtl005)
    } else {
        None
    }
}

fn repair_for_code(code: DiagnosticCode) -> (r: RepairHint)
    ensures
        hint_is(r, code),
{
    match code {
        DiagnosticCode::VcirVer001 => RepairHint {
            id: "set-program-ir-version",
            safety: "safe",
            summary: "Set program_ir_version to the workspace PROGRAM_IR_VERSION (2).",
        },
        DiagnosticCode::VcirExp001 => RepairHint {
            id: "set-export-name",
            safety: "safe",
            summary: "Provide a non-empty export_name (typically \"run\").",
        },
        DiagnosticCode::VcirExp002 => RepairHint {
            id: "shorten-export-name",
            safety: "safe",
            summary: "Shorten export_name to within MAX_EXPORT_NAME_LEN UTF-8 bytes.",
        },
        DiagnosticCode::VcirLim001 => RepairHint {
            id: "reduce-params",
            safety: "heuristic",
            summary: "Reduce parameter count or split into multiple functions (IR v2 allows one export).",
        },
        DiagnosticCode::VcirLim002 => RepairHint {
            id: "reduce-locals",
            safety: "heuristic",
            summary: "Remove or reuse locals to stay within MAX_DECLARED_LOCALS.",
        },
        DiagnosticCode::VcirLim003 => RepairHint {
            id: "shrink-body",
            safety: "heuristic",
            summary: "Shrink the instruction tree (fewer nodes / less control nesting).",
        },
        DiagnosticCode::VcirSig001 => RepairHint {
            id: "fix-signature-single-result",
            safety: "safe",
            summary: "Program IR v2 requires exactly one scalar result type in func.sig.results.",
        },
        DiagnosticCode::VcirLoc001 => RepairHint {
            id: "fix-local-index",
            safety: "safe",
            summary: "Use local indices in [0, params+declared_locals); fix local_get/local_set.",
        },
        DiagnosticCode::VcirStk001 => RepairHint {
            id: "insert-stack-operands",
            safety: "heuristic",
            summary: "Push required operand types onto the stack before this instruction.",
        },
        DiagnosticCode::VcirStk002 => RepairHint {
            id: "align-return-stack",
            safety: "heuristic",
            summary: "Ensure the stack holds exactly one value of the declared result type before return.",
        },
        DiagnosticCode::VcirStk003 => RepairHint {
            id: "fix-stack-types",
            safety: "heuristic",
            summary: "Insert conversions or change preceding instructions so stack types match.",
        },
        DiagnosticCode::VcirCtl001 => RepairHint {
            id: "move-return-to-function-end",
            safety: "safe",
            summary: "Only the final top-level instruction may be return; use block values instead.",
        },
        DiagnosticCode::VcirCtl002 => RepairHint {
            id: "reduce-control-nesting",
            safety: "heuristic",
            summary: "Flatten block/if_else nesting to stay within MAX_CONTROL_DEPTH.",
        },
        DiagnosticCode::VcirCtl003 => RepairHint {
            id: "balance-if-else-branches",
            safety: "heuristic",
            summary: "Make then/else branches leave identical stack heights and result types.",
        },
        DiagnosticCode::VcirCtl004 => RepairHint {
            id: "fix-block-stack-delta",
            safety: "heuristic",
            summary: "Adjust block body so stack delta matches the block's declared result arity.",
        },
        DiagnosticCode::VcirCtl005 => RepairHint {
            id: "append-trailing-return",
            safety: "safe",
            summary: "End func.body with a single return instruction at top level.",
        },
    }
}

fn field_hints(err: &ValidationError) -> (r: (String, String, RepairHint))
    ensures
        r.0@ == spec_hints(*err).0,
        r.1@ == spec_hints(*err).1,
        hint_is(r.2, error_code(*err)),
{
    let repair = repair_for_code(err.code());
    let mut expected = String::new();
    let mut actual = String::new();
    match err {
        ValidationError::UnsupportedVersion(got, want) => {
            expected.append("program_ir_version == ");
            push_decimal(&mut expected, *want as u64);
            actual.append("program_ir_version == ");
            push_decimal(&mut actual, *got as u64);
        },
        ValidationError::EmptyExportName => {
            expected.append("non-empty export_name");
            actual.append("empty or whitespace export_name");
        },
        ValidationError::ExportNameTooLong { len, max } => {
            expected.append("export_name.len() <= ");
            push_decimal(&mut expected, *max as u64);
            actual.append("export_name.len() == ");
            push_decimal(&mut actual, *len as u64);
        },
        ValidationError::TooManyParams { count, max } => {
            expected.append("params.len() <= ");
            push_decimal(&mut expected, *max as u64);
            actual.append("params.len() == ");
            push_decimal(&mut actual, *count as u64);
        },
        ValidationError::TooManyDeclaredLocals { count, max } => {
            expected.append("locals.len() <= ");
            push_decimal(&mut expected, *max as u64);
            actual.append("locals.len() == ");
            push_decimal(&mut actual, *count as u64);
        },
        ValidationError::BodyTooLarge { count, max } => {
            expected.append("instruction_tree_nodes <= ");
            push_decimal(&mut expected, *max as u64);
            actual.append("instruction_tree_nodes == ");
            push_decimal(&mut actual, *count as u64);
        },
        ValidationError::BadResultArity => {
            expected.append("func.sig.results.len() == 1");
            actual.append("func.sig.results.len() != 1");
        },
        ValidationError::LocalOob { index, total } => {
            expected.append("local index < ");
            push_decimal(&mut expected, *total as u64);
            actual.append("local index == ");
            push_decimal(&mut actual, *index as u64);
        },
        ValidationError::StackUnderflow { instr } => {
            expected.append("stack non-empty before ");
            push_instr_debug(&mut expected, instr);
            actual.append("stack underflow");
        },
        ValidationError::BadReturnStack { depth, expected: want } => {
            expected.append("stack depth == ");
            push_decimal(&mut expected, *want as u64);
            expected.append(" before return");
            actual.append("stack depth == ");
            push_decimal(&mut actual, *depth as u64);
        },
        ValidationError::StackTypeMismatch { expected: want, actual: got, instr } => {
            expected.append("stack top == ");
            expected.append(valtype_debug_str(*want));
            expected.append(" before ");
            push_instr_debug(&mut expected, instr);
            actual.append("stack top == ");
            actual.append(valtype_debug_str(*got));
        },
        ValidationError::ReturnInsideNestedControl => {
            expected.append("return only as final top-level instruction");
            actual.append("return inside block/if_else");
        },
        ValidationError::ControlNestingTooDeep { max } => {
            expected.append("control_nesting_depth <= ");
            push_decimal(&mut expected, *max as u64);
            actual.append("control nesting too deep");
        },
        ValidationError::BranchStackMismatch => {
            expected.append("if_else branches leave identical stacks");
            actual.append("branch stack mismatch");
        },
        ValidationError::InvalidBlockStack { enter_len, leave_len, expected_delta } => {
            expected.append("block stack delta == ");
            push_decimal(&mut expected, *expected_delta as u64);
            actual.append("entered at ");
            push_decimal(&mut actual, *enter_len as u64);
            actual.append(", left at ");
            push_decimal(&mut actual, *leave_len as u64);
        },
        ValidationError::MissingReturn => {
            expected.append("func.body ends with return");
            actual.append("missing or misplaced return");
        },
    }
    assert(expected@ =~= spec_hints(*err).0);
    assert(actual@ =~= spec_hints(*err).1);
    (expected, actual, repair)
}

fn explain_title(code: DiagnosticCode) -> (r: String)
    ensures
        r@ == spec_title(code),
{
    let s = match code {
        DiagnosticCode::VcirVer001 => "Unsupported program_ir_version",
        DiagnosticCode::VcirExp001 => "Empty export_name",
        DiagnosticCode::VcirExp002 => "export_name too long",
        DiagnosticCode::VcirLim001 => "Too many parameters",
        DiagnosticCode::VcirLim002 => "Too many declared locals",
        DiagnosticCode::VcirLim003 => "Function body too large",
        DiagnosticCode::VcirSig001 => "Invalid result arity",
        DiagnosticCode::VcirLoc001 => "Local index out of range",
        DiagnosticCode::VcirStk001 => "Stack underflow",
        DiagnosticCode::VcirStk002 => "Bad stack at return",
        DiagnosticCode::VcirStk003 => "Stack type mismatch",
        DiagnosticCode::VcirCtl001 => "return inside nested control",
        DiagnosticCode::VcirCtl002 => "Control nesting too deep",
        DiagnosticCode::VcirCtl003 => "if_else branch stack mismatch",
        DiagnosticCode::VcirCtl004 => "block stack mismatch",
        DiagnosticCode::VcirCtl005 => "Missing trailing return",
    };
    text(s)
}

fn explain_detail(code: DiagnosticCode) -> (r: String)
    ensures
        r@ == spec_detail(code),
{
    let s = match code {
        DiagnosticCode::VcirVer001 => "Program IR files must declare program_ir_version matching the workspace validator.",
        DiagnosticCode::VcirExp001 => "Wasm export name must be non-empty for lowering.",
        DiagnosticCode::VcirExp002 => "export_name is bounded to prevent abuse; shorten the UTF-8 name.",
        DiagnosticCode::VcirLim001 => "Tier-1 cap on parameters per function.",
        DiagnosticCode::VcirLim002 => "Tier-1 cap on declared locals (excluding parameters).",
        DiagnosticCode::VcirLim003 => "Instruction tree node count exceeds MAX_BODY_INSTRS.",
        DiagnosticCode::VcirSig001 => "v2 modules expose one function with exactly one scalar return type.",
        DiagnosticCode::VcirLoc001 => "local_get/local_set index must refer to a parameter or declared local slot.",
        DiagnosticCode::VcirStk001 => "An instruction consumed more stack values than were available.",
        DiagnosticCode::VcirStk002 => "return must see exactly one value of the declared result type on the stack.",
        DiagnosticCode::VcirStk003 => "Stack types must match each instruction's Wasm-like typing rules.",
        DiagnosticCode::VcirCtl001 => "Structured control uses block/if_else; return is only allowed at function end.",
        DiagnosticCode::VcirCtl002 => "block/if_else nesting exceeds MAX_CONTROL_DEPTH.",
        DiagnosticCode::VcirCtl003 => "Both branches of if_else must leave the same stack shape.",
        DiagnosticCode::VcirCtl004 => "A block's body must leave the stack in the state promised by the block type.",
        DiagnosticCode::VcirCtl005 => "The function body must end with a top-level return.",
    };
    text(s)
}

fn fix_steps(err: &ValidationError) -> (r: Vec<FixStep>)
    ensures
        r@.len() == spec_fix_steps(*err).len(),
        forall|k: int|
            0 <= k < r@.len() ==> (#[trigger] r@[k]).action@ == spec_fix_steps(*err)[k].0 && r@[k].detail@
                == spec_fix_steps(*err)[k].1,
{
    let repair = repair_for_code(err.code());
    let mut steps: Vec<FixStep> = Vec::new();
    steps.push(FixStep { action: repair.id, detail: text(repair.summary) });
    match err {
        ValidationError::UnsupportedVersion(_, want) => {
            let mut detail = text("Set \"program_ir_version\": ");
            push_decimal(&mut detail, *want as u64);
            detail.append(" at module root.");
            steps.push(FixStep { action: "edit-json-field", detail });
        },
        ValidationError::StackUnderflow { instr } => {
            let mut detail = text("Add producers for operands required before ");
            push_instr_debug(&mut detail, instr);
            detail.append(".");
            steps.push(FixStep { action: "inspect-predecessors", detail });
        },
        ValidationError::StackTypeMismatch { expected, actual, instr } => {
            let mut detail = text("Need ");
            detail.append(valtype_debug_str(*expected));
            detail.append(" on stack before ");
            push_instr_debug(&mut detail, instr);
            detail.append("; found ");
            detail.append(valtype_debug_str(*actual));
            detail.append(".");
            steps.push(FixStep { action: "insert-conversion-or-op", detail });
        },
        ValidationError::ReturnInsideNestedControl => {
            steps.push(
                FixStep {
                    action: "restructure-control",
                    detail: text("Hoist computation into block bodies; keep a single trailing return."),
                },
            );
        },
        ValidationError::MissingReturn => {
            steps.push(
                FixStep {
                    action: "append-return",
                    detail: text("Add { \"return\": null } as the last element of func.body."),
                },
            );
        },
        _ => {},
    }
    assert(steps@.len() == spec_fix_steps(*err).len());
    assert forall|k: int| 0 <= k < steps@.len() implies (#[trigger] steps@[k]).action@ == spec_fix_steps(*err)[k].0
        && steps@[k].detail@ == spec_fix_steps(*err)[k].1 by {
        if k == 1 {
            assert(steps@[1].detail@ =~= spec_fix_steps(*err)[1].1);
        }
    }
    steps
}

/// Snake-case label of a value type.
pub open spec fn spec_valtype_label(t: ValType) -> Seq<char> {
    match t {
        ValType::I32 => "i32"@,
        ValType::I64 => "i64"@,
        ValType::F32 => "f32"@,
        ValType::F64 => "f64"@,
    }
}

/// Snake-case opcode label of an instruction.
pub open spec fn spec_kind_label(i: Instr) -> Seq<char> {
    match i {
        Instr::I32Const { .. } => "i32_const"@,
        Instr::I64Const { .. } => "i64_const"@,
        Instr::F32Const { .. } => "f32_const"@,
        Instr::F64Const { .. } => "f64_const"@,
        Instr::I32Add => "i32_add"@,
        Instr::I32Sub => "i32_sub"@,
        Instr::I32Mul => "i32_mul"@,
        Instr::I32Xor => "i32_xor"@,
        Instr::I32Eq => "i32_eq"@,
        Instr::I32Eqz => "i32_eqz"@,
        Instr::I32TruncF32S => "i32_trunc_f32_s"@,
        Instr::F32ConvertI32S => "f32_convert_i32_s"@,
        Instr::F32Add => "f32_add"@,
        Instr::F32Sub => "f32_sub"@,
        Instr::F32Mul => "f32_mul"@,
        Instr::F32Div => "f32_div"@,
        Instr::F32Gt => "f32_gt"@,
        Instr::F64Add => "f64_add"@,
        Instr::F64Sub => "f64_sub"@,
        Instr::F64Mul => "f64_mul"@,
        Instr::F64Div => "f64_div"@,
        Instr::Drop => "drop"@,
        Instr::LocalGet { .. } => "local_get"@,
        Instr::LocalSet { .. } => "local_set"@,
        Instr::Block { .. } => "block"@,
        Instr::IfElse { .. } => "if_else"@,
        Instr::Return => "return"@,
    }
}

/// Stable parse summary (syntax only; does not imply validation success).
#[derive(Clone, Debug)]
pub struct ParseSummary {
    pub export_name: String,
    pub program_ir_version: u32,
    pub params: Vec<String>,
    pub results: Vec<String>,
    pub declared_locals: usize,
    pub top_level_body_kinds: Vec<String>,
}

/// The label of a value type.
pub fn valtype_label(t: ValType) -> (r: &'static str)
    ensures
        r@ == spec_valtype_label(t),
{
    match t {
        ValType::I32 => "i32",
        ValType::I64 => "i64",
        ValType::F32 => "f32",
        ValType::F64 => "f64",
    }
}

/// The opcode label of an instruction.
pub fn instr_kind_label(instr: &Instr) -> (r: &'static str)
    ensures
        r@ == spec_kind_label(*instr),
{
    match instr {
        Instr::I32Const { .. } => "i32_const",
        Instr::I64Const { .. } => "i64_const",
        Instr::F32Const { .. } => "f32_const",
        Instr::F64Const { .. } => "f64_const",
        Instr::I32Add => "i32_add",
        Instr::I32Sub => "i32_sub",
        Instr::I32Mul => "i32_mul",
        Instr::I32Xor => "i32_xor",
        Instr::I32Eq => "i32_eq",
        Instr::I32Eqz => "i32_eqz",
        Instr::I32TruncF32S => "i32_trunc_f32_s",
        Instr::F32ConvertI32S => "f32_convert_i32_s",
        Instr::F32Add => "f32_add",
        Instr::F32Sub => "f32_sub",
        Instr::F32Mul => "f32_mul",
        Instr::F32Div => "f32_div",
        Instr::F32Gt => "f32_gt",
        Instr::F64Add => "f64_add",
        Instr::F64Sub => "f64_sub",
        Instr::F64Mul => "f64_mul",
        Instr::F64Div => "f64_div",
        Instr::Drop => "drop",
        Instr::LocalGet { .. } => "local_get",
        Instr::LocalSet { .. } => "local_set",
        Instr::Block { .. } => "block",
        Instr::IfElse { .. } => "if_else",
        Instr::Return => "return",
    }
}

/// Labels of a list of value types.
pub fn valtype_labels(ts: &[ValType]) -> (r: Vec<String>)
    ensures
        r@.len() == ts@.len(),
        forall|k: int| 0 <= k < ts@.len() ==> (#[trigger] r@[k])@ == spec_valtype_label(ts@[k]),
{
    let mut out: Vec<String> = Vec::new();
    let mut i: usize = 0;
    while i < ts.len()
        invariant
            i <= ts@.len(),
            out@.len() == i,
            forall|k: int| 0 <= k < i ==> (#[trigger] out@[k])@ == spec_valtype_label(ts@[k]),
        decreases ts.len() - i,
    {
        out.push(text(valtype_label(ts[i])));
        i = i + 1;
    }
    out
}

/// Structure of a module without validating it.
pub fn parse_summary(module: &Module) -> (r: ParseSummary)
    ensures
        r.export_name@ == module.export_name@,
        r.program_ir_version == module.program_ir_version,
        r.params@.len() == module.func.sig.params@.len(),
        forall|k: int| 0 <= k < r.params@.len() ==> (#[trigger] r.params@[k])@ == spec_valtype_label(module.func.sig.params@[k]),
        r.results@.len() == module.func.sig.results@.len(),
        forall|k: int| 0 <= k < r.results@.len() ==> (#[trigger] r.results@[k])@ == spec_valtype_label(module.func.sig.results@[k]),
        r.declared_locals == module.func.locals@.len(),
        r.top_level_body_kinds@.len() == module.func.body@.len(),
        forall|k: int| 0 <= k < r.top_level_body_kinds@.len() ==> (#[trigger] r.top_level_body_kinds@[k])@ == spec_kind_label(module.func.body@[k]),
{
    let sig = &module.func.sig;
    let body = &module.func.body;
    let mut kinds: Vec<String> = Vec::new();
    let mut i: usize = 0;
    while i < body.len()
        invariant
            i <= body@.len(),
            kinds@.len() == i,
            forall|k: int| 0 <= k < i ==> (#[trigger] kinds@[k])@ == spec_kind_label(body@[k]),
        decreases body.len() - i,
    {
        kinds.push(text(instr_kind_label(&body[i])));
        i = i + 1;
    }
    ParseSummary {
        export_name: module.export_name.clone(),
        program_ir_version: module.program_ir_version,
        params: valtype_labels(sig.params.as_slice()),
        results: valtype_labels(sig.results.as_slice()),
        declared_locals: module.func.locals.len(),
        top_level_body_kinds: kinds,
    }
}

/// Instructions with equal models print the same.
pub proof fn lemma_debug_model(a: Instr, b: Instr)
    requires
        model(a) == model(b),
    ensures
        instr_debug(a) == instr_debug(b),
    decreases a,
{
    match a {
        Instr::Block { body: x, .. } => {
            if let Instr::Block { body: y, .. } = b {
                assert(decreases_to!(a => x@));
                lemma_debug_models(x@, y@);
            }
        },
        Instr::IfElse { then_body: x1, else_body: x2, .. } => {
            if let Instr::IfElse { then_body: y1, else_body: y2, .. } = b {
                assert(decreases_to!(a => x1@));
                assert(decreases_to!(a => x2@));
                lemma_debug_models(x1@, y1@);
                lemma_debug_models(x2@, y2@);
            }
        },
        _ => {
            if b is Block || b is IfElse {
                assert(false);
            }
        },
    }
}

/// Lists with equal models print the same.
pub proof fn lemma_debug_models(s: Seq<Instr>, t: Seq<Instr>)
    requires
        models(s) == models(t),
    ensures
        instrs_debug(s) == instrs_debug(t),
    decreases s,
{
    lemma_models(s);
    lemma_models(t);
    if s.len() > 0 {
        assert(models(s)[s.len() - 1] == models(t)[t.len() - 1]);
        lemma_debug_model(s.last(), t.last());
        if s.len() > 1 {
            assert forall|k: int| 0 <= k < s.drop_last().len() implies model(#[trigger] s.drop_last()[k]) == model(
                t.drop_last()[k],
            ) by {
                assert(models(s)[k] == models(t)[k]);
                assert(s.drop_last()[k] == s[k]);
                assert(t.drop_last()[k] == t[k]);
                assert(models(s)[k] == model(s[k]));
                assert(models(t)[k] == model(t[k]));
            }
            lemma_models_pointwise(s.drop_last(), t.drop_last());
            lemma_debug_models(s.drop_last(), t.drop_last());
        } else {
            assert(models(s)[0] == models(t)[0]);
            lemma_debug_model(s[0], t[0]);
        }
    }
}

/// Errors that are the same up to instruction models give the same diagnostic.
pub proof fn lemma_same_error_diagnostic(d: Diagnostic, a: ValidationError, b: ValidationError)
    requires
        diagnostic_of(d, a),
        same_error(a, b),
    ensures
        diagnostic_of(d, b),
{
    match (a, b) {
        (ValidationError::StackUnderflow { instr: x }, ValidationError::StackUnderflow { instr: y }) => {
            lemma_debug_model(x, y);
        },
        (
            ValidationError::StackTypeMismatch { instr: x, .. },
            ValidationError::StackTypeMismatch { instr: y, .. },
        ) => {
            lemma_debug_model(x, y);
        },
        _ => {},
    }
}

/// A repair plan of an error is the plan of every error that denotes the same failure.
pub proof fn lemma_same_error_plan(p: FixPlan, a: ValidationError, b: ValidationError)
    requires
        plan_of(p, a),
        same_error(a, b),
    ensures
        plan_of(p, b),
{
    match (a, b) {
        (ValidationError::StackUnderflow { instr: x }, ValidationError::StackUnderflow { instr: y }) => {
            lemma_debug_model(x, y);
        },
        (
            ValidationError::StackTypeMismatch { instr: x, .. },
            ValidationError::StackTypeMismatch { instr: y, .. },
        ) => {
            lemma_debug_model(x, y);
        },
        _ => {},
    }
    assert(spec_fix_steps(a) =~= spec_fix_steps(b));
}

} // verus!
