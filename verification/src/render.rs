//! Human-readable rendering of IR values: the debug form of instructions and value types, and
//! the message of each validation error.
use vstd::prelude::*;
use crate::ast::{Instr, ValType};
use crate::text::{decimal, push_decimal, push_signed_decimal, signed_decimal};
use crate::validate::{same_error, ValidationError};
use crate::lower::LowerError;

verus! {

/// Debug form of a value type (`I32`, `I64`, `F32`, `F64`).
pub open spec fn valtype_debug(t: ValType) -> Seq<char> {
    match t {
        ValType::I32 => "I32"@,
        ValType::I64 => "I64"@,
        ValType::F32 => "F32"@,
        ValType::F64 => "F64"@,
    }
}

/// Debug form of an optional value type (`None` or `Some(I32)`).
pub open spec fn opt_valtype_debug(t: Option<ValType>) -> Seq<char> {
    match t {
        None => "None"@,
        Some(v) => "Some("@ + valtype_debug(v) + ")"@,
    }
}

/// Debug form of an instruction (`LocalGet { index: 0 }`, `Block { result: None, body: [...] }`).
pub open spec fn instr_debug(i: Instr) -> Seq<char>
    decreases i,
{
    match i {
        Instr::I32Const { value } => "I32Const { value: "@ + signed_decimal(value as int) + " }"@,
        Instr::I64Const { value } => "I64Const { value: "@ + signed_decimal(value as int) + " }"@,
        Instr::F32Const { bits } => "F32Const { bits: "@ + decimal(bits as nat) + " }"@,
        Instr::F64Const { bits } => "F64Const { bits: "@ + decimal(bits as nat) + " }"@,
        Instr::LocalGet { index } => "LocalGet { index: "@ + decimal(index as nat) + " }"@,
        Instr::LocalSet { index } => "LocalSet { index: "@ + decimal(index as nat) + " }"@,
        Instr::Block { result, body } => "Block { result: "@ + opt_valtype_debug(result) + ", body: ["@
            + instrs_debug(body@) + "] }"@,
        Instr::IfElse { result, then_body, else_body } => "IfElse { result: "@ + opt_valtype_debug(result)
            + ", then_body: ["@ + instrs_debug(then_body@) + "], else_body: ["@ + instrs_debug(else_body@)
            + "] }"@,
        _ => unit_name(i),
    }
}

/// Comma-separated debug forms of a list (without the brackets).
pub open spec fn instrs_debug(s: Seq<Instr>) -> Seq<char>
    decreases s,
{
    if s.len() == 0 {
        Seq::empty()
    } else if s.len() == 1 {
        instr_debug(s[0])
    } else {
        instrs_debug(s.drop_last()) + ", "@ + instr_debug(s.last())
    }
}

/// Name of an instruction without fields.
pub open spec fn unit_name(i: Instr) -> Seq<char> {
    match i {
        Instr::I32Add => "I32Add"@,
        Instr::I32Sub => "I32Sub"@,
        Instr::I32Mul => "I32Mul"@,
        Instr::I32Xor => "I32Xor"@,
        Instr::I32Eq => "I32Eq"@,
        Instr::I32Eqz => "I32Eqz"@,
        Instr::I32TruncF32S => "I32TruncF32S"@,
        Instr::F32ConvertI32S => "F32ConvertI32S"@,
        Instr::F32Add => "F32Add"@,
        Instr::F32Sub => "F32Sub"@,
        Instr::F32Mul => "F32Mul"@,
        Instr::F32Div => "F32Div"@,
        Instr::F32Gt => "F32Gt"@,
        Instr::F64Add => "F64Add"@,
        Instr::F64Sub => "F64Sub"@,
        Instr::F64Mul => "F64Mul"@,
        Instr::F64Div => "F64Div"@,
        Instr::Drop => "Drop"@,
        _ => "Return"@,
    }
}

/// Executable debug form of a value type.
pub fn valtype_debug_str(t: ValType) -> (r: &'static str)
    ensures
        r@ == valtype_debug(t),
{
    match t {
        ValType::I32 => "I32",
        ValType::I64 => "I64",
        ValType::F32 => "F32",
        ValType::F64 => "F64",
    }
}

fn unit_name_str(i: &Instr) -> (r: &'static str)
    ensures
        r@ == unit_name(*i),
{
    match i {
        Instr::I32Add => "I32Add",
        Instr::I32Sub => "I32Sub",
        Instr::I32Mul => "I32Mul",
        Instr::I32Xor => "I32Xor",
        Instr::I32Eq => "I32Eq",
        Instr::I32Eqz => "I32Eqz",
        Instr::I32TruncF32S => "I32TruncF32S",
        Instr::F32ConvertI32S => "F32ConvertI32S",
        Instr::F32Add => "F32Add",
        Instr::F32Sub => "F32Sub",
        Instr::F32Mul => "F32Mul",
        Instr::F32Div => "F32Div",
        Instr::F32Gt => "F32Gt",
        Instr::F64Add => "F64Add",
        Instr::F64Sub => "F64Sub",
        Instr::F64Mul => "F64Mul",
        Instr::F64Div => "F64Div",
        Instr::Drop => "Drop",
        _ => "Return",
    }
}

fn push_opt_valtype(out: &mut String, t: Option<ValType>)
    ensures
        final(out)@ == old(out)@ + opt_valtype_debug(t),
{
    match t {
        None => out.append("None"),
        Some(v) => {
            out.append("Some(");
            out.append(valtype_debug_str(v));
            out.append(")");
            assert(final(out)@ =~= old(out)@ + opt_valtype_debug(t));
        },
    }
}

/// Appends the debug form of `i` to `out`.
pub fn push_instr_debug(out: &mut String, i: &Instr)
    ensures
        final(out)@ == old(out)@ + instr_debug(*i),
    decreases *i, 0nat,
{
    let ghost start = out@;
    match i {
        Instr::I32Const { value } => {
            out.append("I32Const { value: ");
            push_signed_decimal(out, *value as i64);
            out.append(" }");
        },
        Instr::I64Const { value } => {
            out.append("I64Const { value: ");
            push_signed_decimal(out, *value);
            out.append(" }");
        },
        Instr::F32Const { bits } => {
            out.append("F32Const { bits: ");
            push_decimal(out, *bits as u64);
            out.append(" }");
        },
        Instr::F64Const { bits } => {
            out.append("F64Const { bits: ");
            push_decimal(out, *bits);
            out.append(" }");
        },
        Instr::LocalGet { index } => {
            out.append("LocalGet { index: ");
            push_decimal(out, *index as u64);
            out.append(" }");
        },
        Instr::LocalSet { index } => {
            out.append("LocalSet { index: ");
            push_decimal(out, *index as u64);
            out.append(" }");
        },
        Instr::Block { result, body } => {
            out.append("Block { result: ");
            push_opt_valtype(out, *result);
            out.append(", body: [");
            proof {
                assert(decreases_to!(*i => body@));
            }
            push_instrs_debug(out, body.as_slice());
            out.append("] }");
        },
        Instr::IfElse { result, then_body, else_body } => {
            out.append("IfElse { result: ");
            push_opt_valtype(out, *result);
            out.append(", then_body: [");
            proof {
                assert(decreases_to!(*i => then_body@));
                assert(decreases_to!(*i => else_body@));
            }
            push_instrs_debug(out, then_body.as_slice());
            out.append("], else_body: [");
            push_instrs_debug(out, else_body.as_slice());
            out.append("] }");
        },
        _ => {
            out.append(unit_name_str(i));
        },
    }
    assert(out@ =~= start + instr_debug(*i));
}

/// Appends the comma-separated debug forms of `s` to `out`.
fn push_instrs_debug(out: &mut String, s: &[Instr])
    ensures
        final(out)@ == old(out)@ + instrs_debug(s@),
    decreases s@, 1nat,
{
    let ghost start = out@;
    let mut k: usize = 0;
    proof {
        assert(s@.take(0).len() == 0);
        assert(out@ =~= start + instrs_debug(s@.take(0)));
    }
    while k < s.len()
        invariant
            k <= s@.len(),
            out@ == start + instrs_debug(s@.take(k as int)),
        decreases s.len() - k,
    {
        if k > 0 {
            out.append(", ");
        }
        proof {
            assert(decreases_to!(s@ => s@[k as int]));
        }
        push_instr_debug(out, &s[k]);
        proof {
            let t = s@.take(k + 1);
            assert(t.drop_last() =~= s@.take(k as int));
            assert(t.last() == s@[k as int]);
            if k == 0 {
                assert(t.len() == 1);
                assert(t[0] == s@[0]);
            }
            assert(out@ =~= start + instrs_debug(t));
        }
        k = k + 1;
    }
    proof {
        assert(s@.take(s@.len() as int) =~= s@);
    }
}

/// Display text of a validation error.
pub open spec fn spec_message(e: ValidationError) -> Seq<char> {
    match e {
        ValidationError::UnsupportedVersion(got, want) => "unsupported program_ir_version: "@ + decimal(got as nat)
            + " (expected "@ + decimal(want as nat) + ")"@,
        ValidationError::EmptyExportName => "export_name must be non-empty"@,
        ValidationError::ExportNameTooLong { len, max } => "export_name length "@ + decimal(len as nat)
            + " exceeds maximum "@ + decimal(max as nat),
        ValidationError::TooManyParams { count, max } => "parameter count "@ + decimal(count as nat)
            + " exceeds maximum "@ + decimal(max as nat),
        ValidationError::TooManyDeclaredLocals { count, max } => "declared local count "@ + decimal(
            count as nat,
        ) + " exceeds maximum "@ + decimal(max as nat),
        ValidationError::BodyTooLarge { count, max } => "function body instruction count "@ + decimal(
            count as nat,
        ) + " exceeds maximum "@ + decimal(max as nat),
        ValidationError::BadResultArity => "v2 requires exactly one exported result type"@,
        ValidationError::LocalOob { index, total } => "local index "@ + decimal(index as nat)
            + " out of range (locals "@ + decimal(total as nat) + ")"@,
        ValidationError::StackUnderflow { instr } => "stack underflow before "@ + instr_debug(instr),
        ValidationError::BadReturnStack { depth, expected } => "stack has "@ + decimal(depth as nat)
            + " values before return, expected "@ + decimal(expected as nat),
        ValidationError::StackTypeMismatch { expected, actual, instr } => "stack type mismatch before "@
            + instr_debug(instr) + ": expected "@ + valtype_debug(expected) + ", found "@ + valtype_debug(
            actual,
        ),
        ValidationError::ReturnInsideNestedControl => "`return` is only allowed as the final function instruction"@,
        ValidationError::ControlNestingTooDeep { max } => "control nesting exceeds maximum depth ("@ + decimal(
            max as nat,
        ) + ")"@,
        ValidationError::BranchStackMismatch => "`if_else` branches leave mismatched stacks"@,
        ValidationError::InvalidBlockStack { enter_len, leave_len, expected_delta } =>
            "`block` stack mismatch: entered at height "@ + decimal(enter_len as nat) + ", left at "@
                + decimal(leave_len as nat) + ", expected delta "@ + decimal(expected_delta as nat),
        ValidationError::MissingReturn => "function body must end with return"@,
    }
}

impl ValidationError {
    /// The error's display text.
    pub fn message(&self) -> (r: String)
        ensures
            r@ == spec_message(*self),
    {
        let mut out = String::new();
        match self {
            ValidationError::UnsupportedVersion(got, want) => {
                out.append("unsupported program_ir_version: ");
                push_decimal(&mut out, *got as u64);
                out.append(" (expected ");
                push_decimal(&mut out, *want as u64);
                out.append(")");
            },
            ValidationError::EmptyExportName => out.append("export_name must be non-empty"),
            ValidationError::ExportNameTooLong { len, max } => {
                out.append("export_name length ");
                push_decimal(&mut out, *len as u64);
                out.append(" exceeds maximum ");
                push_decimal(&mut out, *max as u64);
            },
            ValidationError::TooManyParams { count, max } => {
                out.append("parameter count ");
                push_decimal(&mut out, *count as u64);
                out.append(" exceeds maximum ");
                push_decimal(&mut out, *max as u64);
            },
            ValidationError::TooManyDeclaredLocals { count, max } => {
                out.append("declared local count ");
                push_decimal(&mut out, *count as u64);
                out.append(" exceeds maximum ");
                push_decimal(&mut out, *max as u64);
            },
            ValidationError::BodyTooLarge { count, max } => {
                out.append("function body instruction count ");
                push_decimal(&mut out, *count as u64);
                out.append(" exceeds maximum ");
                push_decimal(&mut out, *max as u64);
            },
            ValidationError::BadResultArity => out.append("v2 requires exactly one exported result type"),
            ValidationError::LocalOob { index, total } => {
                out.append("local index ");
                push_decimal(&mut out, *index as u64);
                out.append(" out of range (locals ");
                push_decimal(&mut out, *total as u64);
                out.append(")");
            },
            ValidationError::StackUnderflow { instr } => {
                out.append("stack underflow before ");
                push_instr_debug(&mut out, instr);
            },
            ValidationError::BadReturnStack { depth, expected } => {
                out.append("stack has ");
                push_decimal(&mut out, *depth as u64);
                out.append(" values before return, expected ");
                push_decimal(&mut out, *expected as u64);
            },
            ValidationError::StackTypeMismatch { expected, actual, instr } => {
                out.append("stack type mismatch before ");
                push_instr_debug(&mut out, instr);
                out.append(": expected ");
                out.append(valtype_debug_str(*expected));
                out.append(", found ");
                out.append(valtype_debug_str(*actual));
            },
            ValidationError::ReturnInsideNestedControl => out.append(
                "`return` is only allowed as the final function instruction",
            ),
            ValidationError::ControlNestingTooDeep { max } => {
                out.append("control nesting exceeds maximum depth (");
                push_decimal(&mut out, *max as u64);
                out.append(")");
            },
            ValidationError::BranchStackMismatch => out.append("`if_else` branches leave mismatched stacks"),
            ValidationError::InvalidBlockStack { enter_len, leave_len, expected_delta } => {
                out.append("`block` stack mismatch: entered at height ");
                push_decimal(&mut out, *enter_len as u64);
                out.append(", left at ");
                push_decimal(&mut out, *leave_len as u64);
                out.append(", expected delta ");
                push_decimal(&mut out, *expected_delta as u64);
            },
            ValidationError::MissingReturn => out.append("function body must end with return"),
        }
        assert(out@ =~= spec_message(*self));
        out
    }
}

/// The message of a lowering error.
pub open spec fn lower_message(e: LowerError) -> Seq<char> {
    match e {
        LowerError::Validation(v) => spec_message(v),
        LowerError::MissingReturn => "lower internal error: function body must end with return"@,
    }
}

impl LowerError {
    /// The message of this error.
    pub fn message(&self) -> (r: String)
        ensures
            r@ == lower_message(*self),
    {
        match self {
            LowerError::Validation(v) => v.message(),
            LowerError::MissingReturn => {
                let mut out = String::new();
                out.append("lower internal error: function body must end with return");
                out
            },
        }
    }
}

/// Two errors that denote the same failure have the same message.
pub proof fn lemma_same_error_message(a: ValidationError, b: ValidationError)
    requires
        same_error(a, b),
    ensures
        spec_message(a) == spec_message(b),
{
    match (a, b) {
        (ValidationError::StackUnderflow { instr: x }, ValidationError::StackUnderflow { instr: y }) => {
            crate::diagnostics::lemma_debug_model(x, y);
        },
        (
            ValidationError::StackTypeMismatch { instr: x, .. },
            ValidationError::StackTypeMismatch { instr: y, .. },
        ) => {
            crate::diagnostics::lemma_debug_model(x, y);
        },
        _ => {},
    }
}

} // verus!
