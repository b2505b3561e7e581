//! Validation of Program IR v2: resource limits, signature shape, and Wasm-style stack typing.
use vstd::prelude::*;
use crate::ast::{copy_instr, copy_types, model, FuncSig, Instr, Module, ValType, PROGRAM_IR_VERSION};
use crate::limits::{
    MAX_BODY_INSTRS, MAX_CONTROL_DEPTH, MAX_DECLARED_LOCALS, MAX_EXPORT_NAME_LEN, MAX_PARAMS,
};
use crate::metrics::{instr_tree_node_count, nest_depth, saturate, tree_count};
use crate::text::{all_white_space, is_blank};
use vstd::utf8::encode_utf8;

verus! {

/// Why a module is rejected.
#[derive(Debug, PartialEq, Eq)]
pub enum ValidationError {
    UnsupportedVersion(u32, u32),
    EmptyExportName,
    ExportNameTooLong { len: usize, max: usize },
    TooManyParams { count: usize, max: usize },
    TooManyDeclaredLocals { count: usize, max: usize },
    BodyTooLarge { count: usize, max: usize },
    BadResultArity,
    LocalOob { index: u32, total: u32 },
    StackUnderflow { instr: Instr },
    BadReturnStack { depth: usize, expected: usize },
    StackTypeMismatch { expected: ValType, actual: ValType, instr: Instr },
    ReturnInsideNestedControl,
    ControlNestingTooDeep { max: usize },
    BranchStackMismatch,
    InvalidBlockStack { enter_len: usize, leave_len: usize, expected_delta: usize },
    MissingReturn,
}

/// `a` and `b` are the same error, with instructions compared by their structural model.
pub open spec fn same_error(a: ValidationError, b: ValidationError) -> bool {
    match (a, b) {
        (ValidationError::StackUnderflow { instr: x }, ValidationError::StackUnderflow { instr: y }) => model(x) == model(y),
        (
            ValidationError::StackTypeMismatch { expected: e1, actual: a1, instr: x },
            ValidationError::StackTypeMismatch { expected: e2, actual: a2, instr: y },
        ) => e1 == e2 && a1 == a2 && model(x) == model(y),
        _ => a == b,
    }
}

/// `r` is the executable counterpart of the specified outcome `s`.
pub open spec fn matches_outcome<T>(r: Result<T, ValidationError>, s: Result<T, ValidationError>) -> bool {
    match s {
        Ok(v) => r == Ok::<T, ValidationError>(v),
        Err(e) => r matches Err(e2) && same_error(e2, e),
    }
}

/// Type of local slot `index` (parameters first, then declared locals).
pub open spec fn spec_local_type(params: Seq<ValType>, decl: Seq<ValType>, index: u32) -> Result<ValType, ValidationError> {
    if (index as int) < params.len() {
        Ok(params[index as int])
    } else if (index as int) - params.len() < decl.len() {
        Ok(decl[(index as int) - params.len()])
    } else {
        Err(ValidationError::LocalOob { index, total: (params.len() + decl.len()) as u32 })
    }
}

/// Pop one value that must have type `want`; errors name `instr`.
pub open spec fn spec_pop(stack: Seq<ValType>, want: ValType, instr: Instr) -> Result<Seq<ValType>, ValidationError> {
    if stack.len() == 0 {
        Err(ValidationError::StackUnderflow { instr })
    } else if stack.last() != want {
        Err(ValidationError::StackTypeMismatch { expected: want, actual: stack.last(), instr })
    } else {
        Ok(stack.drop_last())
    }
}

pub open spec fn pop_then(r: Result<Seq<ValType>, ValidationError>, want: ValType, instr: Instr) -> Result<Seq<ValType>, ValidationError> {
    match r {
        Ok(s) => spec_pop(s, want, instr),
        Err(e) => Err(e),
    }
}

pub open spec fn push_then(r: Result<Seq<ValType>, ValidationError>, t: ValType) -> Result<Seq<ValType>, ValidationError> {
    match r {
        Ok(s) => Ok(s.push(t)),
        Err(e) => Err(e),
    }
}

/// Number of values a structured result type leaves on the stack.
pub open spec fn result_arity(result: Option<ValType>) -> nat {
    if result is Some { 1 } else { 0 }
}

/// Stack after a whole instruction list, or the first error, at nesting `depth`.
pub open spec fn spec_list(
    instrs: Seq<Instr>,
    stack: Seq<ValType>,
    params: Seq<ValType>,
    decl: Seq<ValType>,
    total: u32,
    depth: nat,
) -> Result<Seq<ValType>, ValidationError> {
    if depth > MAX_CONTROL_DEPTH {
        Err(ValidationError::ControlNestingTooDeep { max: MAX_CONTROL_DEPTH })
    } else {
        spec_seq(instrs, stack, params, decl, total, depth)
    }
}

/// Stack after running the instructions of `instrs` left to right.
pub open spec fn spec_seq(
    instrs: Seq<Instr>,
    stack: Seq<ValType>,
    params: Seq<ValType>,
    decl: Seq<ValType>,
    total: u32,
    depth: nat,
) -> Result<Seq<ValType>, ValidationError>
    decreases instrs,
{
    if instrs.len() == 0 {
        Ok(stack)
    } else {
        match spec_instr(instrs[0], stack, params, decl, total, depth) {
            Ok(s) => spec_seq(instrs.drop_first(), s, params, decl, total, depth),
            Err(e) => Err(e),
        }
    }
}

/// Stack after one instruction, or its error.
pub open spec fn spec_instr(
    instr: Instr,
    stack: Seq<ValType>,
    params: Seq<ValType>,
    decl: Seq<ValType>,
    total: u32,
    depth: nat,
) -> Result<Seq<ValType>, ValidationError>
    decreases instr,
{
    match instr {
        Instr::Return => Err(ValidationError::ReturnInsideNestedControl),
        Instr::Block { result, body } => {
            if depth >= MAX_CONTROL_DEPTH {
                Err(ValidationError::ControlNestingTooDeep { max: MAX_CONTROL_DEPTH })
            } else {
                block_outcome(instr, result, stack, spec_seq(body@, stack, params, decl, total, depth + 1))
            }
        },
        Instr::IfElse { result, then_body, else_body } => {
            if depth >= MAX_CONTROL_DEPTH {
                Err(ValidationError::ControlNestingTooDeep { max: MAX_CONTROL_DEPTH })
            } else {
                match spec_pop(stack, ValType::I32, instr) {
                    Err(e) => Err(e),
                    Ok(s0) => if_else_outcome(
                        instr,
                        result,
                        s0,
                        spec_seq(then_body@, s0, params, decl, total, depth + 1),
                        spec_seq(else_body@, s0, params, decl, total, depth + 1),
                    ),
                }
            }
        },
        Instr::LocalGet { index } => spec_local_get(index, stack, params, decl, total),
        Instr::LocalSet { index } => spec_local_set(instr, index, stack, params, decl, total),
        _ => spec_simple(instr, stack),
    }
}

/// A `block` entered with `stack` whose body ended in `body_result`.
pub open spec fn block_outcome(
    instr: Instr,
    result: Option<ValType>,
    stack: Seq<ValType>,
    body_result: Result<Seq<ValType>, ValidationError>,
) -> Result<Seq<ValType>, ValidationError> {
    match body_result {
        Err(e) => Err(e),
        Ok(s) => {
            let delta = result_arity(result);
            if s.len() != stack.len() + delta {
                Err(ValidationError::InvalidBlockStack {
                    enter_len: stack.len() as usize,
                    leave_len: s.len() as usize,
                    expected_delta: delta as usize,
                })
            } else {
                match result {
                    None => Ok(s),
                    Some(t) => if s.len() == 0 {
                        Err(ValidationError::StackUnderflow { instr })
                    } else if s.last() == t {
                        Ok(s)
                    } else {
                        Err(ValidationError::StackTypeMismatch { expected: t, actual: s.last(), instr })
                    },
                }
            }
        },
    }
}

/// An `if_else` whose condition was popped leaving `s0`, with the outcomes of both branches.
pub open spec fn if_else_outcome(
    instr: Instr,
    result: Option<ValType>,
    s0: Seq<ValType>,
    then_result: Result<Seq<ValType>, ValidationError>,
    else_result: Result<Seq<ValType>, ValidationError>,
) -> Result<Seq<ValType>, ValidationError> {
    match then_result {
        Err(e) => Err(e),
        Ok(ts) => match else_result {
            Err(e) => Err(e),
            Ok(es) => if ts != es {
                Err(ValidationError::BranchStackMismatch)
            } else if ts.len() != s0.len() + result_arity(result) {
                Err(ValidationError::BranchStackMismatch)
            } else {
                match result {
                    None => Ok(ts),
                    Some(t) => if ts.len() == 0 {
                        Err(ValidationError::BranchStackMismatch)
                    } else if ts.last() == t {
                        Ok(ts)
                    } else {
                        Err(ValidationError::StackTypeMismatch { expected: t, actual: ts.last(), instr })
                    },
                }
            },
        },
    }
}

/// `local_get index`.
pub open spec fn spec_local_get(
    index: u32,
    stack: Seq<ValType>,
    params: Seq<ValType>,
    decl: Seq<ValType>,
    total: u32,
) -> Result<Seq<ValType>, ValidationError> {
    if index >= total {
        Err(ValidationError::LocalOob { index, total })
    } else {
        match spec_local_type(params, decl, index) {
            Ok(t) => Ok(stack.push(t)),
            Err(e) => Err(e),
        }
    }
}

/// `local_set index`.
pub open spec fn spec_local_set(
    instr: Instr,
    index: u32,
    stack: Seq<ValType>,
    params: Seq<ValType>,
    decl: Seq<ValType>,
    total: u32,
) -> Result<Seq<ValType>, ValidationError> {
    if index >= total {
        Err(ValidationError::LocalOob { index, total })
    } else {
        match spec_local_type(params, decl, index) {
            Ok(t) => spec_pop(stack, t, instr),
            Err(e) => Err(e),
        }
    }
}

/// Instructions with a fixed stack effect (constants, arithmetic, conversions, `drop`).
pub open spec fn spec_simple(instr: Instr, stack: Seq<ValType>) -> Result<Seq<ValType>, ValidationError> {
    match instr {
        Instr::I32Const { .. } => Ok(stack.push(ValType::I32)),
        Instr::I64Const { .. } => Ok(stack.push(ValType::I64)),
        Instr::F32Const { .. } => Ok(stack.push(ValType::F32)),
        Instr::F64Const { .. } => Ok(stack.push(ValType::F64)),
        Instr::I32Add | Instr::I32Sub | Instr::I32Mul | Instr::I32Xor | Instr::I32Eq => push_then(
            pop_then(spec_pop(stack, ValType::I32, instr), ValType::I32, instr),
            ValType::I32,
        ),
        Instr::I32Eqz => push_then(spec_pop(stack, ValType::I32, instr), ValType::I32),
        Instr::I32TruncF32S => push_then(spec_pop(stack, ValType::F32, instr), ValType::I32),
        Instr::F32ConvertI32S => push_then(spec_pop(stack, ValType::I32, instr), ValType::F32),
        Instr::F32Add | Instr::F32Sub | Instr::F32Mul | Instr::F32Div => push_then(
            pop_then(spec_pop(stack, ValType::F32, instr), ValType::F32, instr),
            ValType::F32,
        ),
        Instr::F32Gt => push_then(
            pop_then(spec_pop(stack, ValType::F32, instr), ValType::F32, instr),
            ValType::I32,
        ),
        Instr::F64Add | Instr::F64Sub | Instr::F64Mul | Instr::F64Div => push_then(
            pop_then(spec_pop(stack, ValType::F64, instr), ValType::F64, instr),
            ValType::F64,
        ),
        Instr::Drop => if stack.len() == 0 {
            Err(ValidationError::StackUnderflow { instr })
        } else {
            Ok(stack.drop_last())
        },
        _ => Ok(stack),
    }
}

/// Outcome of validating a function signature, declared locals and body.
pub open spec fn spec_validate_func(
    params: Seq<ValType>,
    results: Seq<ValType>,
    decl: Seq<ValType>,
    body: Seq<Instr>,
) -> Result<(), ValidationError> {
    if params.len() > MAX_PARAMS {
        Err(ValidationError::TooManyParams { count: params.len() as usize, max: MAX_PARAMS })
    } else if decl.len() > MAX_DECLARED_LOCALS {
        Err(ValidationError::TooManyDeclaredLocals { count: decl.len() as usize, max: MAX_DECLARED_LOCALS })
    } else if results.len() != 1 {
        Err(ValidationError::BadResultArity)
    } else if body.len() == 0 || !(body.last() is Return) {
        Err(ValidationError::MissingReturn)
    } else {
        let total = (params.len() + decl.len()) as u32;
        match spec_list(body.drop_last(), Seq::empty(), params, decl, total, 0) {
            Err(e) => Err(e),
            Ok(s) => if s.len() != 1 {
                Err(ValidationError::BadReturnStack { depth: s.len() as usize, expected: 1 })
            } else {
                match spec_pop(s, results[0], body.last()) {
                    Err(e) => Err(e),
                    Ok(s2) => if s2.len() != 0 {
                        Err(ValidationError::BadReturnStack { depth: s2.len() as usize, expected: 0 })
                    } else {
                        Ok(())
                    },
                }
            },
        }
    }
}

/// Outcome of validating a whole module.
pub open spec fn spec_validate_module(m: Module) -> Result<(), ValidationError> {
    let name_bytes = encode_utf8(m.export_name@).len() as usize;
    if m.program_ir_version != PROGRAM_IR_VERSION {
        Err(ValidationError::UnsupportedVersion(m.program_ir_version, PROGRAM_IR_VERSION))
    } else if all_white_space(m.export_name@) {
        Err(ValidationError::EmptyExportName)
    } else if name_bytes > MAX_EXPORT_NAME_LEN {
        Err(ValidationError::ExportNameTooLong { len: name_bytes, max: MAX_EXPORT_NAME_LEN })
    } else if tree_count(m.func.body@) > MAX_BODY_INSTRS {
        Err(ValidationError::BodyTooLarge { count: saturate(tree_count(m.func.body@)), max: MAX_BODY_INSTRS })
    } else {
        spec_validate_func(m.func.sig.params@, m.func.sig.results@, m.func.locals@, m.func.body@)
    }
}

/// `m` passes validation.
pub open spec fn valid_module(m: Module) -> bool {
    spec_validate_module(m) is Ok
}

fn stack_pop(stack: &mut Vec<ValType>, want: ValType, instr: &Instr) -> (r: Result<(), ValidationError>)
    ensures
        match spec_pop(old(stack)@, want, *instr) {
            Ok(s) => r is Ok && final(stack)@ == s,
            Err(e) => r matches Err(e2) && same_error(e2, e),
        },
{
    let got = match stack.pop() {
        Some(g) => g,
        None => {
            return Err(ValidationError::StackUnderflow { instr: copy_instr(instr) });
        },
    };
    if got != want {
        return Err(ValidationError::StackTypeMismatch { expected: want, actual: got, instr: copy_instr(instr) });
    }
    Ok(())
}

/// Validates a module: version, export name, body size, then the function itself.
pub fn validate_module(module: &Module) -> (r: Result<(), ValidationError>)
    ensures
        matches_outcome(r, spec_validate_module(*module)),
{
    if module.program_ir_version != PROGRAM_IR_VERSION {
        return Err(ValidationError::UnsupportedVersion(module.program_ir_version, PROGRAM_IR_VERSION));
    }
    let name = module.export_name.as_str();
    assert(name@ == module.export_name@);
    if is_blank(name) {
        return Err(ValidationError::EmptyExportName);
    }
    let name_len = name.len();
    if name_len > MAX_EXPORT_NAME_LEN {
        return Err(ValidationError::ExportNameTooLong { len: name_len, max: MAX_EXPORT_NAME_LEN });
    }
    let body_slice = module.func.body.as_slice();
    let n = instr_tree_node_count(body_slice);
    if n > MAX_BODY_INSTRS {
        return Err(ValidationError::BodyTooLarge { count: n, max: MAX_BODY_INSTRS });
    }
    validate_func(&module.func.sig, module.func.locals.as_slice(), &module.func.body)
}

/// Validates one function: limits, single result, trailing `return`, and stack typing.
pub fn validate_func(sig: &FuncSig, locals_decl: &[ValType], body: &Vec<Instr>) -> (r: Result<(), ValidationError>)
    ensures
        matches_outcome(r, spec_validate_func(sig.params@, sig.results@, locals_decl@, body@)),
{
    if sig.params.len() > MAX_PARAMS {
        return Err(ValidationError::TooManyParams { count: sig.params.len(), max: MAX_PARAMS });
    }
    if locals_decl.len() > MAX_DECLARED_LOCALS {
        return Err(ValidationError::TooManyDeclaredLocals { count: locals_decl.len(), max: MAX_DECLARED_LOCALS });
    }
    if sig.results.len() != 1 {
        return Err(ValidationError::BadResultArity);
    }
    let total_locals = sig.params.len() as u32 + locals_decl.len() as u32;
    if body.len() == 0 {
        return Err(ValidationError::MissingReturn);
    }
    let last_instr = &body[body.len() - 1];
    if !matches!(last_instr, Instr::Return) {
        return Err(ValidationError::MissingReturn);
    }
    let mut stack: Vec<ValType> = Vec::new();
    let main = body.as_slice().split_at(body.len() - 1).0;
    assert(main@ =~= body@.drop_last());
    match validate_instr_list(main, &mut stack, sig, locals_decl, total_locals, 0) {
        Ok(()) => {},
        Err(e) => {
            return Err(e);
        },
    }
    let ret_ty = sig.results[0];
    if stack.len() != 1 {
        return Err(ValidationError::BadReturnStack { depth: stack.len(), expected: 1 });
    }
    match stack_pop(&mut stack, ret_ty, last_instr) {
        Ok(()) => {},
        Err(e) => {
            return Err(e);
        },
    }
    if stack.len() != 0 {
        return Err(ValidationError::BadReturnStack { depth: stack.len(), expected: 0 });
    }
    Ok(())
}

/// Copy of the stack contents.
fn copy_stack(v: &Vec<ValType>) -> (r: Vec<ValType>)
    ensures
        r@ == v@,
{
    copy_types(v.as_slice())
}

/// The two stacks hold the same types in the same order.
fn same_stack(a: &Vec<ValType>, b: &Vec<ValType>) -> (r: bool)
    ensures
        r == (a@ == b@),
{
    if a.len() != b.len() {
        return false;
    }
    let mut i: usize = 0;
    while i < a.len()
        invariant
            i <= a.len(),
            a.len() == b.len(),
            forall|j: int| 0 <= j < i ==> a@[j] == b@[j],
        decreases a.len() - i,
    {
        if a[i] != b[i] {
            return false;
        }
        i = i + 1;
    }
    assert(a@ =~= b@);
    true
}

fn validate_instr_list(
    instrs: &[Instr],
    stack: &mut Vec<ValType>,
    sig: &FuncSig,
    locals_decl: &[ValType],
    total_locals: u32,
    depth: usize,
) -> (r: Result<(), ValidationError>)
    requires
        locals_ctx_ok(*sig, locals_decl@, total_locals),
    ensures
        match spec_list(instrs@, old(stack)@, sig.params@, locals_decl@, total_locals, depth as nat) {
            Ok(s) => r is Ok && final(stack)@ == s,
            Err(e) => r matches Err(e2) && same_error(e2, e),
        },
        r is Ok ==> depth + nest_depth(instrs@) <= MAX_CONTROL_DEPTH,
    decreases instrs@, 2nat,
{
    if depth > MAX_CONTROL_DEPTH {
        return Err(ValidationError::ControlNestingTooDeep { max: MAX_CONTROL_DEPTH });
    }
    let ghost params = sig.params@;
    let ghost decl = locals_decl@;
    let ghost d = depth as nat;
    let ghost full = spec_seq(instrs@, stack@, params, decl, total_locals, d);
    let mut i: usize = 0;
    assert(instrs@.skip(0) =~= instrs@);
    while i < instrs.len()
        invariant
            i <= instrs@.len(),
            depth <= MAX_CONTROL_DEPTH,
            d == depth as nat,
            params == sig.params@,
            decl == locals_decl@,
            locals_ctx_ok(*sig, decl, total_locals),
            spec_seq(instrs@.skip(i as int), stack@, params, decl, total_locals, d) == full,
            full == spec_list(instrs@, old(stack)@, params, decl, total_locals, d),
        decreases instrs.len() - i,
    {
        let instr = &instrs[i];
        let ghost before = stack@;
        let ghost step = spec_instr(*instr, before, params, decl, total_locals, d);
        proof {
            let rest = instrs@.skip(i as int);
            assert(rest[0] == *instr);
            assert(rest.drop_first() =~= instrs@.skip(i + 1));
            assert(full == match step {
                Ok(s) => spec_seq(instrs@.skip(i + 1), s, params, decl, total_locals, d),
                Err(e) => Err(e),
            });
            assert(decreases_to!(instrs@ => instrs@[i as int]));
        }
        match validate_instr(instr, stack, sig, locals_decl, total_locals, depth) {
            Ok(()) => {},
            Err(e) => {
                return Err(e);
            },
        }
        assert(step == Ok::<Seq<ValType>, ValidationError>(stack@));
        i = i + 1;
    }
    proof {
        assert(instrs@.skip(i as int).len() == 0);
        crate::laws::law_walk_depth_bound(instrs@, old(stack)@, params, decl, total_locals, d);
    }
    Ok(())
}


/// Common preconditions on the local-slot context.
pub open spec fn locals_ctx_ok(sig: FuncSig, locals_decl: Seq<ValType>, total_locals: u32) -> bool {
    total_locals == sig.params@.len() + locals_decl.len()
}

/// Type-checks one instruction against the stack.
fn validate_instr(
    instr: &Instr,
    stack: &mut Vec<ValType>,
    sig: &FuncSig,
    locals_decl: &[ValType],
    total_locals: u32,
    depth: usize,
) -> (r: Result<(), ValidationError>)
    requires
        locals_ctx_ok(*sig, locals_decl@, total_locals),
        depth <= MAX_CONTROL_DEPTH,
    ensures
        match spec_instr(*instr, old(stack)@, sig.params@, locals_decl@, total_locals, depth as nat) {
            Ok(s) => r is Ok && final(stack)@ == s,
            Err(e) => r matches Err(e2) && same_error(e2, e),
        },
    decreases *instr, 1nat,
{
    match instr {
        Instr::Return => Err(ValidationError::ReturnInsideNestedControl),
        Instr::Block { .. } => validate_block(instr, stack, sig, locals_decl, total_locals, depth),
        Instr::IfElse { .. } => validate_if_else(instr, stack, sig, locals_decl, total_locals, depth),
        Instr::LocalGet { index } => {
            if *index >= total_locals {
                return Err(ValidationError::LocalOob { index: *index, total: total_locals });
            }
            let ty = match local_type(sig, locals_decl, *index) {
                Ok(t) => t,
                Err(e) => {
                    return Err(e);
                },
            };
            stack.push(ty);
            Ok(())
        },
        Instr::LocalSet { index } => {
            if *index >= total_locals {
                return Err(ValidationError::LocalOob { index: *index, total: total_locals });
            }
            let ty = match local_type(sig, locals_decl, *index) {
                Ok(t) => t,
                Err(e) => {
                    return Err(e);
                },
            };
            stack_pop(stack, ty, instr)
        },
        _ => validate_simple(instr, stack),
    }
}

/// Pops two operands of type `operand` and pushes `out`.
fn binary_op(stack: &mut Vec<ValType>, operand: ValType, out: ValType, instr: &Instr) -> (r: Result<(), ValidationError>)
    ensures
        match push_then(pop_then(spec_pop(old(stack)@, operand, *instr), operand, *instr), out) {
            Ok(s) => r is Ok && final(stack)@ == s,
            Err(e) => r matches Err(e2) && same_error(e2, e),
        },
{
    match stack_pop(stack, operand, instr) {
        Ok(()) => {},
        Err(e) => {
            return Err(e);
        },
    }
    match stack_pop(stack, operand, instr) {
        Ok(()) => {},
        Err(e) => {
            return Err(e);
        },
    }
    stack.push(out);
    Ok(())
}

/// Pops one operand of type `operand` and pushes `out`.
fn unary_op(stack: &mut Vec<ValType>, operand: ValType, out: ValType, instr: &Instr) -> (r: Result<(), ValidationError>)
    ensures
        match push_then(spec_pop(old(stack)@, operand, *instr), out) {
            Ok(s) => r is Ok && final(stack)@ == s,
            Err(e) => r matches Err(e2) && same_error(e2, e),
        },
{
    match stack_pop(stack, operand, instr) {
        Ok(()) => {},
        Err(e) => {
            return Err(e);
        },
    }
    stack.push(out);
    Ok(())
}

/// Instructions with a fixed stack effect.
fn validate_simple(instr: &Instr, stack: &mut Vec<ValType>) -> (r: Result<(), ValidationError>)
    requires
        !(*instr is Block),
        !(*instr is IfElse),
        !(*instr is LocalGet),
        !(*instr is LocalSet),
        !(*instr is Return),
    ensures
        match spec_simple(*instr, old(stack)@) {
            Ok(s) => r is Ok && final(stack)@ == s,
            Err(e) => r matches Err(e2) && same_error(e2, e),
        },
{
    match instr {
        Instr::I32Const { .. } => {
            stack.push(ValType::I32);
            Ok(())
        },
        Instr::I64Const { .. } => {
            stack.push(ValType::I64);
            Ok(())
        },
        Instr::F32Const { .. } => {
            stack.push(ValType::F32);
            Ok(())
        },
        Instr::F64Const { .. } => {
            stack.push(ValType::F64);
            Ok(())
        },
        Instr::I32Add | Instr::I32Sub | Instr::I32Mul | Instr::I32Xor | Instr::I32Eq => binary_op(
            stack,
            ValType::I32,
            ValType::I32,
            instr,
        ),
        Instr::I32Eqz => unary_op(stack, ValType::I32, ValType::I32, instr),
        Instr::I32TruncF32S => unary_op(stack, ValType::F32, ValType::I32, instr),
        Instr::F32ConvertI32S => unary_op(stack, ValType::I32, ValType::F32, instr),
        Instr::F32Add | Instr::F32Sub | Instr::F32Mul | Instr::F32Div => binary_op(
            stack,
            ValType::F32,
            ValType::F32,
            instr,
        ),
        Instr::F32Gt => binary_op(stack, ValType::F32, ValType::I32, instr),
        Instr::F64Add | Instr::F64Sub | Instr::F64Mul | Instr::F64Div => binary_op(
            stack,
            ValType::F64,
            ValType::F64,
            instr,
        ),
        Instr::Drop => {
            match stack.pop() {
                Some(_) => Ok(()),
                None => Err(ValidationError::StackUnderflow { instr: copy_instr(instr) }),
            }
        },
        _ => Ok(()),
    }
}

/// `block`: the body runs on the same stack and must leave exactly the declared result.
fn validate_block(
    instr: &Instr,
    stack: &mut Vec<ValType>,
    sig: &FuncSig,
    locals_decl: &[ValType],
    total_locals: u32,
    depth: usize,
) -> (r: Result<(), ValidationError>)
    requires
        *instr is Block,
        locals_ctx_ok(*sig, locals_decl@, total_locals),
        depth <= MAX_CONTROL_DEPTH,
    ensures
        match spec_instr(*instr, old(stack)@, sig.params@, locals_decl@, total_locals, depth as nat) {
            Ok(s) => r is Ok && final(stack)@ == s,
            Err(e) => r matches Err(e2) && same_error(e2, e),
        },
    decreases *instr, 0nat,
{
    let (result, body) = match instr {
        Instr::Block { result, body } => (result, body),
        _ => {
            return Ok(());
        },
    };
    if depth >= MAX_CONTROL_DEPTH {
        return Err(ValidationError::ControlNestingTooDeep { max: MAX_CONTROL_DEPTH });
    }
    let enter_len = stack.len();
    let ghost entry = stack@;
    proof {
        assert(decreases_to!(*instr => *body));
        assert(decreases_to!(*instr => body@));
    }
    match validate_instr_list(body.as_slice(), stack, sig, locals_decl, total_locals, depth + 1) {
        Ok(()) => {},
        Err(e) => {
            return Err(e);
        },
    }
    let leave_len = stack.len();
    let expected_delta: usize = if result.is_some() { 1 } else { 0 };
    if leave_len < enter_len || leave_len - enter_len != expected_delta {
        return Err(ValidationError::InvalidBlockStack { enter_len, leave_len, expected_delta });
    }
    if let Some(t) = result {
        match stack.last() {
            Some(top) => {
                if *top != *t {
                    return Err(ValidationError::StackTypeMismatch {
                        expected: *t,
                        actual: *top,
                        instr: copy_instr(instr),
                    });
                }
            },
            None => {
                return Err(ValidationError::StackUnderflow { instr: copy_instr(instr) });
            },
        }
    }
    Ok(())
}

/// `if_else`: pops the `i32` condition; both branches run on copies and must agree.
fn validate_if_else(
    instr: &Instr,
    stack: &mut Vec<ValType>,
    sig: &FuncSig,
    locals_decl: &[ValType],
    total_locals: u32,
    depth: usize,
) -> (r: Result<(), ValidationError>)
    requires
        *instr is IfElse,
        locals_ctx_ok(*sig, locals_decl@, total_locals),
        depth <= MAX_CONTROL_DEPTH,
    ensures
        match spec_instr(*instr, old(stack)@, sig.params@, locals_decl@, total_locals, depth as nat) {
            Ok(s) => r is Ok && final(stack)@ == s,
            Err(e) => r matches Err(e2) && same_error(e2, e),
        },
    decreases *instr, 0nat,
{
    let (result, then_body, else_body) = match instr {
        Instr::IfElse { result, then_body, else_body } => (result, then_body, else_body),
        _ => {
            return Ok(());
        },
    };
    if depth >= MAX_CONTROL_DEPTH {
        return Err(ValidationError::ControlNestingTooDeep { max: MAX_CONTROL_DEPTH });
    }
    match stack_pop(stack, ValType::I32, instr) {
        Ok(()) => {},
        Err(e) => {
            return Err(e);
        },
    }
    let base_len = stack.len();
    proof {
        assert(decreases_to!(*instr => then_body@));
        assert(decreases_to!(*instr => else_body@));
    }
    let mut then_stack = copy_stack(stack);
    match validate_instr_list(then_body.as_slice(), &mut then_stack, sig, locals_decl, total_locals, depth + 1) {
        Ok(()) => {},
        Err(e) => {
            return Err(e);
        },
    }
    let mut else_stack = copy_stack(stack);
    match validate_instr_list(else_body.as_slice(), &mut else_stack, sig, locals_decl, total_locals, depth + 1) {
        Ok(()) => {},
        Err(e) => {
            return Err(e);
        },
    }
    if !same_stack(&then_stack, &else_stack) {
        return Err(ValidationError::BranchStackMismatch);
    }
    let expected_delta: usize = if result.is_some() { 1 } else { 0 };
    if then_stack.len() < base_len || then_stack.len() - base_len != expected_delta {
        return Err(ValidationError::BranchStackMismatch);
    }
    if let Some(t) = result {
        match then_stack.last() {
            Some(top) => {
                if *top != *t {
                    return Err(ValidationError::StackTypeMismatch {
                        expected: *t,
                        actual: *top,
                        instr: copy_instr(instr),
                    });
                }
            },
            None => {
                return Err(ValidationError::BranchStackMismatch);
            },
        }
    }
    *stack = then_stack;
    Ok(())
}

fn local_type(sig: &FuncSig, locals_decl: &[ValType], index: u32) -> (r: Result<ValType, ValidationError>)
    requires
        sig.params@.len() + locals_decl@.len() <= u32::MAX,
    ensures
        r == spec_local_type(sig.params@, locals_decl@, index),
{
    let pi = index as usize;
    if pi < sig.params.len() {
        return Ok(sig.params[pi]);
    }
    let li = pi - sig.params.len();
    if li < locals_decl.len() {
        Ok(locals_decl[li])
    } else {
        Err(ValidationError::LocalOob { index, total: sig.params.len() as u32 + locals_decl.len() as u32 })
    }
}

} // verus!
