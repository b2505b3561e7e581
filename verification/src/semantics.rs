//! What the validator, the lowering, the diagnostic codes, the capability policy and the
//! nesting metric mean, stated against the WebAssembly typing of each instruction, the Wasm
//! instruction names, the diagnostic catalog and the structure of instruction trees.
use vstd::prelude::*;
use crate::ast::{Instr, ValType};
use crate::diagnostics::{error_code, spec_title};
use crate::lower::{spec_flat_op, FloatOp, IntOp, WasmConst, WasmOp};
use crate::metrics::{nest_depth, node_count, node_depth, tree_count};
use crate::policy::{payload_verdict, FirstEntry, FirstImport, PayloadKind, PolicyError, WasmPolicy};
use crate::validate::{spec_instr, spec_seq, ValidationError};

verus! {

/// Whether an instruction has one fixed WebAssembly stack type (every instruction but
/// `drop`, the locals, structured control and `return`).
pub open spec fn has_fixed_type(i: Instr) -> bool {
    !(i is Drop || i is LocalGet || i is LocalSet || i is Block || i is IfElse || i is Return)
}

/// The operand types an instruction with a fixed type takes from the stack, the deepest first,
/// as the WebAssembly specification types it.
pub open spec fn wasm_operands(i: Instr) -> Seq<ValType> {
    match i {
        Instr::I32Add | Instr::I32Sub | Instr::I32Mul | Instr::I32Xor | Instr::I32Eq => seq![
            ValType::I32,
            ValType::I32,
        ],
        Instr::I32Eqz => seq![ValType::I32],
        Instr::F32ConvertI32S => seq![ValType::I32],
        Instr::I32TruncF32S => seq![ValType::F32],
        Instr::F32Add | Instr::F32Sub | Instr::F32Mul | Instr::F32Div | Instr::F32Gt => seq![
            ValType::F32,
            ValType::F32,
        ],
        Instr::F64Add | Instr::F64Sub | Instr::F64Mul | Instr::F64Div => seq![ValType::F64, ValType::F64],
        _ => Seq::empty(),
    }
}

/// The result types an instruction with a fixed type leaves on the stack, as the WebAssembly
/// specification types it.
pub open spec fn wasm_results(i: Instr) -> Seq<ValType> {
    match i {
        Instr::I64Const { .. } => seq![ValType::I64],
        Instr::F32Const { .. } | Instr::F32ConvertI32S => seq![ValType::F32],
        Instr::F64Const { .. } => seq![ValType::F64],
        Instr::F32Add | Instr::F32Sub | Instr::F32Mul | Instr::F32Div => seq![ValType::F32],
        Instr::F64Add | Instr::F64Sub | Instr::F64Mul | Instr::F64Div => seq![ValType::F64],
        _ => seq![ValType::I32],
    }
}

/// An instruction with a fixed type turns any stack that ends in its operand types into the
/// same stack with those operands replaced by its results, and refuses every stack that does
/// not end in its operand types.
pub proof fn law_instr_stack_typing(
    i: Instr,
    below: Seq<ValType>,
    stack: Seq<ValType>,
    params: Seq<ValType>,
    decl: Seq<ValType>,
    total: u32,
    depth: nat,
)
    requires
        has_fixed_type(i),
    ensures
        spec_instr(i, below + wasm_operands(i), params, decl, total, depth) == Ok::<Seq<ValType>, ValidationError>(
            below + wasm_results(i),
        ),
        spec_instr(i, stack, params, decl, total, depth) is Ok ==> stack.len() >= wasm_operands(i).len()
            && stack.subrange(stack.len() - wasm_operands(i).len(), stack.len() as int) == wasm_operands(i),
{
    let ops = wasm_operands(i);
    let with = below + ops;
    assert((below + seq![wasm_results(i)[0]]) =~= below.push(wasm_results(i)[0]));
    if ops.len() == 1 {
        assert(with.last() == ops[0]);
        assert(with.drop_last() =~= below);
    } else if ops.len() == 2 {
        assert(with.last() == ops[1]);
        assert(with.drop_last() =~= below.push(ops[0]));
        assert(with.drop_last().drop_last() =~= below);
    } else {
        assert(with =~= below);
    }
    if spec_instr(i, stack, params, decl, total, depth) is Ok {
        let n = stack.len();
        if ops.len() == 1 {
            assert(stack.subrange(n - 1, n as int) =~= seq![stack.last()]);
        } else if ops.len() == 2 {
            assert(stack.drop_last().last() == stack[n - 2]);
            assert(stack.subrange(n - 2, n as int) =~= seq![stack[n - 2], stack.last()]);
        } else {
            assert(stack.subrange(n as int, n as int) =~= Seq::<ValType>::empty());
        }
    }
}

/// The WebAssembly text-format name of each instruction that lowering emits for an instruction
/// without nested bodies.
pub open spec fn wasm_mnemonic(op: WasmOp) -> Seq<char> {
    match op {
        WasmOp::Const(WasmConst::I32(_)) => "i32.const"@,
        WasmOp::Const(WasmConst::I64(_)) => "i64.const"@,
        WasmOp::Const(WasmConst::F32(_)) => "f32.const"@,
        WasmOp::Const(WasmConst::F64(_)) => "f64.const"@,
        WasmOp::Int(IntOp::I32Add) => "i32.add"@,
        WasmOp::Int(IntOp::I32Sub) => "i32.sub"@,
        WasmOp::Int(IntOp::I32Mul) => "i32.mul"@,
        WasmOp::Int(IntOp::I32Xor) => "i32.xor"@,
        WasmOp::Int(IntOp::I32Eq) => "i32.eq"@,
        WasmOp::Int(IntOp::I32Eqz) => "i32.eqz"@,
        WasmOp::Int(IntOp::I32TruncF32S) => "i32.trunc_f32_s"@,
        WasmOp::Float(FloatOp::F32ConvertI32S) => "f32.convert_i32_s"@,
        WasmOp::Float(FloatOp::F32Add) => "f32.add"@,
        WasmOp::Float(FloatOp::F32Sub) => "f32.sub"@,
        WasmOp::Float(FloatOp::F32Mul) => "f32.mul"@,
        WasmOp::Float(FloatOp::F32Div) => "f32.div"@,
        WasmOp::Float(FloatOp::F32Gt) => "f32.gt"@,
        WasmOp::Float(FloatOp::F64Add) => "f64.add"@,
        WasmOp::Float(FloatOp::F64Sub) => "f64.sub"@,
        WasmOp::Float(FloatOp::F64Mul) => "f64.mul"@,
        WasmOp::Float(FloatOp::F64Div) => "f64.div"@,
        WasmOp::Drop => "drop"@,
        WasmOp::LocalGet(_) => "local.get"@,
        WasmOp::LocalSet(_) => "local.set"@,
        WasmOp::Block(_) => "block"@,
        WasmOp::If(_) => "if"@,
        WasmOp::Else => "else"@,
        WasmOp::End => "end"@,
        WasmOp::Return => "return"@,
    }
}

/// The WebAssembly instruction each Program IR instruction without nested bodies stands for
/// (the IR names its operators after them).
pub open spec fn ir_wasm_name(i: Instr) -> Seq<char> {
    match i {
        Instr::I32Const { .. } => "i32.const"@,
        Instr::I64Const { .. } => "i64.const"@,
        Instr::F32Const { .. } => "f32.const"@,
        Instr::F64Const { .. } => "f64.const"@,
        Instr::I32Add => "i32.add"@,
        Instr::I32Sub => "i32.sub"@,
        Instr::I32Mul => "i32.mul"@,
        Instr::I32Xor => "i32.xor"@,
        Instr::I32Eq => "i32.eq"@,
        Instr::I32Eqz => "i32.eqz"@,
        Instr::I32TruncF32S => "i32.trunc_f32_s"@,
        Instr::F32ConvertI32S => "f32.convert_i32_s"@,
        Instr::F32Add => "f32.add"@,
        Instr::F32Sub => "f32.sub"@,
        Instr::F32Mul => "f32.mul"@,
        Instr::F32Div => "f32.div"@,
        Instr::F32Gt => "f32.gt"@,
        Instr::F64Add => "f64.add"@,
        Instr::F64Sub => "f64.sub"@,
        Instr::F64Mul => "f64.mul"@,
        Instr::F64Div => "f64.div"@,
        Instr::Drop => "drop"@,
        Instr::LocalGet { .. } => "local.get"@,
        Instr::LocalSet { .. } => "local.set"@,
        Instr::Block { .. } => "block"@,
        Instr::IfElse { .. } => "if"@,
        Instr::Return => "return"@,
    }
}

/// An instruction without nested bodies (everything but `block`, `if_else` and `return`).
pub open spec fn is_flat(i: Instr) -> bool {
    !(i is Block || i is IfElse || i is Return)
}

/// Lowering keeps each flat instruction's operator: it emits the Wasm instruction the IR
/// instruction is named after.
pub proof fn law_lowering_keeps_operator(i: Instr)
    requires
        is_flat(i),
    ensures
        wasm_mnemonic(spec_flat_op(i)) == ir_wasm_name(i),
{
}

/// Lowering tells flat instructions apart: two flat instructions lower to the same Wasm
/// instruction only when they are the same (operator, constant and local index included).
pub proof fn law_lowering_injective(i: Instr, j: Instr)
    requires
        is_flat(i),
        is_flat(j),
        spec_flat_op(i) == spec_flat_op(j),
    ensures
        i == j,
{
}

/// Which kind of validation error `e` is (one number per variant).
pub open spec fn error_kind(e: ValidationError) -> nat {
    match e {
        ValidationError::UnsupportedVersion(_, _) => 0,
        ValidationError::EmptyExportName => 1,
        ValidationError::ExportNameTooLong { .. } => 2,
        ValidationError::TooManyParams { .. } => 3,
        ValidationError::TooManyDeclaredLocals { .. } => 4,
        ValidationError::BodyTooLarge { .. } => 5,
        ValidationError::BadResultArity => 6,
        ValidationError::LocalOob { .. } => 7,
        ValidationError::StackUnderflow { .. } => 8,
        ValidationError::BadReturnStack { .. } => 9,
        ValidationError::StackTypeMismatch { .. } => 10,
        ValidationError::ReturnInsideNestedControl => 11,
        ValidationError::ControlNestingTooDeep { .. } => 12,
        ValidationError::BranchStackMismatch => 13,
        ValidationError::InvalidBlockStack { .. } => 14,
        ValidationError::MissingReturn => 15,
    }
}

/// What each kind of validation error is, in the diagnostic catalog's words.
pub open spec fn error_kind_title(e: ValidationError) -> Seq<char> {
    match e {
        ValidationError::UnsupportedVersion(_, _) => "Unsupported program_ir_version"@,
        ValidationError::EmptyExportName => "Empty export_name"@,
        ValidationError::ExportNameTooLong { .. } => "export_name too long"@,
        ValidationError::TooManyParams { .. } => "Too many parameters"@,
        ValidationError::TooManyDeclaredLocals { .. } => "Too many declared locals"@,
        ValidationError::BodyTooLarge { .. } => "Function body too large"@,
        ValidationError::BadResultArity => "Invalid result arity"@,
        ValidationError::LocalOob { .. } => "Local index out of range"@,
        ValidationError::StackUnderflow { .. } => "Stack underflow"@,
        ValidationError::BadReturnStack { .. } => "Bad stack at return"@,
        ValidationError::StackTypeMismatch { .. } => "Stack type mismatch"@,
        ValidationError::ReturnInsideNestedControl => "return inside nested control"@,
        ValidationError::ControlNestingTooDeep { .. } => "Control nesting too deep"@,
        ValidationError::BranchStackMismatch => "if_else branch stack mismatch"@,
        ValidationError::InvalidBlockStack { .. } => "block stack mismatch"@,
        ValidationError::MissingReturn => "Missing trailing return"@,
    }
}

/// The code of a validation error is the catalog entry for its kind: the catalog's title for
/// that code names what the error is.
pub proof fn law_error_code_matches_catalog(e: ValidationError)
    ensures
        spec_title(error_code(e)) == error_kind_title(e),
{
}

/// Different kinds of validation error get different codes, and errors of one kind share
/// their code.
pub proof fn law_error_codes_distinguish_kinds(a: ValidationError, b: ValidationError)
    ensures
        (error_code(a) == error_code(b)) == (error_kind(a) == error_kind(b)),
{
}

/// Each switch of the capability policy means what it says: a section kind it allows always
/// passes; when it does not allow it, a section with an entry is refused for that kind.
pub proof fn law_policy_switches_allow_their_sections(policy: WasmPolicy, f: FirstEntry, imp: FirstImport)
    ensures
        policy.allow_memory ==> payload_verdict(PayloadKind::MemorySection(f), policy) is None,
        policy.allow_tables ==> payload_verdict(PayloadKind::TableSection(f), policy) is None,
        policy.allow_imports ==> payload_verdict(PayloadKind::ImportSection(imp), policy) is None,
        !policy.allow_memory && f == FirstEntry::Present ==> payload_verdict(PayloadKind::MemorySection(f), policy)
            == Some(PolicyError::Memory),
        !policy.allow_tables && f == FirstEntry::Present ==> payload_verdict(PayloadKind::TableSection(f), policy)
            == Some(PolicyError::Table),
        !policy.allow_imports && imp is Single ==> payload_verdict(PayloadKind::ImportSection(imp), policy) is Some,
{
}

/// A switch concerns only its own section kind: turning it on or off leaves the verdict on
/// every other payload unchanged, and the refusal it names can only come while it is off.
pub proof fn law_policy_switches_are_independent(k: PayloadKind, policy: WasmPolicy)
    ensures
        !(k is MemorySection) ==> payload_verdict(k, WasmPolicy { allow_memory: !policy.allow_memory, ..policy })
            == payload_verdict(k, policy),
        !(k is TableSection) ==> payload_verdict(k, WasmPolicy { allow_tables: !policy.allow_tables, ..policy })
            == payload_verdict(k, policy),
        !(k is ImportSection) ==> payload_verdict(k, WasmPolicy { allow_imports: !policy.allow_imports, ..policy })
            == payload_verdict(k, policy),
        payload_verdict(k, policy) == Some(PolicyError::Memory) ==> !policy.allow_memory,
        payload_verdict(k, policy) == Some(PolicyError::Table) ==> !policy.allow_tables,
{
}

/// The larger of two numbers.
pub open spec fn larger(a: nat, b: nat) -> nat {
    if a >= b {
        a
    } else {
        b
    }
}

/// The nesting depth of two lists one after the other is the deeper of the two.
pub proof fn law_nest_depth_concat(a: Seq<Instr>, b: Seq<Instr>)
    ensures
        nest_depth(a + b) == larger(nest_depth(a), nest_depth(b)),
    decreases b.len(),
{
    if b.len() == 0 {
        assert(a + b =~= a);
    } else {
        law_nest_depth_concat(a, b.drop_last());
        assert((a + b).drop_last() =~= a + b.drop_last());
        assert((a + b).last() == b.last());
        assert(nest_depth(b) == larger(nest_depth(b.drop_last()), node_depth(b.last())));
    }
}

/// Every instruction of a list nests at most as deep as the list, and a list nests exactly as
/// deep as one of its instructions (or not at all).
pub proof fn law_nest_depth_is_deepest(s: Seq<Instr>)
    ensures
        forall|k: int| 0 <= k < s.len() ==> node_depth(#[trigger] s[k]) <= nest_depth(s),
        nest_depth(s) == 0 || exists|k: int| 0 <= k < s.len() && node_depth(#[trigger] s[k]) == nest_depth(s),
    decreases s.len(),
{
    if s.len() > 0 {
        law_nest_depth_is_deepest(s.drop_last());
        let p = s.drop_last();
        assert forall|k: int| 0 <= k < s.len() implies node_depth(#[trigger] s[k]) <= nest_depth(s) by {
            if k < s.len() - 1 {
                assert(s[k] == p[k]);
            }
        }
        if nest_depth(s) != 0 {
            if nest_depth(p) >= node_depth(s.last()) {
                let k = choose|k: int| 0 <= k < p.len() && node_depth(#[trigger] p[k]) == nest_depth(p);
                assert(s[k] == p[k]);
            } else {
                assert(s[s.len() - 1] == s.last());
            }
        }
    }
}

/// A `block` nests one deeper than its body, and an `if_else` one deeper than the deeper of its
/// two branches (both count: its depth is that of the two branches one after the other).
pub proof fn law_control_nests_one_deeper(i: Instr)
    ensures
        i matches Instr::Block { body, .. } ==> node_depth(i) == 1 + nest_depth(body@),
        i matches Instr::IfElse { then_body, else_body, .. } ==> node_depth(i) == 1 + nest_depth(
            then_body@ + else_body@,
        ),
        i matches Instr::IfElse { then_body, else_body, .. } ==> node_depth(i) > nest_depth(then_body@) && node_depth(i)
            > nest_depth(else_body@),
        !(i is Block || i is IfElse) ==> node_depth(i) == 0,
{
    match i {
        Instr::IfElse { then_body, else_body, .. } => {
            law_nest_depth_concat(then_body@, else_body@);
        },
        _ => {},
    }
}


/// The local slots a function's instructions address: its parameters, then its declared locals.
pub open spec fn local_slots(params: Seq<ValType>, decl: Seq<ValType>) -> Seq<ValType> {
    params + decl
}

/// `local_get` pushes the type of the slot it names, `local_set` pops exactly that type, and a
/// slot index past the last slot is refused by both.
pub proof fn law_local_slots(
    index: u32,
    below: Seq<ValType>,
    stack: Seq<ValType>,
    params: Seq<ValType>,
    decl: Seq<ValType>,
    depth: nat,
)
    requires
        params.len() + decl.len() <= u32::MAX,
    ensures
        ({
            let total = (params.len() + decl.len()) as u32;
            let slots = local_slots(params, decl);
            &&& index < total ==> spec_instr(Instr::LocalGet { index }, below, params, decl, total, depth) == Ok::<
                Seq<ValType>,
                ValidationError,
            >(below.push(slots[index as int]))
            &&& index < total ==> spec_instr(
                Instr::LocalSet { index },
                below.push(slots[index as int]),
                params,
                decl,
                total,
                depth,
            ) == Ok::<Seq<ValType>, ValidationError>(below)
            &&& index < total && spec_instr(Instr::LocalSet { index }, stack, params, decl, total, depth) is Ok
                ==> stack.len() > 0 && stack.last() == slots[index as int]
            &&& index >= total ==> spec_instr(Instr::LocalGet { index }, stack, params, decl, total, depth)
                == Err::<Seq<ValType>, ValidationError>(ValidationError::LocalOob { index, total })
            &&& index >= total ==> spec_instr(Instr::LocalSet { index }, stack, params, decl, total, depth)
                == Err::<Seq<ValType>, ValidationError>(ValidationError::LocalOob { index, total })
        }),
{
    assert(below.push(local_slots(params, decl)[index as int]).drop_last() =~= below);
}

/// `drop` removes the top value whatever its type, and refuses an empty stack.
pub proof fn law_drop(
    t: ValType,
    below: Seq<ValType>,
    params: Seq<ValType>,
    decl: Seq<ValType>,
    total: u32,
    depth: nat,
)
    ensures
        spec_instr(Instr::Drop, below.push(t), params, decl, total, depth) == Ok::<Seq<ValType>, ValidationError>(below),
        spec_instr(Instr::Drop, Seq::empty(), params, decl, total, depth) is Err,
{
    assert(below.push(t).drop_last() =~= below);
}

/// The values a structured result type leaves: one value of the type, or none.
pub open spec fn result_values(result: Option<ValType>) -> Seq<ValType> {
    match result {
        Some(t) => seq![t],
        None => Seq::empty(),
    }
}

/// A `block` whose body turns the stack into the stack plus its result values is accepted with
/// that stack; whatever a `block` is accepted with has grown by its result values' count and
/// ends in its result type.
pub proof fn law_block_typing(
    result: Option<ValType>,
    body: Vec<Instr>,
    stack: Seq<ValType>,
    params: Seq<ValType>,
    decl: Seq<ValType>,
    total: u32,
    depth: nat,
)
    requires
        depth < crate::limits::MAX_CONTROL_DEPTH,
    ensures
        spec_seq(body@, stack, params, decl, total, depth + 1) == Ok::<Seq<ValType>, ValidationError>(
            stack + result_values(result),
        ) ==> spec_instr(Instr::Block { result, body }, stack, params, decl, total, depth) == Ok::<
            Seq<ValType>,
            ValidationError,
        >(stack + result_values(result)),
        spec_instr(Instr::Block { result, body }, stack, params, decl, total, depth) matches Ok(s) ==> s.len()
            == stack.len() + result_values(result).len() && (result matches Some(t) ==> s.last() == t),
{
    if let Some(t) = result {
        assert((stack + result_values(result)).last() == t);
    }
}

/// An `if_else` pops an `i32` condition; when both branches turn the rest of the stack into it
/// plus the result values, it is accepted with that; whatever it is accepted with has the
/// condition replaced by its result values and ends in its result type.
pub proof fn law_if_else_typing(
    result: Option<ValType>,
    then_body: Vec<Instr>,
    else_body: Vec<Instr>,
    below: Seq<ValType>,
    stack: Seq<ValType>,
    params: Seq<ValType>,
    decl: Seq<ValType>,
    total: u32,
    depth: nat,
)
    requires
        depth < crate::limits::MAX_CONTROL_DEPTH,
    ensures
        spec_seq(then_body@, below, params, decl, total, depth + 1) == Ok::<Seq<ValType>, ValidationError>(
            below + result_values(result),
        ) && spec_seq(else_body@, below, params, decl, total, depth + 1) == Ok::<Seq<ValType>, ValidationError>(
            below + result_values(result),
        ) ==> spec_instr(
            Instr::IfElse { result, then_body, else_body },
            below.push(ValType::I32),
            params,
            decl,
            total,
            depth,
        ) == Ok::<Seq<ValType>, ValidationError>(below + result_values(result)),
        spec_instr(Instr::IfElse { result, then_body, else_body }, stack, params, decl, total, depth) matches Ok(s)
            ==> stack.len() > 0 && stack.last() == ValType::I32 && s.len() == stack.len() - 1 + result_values(
            result,
        ).len() && (result matches Some(t) ==> s.last() == t),
{
    assert(below.push(ValType::I32).drop_last() =~= below);
    if let Some(t) = result {
        assert((below + result_values(result)).last() == t);
    }
}

/// How much deeper a run of Wasm instructions leaves the control nesting: one per `block` or
/// `if`, minus one per `end`.
pub open spec fn bracket_change(ops: Seq<WasmOp>) -> int
    decreases ops.len(),
{
    if ops.len() == 0 {
        0
    } else {
        bracket_change(ops.drop_last()) + match ops.last() {
            WasmOp::Block(_) | WasmOp::If(_) => 1int,
            WasmOp::End => -1int,
            _ => 0int,
        }
    }
}

/// Number of `if` instructions minus number of `else` instructions.
pub open spec fn unmatched_ifs(ops: Seq<WasmOp>) -> int
    decreases ops.len(),
{
    if ops.len() == 0 {
        0
    } else {
        unmatched_ifs(ops.drop_last()) + match ops.last() {
            WasmOp::If(_) => 1int,
            WasmOp::Else => -1int,
            _ => 0int,
        }
    }
}

proof fn lemma_counts_concat(a: Seq<WasmOp>, b: Seq<WasmOp>)
    ensures
        bracket_change(a + b) == bracket_change(a) + bracket_change(b),
        unmatched_ifs(a + b) == unmatched_ifs(a) + unmatched_ifs(b),
    decreases b.len(),
{
    if b.len() == 0 {
        assert(a + b =~= a);
    } else {
        lemma_counts_concat(a, b.drop_last());
        assert((a + b).drop_last() =~= a + b.drop_last());
        assert((a + b).last() == b.last());
    }
}

/// Lowering brackets every nested body: each `block` and `if` it emits is closed by one `end`,
/// and each `if` has one `else`.
pub proof fn law_lowering_balances_control(s: Seq<Instr>)
    ensures
        bracket_change(crate::lower::lower_seq(s)) == 0,
        unmatched_ifs(crate::lower::lower_seq(s)) == 0,
    decreases s,
{
    if s.len() > 0 {
        law_lowering_balances_control(s.drop_last());
        lemma_lower_one_balanced(s.last());
        lemma_counts_concat(crate::lower::lower_seq(s.drop_last()), crate::lower::lower_one(s.last()));
    }
}

proof fn lemma_lower_one_balanced(i: Instr)
    ensures
        bracket_change(crate::lower::lower_one(i)) == 0,
        unmatched_ifs(crate::lower::lower_one(i)) == 0,
    decreases i,
{
    match i {
        Instr::Block { result, body } => {
            law_lowering_balances_control(body@);
            let a = seq![WasmOp::Block(result)];
            let m = crate::lower::lower_seq(body@);
            let e = seq![WasmOp::End];
            lemma_counts_concat(a, m);
            lemma_counts_concat(a + m, e);
            assert(a.drop_last() =~= Seq::<WasmOp>::empty());
            assert(e.drop_last() =~= Seq::<WasmOp>::empty());
            assert(crate::lower::lower_one(i) == a + m + e);
            assert(bracket_change(a.drop_last()) == 0 && unmatched_ifs(a.drop_last()) == 0);
            assert(bracket_change(e.drop_last()) == 0 && unmatched_ifs(e.drop_last()) == 0);
            assert(bracket_change(a) == 1 && unmatched_ifs(a) == 0);
            assert(bracket_change(e) == -1 && unmatched_ifs(e) == 0);
        },
        Instr::IfElse { result, then_body, else_body } => {
            law_lowering_balances_control(then_body@);
            law_lowering_balances_control(else_body@);
            let a = seq![WasmOp::If(result)];
            let t = crate::lower::lower_seq(then_body@);
            let el = seq![WasmOp::Else];
            let f = crate::lower::lower_seq(else_body@);
            let e = seq![WasmOp::End];
            lemma_counts_concat(a, t);
            lemma_counts_concat(a + t, el);
            lemma_counts_concat(a + t + el, f);
            lemma_counts_concat(a + t + el + f, e);
            assert(a.drop_last() =~= Seq::<WasmOp>::empty());
            assert(el.drop_last() =~= Seq::<WasmOp>::empty());
            assert(e.drop_last() =~= Seq::<WasmOp>::empty());
            assert(crate::lower::lower_one(i) == a + t + el + f + e);
            assert(bracket_change(a.drop_last()) == 0 && unmatched_ifs(a.drop_last()) == 0);
            assert(bracket_change(el.drop_last()) == 0 && unmatched_ifs(el.drop_last()) == 0);
            assert(bracket_change(e.drop_last()) == 0 && unmatched_ifs(e.drop_last()) == 0);
            assert(bracket_change(a) == 1 && unmatched_ifs(a) == 1);
            assert(bracket_change(el) == 0 && unmatched_ifs(el) == -1);
            assert(bracket_change(e) == -1 && unmatched_ifs(e) == 0);
        },
        Instr::Return => {
            assert(bracket_change(Seq::<WasmOp>::empty()) == 0 && unmatched_ifs(Seq::<WasmOp>::empty()) == 0);
        },
        _ => {
            let o = seq![spec_flat_op(i)];
            assert(crate::lower::lower_one(i) == o);
            assert(o.drop_last() =~= Seq::<WasmOp>::empty());
            assert(bracket_change(o.drop_last()) == 0 && unmatched_ifs(o.drop_last()) == 0);
            assert(bracket_change(o) == 0 && unmatched_ifs(o) == 0);
        },
    }
}


/// An instruction counts itself and every instruction of its nested bodies: a `block` one more
/// than its body, an `if_else` one more than its two branches together, anything else one.
pub proof fn law_node_count_counts_children(i: Instr)
    ensures
        i matches Instr::Block { body, .. } ==> node_count(i) == 1 + tree_count(body@),
        i matches Instr::IfElse { then_body, else_body, .. } ==> node_count(i) == 1 + tree_count(
            then_body@ + else_body@,
        ),
        !(i is Block || i is IfElse) ==> node_count(i) == 1,
        tree_count(seq![i]) == node_count(i),
{
    match i {
        Instr::IfElse { then_body, else_body, .. } => {
            crate::laws::law_tree_count_concat(then_body@, else_body@);
        },
        _ => {},
    }
    let one = seq![i];
    assert(one.drop_last() =~= Seq::<Instr>::empty());
    assert(tree_count(one.drop_last()) == 0);
    assert(one.last() == i);
}

/// Payloads outside the policy's three switches are refused whatever the policy says: a start
/// function, a nested module, a data count section, and any tag, global, element or data
/// section that holds an entry.
pub proof fn law_policy_fixed_refusals(policy: WasmPolicy)
    ensures
        payload_verdict(PayloadKind::StartSection, policy) == Some(PolicyError::Start),
        payload_verdict(PayloadKind::ModuleSection, policy) == Some(PolicyError::NestedModule),
        payload_verdict(PayloadKind::DataCountSection, policy) == Some(PolicyError::DataCount),
        payload_verdict(PayloadKind::TagSection(FirstEntry::Present), policy) == Some(PolicyError::Tag),
        payload_verdict(PayloadKind::GlobalSection(FirstEntry::Present), policy) == Some(PolicyError::Global),
        payload_verdict(PayloadKind::ElementSection(FirstEntry::Present), policy) == Some(PolicyError::Element),
        payload_verdict(PayloadKind::DataSection(FirstEntry::Present), policy) == Some(PolicyError::Data),
        payload_verdict(PayloadKind::Other, policy) is None,
{
}

} // verus!
