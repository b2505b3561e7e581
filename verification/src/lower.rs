//! Wasm lowering for Program IR v2: a validated module becomes a one-function Wasm module.
//!
//! The lowering itself (which Wasm instructions each IR instruction becomes, and how declared
//! locals are grouped) is verified here; the binary encoding is done by `wasm_encoder`.
use vstd::prelude::*;
use crate::ast::{Instr, Module, ValType};
use wasm_encoder::Instruction as I;
use wasm_encoder::ValType as EncoderValType;
use crate::validate::{
    same_error, spec_instr, spec_seq, spec_validate_func, spec_validate_module, validate_module,
    ValidationError,
};
use crate::metrics::{node_count, tree_count};
use vstd::utf8::encode_utf8;

verus! {

/// A Wasm constant instruction, by value (floating-point ones by their bit patterns).
#[derive(Clone, Copy, Debug, PartialEq, Eq)]
pub enum WasmConst {
    I32(i32),
    I64(i64),
    F32(u32),
    F64(u64),
}

/// Wasm numeric instructions on `i32` (with the `f32` to `i32` truncation).
#[derive(Clone, Copy, Debug, PartialEq, Eq)]
pub enum IntOp {
    I32Add,
    I32Sub,
    I32Mul,
    I32Xor,
    I32Eq,
    I32Eqz,
    I32TruncF32S,
}

/// Wasm floating-point instructions (with the `i32` to `f32` conversion).
#[derive(Clone, Copy, Debug, PartialEq, Eq)]
pub enum FloatOp {
    F32ConvertI32S,
    F32Add,
    F32Sub,
    F32Mul,
    F32Div,
    F32Gt,
    F64Add,
    F64Sub,
    F64Mul,
    F64Div,
}

/// The Wasm instructions that lowering emits.
#[derive(Clone, Copy, Debug, PartialEq, Eq)]
pub enum WasmOp {
    Const(WasmConst),
    Int(IntOp),
    Float(FloatOp),
    Drop,
    LocalGet(u32),
    LocalSet(u32),
    /// `block` with an optional single result type.
    Block(Option<ValType>),
    /// `if` with an optional single result type.
    If(Option<ValType>),
    Else,
    End,
    Return,
}

/// Why lowering fails.
#[derive(Debug, PartialEq, Eq)]
pub enum LowerError {
    /// The module did not validate.
    Validation(ValidationError),
    /// A `return` was found where the body should not hold one.
    MissingReturn,
}

#[verifier::external_type_specification]
#[verifier::external_body]
pub struct ExWasmFunction(wasm_encoder::Function);

#[verifier::external_type_specification]
#[verifier::external_body]
pub struct ExWasmValType(EncoderValType);

#[verifier::external_type_specification]
#[verifier::external_body]
pub struct ExWasmBlockType(wasm_encoder::BlockType);

#[verifier::external_type_specification]
#[verifier::external_body]
pub struct ExWasmInstruction<'a>(wasm_encoder::Instruction<'a>);

/// Instructions written so far into a `wasm_encoder::Function` body.
pub uninterp spec fn function_body(f: wasm_encoder::Function) -> Seq<WasmOp>;

/// Local declarations (`(count, type)` groups) a `wasm_encoder::Function` was created with.
pub uninterp spec fn function_locals(f: wasm_encoder::Function) -> Seq<(u32, ValType)>;

/// Bytes `wasm_encoder` produces for a module with one function type `params -> results`,
/// one function of that type exported under `export`, with the given locals and body.
pub uninterp spec fn wasm_module_bytes(
    params: Seq<ValType>,
    results: Seq<ValType>,
    export: Seq<char>,
    locals: Seq<(u32, ValType)>,
    body: Seq<WasmOp>,
) -> Seq<u8>;

/// One-for-one conversion of a value type into `wasm_encoder`'s value type.
#[verifier::external_body]
fn map_valtype(t: ValType) -> EncoderValType {
    match t {
        ValType::I32 => EncoderValType::I32,
        ValType::I64 => EncoderValType::I64,
        ValType::F32 => EncoderValType::F32,
        ValType::F64 => EncoderValType::F64,
    }
}

/// One-for-one conversion of a structured result type into `wasm_encoder`'s block type.
#[verifier::external_body]
fn map_block_type(result: Option<ValType>) -> wasm_encoder::BlockType {
    match result {
        None => wasm_encoder::BlockType::Empty,
        Some(t) => wasm_encoder::BlockType::Result(map_valtype(t)),
    }
}

/// One-for-one conversion of a lowered instruction into `wasm_encoder`'s instruction.
#[verifier::external_body]
fn encoder_instruction(op: &WasmOp) -> wasm_encoder::Instruction<'static> {
    match *op {
        WasmOp::Const(c) => const_instruction(c),
        WasmOp::Int(o) => int_instruction(o),
        WasmOp::Float(o) => float_instruction(o),
        WasmOp::Drop => I::Drop,
        WasmOp::LocalGet(i) => I::LocalGet(i),
        WasmOp::LocalSet(i) => I::LocalSet(i),
        WasmOp::Block(r) => I::Block(map_block_type(r)),
        WasmOp::If(r) => I::If(map_block_type(r)),
        WasmOp::Else => I::Else,
        WasmOp::End => I::End,
        WasmOp::Return => I::Return,
    }
}

/// One-for-one conversion of a constant into `wasm_encoder`'s constant instruction.
#[verifier::external_body]
fn const_instruction(c: WasmConst) -> wasm_encoder::Instruction<'static> {
    match c {
        WasmConst::I32(v) => I::I32Const(v),
        WasmConst::I64(v) => I::I64Const(v),
        WasmConst::F32(b) => I::F32Const(wasm_encoder::Ieee32::new(b)),
        WasmConst::F64(b) => I::F64Const(wasm_encoder::Ieee64::new(b)),
    }
}

/// One-for-one conversion of an `i32` instruction into `wasm_encoder`'s instruction.
#[verifier::external_body]
fn int_instruction(o: IntOp) -> wasm_encoder::Instruction<'static> {
    match o {
        IntOp::I32Add => I::I32Add,
        IntOp::I32Sub => I::I32Sub,
        IntOp::I32Mul => I::I32Mul,
        IntOp::I32Xor => I::I32Xor,
        IntOp::I32Eq => I::I32Eq,
        IntOp::I32Eqz => I::I32Eqz,
        IntOp::I32TruncF32S => I::I32TruncF32S,
    }
}

/// One-for-one conversion of a floating-point instruction into `wasm_encoder`'s instruction.
#[verifier::external_body]
fn float_instruction(o: FloatOp) -> wasm_encoder::Instruction<'static> {
    match o {
        FloatOp::F32ConvertI32S => I::F32ConvertI32S,
        FloatOp::F32Add => I::F32Add,
        FloatOp::F32Sub => I::F32Sub,
        FloatOp::F32Mul => I::F32Mul,
        FloatOp::F32Div => I::F32Div,
        FloatOp::F32Gt => I::F32Gt,
        FloatOp::F64Add => I::F64Add,
        FloatOp::F64Sub => I::F64Sub,
        FloatOp::F64Mul => I::F64Mul,
        FloatOp::F64Div => I::F64Div,
    }
}

/// `wasm_encoder::Function::new`: an empty body with the given local groups. It writes the
/// number of groups as a `u32` (asserting that it fits), so `requires` bounds it.
#[verifier::external_body]
fn function_new(locals: &Vec<(u32, ValType)>) -> (f: wasm_encoder::Function)
    requires
        locals@.len() <= u32::MAX,
    ensures
        function_body(f) == Seq::<WasmOp>::empty(),
        function_locals(f) == locals@,
{
    wasm_encoder::Function::new(locals.iter().map(|&(n, t)| (n, map_valtype(t))).collect::<Vec<_>>())
}

/// `wasm_encoder::Function::instruction`: appends one instruction to the body.
#[verifier::external_body]
fn function_instruction(f: &mut wasm_encoder::Function, op: &WasmOp)
    ensures
        function_body(*final(f)) == function_body(*old(f)).push(*op),
        function_locals(*final(f)) == function_locals(*old(f)),
{
    f.instruction(&encoder_instruction(op));
}

/// The encoded module stays within the lengths `wasm_encoder` can write: every vector length,
/// name length and section size is written as a `u32`, which it asserts. Counted from the items:
/// the parameter and result types take a byte each, the export name its UTF-8 bytes, a local
/// group at most six bytes (a `u32` count and a type), an instruction at most eleven (an opcode
/// and an immediate of up to ten bytes), and the section headers, counts and sizes less than 64.
pub open spec fn encoding_fits(params: nat, results: nat, name_bytes: nat, groups: nat, ops: nat) -> bool {
    params + results + name_bytes + 6 * groups + 11 * ops + 64 <= u32::MAX
}

/// The eight bytes every Wasm binary module starts with: the magic `\0asm` and version 1.
pub open spec fn wasm_header() -> Seq<u8> {
    seq![0x00u8, 0x61u8, 0x73u8, 0x6du8, 0x01u8, 0x00u8, 0x00u8, 0x00u8]
}

/// Encodes a one-function module with `wasm_encoder` (type, function, export and code sections).
/// `wasm_encoder::Module::new` starts the bytes with `Module::HEADER` (the Wasm magic and
/// version) and `section` only appends, so the bytes begin with that header.
#[verifier::external_body]
fn encode_module(
    params: &Vec<ValType>,
    results: &Vec<ValType>,
    export_name: &str,
    func: &wasm_encoder::Function,
) -> (bytes: Vec<u8>)
    requires
        encoding_fits(
            params@.len(),
            results@.len(),
            encode_utf8(export_name@).len(),
            function_locals(*func).len(),
            function_body(*func).len(),
        ),
    ensures
        bytes@ == wasm_module_bytes(params@, results@, export_name@, function_locals(*func), function_body(*func)),
        bytes@.len() >= 8 && bytes@.take(8) == wasm_header(),
{
    let mut types = wasm_encoder::TypeSection::new();
    types.ty().function(params.iter().map(|t| map_valtype(*t)), results.iter().map(|t| map_valtype(*t)));
    let mut funcs = wasm_encoder::FunctionSection::new();
    funcs.function(0);
    let mut exports = wasm_encoder::ExportSection::new();
    exports.export(export_name, wasm_encoder::ExportKind::Func, 0);
    let mut codes = wasm_encoder::CodeSection::new();
    codes.function(func);
    let mut module = wasm_encoder::Module::new();
    module.section(&types).section(&funcs).section(&exports).section(&codes);
    module.finish()
}

/// The Wasm instruction of an instruction without nested bodies.
pub open spec fn spec_flat_op(i: Instr) -> WasmOp {
    match i {
        Instr::I32Const { value } => WasmOp::Const(WasmConst::I32(value)),
        Instr::I64Const { value } => WasmOp::Const(WasmConst::I64(value)),
        Instr::F32Const { bits } => WasmOp::Const(WasmConst::F32(bits)),
        Instr::F64Const { bits } => WasmOp::Const(WasmConst::F64(bits)),
        Instr::I32Add => WasmOp::Int(IntOp::I32Add),
        Instr::I32Sub => WasmOp::Int(IntOp::I32Sub),
        Instr::I32Mul => WasmOp::Int(IntOp::I32Mul),
        Instr::I32Xor => WasmOp::Int(IntOp::I32Xor),
        Instr::I32Eq => WasmOp::Int(IntOp::I32Eq),
        Instr::I32Eqz => WasmOp::Int(IntOp::I32Eqz),
        Instr::I32TruncF32S => WasmOp::Int(IntOp::I32TruncF32S),
        Instr::F32ConvertI32S => WasmOp::Float(FloatOp::F32ConvertI32S),
        Instr::F32Add => WasmOp::Float(FloatOp::F32Add),
        Instr::F32Sub => WasmOp::Float(FloatOp::F32Sub),
        Instr::F32Mul => WasmOp::Float(FloatOp::F32Mul),
        Instr::F32Div => WasmOp::Float(FloatOp::F32Div),
        Instr::F32Gt => WasmOp::Float(FloatOp::F32Gt),
        Instr::F64Add => WasmOp::Float(FloatOp::F64Add),
        Instr::F64Sub => WasmOp::Float(FloatOp::F64Sub),
        Instr::F64Mul => WasmOp::Float(FloatOp::F64Mul),
        Instr::F64Div => WasmOp::Float(FloatOp::F64Div),
        Instr::Drop => WasmOp::Drop,
        Instr::LocalGet { index } => WasmOp::LocalGet(index),
        Instr::LocalSet { index } => WasmOp::LocalSet(index),
        _ => WasmOp::Return,
    }
}

/// Wasm instructions for an instruction list (nested bodies bracketed by `block`/`if`/`else`/`end`).
pub open spec fn lower_seq(s: Seq<Instr>) -> Seq<WasmOp>
    decreases s,
{
    if s.len() == 0 {
        Seq::empty()
    } else {
        lower_seq(s.drop_last()) + lower_one(s.last())
    }
}

/// Wasm instructions for one instruction.
pub open spec fn lower_one(i: Instr) -> Seq<WasmOp>
    decreases i,
{
    match i {
        Instr::Block { result, body } => seq![WasmOp::Block(result)] + lower_seq(body@) + seq![WasmOp::End],
        Instr::IfElse { result, then_body, else_body } => seq![WasmOp::If(result)] + lower_seq(then_body@)
            + seq![WasmOp::Else] + lower_seq(else_body@) + seq![WasmOp::End],
        Instr::Return => Seq::empty(),
        _ => seq![spec_flat_op(i)],
    }
}

/// Some `return` occurs in `s`, at any nesting.
pub open spec fn seq_has_return(s: Seq<Instr>) -> bool
    decreases s,
{
    if s.len() == 0 {
        false
    } else {
        seq_has_return(s.drop_last()) || instr_has_return(s.last())
    }
}

/// `i` is a `return` or holds one.
pub open spec fn instr_has_return(i: Instr) -> bool
    decreases i,
{
    match i {
        Instr::Return => true,
        Instr::Block { body, .. } => seq_has_return(body@),
        Instr::IfElse { then_body, else_body, .. } => seq_has_return(then_body@) || seq_has_return(else_body@),
        _ => false,
    }
}

/// Run-length groups `(count, type)` of consecutive equal local types, in order.
pub open spec fn local_groups(locals: Seq<ValType>) -> Seq<(u32, ValType)>
    decreases locals.len(),
{
    if locals.len() == 0 {
        Seq::empty()
    } else {
        let g = local_groups(locals.drop_last());
        let t = locals.last();
        if g.len() > 0 && g.last().1 == t {
            g.update(g.len() - 1, ((g.last().0 + 1) as u32, t))
        } else {
            g.push((1u32, t))
        }
    }
}

/// The local types a list of groups declares.
pub open spec fn expand_groups(g: Seq<(u32, ValType)>) -> Seq<ValType>
    decreases g.len(),
{
    if g.len() == 0 {
        Seq::empty()
    } else {
        expand_groups(g.drop_last()) + Seq::new(g.last().0 as nat, |_j: int| g.last().1)
    }
}

/// Bytes of the lowered module for `m`.
pub open spec fn lowered_bytes(m: Module) -> Seq<u8> {
    wasm_module_bytes(
        m.func.sig.params@,
        m.func.sig.results@,
        m.export_name@,
        local_groups(m.func.locals@),
        lower_seq(m.func.body@.drop_last()) + seq![WasmOp::Return, WasmOp::End],
    )
}

fn flat_op(instr: &Instr) -> (r: WasmOp)
    ensures
        r == spec_flat_op(*instr),
{
    match instr {
        Instr::I32Const { value } => WasmOp::Const(WasmConst::I32(*value)),
        Instr::I64Const { value } => WasmOp::Const(WasmConst::I64(*value)),
        Instr::F32Const { bits } => WasmOp::Const(WasmConst::F32(*bits)),
        Instr::F64Const { bits } => WasmOp::Const(WasmConst::F64(*bits)),
        Instr::I32Add => WasmOp::Int(IntOp::I32Add),
        Instr::I32Sub => WasmOp::Int(IntOp::I32Sub),
        Instr::I32Mul => WasmOp::Int(IntOp::I32Mul),
        Instr::I32Xor => WasmOp::Int(IntOp::I32Xor),
        Instr::I32Eq => WasmOp::Int(IntOp::I32Eq),
        Instr::I32Eqz => WasmOp::Int(IntOp::I32Eqz),
        Instr::I32TruncF32S => WasmOp::Int(IntOp::I32TruncF32S),
        Instr::F32ConvertI32S => WasmOp::Float(FloatOp::F32ConvertI32S),
        Instr::F32Add => WasmOp::Float(FloatOp::F32Add),
        Instr::F32Sub => WasmOp::Float(FloatOp::F32Sub),
        Instr::F32Mul => WasmOp::Float(FloatOp::F32Mul),
        Instr::F32Div => WasmOp::Float(FloatOp::F32Div),
        Instr::F32Gt => WasmOp::Float(FloatOp::F32Gt),
        Instr::F64Add => WasmOp::Float(FloatOp::F64Add),
        Instr::F64Sub => WasmOp::Float(FloatOp::F64Sub),
        Instr::F64Mul => WasmOp::Float(FloatOp::F64Mul),
        Instr::F64Div => WasmOp::Float(FloatOp::F64Div),
        Instr::Drop => WasmOp::Drop,
        Instr::LocalGet { index } => WasmOp::LocalGet(*index),
        Instr::LocalSet { index } => WasmOp::LocalSet(*index),
        _ => WasmOp::Return,
    }
}

/// Groups consecutive equal local types into `(count, type)` runs.
fn wasm_local_groups(locals: &[ValType]) -> (r: Vec<(u32, ValType)>)
    requires
        locals@.len() <= u32::MAX,
    ensures
        r@ == local_groups(locals@),
{
    if locals.len() == 0 {
        return Vec::new();
    }
    let mut out: Vec<(u32, ValType)> = Vec::new();
    let mut cur_ty = locals[0];
    let mut cur_count: u32 = 1;
    let mut i: usize = 1;
    proof {
        let t1 = locals@.take(1);
        assert(t1.drop_last() =~= locals@.take(0));
        assert(locals@.take(0).len() == 0);
        assert(local_groups(locals@.take(0)) == Seq::<(u32, ValType)>::empty());
        assert(t1.last() == cur_ty);
        assert(local_groups(t1) =~= out@.push((cur_count, cur_ty)));
    }
    while i < locals.len()
        invariant
            1 <= i <= locals@.len(),
            locals@.len() <= u32::MAX,
            1 <= cur_count <= i,
            local_groups(locals@.take(i as int)) == out@.push((cur_count, cur_ty)),
        decreases locals.len() - i,
    {
        let ty = locals[i];
        proof {
            let t = locals@.take(i + 1);
            assert(t.drop_last() =~= locals@.take(i as int));
            assert(t.last() == ty);
        }
        if ty == cur_ty {
            cur_count = cur_count + 1;
            proof {
                let g = out@.push(((cur_count - 1) as u32, cur_ty));
                assert(g.update(g.len() - 1, (cur_count, cur_ty)) =~= out@.push((cur_count, cur_ty)));
            }
        } else {
            out.push((cur_count, cur_ty));
            cur_ty = ty;
            cur_count = 1;
        }
        i = i + 1;
    }
    out.push((cur_count, cur_ty));
    proof {
        assert(locals@.take(locals@.len() as int) =~= locals@);
    }
    out
}

/// Emits the Wasm instructions for `instrs`; fails on any `return` inside the list.
fn lower_instr_list(instrs: &[Instr], func: &mut wasm_encoder::Function) -> (r: Result<(), LowerError>)
    ensures
        function_locals(*final(func)) == function_locals(*old(func)),
        !seq_has_return(instrs@) ==> r is Ok && function_body(*final(func)) == function_body(*old(func))
            + lower_seq(instrs@),
        seq_has_return(instrs@) ==> r == Err::<(), LowerError>(LowerError::MissingReturn),
    decreases instrs@,
{
    let mut i: usize = 0;
    while i < instrs.len()
        invariant
            i <= instrs@.len(),
            function_locals(*func) == function_locals(*old(func)),
            !seq_has_return(instrs@.take(i as int)),
            function_body(*func) == function_body(*old(func)) + lower_seq(instrs@.take(i as int)),
        decreases instrs.len() - i,
    {
        let instr = &instrs[i];
        let ghost prev = function_body(*func);
        proof {
            let t = instrs@.take(i + 1);
            assert(t.drop_last() =~= instrs@.take(i as int));
            assert(t.last() == *instr);
        }
        match instr {
            Instr::Block { result, body } => {
                proof {
                    assert(decreases_to!(instrs@ => instrs@[i as int]));
                    assert(decreases_to!(instrs@ => body@));
                }
                function_instruction(func, &WasmOp::Block(*result));
                let inner = lower_instr_list(body.as_slice(), func);
                if inner.is_err() {
                    proof {
                        assert(seq_has_return(body@));
                        assert(instr_has_return(*instr));
                        assert(seq_has_return(instrs@.take(i + 1)));
                        lemma_has_return_prefix(instrs@, i as int + 1);
                    }
                    return inner;
                }
                function_instruction(func, &WasmOp::End);
                proof {
                    assert(function_body(*func) =~= prev + lower_one(*instr));
                    assert(!instr_has_return(*instr));
                    assert(!seq_has_return(instrs@.take(i + 1)));
                }
            },
            Instr::IfElse { result, then_body, else_body } => {
                proof {
                    assert(decreases_to!(instrs@ => instrs@[i as int]));
                    assert(decreases_to!(instrs@ => then_body@));
                    assert(decreases_to!(instrs@ => else_body@));
                }
                function_instruction(func, &WasmOp::If(*result));
                let a = lower_instr_list(then_body.as_slice(), func);
                if a.is_err() {
                    proof {
                        assert(seq_has_return(then_body@));
                        assert(instr_has_return(*instr));
                        assert(seq_has_return(instrs@.take(i + 1)));
                        lemma_has_return_prefix(instrs@, i as int + 1);
                    }
                    return a;
                }
                function_instruction(func, &WasmOp::Else);
                let b = lower_instr_list(else_body.as_slice(), func);
                if b.is_err() {
                    proof {
                        assert(seq_has_return(else_body@));
                        assert(instr_has_return(*instr));
                        assert(seq_has_return(instrs@.take(i + 1)));
                        lemma_has_return_prefix(instrs@, i as int + 1);
                    }
                    return b;
                }
                function_instruction(func, &WasmOp::End);
                proof {
                    assert(function_body(*func) =~= prev + lower_one(*instr));
                    assert(!instr_has_return(*instr));
                    assert(!seq_has_return(instrs@.take(i + 1)));
                }
            },
            Instr::Return => {
                proof {
                    assert(instr_has_return(*instr));
                    assert(seq_has_return(instrs@.take(i + 1)));
                    lemma_has_return_prefix(instrs@, i as int + 1);
                }
                return Err(LowerError::MissingReturn);
            },
            _ => {
                let op = flat_op(instr);
                function_instruction(func, &op);
                proof {
                    assert(function_body(*func) =~= prev + lower_one(*instr));
                    assert(!instr_has_return(*instr));
                    assert(!seq_has_return(instrs@.take(i + 1)));
                }
            },
        }
        i = i + 1;
    }
    proof {
        assert(instrs@.take(instrs@.len() as int) =~= instrs@);
    }
    Ok(())
}

/// A `return` in a prefix of `s` is a `return` in `s`.
proof fn lemma_has_return_prefix(s: Seq<Instr>, k: int)
    requires
        0 <= k <= s.len(),
        seq_has_return(s.take(k)),
    ensures
        seq_has_return(s),
    decreases s.len() - k,
{
    if k < s.len() {
        let t = s.take(k + 1);
        assert(t.drop_last() =~= s.take(k));
        lemma_has_return_prefix(s, k + 1);
    } else {
        assert(s.take(k) =~= s);
    }
}

/// Validates `module`, then lowers it to Wasm bytes.
pub fn lower_module(module: &Module) -> (r: Result<Vec<u8>, LowerError>)
    ensures
        match spec_validate_module(*module) {
            Err(e) => r matches Err(LowerError::Validation(e2)) && same_error(e2, e),
            Ok(()) => r matches Ok(bytes) && bytes@ == lowered_bytes(*module),
        },
        r matches Ok(bytes) ==> bytes@.len() >= 8 && bytes@.take(8) == wasm_header(),
{
    match validate_module(module) {
        Ok(()) => {},
        Err(e) => {
            return Err(LowerError::Validation(e));
        },
    }
    let sig = &module.func.sig;
    let locals = module.func.locals.as_slice();
    proof {
        crate::laws::law_valid_module_within_limits(*module);
        lemma_local_groups_len(locals@);
    }
    let local_groups = wasm_local_groups(locals);
    let mut func = function_new(&local_groups);
    let body = &module.func.body;
    if body.len() == 0 {
        return Err(LowerError::MissingReturn);
    }
    if !matches!(body[body.len() - 1], Instr::Return) {
        return Err(LowerError::MissingReturn);
    }
    let main = body.as_slice().split_at(body.len() - 1).0;
    proof {
        assert(main@ =~= body@.drop_last());
        lemma_valid_body_no_return(*module);
    }
    match lower_instr_list(main, &mut func) {
        Ok(()) => {},
        Err(e) => {
            return Err(e);
        },
    }
    function_instruction(&mut func, &WasmOp::Return);
    function_instruction(&mut func, &WasmOp::End);
    proof {
        assert(function_body(func) =~= lower_seq(body@.drop_last()) + seq![WasmOp::Return, WasmOp::End]);
        lemma_lowered_len(body@.drop_last());
        assert(tree_count(body@) == tree_count(body@.drop_last()) + node_count(body@.last()));
        assert(function_body(func).len() <= 3 * 4096 + 2);
        assert(function_locals(func).len() <= 64);
    }
    let name = module.export_name.as_str();
    assert(name@ == module.export_name@);
    let name_bytes = name.as_bytes();
    let name_len: usize = name_bytes.len();
    assert(name_len as int == encode_utf8(name@).len());
    Ok(encode_module(&sig.params, &sig.results, name, &func))
}

/// Lowering takes at most three Wasm instructions per instruction node.
proof fn lemma_lowered_len(s: Seq<Instr>)
    ensures
        lower_seq(s).len() <= 3 * tree_count(s),
    decreases s,
{
    if s.len() > 0 {
        lemma_lowered_len(s.drop_last());
        lemma_lowered_one_len(s.last());
    }
}

proof fn lemma_lowered_one_len(i: Instr)
    ensures
        lower_one(i).len() <= 3 * node_count(i),
    decreases i,
{
    match i {
        Instr::Block { body, .. } => lemma_lowered_len(body@),
        Instr::IfElse { then_body, else_body, .. } => {
            lemma_lowered_len(then_body@);
            lemma_lowered_len(else_body@);
        },
        _ => {},
    }
}

/// There are at most as many local groups as locals.
proof fn lemma_local_groups_len(l: Seq<ValType>)
    ensures
        local_groups(l).len() <= l.len(),
    decreases l.len(),
{
    if l.len() > 0 {
        lemma_local_groups_len(l.drop_last());
    }
}

/// A valid module's body, without its final `return`, holds no `return`.
pub proof fn lemma_valid_body_no_return(m: Module)
    requires
        spec_validate_module(m) is Ok,
    ensures
        m.func.body@.len() > 0,
        m.func.body@.last() is Return,
        !seq_has_return(m.func.body@.drop_last()),
{
    let p = m.func.sig.params@;
    let d = m.func.locals@;
    let total = (p.len() + d.len()) as u32;
    assert(spec_validate_func(p, m.func.sig.results@, d, m.func.body@) is Ok);
    lemma_seq_ok_no_return(m.func.body@.drop_last(), Seq::empty(), p, d, total, 0);
}

/// `return` in `s` splits into one in the head or one in the rest.
proof fn lemma_has_return_first(s: Seq<Instr>)
    requires
        s.len() > 0,
    ensures
        seq_has_return(s) == (instr_has_return(s[0]) || seq_has_return(s.drop_first())),
    decreases s.len(),
{
    let dl = s.drop_last();
    let df = s.drop_first();
    if s.len() > 1 {
        lemma_has_return_first(dl);
        assert(dl.drop_first() =~= df.drop_last());
        assert(dl[0] == s[0]);
        assert(df.last() == s.last());
        assert(seq_has_return(s) == (seq_has_return(dl) || instr_has_return(s.last())));
        assert(seq_has_return(df) == (seq_has_return(df.drop_last()) || instr_has_return(df.last())));
    } else {
        assert(dl.len() == 0);
        assert(df.len() == 0);
        assert(s.last() == s[0]);
        assert(!seq_has_return(dl));
        assert(!seq_has_return(df));
    }
}

/// An instruction list that type-checks holds no `return`.
proof fn lemma_seq_ok_no_return(
    s: Seq<Instr>,
    stack: Seq<ValType>,
    params: Seq<ValType>,
    decl: Seq<ValType>,
    total: u32,
    depth: nat,
)
    requires
        spec_seq(s, stack, params, decl, total, depth) is Ok,
    ensures
        !seq_has_return(s),
    decreases s,
{
    if s.len() > 0 {
        lemma_has_return_first(s);
        let r = spec_instr(s[0], stack, params, decl, total, depth);
        lemma_instr_ok_no_return(s[0], stack, params, decl, total, depth);
        lemma_seq_ok_no_return(s.drop_first(), r->Ok_0, params, decl, total, depth);
    }
}

/// An instruction that type-checks holds no `return`.
proof fn lemma_instr_ok_no_return(
    i: Instr,
    stack: Seq<ValType>,
    params: Seq<ValType>,
    decl: Seq<ValType>,
    total: u32,
    depth: nat,
)
    requires
        spec_instr(i, stack, params, decl, total, depth) is Ok,
    ensures
        !instr_has_return(i),
    decreases i,
{
    match i {
        Instr::Block { result, body } => {
            lemma_seq_ok_no_return(body@, stack, params, decl, total, depth + 1);
        },
        Instr::IfElse { result, then_body, else_body } => {
            let s0 = crate::validate::spec_pop(stack, ValType::I32, i)->Ok_0;
            lemma_seq_ok_no_return(then_body@, s0, params, decl, total, depth + 1);
            lemma_seq_ok_no_return(else_body@, s0, params, decl, total, depth + 1);
        },
        _ => {},
    }
}

} // verus!
