//! Program IR v2: a single exported function over Wasm scalar types with structured control.
//!
//! Floating-point constants are carried as their IEEE-754 bit patterns (`bits`), so the IR is
//! exact and comparable without any floating-point arithmetic.
use vstd::prelude::*;

verus! {

/// Program IR schema version (must match the `program_ir_version` field of every module).
pub const PROGRAM_IR_VERSION: u32 = 2;

/// Wasm scalar value types.
#[derive(Clone, Copy, Debug, PartialEq, Eq, Hash, Structural)]
pub enum ValType {
    I32,
    I64,
    F32,
    F64,
}

/// Function signature: parameter and result types.
#[derive(Debug, PartialEq, Eq)]
pub struct FuncSig {
    pub params: Vec<ValType>,
    pub results: Vec<ValType>,
}

/// One Program IR instruction.
#[derive(Debug, PartialEq, Eq)]
pub enum Instr {
    /// Push constant i32.
    I32Const { value: i32 },
    /// Push constant i64.
    I64Const { value: i64 },
    /// IEEE-754 `f32` constant, given by its bit pattern.
    F32Const { bits: u32 },
    /// IEEE-754 `f64` constant, given by its bit pattern.
    F64Const { bits: u64 },
    I32Add,
    I32Sub,
    I32Mul,
    /// Bitwise XOR on two i32 values.
    I32Xor,
    /// Equal (`i32,i32` -> `i32`): result is 1 or 0.
    I32Eq,
    /// Equals zero (`i32` -> `i32`).
    I32Eqz,
    I32TruncF32S,
    F32ConvertI32S,
    F32Add,
    F32Sub,
    F32Mul,
    F32Div,
    /// Float greater-than (`f32`,`f32` -> `i32`).
    F32Gt,
    F64Add,
    F64Sub,
    F64Mul,
    F64Div,
    /// Drop top stack value.
    Drop,
    LocalGet { index: u32 },
    LocalSet { index: u32 },
    /// Structured block (`block ... end`).
    Block { result: Option<ValType>, body: Vec<Instr> },
    /// Conditional (`if ... else ... end`); pops an `i32` condition (0 = else branch).
    IfElse { result: Option<ValType>, then_body: Vec<Instr>, else_body: Vec<Instr> },
    /// Unconditional return; allowed only as the last instruction of the function body.
    Return,
}

/// The single exported function of a module.
#[derive(Debug, PartialEq, Eq)]
pub struct Func {
    pub sig: FuncSig,
    /// Locals declared after parameters (Wasm ordering).
    pub locals: Vec<ValType>,
    pub body: Vec<Instr>,
}

/// A Program IR module.
#[derive(Debug, PartialEq, Eq)]
pub struct Module {
    /// Schema version for forwards-compatible tooling.
    pub program_ir_version: u32,
    /// Exported Wasm function name (single export).
    pub export_name: String,
    pub func: Func,
}

/// Structural model of an instruction: nested bodies become sequences of models, every other
/// instruction stands for itself. Two instructions with equal models are the same program text.
pub enum InstrModel {
    Flat(Instr),
    Block(Option<ValType>, Seq<InstrModel>),
    IfElse(Option<ValType>, Seq<InstrModel>, Seq<InstrModel>),
}

/// Model of an instruction sequence.
pub open spec fn models(s: Seq<Instr>) -> Seq<InstrModel>
    decreases s,
{
    if s.len() == 0 {
        Seq::empty()
    } else {
        seq![model(s[0])] + models(s.drop_first())
    }
}

/// Model of one instruction.
pub open spec fn model(i: Instr) -> InstrModel
    decreases i,
{
    match i {
        Instr::Block { result, body } => InstrModel::Block(result, models(body@)),
        Instr::IfElse { result, then_body, else_body } => InstrModel::IfElse(
            result,
            models(then_body@),
            models(else_body@),
        ),
        _ => InstrModel::Flat(i),
    }
}

/// `i` has no nested body.
pub open spec fn is_flat(i: Instr) -> bool {
    !(i is Block) && !(i is IfElse)
}

pub proof fn lemma_models(s: Seq<Instr>)
    ensures
        models(s).len() == s.len(),
        forall|i: int| 0 <= i < s.len() ==> #[trigger] models(s)[i] == model(s[i]),
    decreases s.len(),
{
    if s.len() > 0 {
        lemma_models(s.drop_first());
        assert forall|i: int| 0 <= i < s.len() implies #[trigger] models(s)[i] == model(s[i]) by {
            if i > 0 {
                assert(s.drop_first()[i - 1] == s[i]);
            }
        }
    }
}

/// Two sequences whose elements have pairwise equal models have equal models.
pub proof fn lemma_models_pointwise(a: Seq<Instr>, b: Seq<Instr>)
    requires
        a.len() == b.len(),
        forall|i: int| 0 <= i < a.len() ==> model(#[trigger] a[i]) == model(b[i]),
    ensures
        models(a) == models(b),
{
    lemma_models(a);
    lemma_models(b);
    assert(models(a) =~= models(b));
}

/// Deep copy of an instruction sequence.
pub fn copy_instrs(v: &Vec<Instr>) -> (r: Vec<Instr>)
    ensures
        r@.len() == v@.len(),
        models(r@) == models(v@),
        forall|j: int| 0 <= j < v@.len() ==> model(#[trigger] r@[j]) == model(v@[j]),
    decreases v,
{
    let mut out: Vec<Instr> = Vec::new();
    let mut i: usize = 0;
    while i < v.len()
        invariant
            i <= v.len(),
            out@.len() == i,
            forall|j: int| 0 <= j < i ==> model(#[trigger] out@[j]) == model(v@[j]),
        decreases v.len() - i,
    {
        proof {
            assert(decreases_to!(v => v@[i as int]));
        }
        let c = copy_instr(&v[i]);
        out.push(c);
        i = i + 1;
    }
    proof {
        lemma_models_pointwise(out@, v@);
    }
    out
}

/// Deep copy of one instruction.
pub fn copy_instr(n: &Instr) -> (r: Instr)
    ensures
        model(r) == model(*n),
        is_flat(*n) ==> r == *n,
    decreases n,
{
    match n {
        Instr::I32Const { value } => Instr::I32Const { value: *value },
        Instr::I64Const { value } => Instr::I64Const { value: *value },
        Instr::F32Const { bits } => Instr::F32Const { bits: *bits },
        Instr::F64Const { bits } => Instr::F64Const { bits: *bits },
        Instr::I32Add => Instr::I32Add,
        Instr::I32Sub => Instr::I32Sub,
        Instr::I32Mul => Instr::I32Mul,
        Instr::I32Xor => Instr::I32Xor,
        Instr::I32Eq => Instr::I32Eq,
        Instr::I32Eqz => Instr::I32Eqz,
        Instr::I32TruncF32S => Instr::I32TruncF32S,
        Instr::F32ConvertI32S => Instr::F32ConvertI32S,
        Instr::F32Add => Instr::F32Add,
        Instr::F32Sub => Instr::F32Sub,
        Instr::F32Mul => Instr::F32Mul,
        Instr::F32Div => Instr::F32Div,
        Instr::F32Gt => Instr::F32Gt,
        Instr::F64Add => Instr::F64Add,
        Instr::F64Sub => Instr::F64Sub,
        Instr::F64Mul => Instr::F64Mul,
        Instr::F64Div => Instr::F64Div,
        Instr::Drop => Instr::Drop,
        Instr::LocalGet { index } => Instr::LocalGet { index: *index },
        Instr::LocalSet { index } => Instr::LocalSet { index: *index },
        Instr::Block { result, body } => Instr::Block { result: *result, body: copy_instrs(body) },
        Instr::IfElse { result, then_body, else_body } => Instr::IfElse {
            result: *result,
            then_body: copy_instrs(then_body),
            else_body: copy_instrs(else_body),
        },
        Instr::Return => Instr::Return,
    }
}

impl Clone for Instr {
    fn clone(&self) -> (r: Self)
        ensures
            model(r) == model(*self),
    {
        copy_instr(self)
    }
}

/// Copy of a value-type list.
pub fn copy_types(v: &[ValType]) -> (r: Vec<ValType>)
    ensures
        r@ == v@,
{
    let mut out: Vec<ValType> = Vec::new();
    let mut i: usize = 0;
    while i < v.len()
        invariant
            i <= v.len(),
            out@ == v@.take(i as int),
        decreases v.len() - i,
    {
        out.push(v[i]);
        i = i + 1;
        assert(out@ =~= v@.take(i as int));
    }
    assert(v@.take(v.len() as int) =~= v@);
    out
}

impl Clone for FuncSig {
    fn clone(&self) -> (r: Self)
        ensures
            r.params@ == self.params@,
            r.results@ == self.results@,
    {
        FuncSig { params: copy_types(self.params.as_slice()), results: copy_types(self.results.as_slice()) }
    }
}

impl Clone for Func {
    fn clone(&self) -> (r: Self)
        ensures
            r.sig.params@ == self.sig.params@,
            r.sig.results@ == self.sig.results@,
            r.locals@ == self.locals@,
            models(r.body@) == models(self.body@),
            r.body@.len() == self.body@.len(),
            forall|j: int| 0 <= j < self.body@.len() ==> model(#[trigger] r.body@[j]) == model(self.body@[j]),
    {
        Func { sig: self.sig.clone(), locals: copy_types(self.locals.as_slice()), body: copy_instrs(&self.body) }
    }
}

/// `a` and `b` denote the same module: equal fields, with instruction bodies compared by model.
pub open spec fn same_module(a: Module, b: Module) -> bool {
    &&& a.program_ir_version == b.program_ir_version
    &&& a.export_name@ == b.export_name@
    &&& a.func.sig.params@ == b.func.sig.params@
    &&& a.func.sig.results@ == b.func.sig.results@
    &&& a.func.locals@ == b.func.locals@
    &&& models(a.func.body@) == models(b.func.body@)
}

impl Clone for Module {
    fn clone(&self) -> (r: Self)
        ensures
            same_module(r, *self),
            r.func.body@.len() == self.func.body@.len(),
            forall|j: int| 0 <= j < self.func.body@.len() ==> model(#[trigger] r.func.body@[j]) == model(self.func.body@[j]),
    {
        Module {
            program_ir_version: self.program_ir_version,
            export_name: self.export_name.clone(),
            func: self.func.clone(),
        }
    }
}

} // verus!
