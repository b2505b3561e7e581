//! Verifier-driven refinement over Program IR: random mutation search, each candidate checked
//! by validation and then by running its Wasm lowering against input/output cases.
//!
//! The random numbers come from `rand`'s `StdRng`; what each mutation does with them, what a
//! trial may differ from the starting module by, and when a search ends are verified here.
use vstd::prelude::*;
use rand::rngs::StdRng;
use rand::{Rng, SeedableRng};
use crate::ast::{models, same_module, Func, FuncSig, Instr, Module, ValType, PROGRAM_IR_VERSION};
use crate::exec::{i32_args, CallRecord, CompiledModule, InvokeSession, Limits, RunError, WasmScalar};
use crate::diagnostics::str_eq;
use crate::lower::{lower_module, lowered_bytes, LowerError};
use crate::text::{decimal, push_decimal, push_signed_decimal, signed_decimal};
use crate::validate::{same_error, spec_validate_module, valid_module, validate_module, ValidationError};
use crate::render::spec_message;

verus! {

/// One input/output case: the arguments and the `i32` the export must return.
#[derive(Clone, Debug, PartialEq, Eq)]
pub struct SpecCase {
    pub args: Vec<i32>,
    pub expect_i32: i32,
}

/// Behavioral spec for refinement: input/output cases only.
#[derive(Clone, Debug, PartialEq, Eq)]
pub struct Spec {
    pub cases: Vec<SpecCase>,
}

/// Why a refinement or a spec check failed.
#[derive(Debug, PartialEq, Eq)]
pub enum RefineError {
    EmptySpec,
    /// The starting module does not validate.
    Invalid(ValidationError),
    Lower(LowerError),
    Compile(RunError),
    Instantiate(RunError),
    /// Case `case` could not be run.
    Invoke { case: usize, error: RunError },
    /// Case `case` returned `got` where `expected` was due.
    Mismatch { case: usize, expected: i32, got: i32 },
    /// No candidate passed within `steps` steps.
    Exhausted { steps: usize, cases: usize },
}

#[verifier::external_type_specification]
#[verifier::external_body]
pub struct ExStdRng(StdRng);

/// `StdRng::seed_from_u64`: a generator whose stream is fixed by `seed`.
#[verifier::external_body]
fn seeded_rng(seed: u64) -> StdRng {
    StdRng::seed_from_u64(seed)
}

/// `Rng::random_range(0..n)`: a uniformly drawn index below `n` (`n` must be positive).
#[verifier::external_body]
fn random_index(rng: &mut StdRng, n: usize) -> (r: usize)
    requires
        0 < n,
    ensures
        r < n,
{
    rng.random_range(0..n)
}

/// `Rng::random::<i32>()`: a uniformly drawn `i32`.
#[verifier::external_body]
fn random_i32(rng: &mut StdRng) -> i32 {
    rng.random::<i32>()
}

/// The four `i32` binary operators the search swaps between.
pub open spec fn is_i32_binop(i: Instr) -> bool {
    i is I32Add || i is I32Sub || i is I32Mul || i is I32Xor
}

/// Candidate bodies for a signature: `a op b` for two `i32` parameters, two constants for none,
/// the identity for one; nothing for any other signature or a non-`i32` result.
pub open spec fn spec_templates(params: Seq<ValType>, results: Seq<ValType>) -> Seq<Seq<Instr>> {
    let get0 = Instr::LocalGet { index: 0 };
    let get1 = Instr::LocalGet { index: 1 };
    if results != seq![ValType::I32] {
        Seq::empty()
    } else if params.len() == 2 {
        seq![
            seq![get0, get1, Instr::I32Add, Instr::Return],
            seq![get0, get1, Instr::I32Sub, Instr::Return],
            seq![get0, get1, Instr::I32Mul, Instr::Return],
            seq![get0, get1, Instr::I32Xor, Instr::Return],
        ]
    } else if params.len() == 0 {
        seq![seq![Instr::I32Const { value: 0 }, Instr::Return], seq![Instr::I32Const { value: 42 }, Instr::Return]]
    } else if params.len() == 1 {
        seq![seq![get0, Instr::Return]]
    } else {
        Seq::empty()
    }
}

/// `s` with the elements at `i` and `i + 1` exchanged.
pub open spec fn swap_adjacent(s: Seq<Instr>, i: int) -> Seq<Instr> {
    s.update(i, s[i + 1]).update(i + 1, s[i])
}

/// Whether the mutation of kind `kind` applies to `before`: kind 0 when the signature has a
/// template body, kind 1 (exchange two adjacent instructions) and kind 3 (remove one) when the
/// body has three instructions or more, kind 2 when it holds an `i32` operator, and the last
/// kind when it holds an `i32` constant.
pub open spec fn mutation_applies(kind: int, params: Seq<ValType>, results: Seq<ValType>, before: Seq<Instr>) -> bool {
    if kind == 0 {
        spec_templates(params, results).len() > 0
    } else if kind == 1 {
        before.len() >= 3
    } else if kind == 2 {
        exists|i: int| 0 <= i < before.len() && is_i32_binop(#[trigger] before[i])
    } else if kind == 3 {
        before.len() > 2
    } else {
        exists|i: int| 0 <= i < before.len() && (#[trigger] before[i]) is I32Const
    }
}

/// `after` is `before` changed by one mutation of kind `kind`: a template body for the
/// signature (kind 0), two adjacent instructions exchanged, not the last (kind 1), one `i32`
/// operator replaced by another (kind 2), one instruction other than the last removed from a
/// body of three or more (kind 3), or one `i32` constant given a new value (the last kind).
pub open spec fn mutation_of_kind(
    kind: int,
    params: Seq<ValType>,
    results: Seq<ValType>,
    before: Seq<Instr>,
    after: Seq<Instr>,
) -> bool {
    if kind == 0 {
        exists|k: int| 0 <= k < spec_templates(params, results).len() && after == #[trigger] spec_templates(params, results)[k]
    } else if kind == 1 {
        before.len() >= 3 && exists|i: int| 0 <= i < before.len() - 2 && after == #[trigger] swap_adjacent(before, i)
    } else if kind == 2 {
        exists|i: int, b: Instr|
            0 <= i < before.len() && is_i32_binop(before[i]) && is_i32_binop(b) && b != before[i] && after
                == #[trigger] before.update(i, b)
    } else if kind == 3 {
        before.len() > 2 && exists|i: int| 0 <= i < before.len() - 1 && after == #[trigger] before.remove(i)
    } else {
        exists|i: int, v: i32|
            0 <= i < before.len() && before[i] is I32Const && after == #[trigger] before.update(
                i,
                Instr::I32Const { value: v },
            )
    }
}

/// `after` is `before` changed by one mutation of the search, of one of the five kinds (see
/// [`mutation_of_kind`]).
pub open spec fn mutation_step(params: Seq<ValType>, results: Seq<ValType>, before: Seq<Instr>, after: Seq<Instr>) -> bool {
    exists|kind: int| 0 <= kind < 5 && #[trigger] mutation_of_kind(kind, params, results, before, after)
}

/// `b` keeps everything of `a` but the function body.
pub open spec fn same_frame(a: Module, b: Module) -> bool {
    &&& a.program_ir_version == b.program_ir_version
    &&& a.export_name@ == b.export_name@
    &&& a.func.sig.params@ == b.func.sig.params@
    &&& a.func.sig.results@ == b.func.sig.results@
    &&& a.func.locals@ == b.func.locals@
}

/// Candidate bodies for a signature (see [`spec_templates`]).
pub fn body_templates(sig: &FuncSig) -> (r: Vec<Vec<Instr>>)
    ensures
        r@.len() == spec_templates(sig.params@, sig.results@).len(),
        forall|k: int| 0 <= k < r@.len() ==> (#[trigger] r@[k])@ == spec_templates(sig.params@, sig.results@)[k],
{
    let mut out: Vec<Vec<Instr>> = Vec::new();
    let i32_result = sig.results.len() == 1 && sig.results[0] == ValType::I32;
    proof {
        assert(i32_result == (sig.results@ =~= seq![ValType::I32]));
    }
    if i32_result && sig.params.len() == 2 {
        out.push(vec![Instr::LocalGet { index: 0 }, Instr::LocalGet { index: 1 }, Instr::I32Add, Instr::Return]);
        out.push(vec![Instr::LocalGet { index: 0 }, Instr::LocalGet { index: 1 }, Instr::I32Sub, Instr::Return]);
        out.push(vec![Instr::LocalGet { index: 0 }, Instr::LocalGet { index: 1 }, Instr::I32Mul, Instr::Return]);
        out.push(vec![Instr::LocalGet { index: 0 }, Instr::LocalGet { index: 1 }, Instr::I32Xor, Instr::Return]);
    } else if i32_result && sig.params.len() == 0 {
        out.push(vec![Instr::I32Const { value: 0 }, Instr::Return]);
        out.push(vec![Instr::I32Const { value: 42 }, Instr::Return]);
    } else if i32_result && sig.params.len() == 1 {
        out.push(vec![Instr::LocalGet { index: 0 }, Instr::Return]);
    }
    out
}

/// A minimal wrong module for two `i32` parameters: it subtracts where `run` should add.
pub fn wrong_sub_add_signature() -> (m: Module)
    ensures
        m.program_ir_version == PROGRAM_IR_VERSION,
        m.export_name@ == "run"@,
        m.func.sig.params@ == seq![ValType::I32, ValType::I32],
        m.func.sig.results@ == seq![ValType::I32],
        m.func.locals@.len() == 0,
        m.func.body@ == seq![
            Instr::LocalGet { index: 0 },
            Instr::LocalGet { index: 1 },
            Instr::I32Sub,
            Instr::Return,
        ],
{
    Module {
        program_ir_version: PROGRAM_IR_VERSION,
        export_name: "run".to_string(),
        func: Func {
            sig: FuncSig { params: vec![ValType::I32, ValType::I32], results: vec![ValType::I32] },
            locals: Vec::new(),
            body: vec![Instr::LocalGet { index: 0 }, Instr::LocalGet { index: 1 }, Instr::I32Sub, Instr::Return],
        },
    }
}

fn binop_at(i: &Instr) -> (r: bool)
    ensures
        r == is_i32_binop(*i),
{
    match i {
        Instr::I32Add | Instr::I32Sub | Instr::I32Mul | Instr::I32Xor => true,
        _ => false,
    }
}

fn i32_const_at(i: &Instr) -> (r: bool)
    ensures
        r == (*i is I32Const),
{
    match i {
        Instr::I32Const { .. } => true,
        _ => false,
    }
}

/// Random mutation search over valid Program IR, checked by running the lowered Wasm.
pub struct RandomIrRefiner {
    seed: u64,
}

impl RandomIrRefiner {
    /// A search whose random stream is fixed by `seed`.
    pub fn new(seed: u64) -> (r: Self)
        ensures
            r.seed() == seed,
    {
        RandomIrRefiner { seed }
    }

    /// The seed of the search's random stream.
    pub closed spec fn seed(&self) -> u64 {
        self.seed
    }

    /// Replaces the body by a template for the signature, if there is one.
    fn mutate_restart_template(rng: &mut StdRng, module: &mut Module) -> (changed: bool)
        ensures
            same_frame(*final(module), *old(module)),
            !changed ==> final(module).func.body@ == old(module).func.body@,
            changed <==> spec_templates(old(module).func.sig.params@, old(module).func.sig.results@).len() > 0,
            changed ==> mutation_of_kind(0, old(module).func.sig.params@, old(module).func.sig.results@, old(module).func.body@, final(module).func.body@),
    {
        let mut templates = body_templates(&module.func.sig);
        if templates.len() == 0 {
            return false;
        }
        let idx = random_index(rng, templates.len());
        module.func.body = templates.remove(idx);
        proof {
            assert(module.func.body@ == spec_templates(module.func.sig.params@, module.func.sig.results@)[idx as int]);
        }
        true
    }

    /// Exchanges two adjacent instructions before the last one (bodies of three or more).
    fn mutate_swap_adjacent(rng: &mut StdRng, module: &mut Module) -> (changed: bool)
        ensures
            same_frame(*final(module), *old(module)),
            !changed ==> final(module).func.body@ == old(module).func.body@,
            changed <==> old(module).func.body@.len() >= 3,
            changed ==> mutation_of_kind(1, old(module).func.sig.params@, old(module).func.sig.results@, old(module).func.body@, final(module).func.body@),
    {
        let n = module.func.body.len();
        if n < 3 {
            return false;
        }
        let i = random_index(rng, n - 2);
        let ghost before = module.func.body@;
        let x = module.func.body.remove(i);
        module.func.body.insert(i + 1, x);
        proof {
            assert(module.func.body@ =~= swap_adjacent(before, i as int));
        }
        true
    }

    /// Replaces one `i32` binary operator of the body by another.
    fn mutate_replace_binop(rng: &mut StdRng, module: &mut Module) -> (changed: bool)
        ensures
            same_frame(*final(module), *old(module)),
            !changed ==> final(module).func.body@ == old(module).func.body@,
            changed <==> exists|i: int|
                0 <= i < old(module).func.body@.len() && is_i32_binop(#[trigger] old(module).func.body@[i]),
            changed ==> mutation_of_kind(2, old(module).func.sig.params@, old(module).func.sig.results@, old(module).func.body@, final(module).func.body@),
    {
        let ghost before = module.func.body@;
        let mut candidates: Vec<usize> = Vec::new();
        let mut j: usize = 0;
        while j < module.func.body.len()
            invariant
                module.func.body@ == before,
                j <= before.len(),
                forall|k: int| 0 <= k < candidates@.len() ==> (#[trigger] candidates@[k]) < before.len()
                    && is_i32_binop(before[candidates@[k] as int]),
                forall|i: int| 0 <= i < j && is_i32_binop(#[trigger] before[i]) ==> candidates@.len() > 0,
            decreases before.len() - j,
        {
            if binop_at(&module.func.body[j]) {
                candidates.push(j);
            }
            j = j + 1;
        }
        if candidates.len() == 0 {
            return false;
        }
        let idx = candidates[random_index(rng, candidates.len())];
        let mut alts = binop_alternatives(&module.func.body[idx]);
        let pick = random_index(rng, alts.len());
        let b = alts.remove(pick);
        module.func.body.set(idx, b);
        proof {
            assert(module.func.body@ == before.update(idx as int, b));
        }
        true
    }

    /// Removes one instruction other than the last (bodies of three or more).
    fn mutate_remove_instr(rng: &mut StdRng, module: &mut Module) -> (changed: bool)
        ensures
            same_frame(*final(module), *old(module)),
            !changed ==> final(module).func.body@ == old(module).func.body@,
            changed <==> old(module).func.body@.len() > 2,
            changed ==> mutation_of_kind(3, old(module).func.sig.params@, old(module).func.sig.results@, old(module).func.body@, final(module).func.body@),
    {
        let n = module.func.body.len();
        if n <= 2 {
            return false;
        }
        let ghost before = module.func.body@;
        let idx = random_index(rng, n - 1);
        module.func.body.remove(idx);
        proof {
            assert(module.func.body@ == before.remove(idx as int));
        }
        true
    }

    /// Gives one `i32` constant of the body a new random value.
    fn mutate_change_i32_const(rng: &mut StdRng, module: &mut Module) -> (changed: bool)
        ensures
            same_frame(*final(module), *old(module)),
            !changed ==> final(module).func.body@ == old(module).func.body@,
            changed <==> exists|i: int|
                0 <= i < old(module).func.body@.len() && (#[trigger] old(module).func.body@[i]) is I32Const,
            changed ==> mutation_of_kind(4, old(module).func.sig.params@, old(module).func.sig.results@, old(module).func.body@, final(module).func.body@),
    {
        let ghost before = module.func.body@;
        let mut candidates: Vec<usize> = Vec::new();
        let mut j: usize = 0;
        while j < module.func.body.len()
            invariant
                module.func.body@ == before,
                j <= before.len(),
                forall|k: int| 0 <= k < candidates@.len() ==> (#[trigger] candidates@[k]) < before.len()
                    && before[candidates@[k] as int] is I32Const,
                forall|i: int| 0 <= i < j && (#[trigger] before[i]) is I32Const ==> candidates@.len() > 0,
            decreases before.len() - j,
        {
            if i32_const_at(&module.func.body[j]) {
                candidates.push(j);
            }
            j = j + 1;
        }
        if candidates.len() == 0 {
            return false;
        }
        let idx = candidates[random_index(rng, candidates.len())];
        let value = random_i32(rng);
        module.func.body.set(idx, Instr::I32Const { value });
        proof {
            assert(module.func.body@ == before.update(idx as int, Instr::I32Const { value }));
        }
        true
    }

    /// One random mutation, chosen uniformly among the five kinds; `false` when the chosen kind
    /// does not apply to the body (which is then unchanged).
    fn try_mutation(rng: &mut StdRng, module: &mut Module) -> (changed: bool)
        ensures
            same_frame(*final(module), *old(module)),
            !changed ==> final(module).func.body@ == old(module).func.body@,
            exists|kind: int|
                0 <= kind < 5 && (#[trigger] mutation_applies(
                    kind,
                    old(module).func.sig.params@,
                    old(module).func.sig.results@,
                    old(module).func.body@,
                ) == changed) && (changed ==> mutation_of_kind(
                    kind,
                    old(module).func.sig.params@,
                    old(module).func.sig.results@,
                    old(module).func.body@,
                    final(module).func.body@,
                )),
            changed ==> mutation_step(old(module).func.sig.params@, old(module).func.sig.results@, old(module).func.body@, final(module).func.body@),
    {
        let ghost params = module.func.sig.params@;
        let ghost results = module.func.sig.results@;
        let ghost before = module.func.body@;
        let choice = random_index(rng, 5);
        let changed = if choice == 0 {
            Self::mutate_restart_template(rng, module)
        } else if choice == 1 {
            Self::mutate_swap_adjacent(rng, module)
        } else if choice == 2 {
            Self::mutate_replace_binop(rng, module)
        } else if choice == 3 {
            Self::mutate_remove_instr(rng, module)
        } else {
            Self::mutate_change_i32_const(rng, module)
        };
        let ghost kind: int = if choice < 4 { choice as int } else { 4 };
        assert(mutation_applies(kind, params, results, before) == changed);
        assert(changed ==> mutation_of_kind(kind, params, results, before, module.func.body@));
        changed
    }

    /// Searches for a module that passes every case of `spec`, starting from `initial` and
    /// trying up to `max_steps` mutations of it (each checked by validation, then by running
    /// its Wasm under `fuel`). The starting module is returned unchanged when it already passes.
    pub fn refine(&self, initial: &Module, spec: &Spec, fuel: u64, max_steps: usize) -> (r: Result<Module, RefineError>)
        ensures
            spec.cases@.len() == 0 ==> r == Err::<Module, RefineError>(RefineError::EmptySpec),
            spec.cases@.len() > 0 ==> (spec_validate_module(*initial) matches Err(e) ==> (r matches Err(
                RefineError::Invalid(e2),
            ) && same_error(e2, e))),
            r matches Ok(m) ==> valid_module(*initial) && valid_module(m) && same_frame(m, *initial) && (same_module(
                m,
                *initial,
            ) || (exists|before: Seq<Instr>|
                models(before) == models(initial.func.body@) && #[trigger] mutation_step(
                    initial.func.sig.params@,
                    initial.func.sig.results@,
                    before,
                    m.func.body@,
                ))),
            r matches Err(e) ==> (e is EmptySpec || e is Invalid || e == RefineError::Exhausted {
                steps: max_steps,
                cases: spec.cases@.len() as usize,
            }),
            r matches Err(RefineError::EmptySpec) ==> spec.cases@.len() == 0,
            r matches Err(RefineError::Invalid(e)) ==> spec.cases@.len() > 0 && (spec_validate_module(
                *initial,
            ) matches Err(e0) && same_error(e, e0)),
            r matches Err(RefineError::Exhausted { .. }) ==> spec.cases@.len() > 0 && valid_module(*initial),
            r matches Ok(m) ==> (same_module(m, *initial) || max_steps > 0),
            r matches Ok(m) ==> passes_cases(m, spec.cases@, fuel),
    {
        if spec.cases.len() == 0 {
            return Err(RefineError::EmptySpec);
        }
        match validate_module(initial) {
            Ok(()) => {},
            Err(e) => return Err(RefineError::Invalid(e)),
        }
        let mut rng = seeded_rng(self.seed);
        let mut cache = ModuleSpecCache::new();
        let current = initial.clone();
        if cache.satisfies(&current, spec, fuel, None).is_ok() {
            proof {
                crate::laws::law_validation_depends_on_structure(current, *initial);
                let s = cache.session()->0;
                assert(cases_passed_by(s.calls(), spec.cases@, fuel, None));
            }
            return Ok(current);
        }
        let mut step: usize = 0;
        while step < max_steps
            invariant
                cache.wf(),
                spec.cases@.len() > 0,
                same_module(current, *initial),
                valid_module(*initial),
            decreases max_steps - step,
        {
            let mut trial = current.clone();
            let ghost before = trial.func.body@;
            assert(same_frame(trial, *initial));
            if Self::try_mutation(&mut rng, &mut trial) {
                if validate_module(&trial).is_ok() {
                    if cache.satisfies(&trial, spec, fuel, None).is_ok() {
                        proof {
                            let s = cache.session()->0;
                            assert(cases_passed_by(s.calls(), spec.cases@, fuel, None));
                            assert(mutation_step(
                                initial.func.sig.params@,
                                initial.func.sig.results@,
                                before,
                                trial.func.body@,
                            ));
                        }
                        return Ok(trial);
                    }
                }
            }
            step = step + 1;
        }
        Err(RefineError::Exhausted { steps: max_steps, cases: spec.cases.len() })
    }
}

/// The three `i32` binary operators other than `b`, in the order add, sub, mul, xor.
fn binop_alternatives(b: &Instr) -> (r: Vec<Instr>)
    requires
        is_i32_binop(*b),
    ensures
        r@.len() == 3,
        forall|a: int| 0 <= a < r@.len() ==> is_i32_binop(#[trigger] r@[a]) && r@[a] != *b,
{
    match b {
        Instr::I32Add => vec![Instr::I32Sub, Instr::I32Mul, Instr::I32Xor],
        Instr::I32Sub => vec![Instr::I32Add, Instr::I32Mul, Instr::I32Xor],
        Instr::I32Mul => vec![Instr::I32Add, Instr::I32Sub, Instr::I32Xor],
        _ => vec![Instr::I32Add, Instr::I32Sub, Instr::I32Mul],
    }
}

/// A search over Program IR for a module that satisfies a behavioral spec.
pub trait ProgramRefiner {
    fn refine(&self, initial: &Module, spec: &Spec, fuel: u64, max_steps: usize) -> Result<Module, RefineError>;
}

impl ProgramRefiner for RandomIrRefiner {
    fn refine(&self, initial: &Module, spec: &Spec, fuel: u64, max_steps: usize) -> Result<Module, RefineError> {
        RandomIrRefiner::refine(self, initial, spec, fuel, max_steps)
    }
}

/// Checks modules against a spec, reusing the compiled module and its session while the
/// lowered bytes stay the same.
pub struct ModuleSpecCache {
    cached_wasm: Option<Vec<u8>>,
    session: Option<InvokeSession>,
}

/// The last `cases.len()` calls in `calls` ran the cases in order, each with its arguments as
/// `i32` scalars, under `fuel` and `wall_ms`, and each returned its expected `i32`.
pub open spec fn cases_passed_by(calls: Seq<CallRecord>, cases: Seq<SpecCase>, fuel: u64, wall_ms: Option<u64>) -> bool {
    &&& calls.len() >= cases.len()
    &&& forall|i: int|
        0 <= i < cases.len() ==> calls[calls.len() - cases.len() + i] == (
            i32_args((#[trigger] cases[i]).args@),
            fuel,
            wall_ms,
            Ok::<WasmScalar, RunError>(WasmScalar::I32(cases[i].expect_i32)),
        )
}

/// `m` passed `cases`: a session running `m`'s lowered bytes and export made each case's call,
/// in order, under `fuel` and no wall-clock cap, and each returned its expected `i32`.
pub open spec fn passes_cases(m: Module, cases: Seq<SpecCase>, fuel: u64) -> bool {
    exists|s: InvokeSession|
        s.source() == lowered_bytes(m) && s.export() == m.export_name@ && #[trigger] cases_passed_by(
            s.calls(),
            cases,
            fuel,
            None,
        )
}

impl ModuleSpecCache {
    /// The cached bytes always come with a session that runs them.
    pub closed spec fn wf(&self) -> bool {
        &&& self.cached_wasm is Some ==> (self.session matches Some(s) && s.source() == self.cached_wasm->0@)
        &&& self.session matches Some(s) ==> s.wf()
    }

    /// The bytes whose compiled session is cached, if any.
    pub closed spec fn cached(&self) -> Option<Seq<u8>> {
        match self.cached_wasm {
            Some(v) => Some(v@),
            None => None,
        }
    }

    /// The cached session, if any.
    pub closed spec fn session(&self) -> Option<InvokeSession> {
        self.session
    }

    /// An empty cache.
    pub fn new() -> (c: Self)
        ensures
            c.wf(),
            c.cached() is None,
    {
        ModuleSpecCache { cached_wasm: None, session: None }
    }

    /// Lowers `module` and runs every case of `spec` under `fuel` and `max_wall_ms`: `Ok` only
    /// when every case returns its expected value. Compiles again only when the lowered bytes
    /// (or the export) differ from the cached ones.
    pub fn satisfies(&mut self, module: &Module, spec: &Spec, fuel: u64, max_wall_ms: Option<u64>) -> (r: Result<
        (),
        RefineError,
    >)
        requires
            old(self).wf(),
        ensures
            final(self).wf(),
            spec_validate_module(*module) matches Err(e) ==> (r matches Err(RefineError::Lower(LowerError::Validation(e2)))
                && same_error(e2, e)),
            valid_module(*module) ==> !(r is Err && r->Err_0 is Lower),
            r is Ok ==> valid_module(*module) && final(self).cached() == Some(lowered_bytes(*module)),
            r is Ok ==> (final(self).session() matches Some(s) && s.source() == lowered_bytes(*module) && s.export()
                == module.export_name@ && cases_passed_by(s.calls(), spec.cases@, fuel, max_wall_ms)),
            r is Ok ==> (final(self).session() matches Some(s) && (s.calls().len() == spec.cases@.len() || (old(
                self,
            ).session() matches Some(o) && s.calls().len() == o.calls().len() + spec.cases@.len() && s.calls().take(
                o.calls().len() as int,
            ) == o.calls()))),
            r matches Err(RefineError::Mismatch { case, expected, got }) ==> case < spec.cases@.len() && expected
                == spec.cases@[case as int].expect_i32 && got != expected,
            r matches Err(RefineError::Invoke { case, error: _ }) ==> case < spec.cases@.len(),
            r matches Err(e) ==> !(e is EmptySpec || e is Invalid || e is Exhausted),
    {
        let wasm = match lower_module(module) {
            Ok(w) => w,
            Err(e) => return Err(RefineError::Lower(e)),
        };
        let fresh = match (&self.cached_wasm, &self.session) {
            (Some(c), Some(s)) => !bytes_equal(c, &wasm) || !str_eq(s.export_name(), module.export_name.as_str()),
            _ => true,
        };
        if fresh {
            let compiled = match CompiledModule::new(wasm.as_slice()) {
                Ok(c) => c,
                Err(e) => return Err(RefineError::Compile(e)),
            };
            let session = match compiled.prepare_invoke(module.export_name.as_str()) {
                Ok(s) => s,
                Err(e) => return Err(RefineError::Instantiate(e)),
            };
            self.session = Some(session);
            self.cached_wasm = Some(wasm);
        }
        let limits = Limits { fuel, max_wall_ms };
        let n = spec.cases.len();
        let mut session = match self.session.take() {
            Some(s) => s,
            None => {
                proof {
                    assert(false);
                }
                return Ok(());
            },
        };
        let ghost base = session.calls().len();
        let ghost start = session.calls();
        assert(fresh ==> base == 0);
        assert(!fresh ==> start == old(self).session->0.calls());
        assert(session.source() == lowered_bytes(*module));
        assert(session.export() == module.export_name@);
        let mut i: usize = 0;
        while i < n
            invariant
                n == spec.cases@.len(),
                i <= n,
                self.cached() == Some(lowered_bytes(*module)),
                self.cached_wasm is Some,
                valid_module(*module),
                session.source() == lowered_bytes(*module),
                session.export() == module.export_name@,
                session.wf(),
                session.calls().len() == base + i,
                session.calls().take(base as int) == start,
                start.len() == base,
                forall|j: int|
                    0 <= j < i ==> session.calls()[base + j] == (
                        i32_args((#[trigger] spec.cases@[j]).args@),
                        fuel,
                        max_wall_ms,
                        Ok::<WasmScalar, RunError>(WasmScalar::I32(spec.cases@[j].expect_i32)),
                    ),
                limits.fuel == fuel,
                limits.max_wall_ms == max_wall_ms,
            decreases n - i,
        {
            let case = &spec.cases[i];
            let ghost before = session.calls();
            let got = match session.invoke_i32_return(case.args.as_slice(), limits) {
                Ok(v) => v,
                Err(error) => {
                    self.session = Some(session);
                    return Err(RefineError::Invoke { case: i, error });
                },
            };
            if got != case.expect_i32 {
                self.session = Some(session);
                return Err(RefineError::Mismatch { case: i, expected: case.expect_i32, got });
            }
            proof {
                assert(session.calls().take(base as int) =~= session.calls().drop_last().take(base as int));
                let last = session.calls().last();
                assert(last.3 == Ok::<WasmScalar, RunError>(WasmScalar::I32(got)));
                assert forall|j: int| 0 <= j < i + 1 implies session.calls()[base + j] == (
                    i32_args((#[trigger] spec.cases@[j]).args@),
                    fuel,
                    max_wall_ms,
                    Ok::<WasmScalar, RunError>(WasmScalar::I32(spec.cases@[j].expect_i32)),
                ) by {
                    if j < i {
                        assert(session.calls()[base + j] == session.calls().drop_last()[base + j]);
                    }
                }
            }
            i = i + 1;
        }
        self.session = Some(session);
        proof {
            let calls = self.session->0.calls();
            assert forall|j: int| 0 <= j < spec.cases@.len() implies calls[calls.len() - spec.cases@.len() + j] == (
                i32_args((#[trigger] spec.cases@[j]).args@),
                fuel,
                max_wall_ms,
                Ok::<WasmScalar, RunError>(WasmScalar::I32(spec.cases@[j].expect_i32)),
            ) by {
                assert(calls.len() - spec.cases@.len() + j == base + j);
            }
        }
        Ok(())
    }
}

/// Whether two byte strings are equal.
pub fn bytes_equal(a: &Vec<u8>, b: &Vec<u8>) -> (r: bool)
    ensures
        r == (a@ == b@),
{
    if a.len() != b.len() {
        return false;
    }
    let mut i: usize = 0;
    while i < a.len()
        invariant
            a@.len() == b@.len(),
            i <= a@.len(),
            forall|k: int| 0 <= k < i ==> a@[k] == b@[k],
        decreases a@.len() - i,
    {
        if a[i] != b[i] {
            return false;
        }
        i = i + 1;
    }
    assert(a@ =~= b@);
    true
}

/// The message of a refinement error.
pub open spec fn refine_message(e: RefineError) -> Seq<char> {
    match e {
        RefineError::EmptySpec => "spec must contain at least one case"@,
        RefineError::Invalid(v) => spec_message(v),
        RefineError::Lower(_) => "lower module to wasm"@,
        RefineError::Compile(_) => "compile wasm"@,
        RefineError::Instantiate(_) => "instantiate wasm export"@,
        RefineError::Invoke { case, error: _ } => "invoke case "@ + decimal(case as nat),
        RefineError::Mismatch { case, expected, got } => "case "@ + decimal(case as nat) + ": expected "@
            + signed_decimal(expected as int) + ", got "@ + signed_decimal(got as int),
        RefineError::Exhausted { steps, cases } => "refinement exhausted "@ + decimal(steps as nat)
            + " steps without satisfying "@ + decimal(cases as nat) + " case(s)"@,
    }
}

impl RefineError {
    /// The message of this error (the step that failed; its cause is carried in the value).
    pub fn message(&self) -> (r: String)
        ensures
            r@ == refine_message(*self),
    {
        let mut out = String::new();
        match self {
            RefineError::EmptySpec => out.append("spec must contain at least one case"),
            RefineError::Invalid(v) => {
                let m = v.message();
                out.append(m.as_str());
            },
            RefineError::Lower(_) => out.append("lower module to wasm"),
            RefineError::Compile(_) => out.append("compile wasm"),
            RefineError::Instantiate(_) => out.append("instantiate wasm export"),
            RefineError::Invoke { case, error: _ } => {
                out.append("invoke case ");
                push_decimal(&mut out, *case as u64);
            },
            RefineError::Mismatch { case, expected, got } => {
                out.append("case ");
                push_decimal(&mut out, *case as u64);
                out.append(": expected ");
                push_signed_decimal(&mut out, *expected as i64);
                out.append(", got ");
                push_signed_decimal(&mut out, *got as i64);
            },
            RefineError::Exhausted { steps, cases } => {
                out.append("refinement exhausted ");
                push_decimal(&mut out, *steps as u64);
                out.append(" steps without satisfying ");
                push_decimal(&mut out, *cases as u64);
                out.append(" case(s)");
            },
        }
        assert(out@ =~= refine_message(*self));
        out
    }
}

} // verus!
