//! The command-line tool's rules on its inputs: case and spec limits, schema versions,
//! benchmark program paths, latent vector length, the lowered-Wasm budget, the defaults of a
//! benchmark manifest, evaluation tallies, and file digests.
use vstd::prelude::*;
use sha2::Digest;
use crate::ast::{Func, FuncSig, Instr, Module, ValType, PROGRAM_IR_VERSION};
use crate::bridge::EMBEDDING_DIM;
use crate::exec::MAX_WASM_BYTES;
use crate::limits::MAX_PARAMS;
use crate::oracle::{BenchCase, CheckSummary};
use crate::refine::Spec;
use crate::text::{decimal, push_decimal, text};

verus! {

/// Most cases a manifest or spec may hold.
pub const MAX_BENCH_CASES: usize = 10000;

/// Fuel of a manifest that names none.
pub const DEFAULT_MANIFEST_FUEL: u64 = 50000;

/// Fuel of a `check` run against a behavioral spec file.
pub const SPEC_CHECK_FUEL: u64 = 100000;

/// Why the tool refuses its input.
#[derive(Clone, Debug, PartialEq, Eq)]
pub enum CliError {
    NoCases,
    TooManyCases { count: usize, max: usize },
    TooManyArgs { case: usize, count: usize, max: usize },
    WasmTooLarge { len: usize, max: usize },
    ManifestSchema(u32),
    SuiteSchema(u32),
    EmptySuite,
    SpecSchema(u32),
    AbsoluteProgramPath,
    ParentInProgramPath,
    InvalidProgramPath,
    ZLength { got: usize },
    BothCaseSources,
    NoCaseSource,
    AbsoluteManifestPath,
    ParentInManifestPath,
    InvalidManifestPath,
}

/// One component of a benchmark program path.
#[derive(Clone, Copy, Debug, PartialEq, Eq, Structural)]
pub enum PathPart {
    Normal,
    CurDir,
    ParentDir,
    RootDir,
    Prefix,
}

/// Where `check` takes its cases from.
#[derive(Clone, Copy, Debug, PartialEq, Eq, Structural)]
pub enum CaseSource {
    Spec,
    Manifest,
}

/// The first case (by index) with more arguments than a function may have parameters.
pub open spec fn first_overlong(arg_counts: Seq<nat>, from: int) -> Option<int>
    decreases arg_counts.len() - from,
{
    if from < 0 || from >= arg_counts.len() {
        None
    } else if arg_counts[from] > MAX_PARAMS {
        Some(from)
    } else {
        first_overlong(arg_counts, from + 1)
    }
}

/// The limits on a list of cases (given by their argument counts): at least one, at most
/// [`MAX_BENCH_CASES`], none with more arguments than [`MAX_PARAMS`] (checked in that order).
pub open spec fn case_limits(arg_counts: Seq<nat>) -> Result<(), CliError> {
    if arg_counts.len() == 0 {
        Err(CliError::NoCases)
    } else if arg_counts.len() > MAX_BENCH_CASES {
        Err(CliError::TooManyCases { count: arg_counts.len() as usize, max: MAX_BENCH_CASES })
    } else {
        match first_overlong(arg_counts, 0) {
            Some(i) => Err(CliError::TooManyArgs { case: i as usize, count: arg_counts[i] as usize, max: MAX_PARAMS }),
            None => Ok(()),
        }
    }
}

/// The argument counts of a list of benchmark cases.
pub open spec fn bench_arg_counts(cases: Seq<BenchCase>) -> Seq<nat> {
    Seq::new(cases.len(), |i: int| cases[i].args@.len())
}

/// The argument counts of a spec's cases.
pub open spec fn spec_arg_counts(spec: Spec) -> Seq<nat> {
    Seq::new(spec.cases@.len(), |i: int| spec.cases@[i].args@.len())
}

/// Checks the limits on benchmark cases (see [`case_limits`]).
pub fn ensure_case_limits(cases: &[BenchCase]) -> (r: Result<(), CliError>)
    ensures
        r == case_limits(bench_arg_counts(cases@)),
{
    let ghost counts = bench_arg_counts(cases@);
    if cases.len() == 0 {
        return Err(CliError::NoCases);
    }
    if cases.len() > MAX_BENCH_CASES {
        return Err(CliError::TooManyCases { count: cases.len(), max: MAX_BENCH_CASES });
    }
    let mut i: usize = 0;
    while i < cases.len()
        invariant
            counts == bench_arg_counts(cases@),
            0 < cases@.len() <= MAX_BENCH_CASES,
            i <= cases@.len(),
            first_overlong(counts, 0) == first_overlong(counts, i as int),
        decreases cases@.len() - i,
    {
        if cases[i].args.len() > MAX_PARAMS {
            assert(first_overlong(counts, i as int) == Some(i as int));
            return Err(CliError::TooManyArgs { case: i, count: cases[i].args.len(), max: MAX_PARAMS });
        }
        i = i + 1;
    }
    Ok(())
}

/// Checks the limits on a behavioral spec's cases (see [`case_limits`]).
pub fn ensure_spec_limits(spec: &Spec) -> (r: Result<(), CliError>)
    ensures
        r == case_limits(spec_arg_counts(*spec)),
{
    let ghost counts = spec_arg_counts(*spec);
    if spec.cases.len() == 0 {
        return Err(CliError::NoCases);
    }
    if spec.cases.len() > MAX_BENCH_CASES {
        return Err(CliError::TooManyCases { count: spec.cases.len(), max: MAX_BENCH_CASES });
    }
    let mut i: usize = 0;
    while i < spec.cases.len()
        invariant
            counts == spec_arg_counts(*spec),
            0 < spec.cases@.len() <= MAX_BENCH_CASES,
            i <= spec.cases@.len(),
            first_overlong(counts, 0) == first_overlong(counts, i as int),
        decreases spec.cases@.len() - i,
    {
        if spec.cases[i].args.len() > MAX_PARAMS {
            assert(first_overlong(counts, i as int) == Some(i as int));
            return Err(CliError::TooManyArgs { case: i, count: spec.cases[i].args.len(), max: MAX_PARAMS });
        }
        i = i + 1;
    }
    Ok(())
}

/// Lowered Wasm must fit the compile budget.
pub fn ensure_wasm_emit_size(wasm: &[u8]) -> (r: Result<(), CliError>)
    ensures
        wasm@.len() <= MAX_WASM_BYTES ==> r is Ok,
        wasm@.len() > MAX_WASM_BYTES ==> r == Err::<(), CliError>(
            CliError::WasmTooLarge { len: wasm@.len() as usize, max: MAX_WASM_BYTES },
        ),
{
    if wasm.len() > MAX_WASM_BYTES {
        Err(CliError::WasmTooLarge { len: wasm.len(), max: MAX_WASM_BYTES })
    } else {
        Ok(())
    }
}

/// Benchmark manifests are at schema version 1.
pub fn check_manifest_schema(version: u32) -> (r: Result<(), CliError>)
    ensures
        version == 1 ==> r is Ok,
        version != 1 ==> r == Err::<(), CliError>(CliError::ManifestSchema(version)),
{
    if version == 1 {
        Ok(())
    } else {
        Err(CliError::ManifestSchema(version))
    }
}

/// Benchmark suites are at schema version 1 and list at least one task (checked in that order).
pub fn check_suite(version: u32, tasks: usize) -> (r: Result<(), CliError>)
    ensures
        version != 1 ==> r == Err::<(), CliError>(CliError::SuiteSchema(version)),
        version == 1 && tasks == 0 ==> r == Err::<(), CliError>(CliError::EmptySuite),
        version == 1 && tasks > 0 ==> r is Ok,
{
    if version != 1 {
        Err(CliError::SuiteSchema(version))
    } else if tasks == 0 {
        Err(CliError::EmptySuite)
    } else {
        Ok(())
    }
}

/// A synthesize spec file may omit its schema version; one it names must be 1.
pub fn check_spec_schema(version: Option<u32>) -> (r: Result<(), CliError>)
    ensures
        version matches Some(v) ==> (v != 1 ==> r == Err::<(), CliError>(CliError::SpecSchema(v))),
        (version is None || version == Some(1u32)) ==> r is Ok,
{
    match version {
        Some(v) => if v == 1 {
            Ok(())
        } else {
            Err(CliError::SpecSchema(v))
        },
        None => Ok(()),
    }
}

/// The first component of a path that is not a plain name or `.`.
pub open spec fn first_bad_part(parts: Seq<PathPart>, from: int) -> Option<PathPart>
    decreases parts.len() - from,
{
    if from < 0 || from >= parts.len() {
        None
    } else if parts[from] == PathPart::ParentDir || parts[from] == PathPart::RootDir || parts[from] == PathPart::Prefix {
        Some(parts[from])
    } else {
        first_bad_part(parts, from + 1)
    }
}

/// A benchmark program path stays under the suite root: relative, with no `..`, root or prefix
/// component (the first offending component decides the error).
pub open spec fn program_path_verdict(absolute: bool, parts: Seq<PathPart>) -> Result<(), CliError> {
    if absolute {
        Err(CliError::AbsoluteProgramPath)
    } else {
        match first_bad_part(parts, 0) {
            Some(PathPart::ParentDir) => Err(CliError::ParentInProgramPath),
            Some(_) => Err(CliError::InvalidProgramPath),
            None => Ok(()),
        }
    }
}

/// Checks a benchmark program path, given as whether it is absolute and its components.
pub fn check_program_path(absolute: bool, parts: &[PathPart]) -> (r: Result<(), CliError>)
    ensures
        r == program_path_verdict(absolute, parts@),
{
    if absolute {
        return Err(CliError::AbsoluteProgramPath);
    }
    let mut i: usize = 0;
    while i < parts.len()
        invariant
            !absolute,
            i <= parts@.len(),
            first_bad_part(parts@, 0) == first_bad_part(parts@, i as int),
        decreases parts@.len() - i,
    {
        match parts[i] {
            PathPart::ParentDir => {
                return Err(CliError::ParentInProgramPath);
            },
            PathPart::RootDir | PathPart::Prefix => {
                return Err(CliError::InvalidProgramPath);
            },
            _ => {},
        }
        i = i + 1;
    }
    Ok(())
}

/// Where a suite's manifest entry was found.
#[derive(Clone, Copy, Debug, PartialEq, Eq, Structural)]
pub enum ManifestBase {
    /// Under the repository root (two levels above the suite's directory).
    RepoRoot,
    /// Under the suite's own directory.
    SuiteDir,
}

/// Where a suite's manifest entry, given as whether it is absolute and its components, is
/// taken from: refused unless it is relative with no `..`, root or prefix component (the first
/// offending component decides the error); otherwise the repository root when the file is there,
/// else the suite's directory when it is there, else nowhere (`None`).
pub open spec fn suite_manifest_verdict(
    absolute: bool,
    parts: Seq<PathPart>,
    at_repo_root: bool,
    in_suite_dir: bool,
) -> Result<Option<ManifestBase>, CliError> {
    if absolute {
        Err(CliError::AbsoluteManifestPath)
    } else {
        match first_bad_part(parts, 0) {
            Some(PathPart::ParentDir) => Err(CliError::ParentInManifestPath),
            Some(_) => Err(CliError::InvalidManifestPath),
            None => if at_repo_root {
                Ok(Some(ManifestBase::RepoRoot))
            } else if in_suite_dir {
                Ok(Some(ManifestBase::SuiteDir))
            } else {
                Ok(None)
            },
        }
    }
}

/// Resolves a suite's manifest entry (see [`suite_manifest_verdict`]); `at_repo_root` and
/// `in_suite_dir` say whether the file exists under each base.
pub fn resolve_suite_manifest(absolute: bool, parts: &[PathPart], at_repo_root: bool, in_suite_dir: bool) -> (r: Result<
    Option<ManifestBase>,
    CliError,
>)
    ensures
        r == suite_manifest_verdict(absolute, parts@, at_repo_root, in_suite_dir),
{
    match check_program_path(absolute, parts) {
        Ok(()) => {},
        Err(CliError::AbsoluteProgramPath) => return Err(CliError::AbsoluteManifestPath),
        Err(CliError::ParentInProgramPath) => return Err(CliError::ParentInManifestPath),
        Err(_) => return Err(CliError::InvalidManifestPath),
    }
    if at_repo_root {
        Ok(Some(ManifestBase::RepoRoot))
    } else if in_suite_dir {
        Ok(Some(ManifestBase::SuiteDir))
    } else {
        Ok(None)
    }
}

/// `check` takes its cases from exactly one of a spec file and a manifest.
pub fn case_source(has_spec: bool, has_manifest: bool) -> (r: Result<CaseSource, CliError>)
    ensures
        has_spec && !has_manifest ==> r == Ok::<CaseSource, CliError>(CaseSource::Spec),
        !has_spec && has_manifest ==> r == Ok::<CaseSource, CliError>(CaseSource::Manifest),
        has_spec && has_manifest ==> r == Err::<CaseSource, CliError>(CliError::BothCaseSources),
        !has_spec && !has_manifest ==> r == Err::<CaseSource, CliError>(CliError::NoCaseSource),
{
    if has_spec && has_manifest {
        Err(CliError::BothCaseSources)
    } else if has_spec {
        Ok(CaseSource::Spec)
    } else if has_manifest {
        Ok(CaseSource::Manifest)
    } else {
        Err(CliError::NoCaseSource)
    }
}

/// A latent vector read from a file must have exactly [`EMBEDDING_DIM`] elements.
pub fn check_z_len(len: usize) -> (r: Result<(), CliError>)
    ensures
        len == EMBEDDING_DIM ==> r is Ok,
        len != EMBEDDING_DIM ==> r == Err::<(), CliError>(CliError::ZLength { got: len }),
{
    if len == EMBEDDING_DIM {
        Ok(())
    } else {
        Err(CliError::ZLength { got: len })
    }
}

/// The export a manifest that names none is run under.
pub fn default_export() -> (r: String)
    ensures
        r@ == "run"@,
{
    text("run")
}

/// The fuel of a manifest that names none.
pub fn default_fuel() -> (r: u64)
    ensures
        r == DEFAULT_MANIFEST_FUEL,
{
    DEFAULT_MANIFEST_FUEL
}

/// The built-in seed program: `run(a, b) = a + b` on `i32`.
pub fn minimal_add_seed() -> (m: Module)
    ensures
        m.program_ir_version == PROGRAM_IR_VERSION,
        m.export_name@ == "run"@,
        m.func.sig.params@ == seq![ValType::I32, ValType::I32],
        m.func.sig.results@ == seq![ValType::I32],
        m.func.locals@.len() == 0,
        m.func.body@ == seq![
            Instr::LocalGet { index: 0 },
            Instr::LocalGet { index: 1 },
            Instr::I32Add,
            Instr::Return,
        ],
{
    Module {
        program_ir_version: PROGRAM_IR_VERSION,
        export_name: text("run"),
        func: Func {
            sig: FuncSig { params: vec![ValType::I32, ValType::I32], results: vec![ValType::I32] },
            locals: Vec::new(),
            body: vec![Instr::LocalGet { index: 0 }, Instr::LocalGet { index: 1 }, Instr::I32Add, Instr::Return],
        },
    }
}

/// Counts over the tasks of an evaluation run.
#[derive(Clone, Copy, Debug, PartialEq, Eq)]
pub struct EvalCounts {
    pub tasks_total: usize,
    pub tasks_passed: usize,
    pub validate_ok: usize,
    pub compile_ok: usize,
    pub cases_passed: usize,
    pub cases_total: usize,
}

/// How many summaries in `s` report success.
pub open spec fn count_ok(s: Seq<CheckSummary>) -> nat
    decreases s.len(),
{
    if s.len() == 0 { 0 } else { count_ok(s.drop_last()) + if s.last().ok { 1nat } else { 0nat } }
}

/// How many summaries in `s` validated.
pub open spec fn count_validated(s: Seq<CheckSummary>) -> nat
    decreases s.len(),
{
    if s.len() == 0 { 0 } else { count_validated(s.drop_last()) + if s.last().validate_ok { 1nat } else { 0nat } }
}

/// How many summaries in `s` compiled.
pub open spec fn count_compiled(s: Seq<CheckSummary>) -> nat
    decreases s.len(),
{
    if s.len() == 0 { 0 } else { count_compiled(s.drop_last()) + if s.last().compile_ok { 1nat } else { 0nat } }
}

/// Passed cases over the summaries in `s`.
pub open spec fn sum_passed(s: Seq<CheckSummary>) -> nat
    decreases s.len(),
{
    if s.len() == 0 { 0 } else { sum_passed(s.drop_last()) + s.last().cases_passed as nat }
}

/// All cases over the summaries in `s`.
pub open spec fn sum_total(s: Seq<CheckSummary>) -> nat
    decreases s.len(),
{
    if s.len() == 0 { 0 } else { sum_total(s.drop_last()) + s.last().cases_total as nat }
}

proof fn lemma_sums_monotone(s: Seq<CheckSummary>, i: int)
    requires
        0 <= i <= s.len(),
    ensures
        sum_total(s.take(i)) <= sum_total(s),
        sum_passed(s.take(i)) <= sum_passed(s),
    decreases s.len(),
{
    if i < s.len() {
        lemma_sums_monotone(s.drop_last(), i);
        assert(s.drop_last().take(i) =~= s.take(i));
    } else {
        assert(s.take(i) =~= s);
    }
}

/// Tallies the summaries of an evaluation run: tasks, tasks that passed, validated and
/// compiled, and the cases passed and run over all tasks.
pub fn tally_eval(summaries: &[CheckSummary]) -> (r: EvalCounts)
    requires
        sum_total(summaries@) <= usize::MAX,
        sum_passed(summaries@) <= usize::MAX,
    ensures
        r.tasks_total == summaries@.len(),
        r.tasks_passed == count_ok(summaries@),
        r.validate_ok == count_validated(summaries@),
        r.compile_ok == count_compiled(summaries@),
        r.cases_passed == sum_passed(summaries@),
        r.cases_total == sum_total(summaries@),
{
    let ghost s = summaries@;
    let mut r = EvalCounts {
        tasks_total: summaries.len(),
        tasks_passed: 0,
        validate_ok: 0,
        compile_ok: 0,
        cases_passed: 0,
        cases_total: 0,
    };
    let mut i: usize = 0;
    while i < summaries.len()
        invariant
            s == summaries@,
            i <= s.len(),
            r.tasks_total == s.len(),
            sum_total(s) <= usize::MAX,
            sum_passed(s) <= usize::MAX,
            r.tasks_passed == count_ok(s.take(i as int)),
            r.validate_ok == count_validated(s.take(i as int)),
            r.compile_ok == count_compiled(s.take(i as int)),
            r.cases_passed == sum_passed(s.take(i as int)),
            r.cases_total == sum_total(s.take(i as int)),
            r.tasks_passed <= i && r.validate_ok <= i && r.compile_ok <= i,
        decreases s.len() - i,
    {
        let c = &summaries[i];
        proof {
            let t = s.take(i + 1);
            assert(t.drop_last() =~= s.take(i as int));
            assert(t.last() == s[i as int]);
            lemma_sums_monotone(s, i + 1);
        }
        if c.ok {
            r.tasks_passed = r.tasks_passed + 1;
        }
        if c.validate_ok {
            r.validate_ok = r.validate_ok + 1;
        }
        if c.compile_ok {
            r.compile_ok = r.compile_ok + 1;
        }
        r.cases_total = r.cases_total + c.cases_total;
        r.cases_passed = r.cases_passed + c.cases_passed;
        i = i + 1;
    }
    proof {
        assert(s.take(s.len() as int) =~= s);
    }
    r
}

/// The message of a refused input.
pub open spec fn cli_message(e: CliError) -> Seq<char> {
    match e {
        CliError::NoCases => "spec must contain at least one case"@,
        CliError::TooManyCases { count, max } => "too many cases ("@ + decimal(count as nat) + " > "@ + decimal(
            max as nat,
        ) + ")"@,
        CliError::TooManyArgs { case, count, max } => "case "@ + decimal(case as nat) + ": too many args ("@
            + decimal(count as nat) + " > "@ + decimal(max as nat) + ")"@,
        CliError::WasmTooLarge { len, max } => "lowered Wasm exceeds limit ("@ + decimal(len as nat)
            + " bytes, max "@ + decimal(max as nat) + ")"@,
        CliError::ManifestSchema(v) => "unsupported benchmark schema_version "@ + decimal(v as nat),
        CliError::SuiteSchema(v) => "unsupported vectorbench schema_version "@ + decimal(v as nat),
        CliError::EmptySuite => "suite has no tasks"@,
        CliError::SpecSchema(v) => "unsupported synthesize spec schema_version "@ + decimal(v as nat)
            + " (only 1 supported)"@,
        CliError::AbsoluteProgramPath => "program_path must be relative"@,
        CliError::ParentInProgramPath => "program_path must not contain `..`"@,
        CliError::InvalidProgramPath => "program_path contains invalid components"@,
        CliError::ZLength { got } => "z length must be exactly 256 (got "@ + decimal(got as nat)
            + ") \u{2014} see Z_CONTRACT"@,
        CliError::BothCaseSources => "provide only one of --spec or --manifest"@,
        CliError::NoCaseSource => "check requires --spec or --manifest"@,
        CliError::AbsoluteManifestPath => "suite manifest path must be relative"@,
        CliError::ParentInManifestPath => "suite manifest path must not contain `..`"@,
        CliError::InvalidManifestPath => "suite manifest path contains invalid components"@,
    }
}

impl CliError {
    /// The message of this error.
    pub fn message(&self) -> (r: String)
        ensures
            r@ == cli_message(*self),
    {
        let mut out = String::new();
        match self {
            CliError::NoCases => out.append("spec must contain at least one case"),
            CliError::TooManyCases { count, max } => {
                out.append("too many cases (");
                push_decimal(&mut out, *count as u64);
                out.append(" > ");
                push_decimal(&mut out, *max as u64);
                out.append(")");
            },
            CliError::TooManyArgs { case, count, max } => {
                out.append("case ");
                push_decimal(&mut out, *case as u64);
                out.append(": too many args (");
                push_decimal(&mut out, *count as u64);
                out.append(" > ");
                push_decimal(&mut out, *max as u64);
                out.append(")");
            },
            CliError::WasmTooLarge { len, max } => {
                out.append("lowered Wasm exceeds limit (");
                push_decimal(&mut out, *len as u64);
                out.append(" bytes, max ");
                push_decimal(&mut out, *max as u64);
                out.append(")");
            },
            CliError::ManifestSchema(v) => {
                out.append("unsupported benchmark schema_version ");
                push_decimal(&mut out, *v as u64);
            },
            CliError::SuiteSchema(v) => {
                out.append("unsupported vectorbench schema_version ");
                push_decimal(&mut out, *v as u64);
            },
            CliError::EmptySuite => out.append("suite has no tasks"),
            CliError::SpecSchema(v) => {
                out.append("unsupported synthesize spec schema_version ");
                push_decimal(&mut out, *v as u64);
                out.append(" (only 1 supported)");
            },
            CliError::AbsoluteProgramPath => out.append("program_path must be relative"),
            CliError::ParentInProgramPath => out.append("program_path must not contain `..`"),
            CliError::InvalidProgramPath => out.append("program_path contains invalid components"),
            CliError::ZLength { got } => {
                out.append("z length must be exactly 256 (got ");
                push_decimal(&mut out, *got as u64);
                out.append(") \u{2014} see Z_CONTRACT");
            },
            CliError::BothCaseSources => out.append("provide only one of --spec or --manifest"),
            CliError::NoCaseSource => out.append("check requires --spec or --manifest"),
            CliError::AbsoluteManifestPath => out.append("suite manifest path must be relative"),
            CliError::ParentInManifestPath => out.append("suite manifest path must not contain `..`"),
            CliError::InvalidManifestPath => out.append("suite manifest path contains invalid components"),
        }
        assert(out@ =~= cli_message(*self));
        out
    }
}

/// The SHA-256 digest of a byte string.
pub uninterp spec fn sha256(bytes: Seq<u8>) -> Seq<u8>;

/// `sha2::Sha256`: the 32-byte SHA-256 digest of `bytes`.
#[verifier::external_body]
fn sha256_digest(bytes: &[u8]) -> (r: Vec<u8>)
    ensures
        r@ == sha256(bytes@),
        r@.len() == 32,
{
    sha2::Sha256::digest(bytes).to_vec()
}

/// Lower-case hexadecimal digit of `d`.
pub open spec fn hex_digit(d: nat) -> char {
    if d == 0 {
        '0'
    } else if d == 1 {
        '1'
    } else if d == 2 {
        '2'
    } else if d == 3 {
        '3'
    } else if d == 4 {
        '4'
    } else if d == 5 {
        '5'
    } else if d == 6 {
        '6'
    } else if d == 7 {
        '7'
    } else if d == 8 {
        '8'
    } else if d == 9 {
        '9'
    } else if d == 10 {
        'a'
    } else if d == 11 {
        'b'
    } else if d == 12 {
        'c'
    } else if d == 13 {
        'd'
    } else if d == 14 {
        'e'
    } else {
        'f'
    }
}

/// Lower-case hexadecimal rendering of a byte string, two digits per byte.
pub open spec fn hex_lower(bytes: Seq<u8>) -> Seq<char>
    decreases bytes.len(),
{
    if bytes.len() == 0 {
        Seq::empty()
    } else {
        hex_lower(bytes.drop_last()).push(hex_digit((bytes.last() / 16) as nat)).push(
            hex_digit((bytes.last() % 16) as nat),
        )
    }
}

/// Lower-case hexadecimal rendering of `bytes`.
pub fn hex_encode(bytes: &[u8]) -> (r: String)
    ensures
        r@ == hex_lower(bytes@),
{
    let mut out = String::new();
    let mut i: usize = 0;
    while i < bytes.len()
        invariant
            i <= bytes@.len(),
            out@ == hex_lower(bytes@.take(i as int)),
        decreases bytes@.len() - i,
    {
        let b = bytes[i];
        push_hex_digit(&mut out, b / 16);
        push_hex_digit(&mut out, b % 16);
        proof {
            let t = bytes@.take(i + 1);
            assert(t.drop_last() =~= bytes@.take(i as int));
            assert(t.last() == b);
        }
        i = i + 1;
    }
    assert(bytes@.take(bytes@.len() as int) =~= bytes@);
    out
}

fn hex_digit_str(d: u8) -> (r: &'static str)
    requires
        d < 16,
    ensures
        r@ == seq![hex_digit(d as nat)],
{
    proof {
        reveal_strlit("0");
        reveal_strlit("1");
        reveal_strlit("2");
        reveal_strlit("3");
        reveal_strlit("4");
        reveal_strlit("5");
        reveal_strlit("6");
        reveal_strlit("7");
        reveal_strlit("8");
        reveal_strlit("9");
        reveal_strlit("a");
        reveal_strlit("b");
        reveal_strlit("c");
        reveal_strlit("d");
        reveal_strlit("e");
        reveal_strlit("f");
    }
    if d == 0 {
        "0"
    } else if d == 1 {
        "1"
    } else if d == 2 {
        "2"
    } else if d == 3 {
        "3"
    } else if d == 4 {
        "4"
    } else if d == 5 {
        "5"
    } else if d == 6 {
        "6"
    } else if d == 7 {
        "7"
    } else if d == 8 {
        "8"
    } else if d == 9 {
        "9"
    } else if d == 10 {
        "a"
    } else if d == 11 {
        "b"
    } else if d == 12 {
        "c"
    } else if d == 13 {
        "d"
    } else if d == 14 {
        "e"
    } else {
        "f"
    }
}

fn push_hex_digit(out: &mut String, d: u8)
    requires
        d < 16,
    ensures
        final(out)@ == old(out)@.push(hex_digit(d as nat)),
{
    out.append(hex_digit_str(d));
}

/// The SHA-256 digest of `bytes`, in lower-case hex (64 digits).
pub fn sha256_hex(bytes: &[u8]) -> (r: String)
    ensures
        r@ == hex_lower(sha256(bytes@)),
        r@.len() == 64,
{
    let digest = sha256_digest(bytes);
    proof {
        crate::laws::law_hex_length(digest@);
    }
    hex_encode(digest.as_slice())
}

} // verus!
