//! Static capability policy for untrusted Wasm: which sections a module may declare before it
//! is handed to the compiler.
//!
//! `wasmparser` walks the bytes; each payload it yields is named here by its kind (and, for the
//! sections the policy reads, by their first entry). The verdict on that walk is verified.
use vstd::prelude::*;
use wasmparser::{Encoding, Imports, Payload};

verus! {

/// Which optional capabilities an untrusted module may use.
#[derive(Clone, Copy, Debug, PartialEq, Eq)]
pub struct WasmPolicy {
    pub allow_imports: bool,
    pub allow_memory: bool,
    pub allow_tables: bool,
}

impl Default for WasmPolicy {
    /// Nothing optional is allowed.
    fn default() -> (p: Self)
        ensures
            !p.allow_imports,
            !p.allow_memory,
            !p.allow_tables,
    {
        WasmPolicy { allow_imports: false, allow_memory: false, allow_tables: false }
    }
}

/// The binary encoding announced by a Wasm header.
#[derive(Clone, Copy, Debug, PartialEq, Eq)]
pub enum WasmEncoding {
    Module,
    Component,
}

/// The first entry of a section, as read by `wasmparser`.
#[derive(Clone, Debug, PartialEq, Eq)]
pub enum FirstEntry {
    /// The section holds no entry.
    Absent,
    /// The first entry was read.
    Present,
    /// The first entry could not be read (the reader's message).
    Unreadable(String),
}

/// The first group of an import section, as read by `wasmparser`.
#[derive(Clone, Debug, PartialEq, Eq)]
pub enum FirstImport {
    Absent,
    /// One import, with its module and field names.
    Single { module: String, name: String },
    /// Several imports that share one module name.
    Grouped { module: String },
    Unreadable(String),
}

/// One payload of a Wasm byte string, as far as the policy reads it.
#[derive(Clone, Debug, PartialEq, Eq)]
pub enum PayloadKind {
    Version(WasmEncoding),
    ModuleSection,
    ComponentSection,
    InstanceSection,
    CoreTypeSection,
    ComponentInstanceSection,
    ComponentAliasSection,
    ComponentTypeSection,
    ComponentCanonicalSection,
    ComponentStartSection,
    ComponentImportSection,
    ComponentExportSection,
    ImportSection(FirstImport),
    MemorySection(FirstEntry),
    TableSection(FirstEntry),
    StartSection,
    TagSection(FirstEntry),
    GlobalSection(FirstEntry),
    ElementSection(FirstEntry),
    DataCountSection,
    DataSection(FirstEntry),
    /// Any payload the policy does not look at (types, functions, exports, code, custom, end).
    Other,
}

/// The payloads of a byte string in order, and the parse error that ended the walk early.
#[derive(Clone, Debug, PartialEq, Eq)]
pub struct PayloadScan {
    pub payloads: Vec<PayloadKind>,
    pub failure: Option<String>,
}

/// Why a module is refused before compilation.
#[derive(Clone, Debug, PartialEq, Eq)]
pub enum PolicyError {
    /// The bytes could not be parsed (the parser's message).
    Parse(String),
    /// The header announces something other than a core module.
    NotCoreModule(WasmEncoding),
    NestedModule,
    ComponentModel,
    Import { module: String, name: String },
    ImportModule { module: String },
    Memory,
    Table,
    Start,
    Tag,
    Global,
    Element,
    DataCount,
    Data,
}

#[verifier::external_type_specification]
#[verifier::external_body]
pub struct ExPayload<'a>(Payload<'a>);

#[verifier::external_type_specification]
#[verifier::external_body]
pub struct ExImports<'a>(Imports<'a>);

#[verifier::external_type_specification]
#[verifier::external_body]
pub struct ExBinaryReaderError(wasmparser::BinaryReaderError);

/// What `wasmparser::Parser::new(0).parse_all` yields on `wasm`: the kinds of the payloads it
/// produced, in order, and the message of the error that ended it, if one did.
pub uninterp spec fn wasm_payload_scan(wasm: Seq<u8>) -> (Seq<PayloadKind>, Option<String>);

/// Walks `wasm` with `wasmparser::Parser::parse_all`, naming each payload; stops at the first
/// parse error and keeps its message.
#[verifier::external_body]
fn scan_payloads(wasm: &[u8]) -> (scan: PayloadScan)
    ensures
        (scan.payloads@, scan.failure) == wasm_payload_scan(wasm@),
{
    let mut scan = PayloadScan { payloads: Vec::new(), failure: None };
    for payload in wasmparser::Parser::new(0).parse_all(wasm) {
        match payload {
            Ok(p) => scan.payloads.push(payload_kind(p)),
            Err(e) => scan.failure = Some(e.to_string()),
        }
    }
    scan
}

/// Names a core-module payload of `wasmparser` (one arm per variant).
#[verifier::external_body]
fn payload_kind(p: Payload) -> PayloadKind {
    match p {
        Payload::Version { encoding: Encoding::Module, .. } => PayloadKind::Version(WasmEncoding::Module),
        Payload::Version { .. } => PayloadKind::Version(WasmEncoding::Component),
        Payload::ImportSection(s) => PayloadKind::ImportSection(first_import(s.into_iter().next())),
        Payload::MemorySection(s) => PayloadKind::MemorySection(first_entry(s.into_iter().next())),
        Payload::TableSection(s) => PayloadKind::TableSection(first_entry(s.into_iter().next())),
        Payload::StartSection { .. } => PayloadKind::StartSection,
        Payload::DataCountSection { .. } => PayloadKind::DataCountSection,
        _ => item_payload_kind(p),
    }
}

/// Names a payload of `wasmparser` that holds segments or items (one arm per variant).
#[verifier::external_body]
fn item_payload_kind(p: Payload) -> PayloadKind {
    match p {
        Payload::TagSection(s) => PayloadKind::TagSection(first_entry(s.into_iter().next())),
        Payload::GlobalSection(s) => PayloadKind::GlobalSection(first_entry(s.into_iter().next())),
        Payload::ElementSection(s) => PayloadKind::ElementSection(first_entry(s.into_iter().next())),
        Payload::DataSection(s) => PayloadKind::DataSection(first_entry(s.into_iter().next())),
        _ => component_payload_kind(&p),
    }
}

/// Names a component-model payload of `wasmparser` (one arm per variant).
#[verifier::external_body]
fn component_payload_kind(p: &Payload) -> PayloadKind {
    match p {
        Payload::ModuleSection { .. } => PayloadKind::ModuleSection,
        Payload::ComponentSection { .. } => PayloadKind::ComponentSection,
        Payload::InstanceSection(_) => PayloadKind::InstanceSection,
        Payload::CoreTypeSection(_) => PayloadKind::CoreTypeSection,
        Payload::ComponentInstanceSection(_) => PayloadKind::ComponentInstanceSection,
        Payload::ComponentAliasSection(_) => PayloadKind::ComponentAliasSection,
        Payload::ComponentTypeSection(_) => PayloadKind::ComponentTypeSection,
        Payload::ComponentCanonicalSection(_) => PayloadKind::ComponentCanonicalSection,
        Payload::ComponentStartSection { .. } => PayloadKind::ComponentStartSection,
        Payload::ComponentImportSection(_) => PayloadKind::ComponentImportSection,
        Payload::ComponentExportSection(_) => PayloadKind::ComponentExportSection,
        _ => PayloadKind::Other,
    }
}

/// Converts the first item read from a section (one arm per outcome).
#[verifier::external_body]
fn first_entry<T>(next: Option<Result<T, wasmparser::BinaryReaderError>>) -> FirstEntry {
    match next {
        None => FirstEntry::Absent,
        Some(Ok(_)) => FirstEntry::Present,
        Some(Err(e)) => FirstEntry::Unreadable(e.to_string()),
    }
}

/// Converts the first import group read from an import section (one arm per outcome).
#[verifier::external_body]
fn first_import(next: Option<Result<Imports, wasmparser::BinaryReaderError>>) -> FirstImport {
    match next {
        None => FirstImport::Absent,
        Some(Ok(Imports::Single(_, i))) => FirstImport::Single { module: i.module.to_string(), name: i.name.to_string() },
        Some(Ok(Imports::Compact1 { module, .. })) => FirstImport::Grouped { module: module.to_string() },
        Some(Ok(Imports::Compact2 { module, .. })) => FirstImport::Grouped { module: module.to_string() },
        Some(Err(e)) => FirstImport::Unreadable(e.to_string()),
    }
}

/// A section kind that belongs to the component model.
pub open spec fn is_component_model(k: PayloadKind) -> bool {
    match k {
        PayloadKind::ComponentSection | PayloadKind::InstanceSection | PayloadKind::CoreTypeSection
        | PayloadKind::ComponentInstanceSection | PayloadKind::ComponentAliasSection
        | PayloadKind::ComponentTypeSection | PayloadKind::ComponentCanonicalSection
        | PayloadKind::ComponentStartSection | PayloadKind::ComponentImportSection
        | PayloadKind::ComponentExportSection => true,
        _ => false,
    }
}

/// A section that is refused as soon as it holds an entry: `refusal` when its first entry was
/// read, the reader's error when it could not be.
pub open spec fn entry_verdict(first: FirstEntry, refusal: PolicyError) -> Option<PolicyError> {
    match first {
        FirstEntry::Absent => None,
        FirstEntry::Present => Some(refusal),
        FirstEntry::Unreadable(m) => Some(PolicyError::Parse(m)),
    }
}

/// The import verdict when imports are not allowed.
pub open spec fn import_verdict(first: FirstImport) -> Option<PolicyError> {
    match first {
        FirstImport::Absent => None,
        FirstImport::Single { module, name } => Some(PolicyError::Import { module, name }),
        FirstImport::Grouped { module } => Some(PolicyError::ImportModule { module }),
        FirstImport::Unreadable(m) => Some(PolicyError::Parse(m)),
    }
}

/// The policy's verdict on one payload: `None` when it may pass.
pub open spec fn payload_verdict(k: PayloadKind, policy: WasmPolicy) -> Option<PolicyError> {
    if is_component_model(k) {
        Some(PolicyError::ComponentModel)
    } else {
        match k {
            PayloadKind::Version(WasmEncoding::Module) => None,
            PayloadKind::Version(e) => Some(PolicyError::NotCoreModule(e)),
            PayloadKind::ModuleSection => Some(PolicyError::NestedModule),
            PayloadKind::ImportSection(f) => if policy.allow_imports { None } else { import_verdict(f) },
            PayloadKind::MemorySection(f) => if policy.allow_memory {
                None
            } else {
                entry_verdict(f, PolicyError::Memory)
            },
            PayloadKind::TableSection(f) => if policy.allow_tables {
                None
            } else {
                entry_verdict(f, PolicyError::Table)
            },
            PayloadKind::StartSection => Some(PolicyError::Start),
            PayloadKind::TagSection(f) => entry_verdict(f, PolicyError::Tag),
            PayloadKind::GlobalSection(f) => entry_verdict(f, PolicyError::Global),
            PayloadKind::ElementSection(f) => entry_verdict(f, PolicyError::Element),
            PayloadKind::DataCountSection => Some(PolicyError::DataCount),
            PayloadKind::DataSection(f) => entry_verdict(f, PolicyError::Data),
            _ => None,
        }
    }
}

/// The verdict on a payload walk: the first refused payload decides; a walk that passes every
/// payload it produced fails only if it ended in a parse error.
pub open spec fn scan_verdict(payloads: Seq<PayloadKind>, failure: Option<String>, policy: WasmPolicy) -> Result<
    (),
    PolicyError,
>
    decreases payloads.len(),
{
    if payloads.len() == 0 {
        match failure {
            Some(m) => Err(PolicyError::Parse(m)),
            None => Ok(()),
        }
    } else {
        match payload_verdict(payloads[0], policy) {
            Some(e) => Err(e),
            None => scan_verdict(payloads.drop_first(), failure, policy),
        }
    }
}

fn entry_check(first: &FirstEntry, refusal: PolicyError) -> (r: Option<PolicyError>)
    ensures
        r == entry_verdict(*first, refusal),
{
    match first {
        FirstEntry::Absent => None,
        FirstEntry::Present => Some(refusal),
        FirstEntry::Unreadable(m) => Some(PolicyError::Parse(m.clone())),
    }
}

fn import_check(first: &FirstImport) -> (r: Option<PolicyError>)
    ensures
        r == import_verdict(*first),
{
    match first {
        FirstImport::Absent => None,
        FirstImport::Single { module, name } => Some(PolicyError::Import { module: module.clone(), name: name.clone() }),
        FirstImport::Grouped { module } => Some(PolicyError::ImportModule { module: module.clone() }),
        FirstImport::Unreadable(m) => Some(PolicyError::Parse(m.clone())),
    }
}

/// The policy's verdict on one payload.
pub fn payload_check(k: &PayloadKind, policy: WasmPolicy) -> (r: Option<PolicyError>)
    ensures
        r == payload_verdict(*k, policy),
{
    match k {
        PayloadKind::Version(WasmEncoding::Module) => None,
        PayloadKind::Version(e) => Some(PolicyError::NotCoreModule(*e)),
        PayloadKind::ModuleSection => Some(PolicyError::NestedModule),
        PayloadKind::ComponentSection | PayloadKind::InstanceSection | PayloadKind::CoreTypeSection
        | PayloadKind::ComponentInstanceSection | PayloadKind::ComponentAliasSection
        | PayloadKind::ComponentTypeSection | PayloadKind::ComponentCanonicalSection
        | PayloadKind::ComponentStartSection | PayloadKind::ComponentImportSection
        | PayloadKind::ComponentExportSection => Some(PolicyError::ComponentModel),
        PayloadKind::ImportSection(f) => if policy.allow_imports { None } else { import_check(f) },
        PayloadKind::MemorySection(f) => if policy.allow_memory {
            None
        } else {
            entry_check(f, PolicyError::Memory)
        },
        PayloadKind::TableSection(f) => if policy.allow_tables {
            None
        } else {
            entry_check(f, PolicyError::Table)
        },
        PayloadKind::StartSection => Some(PolicyError::Start),
        PayloadKind::TagSection(f) => entry_check(f, PolicyError::Tag),
        PayloadKind::GlobalSection(f) => entry_check(f, PolicyError::Global),
        PayloadKind::ElementSection(f) => entry_check(f, PolicyError::Element),
        PayloadKind::DataCountSection => Some(PolicyError::DataCount),
        PayloadKind::DataSection(f) => entry_check(f, PolicyError::Data),
        PayloadKind::Other => None,
    }
}

/// The verdict on a payload walk (see [`scan_verdict`]).
pub fn policy_verdict(scan: &PayloadScan, policy: WasmPolicy) -> (r: Result<(), PolicyError>)
    ensures
        r == scan_verdict(scan.payloads@, scan.failure, policy),
{
    let n = scan.payloads.len();
    let mut i: usize = 0;
    assert(scan.payloads@.subrange(0, n as int) =~= scan.payloads@);
    while i < n
        invariant
            n == scan.payloads@.len(),
            i <= n,
            scan_verdict(scan.payloads@, scan.failure, policy) == scan_verdict(
                scan.payloads@.subrange(i as int, n as int),
                scan.failure,
                policy,
            ),
        decreases n - i,
    {
        let ghost rest = scan.payloads@.subrange(i as int, n as int);
        assert(rest[0] == scan.payloads@[i as int]);
        match payload_check(&scan.payloads[i], policy) {
            Some(e) => {
                return Err(e);
            },
            None => {
                assert(rest.drop_first() =~= scan.payloads@.subrange(i as int + 1, n as int));
            },
        }
        i = i + 1;
    }
    assert(scan.payloads@.subrange(n as int, n as int).len() == 0);
    match &scan.failure {
        Some(m) => Err(PolicyError::Parse(m.clone())),
        None => Ok(()),
    }
}

/// Walks `wasm` and refuses modules that declare disallowed imports, memories or tables, or
/// any start function, tag, global, element or data segment, nested module, component-model
/// section or non-module encoding; unparsable bytes are refused with the parser's message.
pub fn check_wasm_policy(wasm: &[u8], policy: WasmPolicy) -> (r: Result<(), PolicyError>)
    ensures
        r == scan_verdict(wasm_payload_scan(wasm@).0, wasm_payload_scan(wasm@).1, policy),
{
    let scan = scan_payloads(wasm);
    policy_verdict(&scan, policy)
}

/// The message of a policy refusal.
pub open spec fn policy_message(e: PolicyError) -> Seq<char> {
    match e {
        PolicyError::Parse(m) => m@,
        PolicyError::NotCoreModule(WasmEncoding::Module) => "only core WebAssembly modules supported (encoding=Module)"@,
        PolicyError::NotCoreModule(WasmEncoding::Component) =>
            "only core WebAssembly modules supported (encoding=Component)"@,
        PolicyError::NestedModule => "nested wasm modules not allowed"@,
        PolicyError::ComponentModel => "wasm component model sections not allowed"@,
        PolicyError::Import { module, name } => "wasm imports not allowed (found import `"@ + module@ + "` / `"@
            + name@ + "`)"@,
        PolicyError::ImportModule { module } => "wasm imports not allowed (found import module `"@ + module@
            + "`)"@,
        PolicyError::Memory => "wasm memories not allowed"@,
        PolicyError::Table => "wasm tables not allowed"@,
        PolicyError::Start => "wasm start function not allowed"@,
        PolicyError::Tag => "wasm tags not allowed"@,
        PolicyError::Global => "wasm globals not allowed"@,
        PolicyError::Element => "wasm element segments not allowed"@,
        PolicyError::DataCount => "wasm data count section not allowed"@,
        PolicyError::Data => "wasm data segments not allowed"@,
    }
}

impl PolicyError {
    /// The message of this refusal.
    pub fn message(&self) -> (r: String)
        ensures
            r@ == policy_message(*self),
    {
        let mut out = String::new();
        match self {
            PolicyError::Parse(m) => out.append(m.as_str()),
            PolicyError::NotCoreModule(WasmEncoding::Module) => out.append(
                "only core WebAssembly modules supported (encoding=Module)",
            ),
            PolicyError::NotCoreModule(WasmEncoding::Component) => out.append(
                "only core WebAssembly modules supported (encoding=Component)",
            ),
            PolicyError::NestedModule => out.append("nested wasm modules not allowed"),
            PolicyError::ComponentModel => out.append("wasm component model sections not allowed"),
            PolicyError::Import { module, name } => {
                out.append("wasm imports not allowed (found import `");
                out.append(module.as_str());
                out.append("` / `");
                out.append(name.as_str());
                out.append("`)");
            },
            PolicyError::ImportModule { module } => {
                out.append("wasm imports not allowed (found import module `");
                out.append(module.as_str());
                out.append("`)");
            },
            PolicyError::Memory => out.append("wasm memories not allowed"),
            PolicyError::Table => out.append("wasm tables not allowed"),
            PolicyError::Start => out.append("wasm start function not allowed"),
            PolicyError::Tag => out.append("wasm tags not allowed"),
            PolicyError::Global => out.append("wasm globals not allowed"),
            PolicyError::Element => out.append("wasm element segments not allowed"),
            PolicyError::DataCount => out.append("wasm data count section not allowed"),
            PolicyError::Data => out.append("wasm data segments not allowed"),
        }
        assert(out@ =~= policy_message(*self));
        out
    }
}

} // verus!
