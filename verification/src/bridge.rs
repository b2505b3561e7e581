//! Latent decoders: a flattened latent vector `z` becomes Program IR. The vector's values are
//! floating point and stay with the caller; the decoders here depend only on its length.
use vstd::prelude::*;
use crate::ast::{Func, FuncSig, Instr, Module, ValType, PROGRAM_IR_VERSION};
use crate::render::spec_message;
use crate::text::{decimal, push_decimal, push_signed_decimal, signed_decimal, text};
use crate::validate::{spec_instr, spec_list, spec_seq, valid_module, validate_module, ValidationError};
use crate::metrics::tree_count;
use crate::text::all_white_space;
use vstd::utf8::encode_utf8;

verus! {

/// Fixed embedding dimension of the decoder contracts.
pub const EMBEDDING_DIM: usize = 256;

/// ONNX graph input name of the flattened latent `z` tensor.
pub const DECODER_ONNX_INPUT_Z: &'static str = "z";

/// ONNX graph output name carrying Program IR JSON as a `uint8` tensor.
pub const DECODER_ONNX_OUTPUT_IR_JSON: &'static str = "program_ir_json";

/// Why decoding failed.
#[derive(Debug, PartialEq, Eq)]
pub enum DecodeError {
    /// `z` has the wrong number of elements.
    WrongLength { expected: usize, got: usize },
    /// No learned decoder is wired.
    NotWired,
    /// The decoded program does not validate.
    Invalid(ValidationError),
    /// The ONNX decoder has no model file configured.
    NoModelPath,
    /// The ONNX decoder has a model file, but ONNX Runtime is not part of this build.
    RuntimeUnavailable,
}

/// Decodes a latent vector into Program IR. Implementations fail closed: a `z` of the wrong
/// length, or an unsupported configuration, is an error, never a panic.
pub trait LatentDecoder {
    /// Number of elements `z` must have.
    fn expected_z_len(&self) -> usize;

    /// Decodes a latent vector of `z_len` elements (its values are not read by the decoders
    /// of this library).
    fn decode_z_len(&self, z_len: usize) -> Result<Module, DecodeError>;
}

/// Always fails; stands in until a trained decoder is wired.
#[derive(Clone, Copy, Debug, PartialEq, Eq)]
pub struct StubLatentDecoder;

/// Deterministic decoder for demos and CI: after the length check it returns the fixed valid
/// module `run(a, b) = a + b` on `i32`, whatever the values of `z`.
#[derive(Clone, Copy, Debug, PartialEq, Eq)]
pub struct GoldenLatentDecoder;

impl LatentDecoder for StubLatentDecoder {
    fn expected_z_len(&self) -> (r: usize)
        ensures
            r == EMBEDDING_DIM,
    {
        EMBEDDING_DIM
    }

    fn decode_z_len(&self, z_len: usize) -> (r: Result<Module, DecodeError>)
        ensures
            z_len != EMBEDDING_DIM ==> r == Err::<Module, DecodeError>(
                DecodeError::WrongLength { expected: EMBEDDING_DIM, got: z_len },
            ),
            z_len == EMBEDDING_DIM ==> r == Err::<Module, DecodeError>(DecodeError::NotWired),
    {
        if z_len != EMBEDDING_DIM {
            return Err(DecodeError::WrongLength { expected: EMBEDDING_DIM, got: z_len });
        }
        Err(DecodeError::NotWired)
    }
}

/// The module the golden decoder returns.
pub open spec fn golden_module(m: Module) -> bool {
    &&& m.program_ir_version == PROGRAM_IR_VERSION
    &&& m.export_name@ == "run"@
    &&& m.func.sig.params@ == seq![ValType::I32, ValType::I32]
    &&& m.func.sig.results@ == seq![ValType::I32]
    &&& m.func.locals@.len() == 0
    &&& m.func.body@ == seq![
        Instr::LocalGet { index: 0 },
        Instr::LocalGet { index: 1 },
        Instr::I32Add,
        Instr::Return,
    ]
}

/// The golden module validates.
pub proof fn lemma_golden_valid(m: Module)
    requires
        golden_module(m),
    ensures
        valid_module(m),
{
    reveal_strlit("run");
    assert(m.export_name@[0] == 'r');
    assert(!all_white_space(m.export_name@));
    reveal_with_fuel(encode_utf8, 4);
    assert(encode_utf8(m.export_name@).len() == 3) by {
        let s = m.export_name@;
        assert(s.drop_first().drop_first().drop_first().len() == 0);
        assert(encode_utf8(s.drop_first().drop_first().drop_first()).len() == 0);
    }
    let body = m.func.body@;
    reveal_with_fuel(tree_count, 5);
    assert(body.drop_last().drop_last().drop_last().drop_last().len() == 0);
    assert(tree_count(body) == 4);
    let pre = body.drop_last();
    let params = m.func.sig.params@;
    let decl = m.func.locals@;
    let s0 = Seq::<ValType>::empty();
    let s1 = seq![ValType::I32];
    let s2 = seq![ValType::I32, ValType::I32];
    assert(spec_instr(pre[0], s0, params, decl, 2, 0) == Ok::<Seq<ValType>, ValidationError>(s1)) by {
        assert(s0.push(ValType::I32) =~= s1);
    }
    assert(spec_instr(pre[1], s1, params, decl, 2, 0) == Ok::<Seq<ValType>, ValidationError>(s2)) by {
        assert(s1.push(ValType::I32) =~= s2);
    }
    assert(spec_instr(pre[2], s2, params, decl, 2, 0) == Ok::<Seq<ValType>, ValidationError>(s1)) by {
        assert(s2.drop_last().drop_last().push(ValType::I32) =~= s1);
    }
    let p1 = pre.drop_first();
    let p2 = p1.drop_first();
    let p3 = p2.drop_first();
    assert(p3.len() == 0);
    assert(spec_seq(p3, s1, params, decl, 2, 0) == Ok::<Seq<ValType>, ValidationError>(s1));
    assert(p2[0] == pre[2]);
    assert(spec_seq(p2, s2, params, decl, 2, 0) == Ok::<Seq<ValType>, ValidationError>(s1));
    assert(p1[0] == pre[1]);
    assert(spec_seq(p1, s1, params, decl, 2, 0) == Ok::<Seq<ValType>, ValidationError>(s1));
    assert(spec_seq(pre, s0, params, decl, 2, 0) == Ok::<Seq<ValType>, ValidationError>(s1));
    assert(spec_list(pre, s0, params, decl, 2, 0) == Ok::<Seq<ValType>, ValidationError>(s1));
}

impl LatentDecoder for GoldenLatentDecoder {
    fn expected_z_len(&self) -> (r: usize)
        ensures
            r == EMBEDDING_DIM,
    {
        EMBEDDING_DIM
    }

    fn decode_z_len(&self, z_len: usize) -> (r: Result<Module, DecodeError>)
        ensures
            z_len != EMBEDDING_DIM ==> r == Err::<Module, DecodeError>(
                DecodeError::WrongLength { expected: EMBEDDING_DIM, got: z_len },
            ),
            z_len == EMBEDDING_DIM ==> (r is Ok && golden_module(r->Ok_0) && valid_module(r->Ok_0)),
    {
        if z_len != EMBEDDING_DIM {
            return Err(DecodeError::WrongLength { expected: EMBEDDING_DIM, got: z_len });
        }
        let module = Module {
            program_ir_version: PROGRAM_IR_VERSION,
            export_name: text("run"),
            func: Func {
                sig: FuncSig { params: vec![ValType::I32, ValType::I32], results: vec![ValType::I32] },
                locals: Vec::new(),
                body: vec![Instr::LocalGet { index: 0 }, Instr::LocalGet { index: 1 }, Instr::I32Add, Instr::Return],
            },
        };
        assert(module.func.sig.results@ == seq![ValType::I32]);
        proof {
            lemma_golden_valid(module);
        }
        match validate_module(&module) {
            Ok(()) => Ok(module),
            Err(e) => Err(DecodeError::Invalid(e)),
        }
    }
}

/// The message of a decoding error.
pub open spec fn decode_message(e: DecodeError) -> Seq<char> {
    match e {
        DecodeError::WrongLength { expected, got } => "expected z.len() == "@ + decimal(expected as nat) + ", got "@
            + decimal(got as nat),
        DecodeError::NotWired => "StubLatentDecoder: no learned decoder wired (enable `onnx` when ORT is available)"@,
        DecodeError::Invalid(v) => spec_message(v),
        DecodeError::NoModelPath => "OrtLatentDecoder: no ONNX model path configured; pass `--onnx-model` / OrtLatentDecoder::with_model_path"@,
        DecodeError::RuntimeUnavailable => "OrtLatentDecoder: ONNX Runtime is not available in this build"@,
    }
}

impl DecodeError {
    /// The message of this error.
    pub fn message(&self) -> (r: String)
        ensures
            r@ == decode_message(*self),
    {
        match self {
            DecodeError::WrongLength { expected, got } => {
                let mut out = String::new();
                out.append("expected z.len() == ");
                push_decimal(&mut out, *expected as u64);
                out.append(", got ");
                push_decimal(&mut out, *got as u64);
                out
            },
            DecodeError::NotWired => text(
                "StubLatentDecoder: no learned decoder wired (enable `onnx` when ORT is available)",
            ),
            DecodeError::Invalid(v) => v.message(),
            DecodeError::NoModelPath => text(
                "OrtLatentDecoder: no ONNX model path configured; pass `--onnx-model` / OrtLatentDecoder::with_model_path",
            ),
            DecodeError::RuntimeUnavailable => text("OrtLatentDecoder: ONNX Runtime is not available in this build"),
        }
    }
}

/// The ONNX-backed decoder's configuration: the model file, if one is set. Before any session
/// it checks the length of `z` and that a model is configured, failing closed otherwise;
/// running the model needs ONNX Runtime, which this build does not include.
#[derive(Clone, Debug, PartialEq, Eq)]
pub struct OrtLatentDecoder {
    model_path: Option<String>,
}

impl OrtLatentDecoder {
    /// A decoder with no model file.
    pub fn new() -> (d: Self)
        ensures
            d.configured_path() is None,
    {
        OrtLatentDecoder { model_path: None }
    }

    /// A decoder for the model file at `path`.
    pub fn with_model_path(path: &str) -> (d: Self)
        ensures
            d.configured_path() == Some(path@),
    {
        OrtLatentDecoder { model_path: Some(text(path)) }
    }

    /// The configured model file, if any.
    pub closed spec fn configured_path(&self) -> Option<Seq<char>> {
        match self.model_path {
            Some(p) => Some(p@),
            None => None,
        }
    }

    /// The configured model file, if any.
    pub fn model_path(&self) -> (r: Option<&str>)
        ensures
            match r {
                Some(p) => self.configured_path() == Some(p@),
                None => self.configured_path() is None,
            },
    {
        match &self.model_path {
            Some(p) => Some(p.as_str()),
            None => None,
        }
    }
}

impl LatentDecoder for OrtLatentDecoder {
    fn expected_z_len(&self) -> (r: usize)
        ensures
            r == EMBEDDING_DIM,
    {
        EMBEDDING_DIM
    }

    fn decode_z_len(&self, z_len: usize) -> (r: Result<Module, DecodeError>)
        ensures
            z_len != EMBEDDING_DIM ==> r == Err::<Module, DecodeError>(
                DecodeError::WrongLength { expected: EMBEDDING_DIM, got: z_len },
            ),
            z_len == EMBEDDING_DIM && self.configured_path() is None ==> r == Err::<Module, DecodeError>(
                DecodeError::NoModelPath,
            ),
            z_len == EMBEDDING_DIM && self.configured_path() is Some ==> r == Err::<Module, DecodeError>(
                DecodeError::RuntimeUnavailable,
            ),
    {
        if z_len != EMBEDDING_DIM {
            return Err(DecodeError::WrongLength { expected: EMBEDDING_DIM, got: z_len });
        }
        match &self.model_path {
            None => Err(DecodeError::NoModelPath),
            Some(_) => Err(DecodeError::RuntimeUnavailable),
        }
    }
}

/// Why a decoder graph's declared `z` input shape breaks the contract.
#[derive(Clone, Debug, PartialEq, Eq)]
pub enum ShapeError {
    /// A rank-1 shape with a fixed dimension other than the latent length.
    FixedDim { shape: Vec<i64>, expected: i64, dim: i64 },
    /// A rank-2 shape whose batch dimension is fixed and not 1.
    Batch { shape: Vec<i64> },
    /// A rank-2 shape whose fixed latent dimension is not the latent length.
    LatentDim { shape: Vec<i64>, expected: i64, dim: i64 },
    /// Any other rank.
    Rank { shape: Vec<i64>, expected: i64 },
    /// The latent length itself does not fit an `i64`.
    LengthOutOfRange,
}

/// The contract on the declared shape of `z`: `[D]` or `[1, D]` with `D` the latent length,
/// where a non-positive entry stands for a dynamic dimension.
pub open spec fn shape_verdict(shape: Seq<i64>, expected: i64) -> Result<(), (nat, i64)> {
    if shape.len() == 1 {
        if shape[0] > 0 && shape[0] != expected {
            Err((0nat, shape[0]))
        } else {
            Ok(())
        }
    } else if shape.len() == 2 {
        if shape[0] > 0 && shape[0] != 1 {
            Err((1nat, shape[0]))
        } else if shape[1] > 0 && shape[1] != expected {
            Err((2nat, shape[1]))
        } else {
            Ok(())
        }
    } else {
        Err((3nat, 0))
    }
}

/// The kind of a shape error: 0 fixed dim, 1 batch, 2 latent dim, 3 rank.
pub open spec fn shape_error_kind(e: ShapeError) -> (nat, i64) {
    match e {
        ShapeError::FixedDim { dim, .. } => (0nat, dim),
        ShapeError::Batch { shape } => (1nat, shape@[0]),
        ShapeError::LatentDim { dim, .. } => (2nat, dim),
        ShapeError::Rank { .. } => (3nat, 0),
        ShapeError::LengthOutOfRange => (4nat, 0),
    }
}

/// The shape carried by a shape error.
pub open spec fn shape_error_shape(e: ShapeError) -> Seq<i64> {
    match e {
        ShapeError::FixedDim { shape, .. } => shape@,
        ShapeError::Batch { shape } => shape@,
        ShapeError::LatentDim { shape, .. } => shape@,
        ShapeError::Rank { shape, .. } => shape@,
        ShapeError::LengthOutOfRange => Seq::empty(),
    }
}

fn copy_shape(shape: &[i64]) -> (r: Vec<i64>)
    ensures
        r@ == shape@,
{
    let mut out: Vec<i64> = Vec::new();
    let mut i: usize = 0;
    while i < shape.len()
        invariant
            i <= shape@.len(),
            out@ == shape@.take(i as int),
        decreases shape@.len() - i,
    {
        out.push(shape[i]);
        i = i + 1;
        assert(out@ =~= shape@.take(i as int));
    }
    assert(shape@.take(shape@.len() as int) =~= shape@);
    out
}

/// Checks the declared shape of the `z` input of a decoder graph against a latent length of
/// `expected_len` elements (refused when that length does not fit an `i64`).
pub fn z_input_shape_matches_contract(shape: &[i64], expected_len: usize) -> (r: Result<(), ShapeError>)
    ensures
        expected_len > i64::MAX ==> r == Err::<(), ShapeError>(ShapeError::LengthOutOfRange),
        expected_len <= i64::MAX && shape_verdict(shape@, expected_len as i64) is Ok ==> r is Ok,
        expected_len <= i64::MAX ==> (shape_verdict(shape@, expected_len as i64) matches Err(k) ==> (r matches Err(
            e,
        ) && shape_error_kind(e) == k && shape_error_shape(e) == shape@)),
{
    if expected_len as u64 > 9223372036854775807u64 {
        return Err(ShapeError::LengthOutOfRange);
    }
    let expected = expected_len as i64;
    if shape.len() == 1 {
        let d = shape[0];
        if d > 0 && d != expected {
            return Err(ShapeError::FixedDim { shape: copy_shape(shape), expected, dim: d });
        }
        Ok(())
    } else if shape.len() == 2 {
        let batch = shape[0];
        let d = shape[1];
        if batch > 0 && batch != 1 {
            return Err(ShapeError::Batch { shape: copy_shape(shape) });
        }
        if d > 0 && d != expected {
            return Err(ShapeError::LatentDim { shape: copy_shape(shape), expected, dim: d });
        }
        Ok(())
    } else {
        Err(ShapeError::Rank { shape: copy_shape(shape), expected })
    }
}

/// Debug form of a shape (`[1, 256]`).
pub open spec fn shape_text(shape: Seq<i64>) -> Seq<char> {
    "["@ + shape_items(shape) + "]"@
}

/// Comma-separated entries of a shape.
pub open spec fn shape_items(shape: Seq<i64>) -> Seq<char>
    decreases shape.len(),
{
    if shape.len() == 0 {
        Seq::empty()
    } else if shape.len() == 1 {
        signed_decimal(shape[0] as int)
    } else {
        shape_items(shape.drop_last()) + ", "@ + signed_decimal(shape.last() as int)
    }
}

fn push_shape(out: &mut String, shape: &Vec<i64>)
    ensures
        final(out)@ == old(out)@ + shape_text(shape@),
{
    let ghost start = out@;
    out.append("[");
    let mut i: usize = 0;
    while i < shape.len()
        invariant
            i <= shape@.len(),
            out@ == start + "["@ + shape_items(shape@.take(i as int)),
        decreases shape@.len() - i,
    {
        if i > 0 {
            out.append(", ");
        }
        push_signed_decimal(out, shape[i]);
        proof {
            let t = shape@.take(i + 1);
            assert(t.drop_last() =~= shape@.take(i as int));
            assert(t.last() == shape@[i as int]);
            if i == 0 {
                assert(out@ =~= start + "["@ + shape_items(t));
            } else {
                assert(out@ =~= start + "["@ + shape_items(t));
            }
        }
        i = i + 1;
    }
    assert(shape@.take(shape@.len() as int) =~= shape@);
    out.append("]");
    assert(out@ =~= start + shape_text(shape@));
}

/// The message of a shape error (the input's name quoted as `"z"`).
pub open spec fn shape_message(e: ShapeError) -> Seq<char> {
    match e {
        ShapeError::FixedDim { shape, expected, dim } => "decoder input \"z\" shape "@ + shape_text(shape@)
            + " must have "@ + signed_decimal(expected as int) + " elements (got fixed dim "@ + signed_decimal(
            dim as int,
        ) + ")"@,
        ShapeError::Batch { shape } => "decoder input \"z\" batch dimension must be 1 or dynamic (-1), got "@
            + shape_text(shape@),
        ShapeError::LatentDim { shape, expected, dim } => "decoder input \"z\" shape "@ + shape_text(shape@)
            + " must end with latent dim "@ + signed_decimal(expected as int) + " (got "@ + signed_decimal(
            dim as int,
        ) + ")"@,
        ShapeError::Rank { shape, expected } => "decoder input \"z\" must be rank-1 `["@ + signed_decimal(
            expected as int,
        ) + "]` or rank-2 `[1, "@ + signed_decimal(expected as int) + "]` (got shape "@ + shape_text(shape@)
            + ")"@,
        ShapeError::LengthOutOfRange => "expected z length does not fit i64"@,
    }
}

impl ShapeError {
    /// The message of this error.
    pub fn message(&self) -> (r: String)
        ensures
            r@ == shape_message(*self),
    {
        let mut out = String::new();
        match self {
            ShapeError::FixedDim { shape, expected, dim } => {
                out.append("decoder input \"z\" shape ");
                push_shape(&mut out, shape);
                out.append(" must have ");
                push_signed_decimal(&mut out, *expected);
                out.append(" elements (got fixed dim ");
                push_signed_decimal(&mut out, *dim);
                out.append(")");
            },
            ShapeError::Batch { shape } => {
                out.append("decoder input \"z\" batch dimension must be 1 or dynamic (-1), got ");
                push_shape(&mut out, shape);
            },
            ShapeError::LatentDim { shape, expected, dim } => {
                out.append("decoder input \"z\" shape ");
                push_shape(&mut out, shape);
                out.append(" must end with latent dim ");
                push_signed_decimal(&mut out, *expected);
                out.append(" (got ");
                push_signed_decimal(&mut out, *dim);
                out.append(")");
            },
            ShapeError::Rank { shape, expected } => {
                out.append("decoder input \"z\" must be rank-1 `[");
                push_signed_decimal(&mut out, *expected);
                out.append("]` or rank-2 `[1, ");
                push_signed_decimal(&mut out, *expected);
                out.append("]` (got shape ");
                push_shape(&mut out, shape);
                out.append(")");
            },
            ShapeError::LengthOutOfRange => out.append("expected z length does not fit i64"),
        }
        assert(out@ =~= shape_message(*self));
        out
    }
}

/// Upper bound on the Program IR JSON bytes a decoder graph may return.
pub const IR_JSON_ONNX_MAX_BYTES: usize = 16777216;

/// The element type of an ONNX tensor, as far as the decoder contract reads it.
#[derive(Clone, Debug, PartialEq, Eq)]
pub enum TensorElem {
    Float32,
    Uint8,
    /// Any other element type, by its printed name.
    Other(String),
}

/// What a decoder graph declares for one of its inputs or outputs.
#[derive(Clone, Debug, PartialEq, Eq)]
pub enum PortType {
    /// A tensor, with its element type and declared shape (non-positive entries are dynamic).
    Tensor { elem: TensorElem, shape: Vec<i64> },
    /// Anything but a tensor, by its printed form.
    Other(String),
}

/// A named input or output of a decoder graph.
#[derive(Clone, Debug, PartialEq, Eq)]
pub struct GraphPort {
    pub name: String,
    pub port_type: PortType,
}

/// Why a decoder graph or its output breaks the decoder contract.
#[derive(Debug, PartialEq, Eq)]
pub enum ContractError {
    /// No input is named `z` (the declared input names).
    MissingInput(Vec<String>),
    /// The `z` input is not an `f32` tensor.
    InputElem(TensorElem),
    InputShape(ShapeError),
    /// The `z` input is not a tensor.
    InputNotTensor(String),
    /// No output is named `program_ir_json` (the declared output names).
    MissingOutput(Vec<String>),
    /// The `program_ir_json` output is not a `uint8` tensor.
    OutputElem(TensorElem),
    /// The `program_ir_json` output is not a tensor.
    OutputNotTensor(String),
    /// The returned Program IR JSON exceeds [`IR_JSON_ONNX_MAX_BYTES`].
    PayloadTooLarge(usize),
    /// The returned bytes are not Program IR JSON (the parser's message).
    InvalidJson(String),
    /// The returned program does not validate.
    Invalid(ValidationError),
}

/// The index of the first port named `name`.
pub open spec fn first_named(ports: Seq<GraphPort>, name: Seq<char>, from: int) -> Option<int>
    decreases ports.len() - from,
{
    if from < 0 || from >= ports.len() {
        None
    } else if ports[from].name@ == name {
        Some(from)
    } else {
        first_named(ports, name, from + 1)
    }
}

/// The names of a list of ports.
pub open spec fn port_names(ports: Seq<GraphPort>) -> Seq<Seq<char>> {
    Seq::new(ports.len(), |i: int| ports[i].name@)
}

fn find_port(ports: &[GraphPort], name: &str) -> (r: Option<usize>)
    ensures
        r matches Some(i) ==> i < ports@.len() && first_named(ports@, name@, 0) == Some(i as int),
        r is None ==> first_named(ports@, name@, 0) is None,
{
    let mut i: usize = 0;
    while i < ports.len()
        invariant
            i <= ports@.len(),
            first_named(ports@, name@, 0) == first_named(ports@, name@, i as int),
        decreases ports@.len() - i,
    {
        if crate::diagnostics::str_eq(ports[i].name.as_str(), name) {
            return Some(i);
        }
        i = i + 1;
    }
    None
}

fn names_of(ports: &[GraphPort]) -> (r: Vec<String>)
    ensures
        r@.len() == ports@.len(),
        forall|k: int| 0 <= k < r@.len() ==> (#[trigger] r@[k])@ == ports@[k].name@,
{
    let mut out: Vec<String> = Vec::new();
    let mut i: usize = 0;
    while i < ports.len()
        invariant
            i <= ports@.len(),
            out@.len() == i,
            forall|k: int| 0 <= k < i ==> (#[trigger] out@[k])@ == ports@[k].name@,
        decreases ports@.len() - i,
    {
        out.push(ports[i].name.clone());
        i = i + 1;
    }
    out
}

fn copy_elem(e: &TensorElem) -> (r: TensorElem)
    ensures
        r == *e,
{
    match e {
        TensorElem::Float32 => TensorElem::Float32,
        TensorElem::Uint8 => TensorElem::Uint8,
        TensorElem::Other(s) => TensorElem::Other(s.clone()),
    }
}

/// A decoder graph's inputs must include `z`, an `f32` tensor whose declared shape meets the
/// contract for `expected_len` elements (the first input named `z` is the one checked).
pub fn validate_z_input_contract(inputs: &[GraphPort], expected_len: usize) -> (r: Result<(), ContractError>)
    ensures
        first_named(inputs@, "z"@, 0) is None ==> (r matches Err(ContractError::MissingInput(names)) && names@.len()
            == inputs@.len()),
        first_named(inputs@, "z"@, 0) matches Some(i) ==> match inputs@[i].port_type {
            PortType::Other(t) => r == Err::<(), ContractError>(ContractError::InputNotTensor(t)),
            PortType::Tensor { elem, shape } => if elem != TensorElem::Float32 {
                r == Err::<(), ContractError>(ContractError::InputElem(elem))
            } else if expected_len > i64::MAX {
                r == Err::<(), ContractError>(ContractError::InputShape(ShapeError::LengthOutOfRange))
            } else {
                (shape_verdict(shape@, expected_len as i64) is Ok ==> r is Ok) && (shape_verdict(
                    shape@,
                    expected_len as i64,
                ) is Err ==> (r matches Err(ContractError::InputShape(e)) && shape_error_kind(e) == shape_verdict(
                    shape@,
                    expected_len as i64,
                )->Err_0))
            },
        },
{
    proof {
        reveal_strlit("z");
    }
    let i = match find_port(inputs, "z") {
        Some(i) => i,
        None => return Err(ContractError::MissingInput(names_of(inputs))),
    };
    match &inputs[i].port_type {
        PortType::Other(t) => Err(ContractError::InputNotTensor(t.clone())),
        PortType::Tensor { elem, shape } => {
            match elem {
                TensorElem::Float32 => {},
                _ => return Err(ContractError::InputElem(copy_elem(elem))),
            }
            match z_input_shape_matches_contract(shape.as_slice(), expected_len) {
                Ok(()) => Ok(()),
                Err(e) => Err(ContractError::InputShape(e)),
            }
        },
    }
}

/// A decoder graph's outputs must include `program_ir_json`, a `uint8` tensor (the first output
/// of that name is the one checked).
pub fn validate_ir_json_output_contract(outputs: &[GraphPort]) -> (r: Result<(), ContractError>)
    ensures
        first_named(outputs@, "program_ir_json"@, 0) is None ==> (r matches Err(ContractError::MissingOutput(names))
            && names@.len() == outputs@.len()),
        first_named(outputs@, "program_ir_json"@, 0) matches Some(i) ==> match outputs@[i].port_type {
            PortType::Other(t) => r == Err::<(), ContractError>(ContractError::OutputNotTensor(t)),
            PortType::Tensor { elem, .. } => if elem != TensorElem::Uint8 {
                r == Err::<(), ContractError>(ContractError::OutputElem(elem))
            } else {
                r is Ok
            },
        },
{
    let i = match find_port(outputs, "program_ir_json") {
        Some(i) => i,
        None => return Err(ContractError::MissingOutput(names_of(outputs))),
    };
    match &outputs[i].port_type {
        PortType::Other(t) => Err(ContractError::OutputNotTensor(t.clone())),
        PortType::Tensor { elem, .. } => match elem {
            TensorElem::Uint8 => Ok(()),
            _ => Err(ContractError::OutputElem(copy_elem(elem))),
        },
    }
}

/// The Program IR JSON a decoder graph returned must fit [`IR_JSON_ONNX_MAX_BYTES`].
pub fn check_ir_json_payload(len: usize) -> (r: Result<(), ContractError>)
    ensures
        len <= IR_JSON_ONNX_MAX_BYTES ==> r is Ok,
        len > IR_JSON_ONNX_MAX_BYTES ==> r == Err::<(), ContractError>(ContractError::PayloadTooLarge(len)),
{
    if len > IR_JSON_ONNX_MAX_BYTES {
        Err(ContractError::PayloadTooLarge(len))
    } else {
        Ok(())
    }
}

/// The module a decoder graph returned, once parsed (`parsed`: the module, or the parser's
/// message): it is accepted only if it validates.
pub fn accept_decoded_module(parsed: Result<Module, String>) -> (r: Result<Module, ContractError>)
    ensures
        parsed matches Err(m) ==> r == Err::<Module, ContractError>(ContractError::InvalidJson(m)),
        parsed matches Ok(module) ==> (valid_module(module) ==> r == Ok::<Module, ContractError>(module)),
        parsed matches Ok(module) ==> (!valid_module(module) ==> r matches Err(ContractError::Invalid(_))),
{
    match parsed {
        Err(m) => Err(ContractError::InvalidJson(m)),
        Ok(module) => match validate_module(&module) {
            Ok(()) => Ok(module),
            Err(e) => Err(ContractError::Invalid(e)),
        },
    }
}

/// Printed name of an element type.
pub open spec fn elem_text(e: TensorElem) -> Seq<char> {
    match e {
        TensorElem::Float32 => "Float32"@,
        TensorElem::Uint8 => "Uint8"@,
        TensorElem::Other(s) => s@,
    }
}

/// Comma-separated quoted names (without the brackets).
pub open spec fn quoted_items(names: Seq<String>) -> Seq<char>
    decreases names.len(),
{
    if names.len() == 0 {
        Seq::empty()
    } else if names.len() == 1 {
        "\""@ + names[0]@ + "\""@
    } else {
        quoted_items(names.drop_last()) + ", \""@ + names.last()@ + "\""@
    }
}

fn push_elem(out: &mut String, e: &TensorElem)
    ensures
        final(out)@ == old(out)@ + elem_text(*e),
{
    match e {
        TensorElem::Float32 => out.append("Float32"),
        TensorElem::Uint8 => out.append("Uint8"),
        TensorElem::Other(s) => out.append(s.as_str()),
    }
}

fn push_names(out: &mut String, names: &Vec<String>)
    ensures
        final(out)@ == old(out)@ + "["@ + quoted_items(names@) + "]"@,
{
    let ghost start = out@;
    out.append("[");
    let mut i: usize = 0;
    while i < names.len()
        invariant
            i <= names@.len(),
            out@ == start + "["@ + quoted_items(names@.take(i as int)),
        decreases names@.len() - i,
    {
        if i == 0 {
            out.append("\"");
        } else {
            out.append(", \"");
        }
        out.append(names[i].as_str());
        out.append("\"");
        proof {
            let t = names@.take(i + 1);
            assert(t.drop_last() =~= names@.take(i as int));
            assert(t.last() == names@[i as int]);
            assert(out@ =~= start + "["@ + quoted_items(t));
        }
        i = i + 1;
    }
    assert(names@.take(names@.len() as int) =~= names@);
    out.append("]");
    assert(out@ =~= start + "["@ + quoted_items(names@) + "]"@);
}

/// The message of a contract violation.
pub open spec fn contract_message(e: ContractError) -> Seq<char> {
    match e {
        ContractError::MissingInput(names) => "decoder ONNX model must declare an input tensor named \"z\"; got "@
            + "["@ + quoted_items(names@) + "]"@,
        ContractError::InputElem(t) => "decoder input \"z\" must be an f32 tensor (got element type "@ + elem_text(t)
            + ")"@,
        ContractError::InputShape(s) => shape_message(s),
        ContractError::InputNotTensor(t) => "decoder input \"z\" must be a tensor (got "@ + t@ + ")"@,
        ContractError::MissingOutput(names) =>
            "decoder ONNX model must declare output tensor \"program_ir_json\" (UTF-8 Program IR JSON); got "@ + "["@
            + quoted_items(names@) + "]"@,
        ContractError::OutputElem(t) => "decoder output \"program_ir_json\" must be a uint8 tensor (got element type "@
            + elem_text(t) + ")"@,
        ContractError::OutputNotTensor(t) => "decoder output \"program_ir_json\" must be a tensor (got "@ + t@ + ")"@,
        ContractError::PayloadTooLarge(n) => "\"program_ir_json\" payload too large: "@ + decimal(n as nat)
            + " bytes (max 16777216)"@,
        ContractError::InvalidJson(_) => "\"program_ir_json\": invalid Program IR JSON"@,
        ContractError::Invalid(_) => "\"program_ir_json\": IR failed validate_module"@,
    }
}

impl ContractError {
    /// The message of this error (the step that failed; its cause is carried in the value).
    pub fn message(&self) -> (r: String)
        ensures
            r@ == contract_message(*self),
    {
        let mut out = String::new();
        match self {
            ContractError::MissingInput(names) => {
                out.append("decoder ONNX model must declare an input tensor named \"z\"; got ");
                push_names(&mut out, names);
            },
            ContractError::InputElem(t) => {
                out.append("decoder input \"z\" must be an f32 tensor (got element type ");
                push_elem(&mut out, t);
                out.append(")");
            },
            ContractError::InputShape(e) => {
                let m = e.message();
                out.append(m.as_str());
            },
            ContractError::InputNotTensor(t) => {
                out.append("decoder input \"z\" must be a tensor (got ");
                out.append(t.as_str());
                out.append(")");
            },
            ContractError::MissingOutput(names) => {
                out.append(
                    "decoder ONNX model must declare output tensor \"program_ir_json\" (UTF-8 Program IR JSON); got ",
                );
                push_names(&mut out, names);
            },
            ContractError::OutputElem(t) => {
                out.append("decoder output \"program_ir_json\" must be a uint8 tensor (got element type ");
                push_elem(&mut out, t);
                out.append(")");
            },
            ContractError::OutputNotTensor(t) => {
                out.append("decoder output \"program_ir_json\" must be a tensor (got ");
                out.append(t.as_str());
                out.append(")");
            },
            ContractError::PayloadTooLarge(n) => {
                out.append("\"program_ir_json\" payload too large: ");
                push_decimal(&mut out, *n as u64);
                out.append(" bytes (max 16777216)");
            },
            ContractError::InvalidJson(_) => out.append("\"program_ir_json\": invalid Program IR JSON"),
            ContractError::Invalid(_) => out.append("\"program_ir_json\": IR failed validate_module"),
        }
        assert(out@ =~= contract_message(*self));
        out
    }
}

} // verus!
