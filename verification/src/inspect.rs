//! Summaries of a Program IR module for inspection: its signature labels, tree metrics, and
//! a histogram of its instructions by kind; and the SHA-256 digest of a file, in hex.
use vstd::prelude::*;
use crate::ast::{Instr, Module};
use crate::diagnostics::{spec_valtype_label, valtype_labels};
use crate::metrics::{instr_tree_node_count, max_control_nesting_depth, nest_depth, saturate, tree_count};
use crate::text::text;

verus! {

/// Number of instruction kinds the histogram distinguishes.
pub const OP_TAGS: usize = 27;

/// The histogram slot of an instruction's kind (slots are in the lexicographic order of the
/// kinds' names).
pub open spec fn op_tag(i: Instr) -> nat {
    match i {
        Instr::Block { .. } => 0,
        Instr::Drop => 1,
        Instr::F32Add => 2,
        Instr::F32Const { .. } => 3,
        Instr::F32ConvertI32S => 4,
        Instr::F32Div => 5,
        Instr::F32Gt => 6,
        Instr::F32Mul => 7,
        Instr::F32Sub => 8,
        Instr::F64Add => 9,
        Instr::F64Const { .. } => 10,
        Instr::F64Div => 11,
        Instr::F64Mul => 12,
        Instr::F64Sub => 13,
        Instr::I32Add => 14,
        Instr::I32Const { .. } => 15,
        Instr::I32Eq => 16,
        Instr::I32Eqz => 17,
        Instr::I32Mul => 18,
        Instr::I32Sub => 19,
        Instr::I32TruncF32S => 20,
        Instr::I32Xor => 21,
        Instr::I64Const { .. } => 22,
        Instr::IfElse { .. } => 23,
        Instr::LocalGet { .. } => 24,
        Instr::LocalSet { .. } => 25,
        Instr::Return => 26,
    }
}

/// `a + b`, saturated at `usize::MAX`.
pub open spec fn sat_add(a: usize, b: nat) -> usize {
    saturate((a + b) as nat)
}

/// The name of histogram slot `k`.
pub open spec fn spec_tag_name(k: nat) -> Seq<char> {
    if k == 0 {
        "block"@
    } else if k == 1 {
        "drop"@
    } else if k == 2 {
        "f32_add"@
    } else if k == 3 {
        "f32_const"@
    } else if k == 4 {
        "f32_convert_i32_s"@
    } else if k == 5 {
        "f32_div"@
    } else if k == 6 {
        "f32_gt"@
    } else if k == 7 {
        "f32_mul"@
    } else if k == 8 {
        "f32_sub"@
    } else if k == 9 {
        "f64_add"@
    } else if k == 10 {
        "f64_const"@
    } else if k == 11 {
        "f64_div"@
    } else if k == 12 {
        "f64_mul"@
    } else if k == 13 {
        "f64_sub"@
    } else if k == 14 {
        "i32_add"@
    } else if k == 15 {
        "i32_const"@
    } else if k == 16 {
        "i32_eq"@
    } else if k == 17 {
        "i32_eqz"@
    } else if k == 18 {
        "i32_mul"@
    } else if k == 19 {
        "i32_sub"@
    } else if k == 20 {
        "i32_trunc_f32_s"@
    } else if k == 21 {
        "i32_xor"@
    } else if k == 22 {
        "i64_const"@
    } else if k == 23 {
        "if_else"@
    } else if k == 24 {
        "local_get"@
    } else if k == 25 {
        "local_set"@
    } else {
        "return"@
    }
}

/// How many instructions of kind `k` occur in `s`, nested bodies included.
pub open spec fn tag_count(s: Seq<Instr>, k: nat) -> nat
    decreases s,
{
    if s.len() == 0 {
        0
    } else {
        tag_count(s.drop_last(), k) + node_tag_count(s.last(), k)
    }
}

/// How many instructions of kind `k` are `i` or occur in its nested bodies.
pub open spec fn node_tag_count(i: Instr, k: nat) -> nat
    decreases i,
{
    (if op_tag(i) == k { 1nat } else { 0nat }) + match i {
        Instr::Block { body, .. } => tag_count(body@, k),
        Instr::IfElse { then_body, else_body, .. } => tag_count(then_body@, k) + tag_count(else_body@, k),
        _ => 0,
    }
}

fn op_tag_of(i: &Instr) -> (r: usize)
    ensures
        r == op_tag(*i),
        r < OP_TAGS,
{
    match i {
        Instr::Block { .. } => 0,
        Instr::Drop => 1,
        Instr::F32Add => 2,
        Instr::F32Const { .. } => 3,
        Instr::F32ConvertI32S => 4,
        Instr::F32Div => 5,
        Instr::F32Gt => 6,
        Instr::F32Mul => 7,
        Instr::F32Sub => 8,
        Instr::F64Add => 9,
        Instr::F64Const { .. } => 10,
        Instr::F64Div => 11,
        Instr::F64Mul => 12,
        Instr::F64Sub => 13,
        Instr::I32Add => 14,
        Instr::I32Const { .. } => 15,
        Instr::I32Eq => 16,
        Instr::I32Eqz => 17,
        Instr::I32Mul => 18,
        Instr::I32Sub => 19,
        Instr::I32TruncF32S => 20,
        Instr::I32Xor => 21,
        Instr::I64Const { .. } => 22,
        Instr::IfElse { .. } => 23,
        Instr::LocalGet { .. } => 24,
        Instr::LocalSet { .. } => 25,
        Instr::Return => 26,
    }
}

/// The name of histogram slot `k`.
pub fn tag_name(k: usize) -> (r: &'static str)
    requires
        k < OP_TAGS,
    ensures
        r@ == spec_tag_name(k as nat),
{
    proof {
        reveal_strlit("block");
        reveal_strlit("drop");
        reveal_strlit("f32_add");
        reveal_strlit("f32_const");
        reveal_strlit("f32_convert_i32_s");
        reveal_strlit("f32_div");
        reveal_strlit("f32_gt");
        reveal_strlit("f32_mul");
        reveal_strlit("f32_sub");
        reveal_strlit("f64_add");
        reveal_strlit("f64_const");
        reveal_strlit("f64_div");
        reveal_strlit("f64_mul");
        reveal_strlit("f64_sub");
        reveal_strlit("i32_add");
        reveal_strlit("i32_const");
        reveal_strlit("i32_eq");
        reveal_strlit("i32_eqz");
        reveal_strlit("i32_mul");
        reveal_strlit("i32_sub");
        reveal_strlit("i32_trunc_f32_s");
        reveal_strlit("i32_xor");
        reveal_strlit("i64_const");
        reveal_strlit("if_else");
        reveal_strlit("local_get");
        reveal_strlit("local_set");
        reveal_strlit("return");
    }
    if k == 0 {
        "block"
    } else if k == 1 {
        "drop"
    } else if k == 2 {
        "f32_add"
    } else if k == 3 {
        "f32_const"
    } else if k == 4 {
        "f32_convert_i32_s"
    } else if k == 5 {
        "f32_div"
    } else if k == 6 {
        "f32_gt"
    } else if k == 7 {
        "f32_mul"
    } else if k == 8 {
        "f32_sub"
    } else if k == 9 {
        "f64_add"
    } else if k == 10 {
        "f64_const"
    } else if k == 11 {
        "f64_div"
    } else if k == 12 {
        "f64_mul"
    } else if k == 13 {
        "f64_sub"
    } else if k == 14 {
        "i32_add"
    } else if k == 15 {
        "i32_const"
    } else if k == 16 {
        "i32_eq"
    } else if k == 17 {
        "i32_eqz"
    } else if k == 18 {
        "i32_mul"
    } else if k == 19 {
        "i32_sub"
    } else if k == 20 {
        "i32_trunc_f32_s"
    } else if k == 21 {
        "i32_xor"
    } else if k == 22 {
        "i64_const"
    } else if k == 23 {
        "if_else"
    } else if k == 24 {
        "local_get"
    } else if k == 25 {
        "local_set"
    } else {
        "return"
    }
}

fn bump(counts: &mut Vec<usize>, k: usize)
    requires
        k < old(counts)@.len(),
    ensures
        final(counts)@ == old(counts)@.update(k as int, sat_add(old(counts)@[k as int], 1)),
{
    let c = counts[k];
    counts.set(k, c.saturating_add(1));
}

/// Adds the kinds of `instrs` (nested bodies included) to `counts`, saturating.
pub fn walk_op_histogram(instrs: &[Instr], counts: &mut Vec<usize>)
    requires
        old(counts)@.len() == OP_TAGS,
    ensures
        final(counts)@.len() == OP_TAGS,
        forall|k: int| 0 <= k < OP_TAGS ==> #[trigger] final(counts)@[k] == sat_add(old(counts)@[k], tag_count(instrs@, k as nat)),
    decreases instrs@,
{
    let ghost start = counts@;
    let mut i: usize = 0;
    while i < instrs.len()
        invariant
            i <= instrs@.len(),
            counts@.len() == OP_TAGS,
            forall|k: int| 0 <= k < OP_TAGS ==> #[trigger] counts@[k] == sat_add(start[k], tag_count(instrs@.take(i as int), k as nat)),
        decreases instrs.len() - i,
    {
        match &instrs[i] {
            Instr::Block { body, .. } => {
                proof {
                    assert(decreases_to!(instrs@ => instrs@[i as int]));
                    assert(decreases_to!(instrs@ => body@));
                }
                walk_op_histogram(body.as_slice(), counts);
            },
            Instr::IfElse { then_body, else_body, .. } => {
                proof {
                    assert(decreases_to!(instrs@ => instrs@[i as int]));
                    assert(decreases_to!(instrs@ => then_body@));
                    assert(decreases_to!(instrs@ => else_body@));
                }
                walk_op_histogram(then_body.as_slice(), counts);
                walk_op_histogram(else_body.as_slice(), counts);
            },
            _ => {},
        }
        let tag = op_tag_of(&instrs[i]);
        bump(counts, tag);
        proof {
            let t = instrs@.take(i + 1);
            assert(t.drop_last() =~= instrs@.take(i as int));
            assert(t.last() == instrs@[i as int]);
            assert forall|k: int| 0 <= k < OP_TAGS implies #[trigger] counts@[k] == sat_add(start[k], tag_count(t, k as nat)) by {
                assert(tag_count(t, k as nat) == tag_count(instrs@.take(i as int), k as nat) + node_tag_count(
                    instrs@[i as int],
                    k as nat,
                ));
            }
        }
        i = i + 1;
    }
    proof {
        assert(instrs@.take(instrs@.len() as int) =~= instrs@);
    }
}

/// The non-empty histogram slots among the first `upto`, in slot order: each slot's name and count.
pub open spec fn histogram_entries(counts: Seq<usize>, upto: nat) -> Seq<(Seq<char>, usize)>
    decreases upto,
{
    if upto == 0 {
        Seq::empty()
    } else {
        let rest = histogram_entries(counts, (upto - 1) as nat);
        if counts[upto - 1] > 0 {
            rest.push((spec_tag_name((upto - 1) as nat), counts[upto - 1]))
        } else {
            rest
        }
    }
}

/// The counts of each instruction kind in `s`, saturated.
pub open spec fn body_counts(s: Seq<Instr>) -> Seq<usize> {
    Seq::new(OP_TAGS as nat, |k: int| saturate(tag_count(s, k as nat)))
}

/// The view of a histogram.
pub open spec fn histogram_view(h: Seq<(String, usize)>) -> Seq<(Seq<char>, usize)> {
    h.map_values(|e: (String, usize)| (e.0@, e.1))
}

/// The instruction kinds occurring in `body` (nested bodies included) with their counts, in
/// the lexicographic order of the kinds' names.
pub fn opcode_histogram(body: &[Instr]) -> (r: Vec<(String, usize)>)
    ensures
        histogram_view(r@) == histogram_entries(body_counts(body@), OP_TAGS as nat),
{
    let mut counts: Vec<usize> = Vec::new();
    let mut j: usize = 0;
    while j < OP_TAGS
        invariant
            j <= OP_TAGS,
            counts@.len() == j,
            forall|k: int| 0 <= k < j ==> #[trigger] counts@[k] == 0,
        decreases OP_TAGS - j,
    {
        counts.push(0);
        j = j + 1;
    }
    walk_op_histogram(body, &mut counts);
    assert(counts@ =~= body_counts(body@));
    let mut out: Vec<(String, usize)> = Vec::new();
    let mut k: usize = 0;
    while k < OP_TAGS
        invariant
            k <= OP_TAGS,
            counts@ == body_counts(body@),
            histogram_view(out@) == histogram_entries(counts@, k as nat),
        decreases OP_TAGS - k,
    {
        if counts[k] > 0 {
            let entry = (text(tag_name(k)), counts[k]);
            out.push(entry);
            assert(histogram_view(out@) =~= histogram_entries(counts@, k as nat).push((spec_tag_name(k as nat), counts@[k as int])));
        }
        k = k + 1;
    }
    out
}

/// What `inspect` reports on a module.
#[derive(Clone, Debug, PartialEq, Eq)]
pub struct InspectSummary {
    pub export_name: String,
    pub program_ir_version: u32,
    pub params: Vec<String>,
    pub results: Vec<String>,
    pub instruction_tree_nodes: usize,
    pub max_control_nesting_depth: usize,
    pub opcode_histogram: Vec<(String, usize)>,
}

/// Labels of a value-type list, as strings.
pub open spec fn labels_view(v: Seq<String>) -> Seq<Seq<char>> {
    v.map_values(|s: String| s@)
}

/// The inspection summary of `module`.
pub fn inspect_summary(module: &Module) -> (r: InspectSummary)
    ensures
        r.export_name@ == module.export_name@,
        r.program_ir_version == module.program_ir_version,
        r.params@.len() == module.func.sig.params@.len(),
        forall|k: int| 0 <= k < r.params@.len() ==> (#[trigger] r.params@[k])@ == spec_valtype_label(module.func.sig.params@[k]),
        r.results@.len() == module.func.sig.results@.len(),
        forall|k: int| 0 <= k < r.results@.len() ==> (#[trigger] r.results@[k])@ == spec_valtype_label(module.func.sig.results@[k]),
        r.instruction_tree_nodes == saturate(tree_count(module.func.body@)),
        r.max_control_nesting_depth == saturate(nest_depth(module.func.body@)),
        histogram_view(r.opcode_histogram@) == histogram_entries(body_counts(module.func.body@), OP_TAGS as nat),
{
    InspectSummary {
        export_name: module.export_name.clone(),
        program_ir_version: module.program_ir_version,
        params: valtype_labels(module.func.sig.params.as_slice()),
        results: valtype_labels(module.func.sig.results.as_slice()),
        instruction_tree_nodes: instr_tree_node_count(module.func.body.as_slice()),
        max_control_nesting_depth: max_control_nesting_depth(module.func.body.as_slice()),
        opcode_histogram: opcode_histogram(module.func.body.as_slice()),
    }
}

} // verus!
