//! Properties that hold across the validator, the metrics, the lowering and the diagnostics.
use vstd::prelude::*;
use crate::ast::{lemma_models, model, models, same_module, Instr, Module, ValType};
use crate::diagnostics::{all_codes, code_str, spec_parse_code, spec_repair, DiagnosticCode};
use crate::limits::{MAX_BODY_INSTRS, MAX_CONTROL_DEPTH, MAX_DECLARED_LOCALS, MAX_EXPORT_NAME_LEN, MAX_PARAMS};
use crate::lower::{expand_groups, local_groups, lower_one, lower_seq, lowered_bytes, seq_has_return};
use crate::metrics::{nest_depth, node_count, node_depth, tree_count};
use crate::text::all_white_space;
use crate::validate::{spec_instr, spec_list, spec_pop, spec_seq, spec_validate_func, valid_module};
use vstd::utf8::encode_utf8;
use crate::diagnostics::{diagnostic_of, plan_of, Diagnostic, FixPlan};
use crate::validate::{same_error, ValidationError};
use crate::policy::{payload_verdict, scan_verdict, PayloadKind, PolicyError, WasmPolicy};
use crate::cli::hex_lower;
use crate::inspect::{node_tag_count, op_tag, sat_add, tag_count, OP_TAGS};

verus! {

/// Every diagnostic code's text parses back to that code.
pub proof fn law_code_text_roundtrip(c: DiagnosticCode)
    ensures
        spec_parse_code(code_str(c)) == Some(c),
{
    reveal_strlit("VCIR_VER001");
    reveal_strlit("VCIR_EXP001");
    reveal_strlit("VCIR_EXP002");
    reveal_strlit("VCIR_LIM001");
    reveal_strlit("VCIR_LIM002");
    reveal_strlit("VCIR_LIM003");
    reveal_strlit("VCIR_SIG001");
    reveal_strlit("VCIR_LOC001");
    reveal_strlit("VCIR_STK001");
    reveal_strlit("VCIR_STK002");
    reveal_strlit("VCIR_STK003");
    reveal_strlit("VCIR_CTL001");
    reveal_strlit("VCIR_CTL002");
    reveal_strlit("VCIR_CTL003");
    reveal_strlit("VCIR_CTL004");
    reveal_strlit("VCIR_CTL005");
    assert("VCIR_VER001"@[5] == 'V' && "VCIR_VER001"@[6] == 'E' && "VCIR_VER001"@[7] == 'R' && "VCIR_VER001"@[10] == '1');
    assert("VCIR_EXP001"@[5] == 'E' && "VCIR_EXP001"@[6] == 'X' && "VCIR_EXP001"@[7] == 'P' && "VCIR_EXP001"@[10] == '1');
    assert("VCIR_EXP002"@[5] == 'E' && "VCIR_EXP002"@[6] == 'X' && "VCIR_EXP002"@[7] == 'P' && "VCIR_EXP002"@[10] == '2');
    assert("VCIR_LIM001"@[5] == 'L' && "VCIR_LIM001"@[6] == 'I' && "VCIR_LIM001"@[7] == 'M' && "VCIR_LIM001"@[10] == '1');
    assert("VCIR_LIM002"@[5] == 'L' && "VCIR_LIM002"@[6] == 'I' && "VCIR_LIM002"@[7] == 'M' && "VCIR_LIM002"@[10] == '2');
    assert("VCIR_LIM003"@[5] == 'L' && "VCIR_LIM003"@[6] == 'I' && "VCIR_LIM003"@[7] == 'M' && "VCIR_LIM003"@[10] == '3');
    assert("VCIR_SIG001"@[5] == 'S' && "VCIR_SIG001"@[6] == 'I' && "VCIR_SIG001"@[7] == 'G' && "VCIR_SIG001"@[10] == '1');
    assert("VCIR_LOC001"@[5] == 'L' && "VCIR_LOC001"@[6] == 'O' && "VCIR_LOC001"@[7] == 'C' && "VCIR_LOC001"@[10] == '1');
    assert("VCIR_STK001"@[5] == 'S' && "VCIR_STK001"@[6] == 'T' && "VCIR_STK001"@[7] == 'K' && "VCIR_STK001"@[10] == '1');
    assert("VCIR_STK002"@[5] == 'S' && "VCIR_STK002"@[6] == 'T' && "VCIR_STK002"@[7] == 'K' && "VCIR_STK002"@[10] == '2');
    assert("VCIR_STK003"@[5] == 'S' && "VCIR_STK003"@[6] == 'T' && "VCIR_STK003"@[7] == 'K' && "VCIR_STK003"@[10] == '3');
    assert("VCIR_CTL001"@[5] == 'C' && "VCIR_CTL001"@[6] == 'T' && "VCIR_CTL001"@[7] == 'L' && "VCIR_CTL001"@[10] == '1');
    assert("VCIR_CTL002"@[5] == 'C' && "VCIR_CTL002"@[6] == 'T' && "VCIR_CTL002"@[7] == 'L' && "VCIR_CTL002"@[10] == '2');
    assert("VCIR_CTL003"@[5] == 'C' && "VCIR_CTL003"@[6] == 'T' && "VCIR_CTL003"@[7] == 'L' && "VCIR_CTL003"@[10] == '3');
    assert("VCIR_CTL004"@[5] == 'C' && "VCIR_CTL004"@[6] == 'T' && "VCIR_CTL004"@[7] == 'L' && "VCIR_CTL004"@[10] == '4');
    assert("VCIR_CTL005"@[5] == 'C' && "VCIR_CTL005"@[6] == 'T' && "VCIR_CTL005"@[7] == 'L' && "VCIR_CTL005"@[10] == '5');
}

/// The catalog lists every code exactly once.
pub proof fn law_catalog_complete(c: DiagnosticCode)
    ensures
        all_codes().contains(c),
        forall|i: int, j: int| 0 <= i < j < all_codes().len() ==> all_codes()[i] != all_codes()[j],
{
    let s = all_codes();
    match c {
        DiagnosticCode::VcirVer001 => assert(s[0] == c),
        DiagnosticCode::VcirExp001 => assert(s[1] == c),
        DiagnosticCode::VcirExp002 => assert(s[2] == c),
        DiagnosticCode::VcirLim001 => assert(s[3] == c),
        DiagnosticCode::VcirLim002 => assert(s[4] == c),
        DiagnosticCode::VcirLim003 => assert(s[5] == c),
        DiagnosticCode::VcirSig001 => assert(s[6] == c),
        DiagnosticCode::VcirLoc001 => assert(s[7] == c),
        DiagnosticCode::VcirStk001 => assert(s[8] == c),
        DiagnosticCode::VcirStk002 => assert(s[9] == c),
        DiagnosticCode::VcirStk003 => assert(s[10] == c),
        DiagnosticCode::VcirCtl001 => assert(s[11] == c),
        DiagnosticCode::VcirCtl002 => assert(s[12] == c),
        DiagnosticCode::VcirCtl003 => assert(s[13] == c),
        DiagnosticCode::VcirCtl004 => assert(s[14] == c),
        DiagnosticCode::VcirCtl005 => assert(s[15] == c),
    }
}

/// A module that validates respects every Tier-1 limit, has one result, a non-blank export
/// name, a final `return` and no other `return`, and nests control at most `MAX_CONTROL_DEPTH` deep.
pub proof fn law_valid_module_within_limits(m: Module)
    requires
        valid_module(m),
    ensures
        m.program_ir_version == crate::ast::PROGRAM_IR_VERSION,
        !all_white_space(m.export_name@),
        encode_utf8(m.export_name@).len() as usize <= MAX_EXPORT_NAME_LEN,
        tree_count(m.func.body@) <= MAX_BODY_INSTRS,
        m.func.sig.params@.len() <= MAX_PARAMS,
        m.func.locals@.len() <= MAX_DECLARED_LOCALS,
        m.func.sig.results@.len() == 1,
        m.func.body@.len() > 0,
        m.func.body@.last() is Return,
        !seq_has_return(m.func.body@.drop_last()),
        nest_depth(m.func.body@) <= MAX_CONTROL_DEPTH,
{
    crate::lower::lemma_valid_body_no_return(m);
    let p = m.func.sig.params@;
    let d = m.func.locals@;
    let total = (p.len() + d.len()) as u32;
    let body = m.func.body@;
    assert(spec_validate_func(p, m.func.sig.results@, d, body) is Ok);
    lemma_seq_depth(body.drop_last(), Seq::empty(), p, d, total, 0);
    assert(body.drop_last() =~= body.drop_last());
    assert(nest_depth(body) == if nest_depth(body.drop_last()) >= node_depth(body.last()) {
        nest_depth(body.drop_last())
    } else {
        node_depth(body.last())
    });
}

/// A successful walk of an instruction list entered at control depth `depth` never goes
/// deeper than `MAX_CONTROL_DEPTH`: the entry depth plus the list's own nesting stays within it.
pub proof fn law_walk_depth_bound(
    instrs: Seq<Instr>,
    stack: Seq<ValType>,
    params: Seq<ValType>,
    decl: Seq<ValType>,
    total: u32,
    depth: nat,
)
    requires
        spec_list(instrs, stack, params, decl, total, depth) is Ok,
    ensures
        depth + nest_depth(instrs) <= MAX_CONTROL_DEPTH,
{
    lemma_seq_depth(instrs, stack, params, decl, total, depth);
}

/// The node count of two lists one after the other is the sum of their node counts.
pub proof fn law_tree_count_concat(a: Seq<Instr>, b: Seq<Instr>)
    ensures
        tree_count(a + b) == tree_count(a) + tree_count(b),
    decreases b.len(),
{
    if b.len() == 0 {
        assert(a + b =~= a);
    } else {
        law_tree_count_concat(a, b.drop_last());
        assert((a + b).drop_last() =~= a + b.drop_last());
        assert((a + b).last() == b.last());
    }
}

/// Nesting depth splits into the head and the rest.
proof fn lemma_nest_depth_first(s: Seq<Instr>)
    requires
        s.len() > 0,
    ensures
        nest_depth(s) == if node_depth(s[0]) >= nest_depth(s.drop_first()) {
            node_depth(s[0])
        } else {
            nest_depth(s.drop_first())
        },
    decreases s.len(),
{
    let dl = s.drop_last();
    let df = s.drop_first();
    if s.len() > 1 {
        lemma_nest_depth_first(dl);
        assert(dl.drop_first() =~= df.drop_last());
        assert(dl[0] == s[0]);
        assert(df.last() == s.last());
        assert(nest_depth(df) == if nest_depth(df.drop_last()) >= node_depth(df.last()) {
            nest_depth(df.drop_last())
        } else {
            node_depth(df.last())
        });
        assert(nest_depth(s) == if nest_depth(dl) >= node_depth(s.last()) {
            nest_depth(dl)
        } else {
            node_depth(s.last())
        });
    } else {
        assert(dl.len() == 0);
        assert(df.len() == 0);
        assert(s.last() == s[0]);
        assert(nest_depth(dl) == 0);
        assert(nest_depth(df) == 0);
        assert(nest_depth(s) == if nest_depth(dl) >= node_depth(s.last()) {
            nest_depth(dl)
        } else {
            node_depth(s.last())
        });
    }
}

/// A list that type-checks at depth `d` nests at most `MAX_CONTROL_DEPTH - d` deep.
proof fn lemma_seq_depth(
    s: Seq<Instr>,
    stack: Seq<ValType>,
    params: Seq<ValType>,
    decl: Seq<ValType>,
    total: u32,
    d: nat,
)
    requires
        spec_seq(s, stack, params, decl, total, d) is Ok,
    ensures
        nest_depth(s) == 0 || d + nest_depth(s) <= MAX_CONTROL_DEPTH,
    decreases s,
{
    if s.len() > 0 {
        lemma_nest_depth_first(s);
        let r = spec_instr(s[0], stack, params, decl, total, d);
        lemma_instr_depth(s[0], stack, params, decl, total, d);
        lemma_seq_depth(s.drop_first(), r->Ok_0, params, decl, total, d);
    }
}

/// An instruction that type-checks at depth `d` nests at most `MAX_CONTROL_DEPTH - d` deep.
proof fn lemma_instr_depth(
    i: Instr,
    stack: Seq<ValType>,
    params: Seq<ValType>,
    decl: Seq<ValType>,
    total: u32,
    d: nat,
)
    requires
        spec_instr(i, stack, params, decl, total, d) is Ok,
    ensures
        node_depth(i) == 0 || d + node_depth(i) <= MAX_CONTROL_DEPTH,
    decreases i,
{
    match i {
        Instr::Block { body, .. } => {
            lemma_seq_depth(body@, stack, params, decl, total, d + 1);
        },
        Instr::IfElse { then_body, else_body, .. } => {
            let s0 = spec_pop(stack, ValType::I32, i)->Ok_0;
            lemma_seq_depth(then_body@, s0, params, decl, total, d + 1);
            lemma_seq_depth(else_body@, s0, params, decl, total, d + 1);
        },
        _ => {},
    }
}

/// Nesting depth never exceeds the number of instruction nodes.
pub proof fn law_depth_at_most_count(s: Seq<Instr>)
    ensures
        nest_depth(s) <= tree_count(s),
    decreases s,
{
    if s.len() > 0 {
        law_depth_at_most_count(s.drop_last());
        lemma_node_depth_at_most_count(s.last());
    }
}

proof fn lemma_node_depth_at_most_count(i: Instr)
    ensures
        node_depth(i) <= node_count(i),
    decreases i,
{
    match i {
        Instr::Block { body, .. } => law_depth_at_most_count(body@),
        Instr::IfElse { then_body, else_body, .. } => {
            law_depth_at_most_count(then_body@);
            law_depth_at_most_count(else_body@);
        },
        _ => {},
    }
}

/// Grouping locals into runs loses nothing: the runs expand back to the locals, every run is
/// non-empty, and neighbouring runs have different types.
pub proof fn law_local_groups_roundtrip(l: Seq<ValType>)
    requires
        l.len() <= u32::MAX,
    ensures
        expand_groups(local_groups(l)) == l,
        forall|k: int| 0 <= k < local_groups(l).len() ==> 1 <= #[trigger] local_groups(l)[k].0 <= l.len(),
        forall|k: int| 0 <= k < local_groups(l).len() - 1 ==> #[trigger] local_groups(l)[k].1 != local_groups(l)[k + 1].1,
        l.len() > 0 ==> local_groups(l).len() > 0 && local_groups(l).last().1 == l.last(),
    decreases l.len(),
{
    if l.len() > 0 {
        let p = l.drop_last();
        law_local_groups_roundtrip(p);
        let g = local_groups(p);
        let t = l.last();
        if g.len() > 0 && g.last().1 == t {
            let c = g.last().0;
            let g2 = g.update(g.len() - 1, ((c + 1) as u32, t));
            assert(g2.drop_last() =~= g.drop_last());
            assert(Seq::new((c + 1) as nat, |_j: int| t) =~= Seq::new(c as nat, |_j: int| t).push(t));
            assert(expand_groups(g) == expand_groups(g.drop_last()) + Seq::new(c as nat, |_j: int| g.last().1));
            assert(expand_groups(g2) == expand_groups(g2.drop_last()) + Seq::new(g2.last().0 as nat, |_j: int| g2.last().1));
            assert(l =~= p.push(t));
            assert(expand_groups(g2) =~= l);
        } else {
            let g2 = g.push((1u32, t));
            assert(g2.drop_last() =~= g);
            assert(Seq::new(1nat, |_j: int| t) =~= seq![t]);
            assert(expand_groups(g2) == expand_groups(g2.drop_last()) + Seq::new(g2.last().0 as nat, |_j: int| g2.last().1));
            assert(l =~= p.push(t));
            assert(expand_groups(g2) =~= l);
        }
    }
}

/// The repair plan and the diagnostic of one validation error name the same code and the
/// same repair.
pub proof fn law_plan_agrees_with_diagnostic(p: FixPlan, d: Diagnostic, e: ValidationError)
    requires
        plan_of(p, e),
        diagnostic_of(d, e),
    ensures
        p.code@ == d.code@,
        p.repair_id@ == d.repair.id@,
        p.safety@ == d.repair.safety@,
{
}

/// `q` allows everything `p` allows.
pub open spec fn at_least_as_permissive(p: WasmPolicy, q: WasmPolicy) -> bool {
    &&& p.allow_imports ==> q.allow_imports
    &&& p.allow_memory ==> q.allow_memory
    &&& p.allow_tables ==> q.allow_tables
}

/// A payload that passes a policy passes every policy that allows at least as much.
pub proof fn law_payload_policy_monotone(k: PayloadKind, p: WasmPolicy, q: WasmPolicy)
    requires
        at_least_as_permissive(p, q),
        payload_verdict(k, p) is None,
    ensures
        payload_verdict(k, q) is None,
{
}

/// A module (given by the payloads of its walk and the error that ended it, if any) that
/// passes a policy passes every policy that allows at least as much.
pub proof fn law_policy_monotone(payloads: Seq<PayloadKind>, failure: Option<String>, p: WasmPolicy, q: WasmPolicy)
    requires
        at_least_as_permissive(p, q),
        scan_verdict(payloads, failure, p) is Ok,
    ensures
        scan_verdict(payloads, failure, q) is Ok,
    decreases payloads.len(),
{
    if payloads.len() > 0 {
        law_payload_policy_monotone(payloads[0], p, q);
        law_policy_monotone(payloads.drop_first(), failure, p, q);
    }
}

/// A walk is refused under a policy exactly when some payload is refused or the walk ended in
/// a parse error; the refusal is that of the first refused payload.
pub proof fn law_policy_first_refusal(payloads: Seq<PayloadKind>, failure: Option<String>, policy: WasmPolicy, i: int)
    requires
        0 <= i < payloads.len(),
        payload_verdict(payloads[i], policy) is Some,
        forall|j: int| 0 <= j < i ==> (#[trigger] payload_verdict(payloads[j], policy)) is None,
    ensures
        scan_verdict(payloads, failure, policy) == Err::<(), PolicyError>(payload_verdict(payloads[i], policy)->Some_0),
    decreases i,
{
    if i > 0 {
        assert(payload_verdict(payloads[0], policy) is None);
        assert forall|j: int| 0 <= j < i - 1 implies (#[trigger] payload_verdict(payloads.drop_first()[j], policy)) is None by {
            assert(payloads.drop_first()[j] == payloads[j + 1]);
            assert(payload_verdict(payloads[j + 1], policy) is None);
        }
        assert(payloads.drop_first()[i - 1] == payloads[i]);
        law_policy_first_refusal(payloads.drop_first(), failure, policy, i - 1);
    }
}

/// Hex rendering writes two digits per byte.
pub proof fn law_hex_length(bytes: Seq<u8>)
    ensures
        hex_lower(bytes).len() == 2 * bytes.len(),
    decreases bytes.len(),
{
    if bytes.len() > 0 {
        law_hex_length(bytes.drop_last());
    }
}

/// Two validation outcomes that agree: the same stack, or errors that denote the same failure.
pub open spec fn same_outcome(
    r1: Result<Seq<ValType>, ValidationError>,
    r2: Result<Seq<ValType>, ValidationError>,
) -> bool {
    match (r1, r2) {
        (Ok(s1), Ok(s2)) => s1 == s2,
        (Err(e1), Err(e2)) => same_error(e1, e2),
        _ => false,
    }
}

/// Validating two instructions with the same structure gives agreeing outcomes.
pub proof fn lemma_instr_structure(
    x: Instr,
    y: Instr,
    stack: Seq<ValType>,
    params: Seq<ValType>,
    decl: Seq<ValType>,
    total: u32,
    depth: nat,
)
    requires
        model(x) == model(y),
    ensures
        same_outcome(spec_instr(x, stack, params, decl, total, depth), spec_instr(y, stack, params, decl, total, depth)),
    decreases x,
{
    match x {
        Instr::Block { body: bx, .. } => {
            if let Instr::Block { body: by, .. } = y {
                assert(decreases_to!(x => bx@));
                lemma_seq_structure(bx@, by@, stack, params, decl, total, depth + 1);
            }
        },
        Instr::IfElse { then_body: tx, else_body: ex, .. } => {
            if let Instr::IfElse { then_body: ty, else_body: ey, .. } = y {
                assert(decreases_to!(x => tx@));
                assert(decreases_to!(x => ex@));
                if stack.len() > 0 && stack.last() == ValType::I32 {
                    let s0 = stack.drop_last();
                    lemma_seq_structure(tx@, ty@, s0, params, decl, total, depth + 1);
                    lemma_seq_structure(ex@, ey@, s0, params, decl, total, depth + 1);
                }
            }
        },
        _ => {
            if y is Block || y is IfElse {
                assert(false);
            }
            assert(y == x);
        },
    }
}

/// Validating two instruction lists with the same structure gives agreeing outcomes.
pub proof fn lemma_seq_structure(
    a: Seq<Instr>,
    b: Seq<Instr>,
    stack: Seq<ValType>,
    params: Seq<ValType>,
    decl: Seq<ValType>,
    total: u32,
    depth: nat,
)
    requires
        models(a) == models(b),
    ensures
        same_outcome(spec_seq(a, stack, params, decl, total, depth), spec_seq(b, stack, params, decl, total, depth)),
    decreases a,
{
    lemma_models(a);
    lemma_models(b);
    if a.len() > 0 {
        assert(b.len() == a.len());
        assert(models(a)[0] == model(a[0]));
        assert(models(b)[0] == model(b[0]));
        lemma_instr_structure(a[0], b[0], stack, params, decl, total, depth);
        assert(models(a.drop_first()) == models(a).drop_first());
        assert(models(b.drop_first()) == models(b).drop_first());
        match spec_instr(a[0], stack, params, decl, total, depth) {
            Ok(s) => {
                lemma_seq_structure(a.drop_first(), b.drop_first(), s, params, decl, total, depth);
            },
            Err(_) => {},
        }
    }
}

/// Structurally equal instruction lists have the same tree size.
pub proof fn lemma_tree_count_structure(a: Seq<Instr>, b: Seq<Instr>)
    requires
        models(a) == models(b),
    ensures
        tree_count(a) == tree_count(b),
    decreases a,
{
    lemma_models(a);
    lemma_models(b);
    if a.len() > 0 {
        let n = (a.len() - 1) as int;
        assert(b.len() == a.len());
        assert(models(a)[n] == model(a[n]));
        assert(models(b)[n] == model(b[n]));
        lemma_node_count_structure(a.last(), b.last());
        assert forall|k: int| 0 <= k < a.drop_last().len() implies model(#[trigger] a.drop_last()[k]) == model(
            b.drop_last()[k],
        ) by {
            assert(models(a)[k] == model(a[k]));
            assert(models(b)[k] == model(b[k]));
            assert(a.drop_last()[k] == a[k]);
            assert(b.drop_last()[k] == b[k]);
        }
        crate::ast::lemma_models_pointwise(a.drop_last(), b.drop_last());
        lemma_tree_count_structure(a.drop_last(), b.drop_last());
    }
}

proof fn lemma_node_count_structure(x: Instr, y: Instr)
    requires
        model(x) == model(y),
    ensures
        node_count(x) == node_count(y),
    decreases x,
{
    match x {
        Instr::Block { body: bx, .. } => {
            if let Instr::Block { body: by, .. } = y {
                assert(decreases_to!(x => bx@));
                lemma_tree_count_structure(bx@, by@);
            }
        },
        Instr::IfElse { then_body: tx, else_body: ex, .. } => {
            if let Instr::IfElse { then_body: ty, else_body: ey, .. } = y {
                assert(decreases_to!(x => tx@));
                assert(decreases_to!(x => ex@));
                lemma_tree_count_structure(tx@, ty@);
                lemma_tree_count_structure(ex@, ey@);
            }
        },
        _ => {
            if y is Block || y is IfElse {
                assert(false);
            }
        },
    }
}

/// Whether a module validates depends only on its program text: two modules that denote the
/// same program are both valid or both invalid.
pub proof fn law_validation_depends_on_structure(a: Module, b: Module)
    requires
        same_module(a, b),
    ensures
        valid_module(a) <==> valid_module(b),
{
    let ba = a.func.body@;
    let bb = b.func.body@;
    lemma_models(ba);
    lemma_models(bb);
    lemma_tree_count_structure(ba, bb);
    if ba.len() > 0 {
        let n = (ba.len() - 1) as int;
        assert(bb.len() == ba.len());
        assert(models(ba)[n] == model(ba[n]));
        assert(models(bb)[n] == model(bb[n]));
        assert(model(ba.last()) == model(bb.last()));
        if ba.last() is Return || bb.last() is Return {
            assert(ba.last() == bb.last()) by {
                if ba.last() is Block || ba.last() is IfElse || bb.last() is Block || bb.last() is IfElse {
                    assert(false);
                }
            }
        }
        assert forall|k: int| 0 <= k < ba.drop_last().len() implies model(#[trigger] ba.drop_last()[k]) == model(
            bb.drop_last()[k],
        ) by {
            assert(models(ba)[k] == model(ba[k]));
            assert(models(bb)[k] == model(bb[k]));
            assert(ba.drop_last()[k] == ba[k]);
            assert(bb.drop_last()[k] == bb[k]);
        }
        crate::ast::lemma_models_pointwise(ba.drop_last(), bb.drop_last());
        let params = a.func.sig.params@;
        let decl = a.func.locals@;
        let total = (params.len() + decl.len()) as u32;
        lemma_seq_structure(ba.drop_last(), bb.drop_last(), Seq::empty(), params, decl, total, 0);
    }
}

/// Sum of the histogram slots below `upto` for `s`.
pub open spec fn tags_total(s: Seq<Instr>, upto: nat) -> nat
    decreases upto,
{
    if upto == 0 {
        0
    } else {
        tags_total(s, (upto - 1) as nat) + tag_count(s, (upto - 1) as nat)
    }
}

/// Sum of the histogram slots below `upto` for one instruction and its nested bodies.
pub open spec fn node_tags_total(i: Instr, upto: nat) -> nat
    decreases upto,
{
    if upto == 0 {
        0
    } else {
        node_tags_total(i, (upto - 1) as nat) + node_tag_count(i, (upto - 1) as nat)
    }
}

/// The slots below `upto` of the nested bodies of `i`.
pub open spec fn nested_tags_total(i: Instr, upto: nat) -> nat {
    match i {
        Instr::Block { body, .. } => tags_total(body@, upto),
        Instr::IfElse { then_body, else_body, .. } => tags_total(then_body@, upto) + tags_total(else_body@, upto),
        _ => 0,
    }
}

proof fn lemma_tags_total_split(s: Seq<Instr>, upto: nat)
    requires
        s.len() > 0,
    ensures
        tags_total(s, upto) == tags_total(s.drop_last(), upto) + node_tags_total(s.last(), upto),
    decreases upto,
{
    if upto > 0 {
        lemma_tags_total_split(s, (upto - 1) as nat);
    }
}

proof fn lemma_tags_total_empty(s: Seq<Instr>, upto: nat)
    requires
        s.len() == 0,
    ensures
        tags_total(s, upto) == 0,
    decreases upto,
{
    if upto > 0 {
        lemma_tags_total_empty(s, (upto - 1) as nat);
    }
}

proof fn lemma_node_tags_total(i: Instr, upto: nat)
    ensures
        node_tags_total(i, upto) == (if op_tag(i) < upto { 1nat } else { 0nat }) + nested_tags_total(i, upto),
    decreases upto,
{
    if upto > 0 {
        lemma_node_tags_total(i, (upto - 1) as nat);
    }
}

/// The histogram of a body counts every instruction node exactly once: its slots add up to
/// the body's tree size.
pub proof fn law_histogram_counts_every_node(s: Seq<Instr>)
    ensures
        tags_total(s, OP_TAGS as nat) == tree_count(s),
    decreases s,
{
    if s.len() == 0 {
        lemma_tags_total_empty(s, OP_TAGS as nat);
    } else {
        lemma_tags_total_split(s, OP_TAGS as nat);
        law_histogram_counts_every_node(s.drop_last());
        lemma_node_histogram(s.last());
    }
}

proof fn lemma_node_histogram(i: Instr)
    ensures
        node_tags_total(i, OP_TAGS as nat) == node_count(i),
    decreases i,
{
    lemma_node_tags_total(i, OP_TAGS as nat);
    assert(op_tag(i) < OP_TAGS);
    match i {
        Instr::Block { body, .. } => {
            assert(decreases_to!(i => body@));
            law_histogram_counts_every_node(body@);
        },
        Instr::IfElse { then_body, else_body, .. } => {
            assert(decreases_to!(i => then_body@));
            assert(decreases_to!(i => else_body@));
            law_histogram_counts_every_node(then_body@);
            law_histogram_counts_every_node(else_body@);
        },
        _ => {},
    }
}

/// Structurally equal instruction lists lower to the same Wasm instructions.
pub proof fn lemma_lower_seq_structure(a: Seq<Instr>, b: Seq<Instr>)
    requires
        models(a) == models(b),
    ensures
        lower_seq(a) == lower_seq(b),
    decreases a,
{
    lemma_models(a);
    lemma_models(b);
    if a.len() > 0 {
        let n = (a.len() - 1) as int;
        assert(b.len() == a.len());
        assert(models(a)[n] == model(a[n]));
        assert(models(b)[n] == model(b[n]));
        lemma_lower_one_structure(a.last(), b.last());
        assert forall|k: int| 0 <= k < a.drop_last().len() implies model(#[trigger] a.drop_last()[k]) == model(
            b.drop_last()[k],
        ) by {
            assert(models(a)[k] == model(a[k]));
            assert(models(b)[k] == model(b[k]));
            assert(a.drop_last()[k] == a[k]);
            assert(b.drop_last()[k] == b[k]);
        }
        crate::ast::lemma_models_pointwise(a.drop_last(), b.drop_last());
        lemma_lower_seq_structure(a.drop_last(), b.drop_last());
    }
}

proof fn lemma_lower_one_structure(x: Instr, y: Instr)
    requires
        model(x) == model(y),
    ensures
        lower_one(x) == lower_one(y),
    decreases x,
{
    match x {
        Instr::Block { body: bx, .. } => {
            if let Instr::Block { body: by, .. } = y {
                assert(decreases_to!(x => bx@));
                lemma_lower_seq_structure(bx@, by@);
            }
        },
        Instr::IfElse { then_body: tx, else_body: ex, .. } => {
            if let Instr::IfElse { then_body: ty, else_body: ey, .. } = y {
                assert(decreases_to!(x => tx@));
                assert(decreases_to!(x => ex@));
                lemma_lower_seq_structure(tx@, ty@);
                lemma_lower_seq_structure(ex@, ey@);
            }
        },
        _ => {
            if y is Block || y is IfElse {
                assert(false);
            }
        },
    }
}

/// Lowering is a function of the program text: two modules that denote the same program lower
/// to the same bytes.
pub proof fn law_lowering_depends_on_structure(a: Module, b: Module)
    requires
        same_module(a, b),
    ensures
        lowered_bytes(a) == lowered_bytes(b),
{
    let ba = a.func.body@;
    let bb = b.func.body@;
    lemma_models(ba);
    lemma_models(bb);
    assert(bb.len() == ba.len());
    if ba.len() > 0 {
        assert forall|k: int| 0 <= k < ba.drop_last().len() implies model(#[trigger] ba.drop_last()[k]) == model(
            bb.drop_last()[k],
        ) by {
            assert(models(ba)[k] == model(ba[k]));
            assert(models(bb)[k] == model(bb[k]));
            assert(ba.drop_last()[k] == ba[k]);
            assert(bb.drop_last()[k] == bb[k]);
        }
        crate::ast::lemma_models_pointwise(ba.drop_last(), bb.drop_last());
        lemma_lower_seq_structure(ba.drop_last(), bb.drop_last());
    } else {
        assert(ba =~= bb);
    }
}


/// Distinct diagnostic codes have distinct repair ids, and every repair is rated `safe` or
/// `heuristic`.
pub proof fn law_repair_ids_distinct(a: DiagnosticCode, b: DiagnosticCode)
    ensures
        a != b ==> spec_repair(a).0 != spec_repair(b).0,
        spec_repair(a).1 == "safe"@ || spec_repair(a).1 == "heuristic"@,
{
    reveal_strlit("align-return-stack");
    reveal_strlit("append-trailing-return");
    reveal_strlit("balance-if-else-branches");
    reveal_strlit("fix-block-stack-delta");
    reveal_strlit("fix-local-index");
    reveal_strlit("fix-signature-single-result");
    reveal_strlit("fix-stack-types");
    reveal_strlit("insert-stack-operands");
    reveal_strlit("move-return-to-function-end");
    reveal_strlit("reduce-control-nesting");
    reveal_strlit("reduce-locals");
    reveal_strlit("reduce-params");
    reveal_strlit("set-export-name");
    reveal_strlit("set-program-ir-version");
    reveal_strlit("shorten-export-name");
    reveal_strlit("shrink-body");
    reveal_strlit("safe");
    reveal_strlit("heuristic");
    assert("align-return-stack"@.len() == 18);
    assert("append-trailing-return"@.len() == 22);
    assert("balance-if-else-branches"@.len() == 24);
    assert("fix-block-stack-delta"@.len() == 21);
    assert("fix-local-index"@.len() == 15);
    assert("fix-signature-single-result"@.len() == 27);
    assert("fix-stack-types"@.len() == 15);
    assert("insert-stack-operands"@.len() == 21);
    assert("move-return-to-function-end"@.len() == 27);
    assert("reduce-control-nesting"@.len() == 22);
    assert("reduce-locals"@.len() == 13);
    assert("reduce-params"@.len() == 13);
    assert("set-export-name"@.len() == 15);
    assert("set-program-ir-version"@.len() == 22);
    assert("shorten-export-name"@.len() == 19);
    assert("shrink-body"@.len() == 11);
    assert("append-trailing-return"@[0] != "reduce-control-nesting"@[0]);
    assert("append-trailing-return"@[0] != "set-program-ir-version"@[0]);
    assert("fix-block-stack-delta"@[0] != "insert-stack-operands"@[0]);
    assert("fix-local-index"@[4] != "fix-stack-types"@[4]);
    assert("fix-local-index"@[0] != "set-export-name"@[0]);
    assert("fix-signature-single-result"@[0] != "move-return-to-function-end"@[0]);
    assert("fix-stack-types"@[0] != "set-export-name"@[0]);
    assert("reduce-control-nesting"@[0] != "set-program-ir-version"@[0]);
    assert("reduce-locals"@[7] != "reduce-params"@[7]);
}

/// Sum of the first `upto` slots of a histogram.
pub open spec fn slots_sum(v: Seq<usize>, upto: nat) -> int
    decreases upto,
{
    if upto == 0 {
        0
    } else {
        slots_sum(v, (upto - 1) as nat) + v[upto - 1]
    }
}

/// Walking a body into a histogram (as `walk_op_histogram` does) whose slots do not saturate
/// grows the slots, together, by the body's node count.
pub proof fn law_histogram_growth(before: Seq<usize>, after: Seq<usize>, s: Seq<Instr>)
    requires
        before.len() == OP_TAGS,
        after.len() == OP_TAGS,
        forall|k: int| 0 <= k < OP_TAGS ==> #[trigger] after[k] == sat_add(before[k], tag_count(s, k as nat)),
        forall|k: int| 0 <= k < OP_TAGS ==> before[k] + tag_count(s, k as nat) <= usize::MAX,
    ensures
        slots_sum(after, OP_TAGS as nat) == slots_sum(before, OP_TAGS as nat) + tree_count(s),
{
    lemma_slots_growth(before, after, s, OP_TAGS as nat);
    law_histogram_counts_every_node(s);
}

proof fn lemma_slots_growth(before: Seq<usize>, after: Seq<usize>, s: Seq<Instr>, upto: nat)
    requires
        upto <= OP_TAGS,
        before.len() == OP_TAGS,
        after.len() == OP_TAGS,
        forall|k: int| 0 <= k < OP_TAGS ==> #[trigger] after[k] == sat_add(before[k], tag_count(s, k as nat)),
        forall|k: int| 0 <= k < OP_TAGS ==> before[k] + tag_count(s, k as nat) <= usize::MAX,
    ensures
        slots_sum(after, upto) == slots_sum(before, upto) + tags_total(s, upto),
    decreases upto,
{
    if upto > 0 {
        lemma_slots_growth(before, after, s, (upto - 1) as nat);
        let k = upto - 1;
        assert(after[k] == sat_add(before[k], tag_count(s, k as nat)));
        assert(before[k] + tag_count(s, k as nat) <= usize::MAX);
    }
}

} // verus!
