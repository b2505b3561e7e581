//! Tree metrics on instruction bodies (for tooling and manifests, and the body-size limit).
use vstd::prelude::*;
use crate::ast::Instr;

verus! {

/// Number of instruction nodes in `s`, counting nested `block` / `if_else` bodies.
pub open spec fn tree_count(s: Seq<Instr>) -> nat
    decreases s,
{
    if s.len() == 0 {
        0
    } else {
        tree_count(s.drop_last()) + node_count(s.last())
    }
}

/// Number of instruction nodes in `i` itself plus its nested bodies.
pub open spec fn node_count(i: Instr) -> nat
    decreases i,
{
    1 + match i {
        Instr::Block { body, .. } => tree_count(body@),
        Instr::IfElse { then_body, else_body, .. } => tree_count(then_body@) + tree_count(else_body@),
        _ => 0,
    }
}

/// Deepest `block` / `if_else` nesting in `s` (0 without structured control).
pub open spec fn nest_depth(s: Seq<Instr>) -> nat
    decreases s,
{
    if s.len() == 0 {
        0
    } else {
        let a = nest_depth(s.drop_last());
        let b = node_depth(s.last());
        if a >= b { a } else { b }
    }
}

/// Nesting depth contributed by one instruction.
pub open spec fn node_depth(i: Instr) -> nat
    decreases i,
{
    match i {
        Instr::Block { body, .. } => 1 + nest_depth(body@),
        Instr::IfElse { then_body, else_body, .. } => {
            let a = nest_depth(then_body@);
            let b = nest_depth(else_body@);
            1 + if a >= b { a } else { b }
        },
        _ => 0,
    }
}

/// `n` as a `usize`, saturated at `usize::MAX`.
pub open spec fn saturate(n: nat) -> usize {
    if n > usize::MAX {
        usize::MAX
    } else {
        n as usize
    }
}

/// Counts instructions including nested `block` / `if_else` bodies (the bound validation uses).
///
/// The count saturates at `usize::MAX`, which no instruction tree held in memory reaches.
pub fn instr_tree_node_count(instrs: &[Instr]) -> (r: usize)
    ensures
        r == saturate(tree_count(instrs@)),
    decreases instrs@,
{
    let mut acc: usize = 0;
    let mut i: usize = 0;
    while i < instrs.len()
        invariant
            i <= instrs@.len(),
            acc == saturate(tree_count(instrs@.take(i as int))),
        decreases instrs.len() - i,
    {
        let inner: usize = match &instrs[i] {
            Instr::Block { body, .. } => {
                proof {
                    assert(decreases_to!(instrs@ => instrs@[i as int]));
                    assert(decreases_to!(instrs@ => body@));
                }
                instr_tree_node_count(body.as_slice())
            },
            Instr::IfElse { then_body, else_body, .. } => {
                proof {
                    assert(decreases_to!(instrs@ => instrs@[i as int]));
                    assert(decreases_to!(instrs@ => then_body@));
                    assert(decreases_to!(instrs@ => else_body@));
                }
                let a = instr_tree_node_count(then_body.as_slice());
                let b = instr_tree_node_count(else_body.as_slice());
                a.saturating_add(b)
            },
            _ => 0,
        };
        assert(inner == saturate((node_count(instrs@[i as int]) - 1) as nat));
        proof {
            let t = instrs@.take(i + 1);
            assert(t.drop_last() =~= instrs@.take(i as int));
            assert(t.last() == instrs@[i as int]);
            assert(tree_count(t) == tree_count(instrs@.take(i as int)) + node_count(instrs@[i as int]));
        }
        acc = acc.saturating_add(1).saturating_add(inner);
        i = i + 1;
    }
    proof {
        assert(instrs@.take(instrs@.len() as int) =~= instrs@);
    }
    acc
}

/// Deepest nested `block` / `if_else` depth in `instrs` (0 if no structured control).
///
/// The depth saturates at `usize::MAX`, which no instruction tree held in memory reaches.
pub fn max_control_nesting_depth(instrs: &[Instr]) -> (r: usize)
    ensures
        r == saturate(nest_depth(instrs@)),
    decreases instrs@,
{
    let mut best: usize = 0;
    let mut i: usize = 0;
    while i < instrs.len()
        invariant
            i <= instrs@.len(),
            best == saturate(nest_depth(instrs@.take(i as int))),
        decreases instrs.len() - i,
    {
        let d: usize = match &instrs[i] {
            Instr::Block { body, .. } => {
                proof {
                    assert(decreases_to!(instrs@ => instrs@[i as int]));
                    assert(decreases_to!(instrs@ => body@));
                }
                let inner = max_control_nesting_depth(body.as_slice());
                inner.saturating_add(1)
            },
            Instr::IfElse { then_body, else_body, .. } => {
                proof {
                    assert(decreases_to!(instrs@ => instrs@[i as int]));
                    assert(decreases_to!(instrs@ => then_body@));
                    assert(decreases_to!(instrs@ => else_body@));
                }
                let a = max_control_nesting_depth(then_body.as_slice());
                let b = max_control_nesting_depth(else_body.as_slice());
                let m = if a >= b { a } else { b };
                m.saturating_add(1)
            },
            _ => 0,
        };
        assert(d == saturate(node_depth(instrs@[i as int])));
        proof {
            let t = instrs@.take(i + 1);
            assert(t.drop_last() =~= instrs@.take(i as int));
            assert(t.last() == instrs@[i as int]);
            assert(nest_depth(t) == if nest_depth(instrs@.take(i as int)) >= node_depth(instrs@[i as int]) {
                nest_depth(instrs@.take(i as int))
            } else {
                node_depth(instrs@[i as int])
            });
        }
        if d > best {
            best = d;
        }
        i = i + 1;
    }
    proof {
        assert(instrs@.take(instrs@.len() as int) =~= instrs@);
    }
    best
}

} // verus!
