//! Divergence analysis: a whole-program, read-only fixed-point computation
//! over the call graph.  A function is potentially divergent if it is
//! directly recursive, if its control-flow graph has a cycle, or if it
//! calls another divergent function; the flags are computed by iterative
//! propagation until no function's flag changes.
//!
//! Every computed set is characterized exactly: it is stable under one
//! propagation step, and it is the least such set.

use crate::ids::{BlockId, FunDeclId, Idx, Vector};
use crate::transform::ctx::{TransformCtx, TransformCtxV};
use crate::ullbc::{
    terminator_targets, view_blocks, BlockData, BlockDataV, ExprBody, ExprBodyV, FnOperandV,
    FunId, FunIdOrTraitMethodRefV, RawStatement, RawStatementV, Statement, StatementV, Switch,
    SwitchV,
};
use vstd::prelude::*;

verus! {

/// How many flags of a sequence are set.
pub open spec fn count_true(s: Seq<bool>) -> nat
    decreases s.len(),
{
    if s.len() == 0 {
        0
    } else {
        count_true(s.subrange(0, s.len() - 1)) + (if s.last() {
            1nat
        } else {
            0nat
        })
    }
}

/// Setting one more flag raises the count by one.
pub proof fn lemma_count_true_update(s: Seq<bool>, i: int)
    requires
        0 <= i < s.len(),
        !s[i],
    ensures
        count_true(s.update(i, true)) == count_true(s) + 1,
    decreases s.len(),
{
    if i == s.len() - 1 {
        assert(s.update(i, true).subrange(0, s.len() - 1) =~= s.subrange(0, s.len() - 1));
        assert(s.update(i, true).last());
    } else {
        lemma_count_true_update(s.subrange(0, s.len() - 1), i);
        assert(s.update(i, true).subrange(0, s.len() - 1) =~= s.subrange(0, s.len() - 1).update(
            i,
            true,
        ));
        assert(s.update(i, true).last() == s.last());
    }
}

/// The count never exceeds the length.
pub proof fn lemma_count_true_le_len(s: Seq<bool>)
    ensures
        count_true(s) <= s.len(),
    decreases s.len(),
{
    if s.len() > 0 {
        lemma_count_true_le_len(s.subrange(0, s.len() - 1));
    }
}

/// Whether the terminator of block `b` jumps to block handle `c`.
pub open spec fn has_edge(body: Seq<Option<BlockDataV>>, b: int, c: int) -> bool {
    0 <= b < body.len() && body[b] is Some && exists|j: int|
        0 <= j < terminator_targets(body[b]->Some_0.terminator.content).len()
            && terminator_targets(body[b]->Some_0.terminator.content)[j].idx() == c
}

/// Whether a flag set over the blocks holds the successors of `src` and is
/// closed under following edges from its members.
pub open spec fn reach_stable(body: Seq<Option<BlockDataV>>, src: int, r: Seq<bool>) -> bool {
    &&& r.len() == body.len()
    &&& (forall|c: int| 0 <= c < body.len() && has_edge(body, src, c) ==> r[c])
    &&& (forall|b: int, c: int|
        0 <= b < body.len() && 0 <= c < body.len() && r[b] && has_edge(body, b, c) ==> r[c])
}

/// Whether one flag set is contained in another.
pub open spec fn seq_le(a: Seq<bool>, b: Seq<bool>) -> bool {
    a.len() == b.len() && (forall|i: int| 0 <= i < a.len() && a[i] ==> b[i])
}

/// A vector of `n` unset flags.
#[verifier::loop_isolation(false)]
fn false_flags(n: usize) -> (r: Vec<bool>)
    ensures
        r@.len() == n as nat,
        forall|i: int| 0 <= i < n ==> !r@[i],
{
    let mut r: Vec<bool> = Vec::new();
    let mut k: usize = 0;
    while k < n
        invariant
            k <= n,
            r@.len() == k as nat,
            forall|i: int| 0 <= i < k ==> !r@[i],
        decreases n - k,
    {
        r.push(false);
        k = k + 1;
    }
    r
}

/// The blocks reachable from `src` in one or more steps: the least set that
/// holds the successors of `src` and is closed under following edges.
#[verifier::loop_isolation(false)]
#[verifier::rlimit(60)]
pub fn reachable_from(body: &Vector<BlockId, BlockData>, src: usize) -> (r: Vec<bool>)
    requires
        src < body@.len(),
    ensures
        reach_stable(view_blocks(body@), src as int, r@),
        forall|s: Seq<bool>|
            reach_stable(view_blocks(body@), src as int, s) ==> seq_le(r@, s),
{
    let ghost bv = view_blocks(body@);
    let n = body.elems.len();
    let mut r: Vec<bool> = false_flags(n);
    let mut changed = true;
    while changed
        invariant
            r@.len() == n,
            n == bv.len(),
            forall|s: Seq<bool>|
                reach_stable(bv, src as int, s) ==> (forall|i: int|
                    0 <= i < n && r@[i] ==> s[i]),
            !changed ==> reach_stable(bv, src as int, r@),
        decreases n + 1 - count_true(r@) + (if changed {
            1int
        } else {
            0int
        }),
    {
        let ghost r_at_round_start = r@;
        changed = false;
        let mut b: usize = 0;
        while b < n
            invariant
                b <= n,
                r@.len() == n,
                forall|s: Seq<bool>|
                    reach_stable(bv, src as int, s) ==> (forall|i: int|
                        0 <= i < n && r@[i] ==> s[i]),
                !changed ==> r@ == r_at_round_start,
                changed ==> count_true(r@) > count_true(r_at_round_start),
                !changed ==> (forall|b2: int, c: int|
                    0 <= b2 < b && 0 <= c < n && (b2 == src || r@[b2]) && has_edge(bv, b2, c)
                        ==> r@[c]),
            decreases n - b,
        {
            let expand = b == src || r[b];
            if expand {
                let has_block = match &body.elems[b] {
                    Some(_) => true,
                    None => false,
                };
                if has_block {
                    let targets = match &body.elems[b] {
                        Some(blk) => blk.targets(),
                        None => unreached(),
                    };
                    let mut j: usize = 0;
                    while j < targets.len()
                        invariant
                            j <= targets@.len(),
                            targets@ == terminator_targets(bv[b as int]->Some_0.terminator.content),
                            bv[b as int] is Some,
                            b == src || r@[b as int],
                            r@.len() == n,
                            forall|s: Seq<bool>|
                                reach_stable(bv, src as int, s) ==> (forall|i: int|
                                    0 <= i < n && r@[i] ==> s[i]),
                            !changed ==> r@ == r_at_round_start,
                            changed ==> count_true(r@) > count_true(r_at_round_start),
                            !changed ==> (forall|b2: int, c: int|
                                0 <= b2 < b && 0 <= c < n && (b2 == src || r@[b2]) && has_edge(
                                    bv,
                                    b2,
                                    c,
                                ) ==> r@[c]),
                            forall|j2: int|
                                0 <= j2 < j && targets@[j2].idx() < n ==> r@[
                                    targets@[j2].idx() as int],
                        decreases targets@.len() - j,
                    {
                        let c = targets[j].to_usize();
                        if c < n {
                            if !r[c] {
                                proof {
                                    assert(has_edge(bv, b as int, c as int));
                                    lemma_count_true_update(r@, c as int);
                                    if changed {
                                        assert(count_true(r@.update(c as int, true)) > count_true(
                                            r_at_round_start,
                                        ));
                                    } else {
                                        assert(count_true(r@.update(c as int, true)) > count_true(
                                            r_at_round_start,
                                        ));
                                    }
                                    assert forall|s: Seq<bool>|
                                        reach_stable(bv, src as int, s) implies (forall|i: int|
                                        0 <= i < n && r@.update(c as int, true)[i] ==> s[i]) by {
                                        assert(forall|i: int| 0 <= i < n && r@[i] ==> s[i]);
                                        if b == src {
                                            assert(s[c as int]);
                                        } else {
                                            assert(r@[b as int]);
                                            assert(s[b as int]);
                                            assert(s[c as int]);
                                        }
                                    }
                                }
                                let rc = &mut r[c];
                                *rc = true;
                                changed = true;
                            }
                        }
                        j = j + 1;
                    }
                    proof {
                        if !changed {
                            assert forall|c: int|
                                0 <= c < n && has_edge(bv, b as int, c) implies r@[c] by {
                                let j2 = choose|j2: int|
                                    0 <= j2 < terminator_targets(
                                        bv[b as int]->Some_0.terminator.content,
                                    ).len() && terminator_targets(
                                        bv[b as int]->Some_0.terminator.content,
                                    )[j2].idx() == c;
                                assert(targets@[j2].idx() == c);
                            }
                        }
                    }
                } else {
                    proof {
                        assert(forall|c: int| !has_edge(bv, b as int, c));
                    }
                }
            }
            proof {
                if !changed {
                    assert forall|b2: int, c: int|
                        0 <= b2 < b + 1 && 0 <= c < n && (b2 == src || r@[b2]) && has_edge(
                            bv,
                            b2,
                            c,
                        ) implies r@[c] by {}
                }
            }
            b = b + 1;
        }
        proof {
            lemma_count_true_le_len(r@);
            if !changed {
                assert(reach_stable(bv, src as int, r@));
            }
        }
    }
    proof {
        assert forall|s: Seq<bool>|
            reach_stable(bv, src as int, s) implies seq_le(r@, s) by {}
    }
    r
}

/// Whether a control-flow graph has a cycle: some block is in the least
/// reachability set of itself.
pub open spec fn cfg_has_cycle(blocks: Seq<Option<BlockDataV>>) -> bool {
    exists|src: int, s: Seq<bool>|
        0 <= src < blocks.len() && reach_stable(blocks, src, s) && (forall|s2: Seq<bool>|
            reach_stable(blocks, src, s2) ==> seq_le(s, s2)) && s[src]
}

/// Whether the control-flow graph of a body has a cycle: some block can
/// reach itself in one or more steps.
#[verifier::loop_isolation(false)]
pub fn body_has_cycle(body: &Vector<BlockId, BlockData>) -> (has: bool)
    ensures
        has == cfg_has_cycle(view_blocks(body@)),
{
    let ghost bv = view_blocks(body@);
    let n = body.elems.len();
    let mut src: usize = 0;
    while src < n
        invariant
            src <= n,
            n == bv.len(),
            forall|src2: int, s: Seq<bool>|
                0 <= src2 < src && reach_stable(bv, src2, s) && (forall|s2: Seq<bool>|
                    reach_stable(bv, src2, s2) ==> seq_le(s, s2)) ==> !s[src2],
        decreases n - src,
    {
        let r = reachable_from(body, src);
        if r[src] {
            proof {
                assert(reach_stable(bv, src as int, r@));
            }
            return true;
        }
        proof {
            assert forall|s: Seq<bool>|
                reach_stable(bv, src as int, s) && (forall|s2: Seq<bool>|
                    reach_stable(bv, src as int, s2) ==> seq_le(s, s2)) implies !s[
                src as int] by {
                assert(seq_le(s, r@));
            }
        }
        src = src + 1;
    }
    false
}

// ---------------------------------------------------------------------------
// The call graph
// ---------------------------------------------------------------------------
/// Whether a statement (or a statement of one of its branches) calls the
/// declared function `id`.
pub open spec fn stmt_calls_id(st: StatementV, id: FunDeclId) -> bool
    decreases st,
{
    match st.content {
        RawStatementV::Call(c) => match c.func {
            FnOperandV::Regular(p) => match p.func {
                FunIdOrTraitMethodRefV::Fun(f) => match f {
                    FunId::Regular(f) => f == id,
                    _ => false,
                },
                _ => false,
            },
            _ => false,
        },
        RawStatementV::Switch(sw) => match *sw {
            SwitchV::If(_, b1, b2) => stmts_call_id(b1.statements, id) || stmts_call_id(
                b2.statements,
                id,
            ),
        },
        _ => false,
    }
}

/// Whether some statement of a sequence calls `id`.
pub open spec fn stmts_call_id(sts: Seq<StatementV>, id: FunDeclId) -> bool
    decreases sts,
{
    if sts.len() == 0 {
        false
    } else {
        stmt_calls_id(sts[0], id) || stmts_call_id(sts.subrange(1, sts.len() as int), id)
    }
}

/// The sequence form of the call condition is pointwise.
pub proof fn lemma_stmts_call_id(sts: Seq<StatementV>, id: FunDeclId)
    ensures
        stmts_call_id(sts, id) == (exists|k: int|
            0 <= k < sts.len() && stmt_calls_id(#[trigger] sts[k], id)),
    decreases sts.len(),
{
    if sts.len() > 0 {
        lemma_stmts_call_id(sts.subrange(1, sts.len() as int), id);
        if stmts_call_id(sts, id) {
            if stmt_calls_id(sts[0], id) {
            } else {
                let k = choose|k: int|
                    0 <= k < sts.subrange(1, sts.len() as int).len() && stmt_calls_id(
                        #[trigger] sts.subrange(1, sts.len() as int)[k],
                        id,
                    );
                assert(sts.subrange(1, sts.len() as int)[k] == sts[k + 1]);
            }
        } else {
            assert forall|k: int| 0 <= k < sts.len() implies !stmt_calls_id(
                #[trigger] sts[k],
                id,
            ) by {
                if k > 0 {
                    assert(sts.subrange(1, sts.len() as int)[k - 1] == sts[k]);
                }
            }
        }
    }
}

/// Whether some statement of a body calls `id`.
pub open spec fn body_calls_id(b: ExprBodyV, id: FunDeclId) -> bool {
    exists|i: int|
        0 <= i < b.body.len() && b.body[i] is Some && stmts_call_id(
            #[trigger] b.body[i]->Some_0.statements,
            id,
        )
}

/// Whether a statement (or one of its branches) calls `id`.
#[verifier::loop_isolation(false)]
fn statement_calls(st: &Statement, id: FunDeclId) -> (r: bool)
    ensures
        r == stmt_calls_id(st@, id),
    decreases *st,
{
    match &st.content {
        RawStatement::Call(c) => match &c.func {
            crate::ullbc::FnOperand::Regular(p) => match &p.func {
                crate::ullbc::FunIdOrTraitMethodRef::Fun(FunId::Regular(f)) => *f == id,
                _ => false,
            },
            _ => false,
        },
        RawStatement::Switch(Switch::If(_, b1, b2)) => {
            let r1 = statement_vec_calls(&b1.statements, id);
            r1 || statement_vec_calls(&b2.statements, id)
        },
        _ => false,
    }
}

/// Whether some statement of a vector calls `id`.
#[verifier::loop_isolation(false)]
fn statement_vec_calls(sts: &Vec<Statement>, id: FunDeclId) -> (r: bool)
    ensures
        r == stmts_call_id(crate::ullbc::view_statements(sts@), id),
    decreases sts@,
{
    proof {
        crate::ullbc::lemma_view_statements(sts@);
        lemma_stmts_call_id(crate::ullbc::view_statements(sts@), id);
    }
    let mut i: usize = 0;
    while i < sts.len()
        invariant
            i <= sts@.len(),
            forall|k: int|
                0 <= k < i ==> !stmt_calls_id(crate::ullbc::view_statements(sts@)[k], id),
        decreases sts@.len() - i,
    {
        if statement_calls(&sts[i], id) {
            proof {
                assert(stmt_calls_id(crate::ullbc::view_statements(sts@)[i as int], id));
            }
            return true;
        }
        i = i + 1;
    }
    false
}

/// Whether some statement of a body calls `id`.
#[verifier::loop_isolation(false)]
fn body_calls(b: &ExprBody, id: FunDeclId) -> (r: bool)
    ensures
        r == body_calls_id(b@, id),
{
    let n = b.body.elems.len();
    let mut i: usize = 0;
    while i < n
        invariant
            i <= n,
            n == b@.body.len(),
            forall|k: int|
                0 <= k < i ==> !(b@.body[k] is Some && stmts_call_id(
                    #[trigger] b@.body[k]->Some_0.statements,
                    id,
                )),
        decreases n - i,
    {
        let hit = match &b.body.elems[i] {
            Some(blk) => statement_vec_calls(&blk.statements, id),
            None => false,
        };
        if hit {
            proof {
                assert(b@.body[i as int] is Some && stmts_call_id(
                    b@.body[i as int]->Some_0.statements,
                    id,
                ));
            }
            return true;
        }
        i = i + 1;
    }
    false
}

// ---------------------------------------------------------------------------
// The divergence fixed point
// ---------------------------------------------------------------------------
/// Whether the flag of declaration `i` is forced: its body has a loop, it
/// calls itself, or it calls a function whose flag is set.  A declaration
/// without a body is inert.
pub open spec fn div_justified(ctx: TransformCtxV, flags: Seq<bool>, i: int) -> bool {
    0 <= i < ctx.fun_decls.len() && match ctx.fun_decls[i] {
        Some(d) => match d.body {
            Some(b) => {
                ||| cfg_has_cycle(b.body)
                ||| body_calls_id(b, FunDeclId { index: i as usize })
                ||| exists|j: int|
                    0 <= j < flags.len() && flags[j] && body_calls_id(
                        b,
                        FunDeclId { index: j as usize },
                    )
            },
            None => false,
        },
        None => false,
    }
}

/// Whether a flag set is closed under the propagation step.
pub open spec fn div_stable(ctx: TransformCtxV, flags: Seq<bool>) -> bool {
    flags.len() == ctx.fun_decls.len() && (forall|i: int|
        div_justified(ctx, flags, i) ==> flags[i])
}

/// Whether declaration `i` is forced under the current flags.
#[verifier::loop_isolation(false)]
fn decl_justified(ctx: &TransformCtx, flags: &Vec<bool>, i: usize) -> (r: bool)
    requires
        i < ctx@.fun_decls.len(),
        flags@.len() == ctx@.fun_decls.len(),
    ensures
        r == div_justified(ctx@, flags@, i as int),
{
    let n = ctx.fun_decls.elems.len();
    match &ctx.fun_decls.elems[i] {
        Some(d) => match &d.body {
            Some(b) => {
                if body_has_cycle(&b.body) {
                    return true;
                }
                if body_calls(b, FunDeclId { index: i }) {
                    return true;
                }
                let mut j: usize = 0;
                while j < n
                    invariant
                        j <= n,
                        n == flags@.len(),
                        b@ == ctx@.fun_decls[i as int]->Some_0.body->Some_0,
                        forall|k: int|
                            0 <= k < j ==> !(flags@[k] && body_calls_id(
                                b@,
                                FunDeclId { index: k as usize },
                            )),
                    decreases n - j,
                {
                    if flags[j] {
                        if body_calls(b, FunDeclId { index: j }) {
                            return true;
                        }
                    }
                    j = j + 1;
                }
                proof {
                    assert forall|j2: int|
                        0 <= j2 < flags@.len() implies !(flags@[j2] && body_calls_id(
                        b@,
                        FunDeclId { index: j2 as usize },
                    )) by {}
                }
                false
            },
            None => false,
        },
        None => false,
    }
}

/// Compute which functions are potentially divergent: the least flag set
/// closed under the propagation step.  The computation only reads the
/// declarations; it is the one analysis of the pipeline that rewrites
/// nothing.
#[verifier::loop_isolation(false)]
pub fn compute_divergent_functions(ctx: &TransformCtx) -> (flags: Vec<bool>)
    ensures
        div_stable(ctx@, flags@),
        forall|s: Seq<bool>| div_stable(ctx@, s) ==> seq_le(flags@, s),
{
    let n = ctx.fun_decls.elems.len();
    let mut flags: Vec<bool> = false_flags(n);
    let mut changed = true;
    while changed
        invariant
            flags@.len() == n,
            n == ctx@.fun_decls.len(),
            forall|s: Seq<bool>|
                div_stable(ctx@, s) ==> (forall|i: int| 0 <= i < n && flags@[i] ==> s[i]),
            !changed ==> div_stable(ctx@, flags@),
        decreases n + 1 - count_true(flags@) + (if changed {
            1int
        } else {
            0int
        }),
    {
        let ghost flags_at_round_start = flags@;
        changed = false;
        let mut i: usize = 0;
        while i < n
            invariant
                i <= n,
                flags@.len() == n,
                forall|s: Seq<bool>|
                    div_stable(ctx@, s) ==> (forall|k: int| 0 <= k < n && flags@[k] ==> s[k]),
                !changed ==> flags@ == flags_at_round_start,
                changed ==> count_true(flags@) > count_true(flags_at_round_start),
                !changed ==> (forall|k: int|
                    0 <= k < i && div_justified(ctx@, flags@, k) ==> flags@[k]),
            decreases n - i,
        {
            let already = flags[i];
            if !already {
                if decl_justified(ctx, &flags, i) {
                    proof {
                        lemma_count_true_update(flags@, i as int);
                        assert forall|s: Seq<bool>|
                            div_stable(ctx@, s) implies (forall|k: int|
                            0 <= k < n && flags@.update(i as int, true)[k] ==> s[k]) by {
                            assert(forall|k: int| 0 <= k < n && flags@[k] ==> s[k]);
                            assert(div_justified(ctx@, flags@, i as int));
                            let b = ctx@.fun_decls[i as int]->Some_0.body->Some_0;
                            if cfg_has_cycle(b.body) {
                            } else if body_calls_id(b, FunDeclId { index: i }) {
                            } else {
                                let j = choose|j: int|
                                    0 <= j < flags@.len() && flags@[j] && body_calls_id(
                                        b,
                                        FunDeclId { index: j as usize },
                                    );
                                assert(s[j]);
                            }
                            assert(div_justified(ctx@, s, i as int));
                            assert(s[i as int]);
                        }
                    }
                    let fi = &mut flags[i];
                    *fi = true;
                    changed = true;
                }
            }
            proof {
                if !changed {
                    assert forall|k: int|
                        0 <= k < i + 1 && div_justified(ctx@, flags@, k) implies flags@[k] by {}
                }
            }
            i = i + 1;
        }
        proof {
            lemma_count_true_le_len(flags@);
        }
    }
    proof {
        assert forall|s: Seq<bool>| div_stable(ctx@, s) implies seq_le(flags@, s) by {}
    }
    flags
}

} // verus!
