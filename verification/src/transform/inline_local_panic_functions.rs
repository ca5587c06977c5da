//! A panic in the source expands to a call to a generated cold panic
//! function whose whole body is a single unconditional abort naming the
//! built-in panic symbol.  This pass recognizes those functions, replaces
//! every call to one of them with a direct abort of the same kind, and then
//! removes the now-dead functions from the declaration set.

use crate::ids::{FunDeclId, Idx};
use crate::transform::ctx::TransformCtx;
use crate::ullbc::{
    AbortKind, AbortKindV, CallV, ExprBody, FnOperandV, FnPtrV, FunDecl, FunDeclV, FunId,
    FunIdOrTraitMethodRefV, Name, RawStatement, RawStatementV, Statement, StatementV,
};
use crate::ullbc_utils::{visited_block, StatementVisitor};
use vstd::prelude::*;

verus! {

/// The canonical name of the built-in panic symbol.
pub open spec fn explicit_panic_name_spec() -> Seq<char> {
    "core::panicking::panic_explicit"@
}

/// The canonical name of the built-in panic symbol.
pub fn explicit_panic_name() -> (n: Name)
    ensures
        n@ == explicit_panic_name_spec(),
{
    Name::from_path("core::panicking::panic_explicit")
}

/// Whether a statement is an abort naming the built-in panic symbol.
pub open spec fn is_explicit_panic_stmt(st: StatementV) -> bool {
    match st.content {
        RawStatementV::Abort(k) => match k {
            AbortKindV::Panic(n) => n == explicit_panic_name_spec(),
            _ => false,
        },
        _ => false,
    }
}

/// Whether a declaration is a generated cold panic function: its whole body
/// is exactly one statement, and that statement is an abort referencing the
/// canonical panic-symbol name.
pub open spec fn is_panic_shim(decl: FunDeclV) -> bool {
    match decl.body {
        Some(b) => b.body.len() == 1 && b.body[0] is Some && b.body[0]->Some_0.statements.len()
            == 1 && is_explicit_panic_stmt(b.body[0]->Some_0.statements[0]),
        None => false,
    }
}

/// Whether the declaration slot `i` holds a panic shim.
pub open spec fn shim_at(decls: Seq<Option<FunDeclV>>, i: int) -> bool {
    0 <= i < decls.len() && decls[i] is Some && is_panic_shim(decls[i]->Some_0)
}

/// The direct abort a shim call is replaced by.
pub open spec fn abort_stmt(span: crate::meta::Span) -> StatementV {
    StatementV {
        span,
        content: RawStatementV::Abort(AbortKindV::Panic(explicit_panic_name_spec())),
    }
}

/// Whether a statement is, at its top level, a call to one of the panic
/// shims of `decls`.
pub open spec fn is_call_to_shim(decls: Seq<Option<FunDeclV>>, st: StatementV) -> bool {
    match st.content {
        RawStatementV::Call(c) => match c.func {
            FnOperandV::Regular(p) => match p.func {
                FunIdOrTraitMethodRefV::Fun(f) => match f {
                    FunId::Regular(id) => shim_at(decls, id.idx() as int),
                    _ => false,
                },
                _ => false,
            },
            _ => false,
        },
        _ => false,
    }
}

/// The rewrite of one statement: a call to a panic shim becomes a direct
/// abort of the same kind, with the statement's span kept; the branches of a
/// statement-level switch are rewritten recursively, so that no call site
/// escapes; everything else is unchanged.
pub open spec fn replaced_stmt(decls: Seq<Option<FunDeclV>>, st: StatementV) -> StatementV
    decreases st,
{
    match st.content {
        RawStatementV::Call(c) => if is_call_to_shim(decls, st) {
            abort_stmt(st.span)
        } else {
            st
        },
        RawStatementV::Switch(sw) => match *sw {
            crate::ullbc::SwitchV::If(op, b1, b2) => StatementV {
                span: st.span,
                content: RawStatementV::Switch(
                    Box::new(
                        crate::ullbc::SwitchV::If(
                            op,
                            crate::ullbc::BlockV {
                                span: b1.span,
                                statements: replaced_stmts(decls, b1.statements),
                            },
                            crate::ullbc::BlockV {
                                span: b2.span,
                                statements: replaced_stmts(decls, b2.statements),
                            },
                        ),
                    ),
                ),
            },
        },
        _ => st,
    }
}

/// The rewrite of a statement sequence, statement by statement.
pub open spec fn replaced_stmts(decls: Seq<Option<FunDeclV>>, sts: Seq<StatementV>) -> Seq<
    StatementV,
>
    decreases sts,
{
    if sts.len() == 0 {
        sts
    } else {
        seq![replaced_stmt(decls, sts[0])] + replaced_stmts(
            decls,
            sts.subrange(1, sts.len() as int),
        )
    }
}

/// The sequence rewrite is pointwise.
pub proof fn lemma_replaced_stmts(decls: Seq<Option<FunDeclV>>, sts: Seq<StatementV>)
    ensures
        replaced_stmts(decls, sts).len() == sts.len(),
        forall|i: int|
            0 <= i < sts.len() ==> replaced_stmts(decls, sts)[i] == replaced_stmt(decls, sts[i]),
    decreases sts.len(),
{
    if sts.len() > 0 {
        lemma_replaced_stmts(decls, sts.subrange(1, sts.len() as int));
    }
}

/// Whether a statement is, at its top level, a call to one of the listed
/// handles.
pub open spec fn is_shim_call_ids(ids: Seq<FunDeclId>, st: StatementV) -> bool {
    match st.content {
        RawStatementV::Call(c) => match c.func {
            FnOperandV::Regular(p) => match p.func {
                FunIdOrTraitMethodRefV::Fun(f) => match f {
                    FunId::Regular(id) => ids.contains(id),
                    _ => false,
                },
                _ => false,
            },
            _ => false,
        },
        _ => false,
    }
}

/// The rewrite of one statement against a list of shim handles.
pub open spec fn replace_stmt_ids(ids: Seq<FunDeclId>, st: StatementV) -> StatementV
    decreases st,
{
    match st.content {
        RawStatementV::Call(c) => if is_shim_call_ids(ids, st) {
            abort_stmt(st.span)
        } else {
            st
        },
        RawStatementV::Switch(sw) => match *sw {
            crate::ullbc::SwitchV::If(op, b1, b2) => StatementV {
                span: st.span,
                content: RawStatementV::Switch(
                    Box::new(
                        crate::ullbc::SwitchV::If(
                            op,
                            crate::ullbc::BlockV {
                                span: b1.span,
                                statements: replace_stmts_ids(ids, b1.statements),
                            },
                            crate::ullbc::BlockV {
                                span: b2.span,
                                statements: replace_stmts_ids(ids, b2.statements),
                            },
                        ),
                    ),
                ),
            },
        },
        _ => st,
    }
}

/// The rewrite of a statement sequence against a list of shim handles.
pub open spec fn replace_stmts_ids(ids: Seq<FunDeclId>, sts: Seq<StatementV>) -> Seq<StatementV>
    decreases sts,
{
    if sts.len() == 0 {
        sts
    } else {
        seq![replace_stmt_ids(ids, sts[0])] + replace_stmts_ids(
            ids,
            sts.subrange(1, sts.len() as int),
        )
    }
}

/// The sequence rewrite is pointwise.
pub proof fn lemma_replace_stmts_ids(ids: Seq<FunDeclId>, sts: Seq<StatementV>)
    ensures
        replace_stmts_ids(ids, sts).len() == sts.len(),
        forall|i: int|
            0 <= i < sts.len() ==> replace_stmts_ids(ids, sts)[i] == replace_stmt_ids(
                ids,
                sts[i],
            ),
    decreases sts.len(),
{
    if sts.len() > 0 {
        lemma_replace_stmts_ids(ids, sts.subrange(1, sts.len() as int));
    }
}

/// When the handle list holds exactly the shims of `decls`, the two
/// rewrites agree.
pub proof fn lemma_replace_equiv(
    ids: Seq<FunDeclId>,
    decls: Seq<Option<FunDeclV>>,
    st: StatementV,
)
    requires
        forall|id: FunDeclId| #[trigger] ids.contains(id) <==> shim_at(decls, id.idx() as int),
    ensures
        replace_stmt_ids(ids, st) == replaced_stmt(decls, st),
    decreases st,
{
    match st.content {
        RawStatementV::Switch(sw) => match *sw {
            crate::ullbc::SwitchV::If(op, b1, b2) => {
                lemma_replace_equiv_seq(ids, decls, b1.statements);
                lemma_replace_equiv_seq(ids, decls, b2.statements);
            },
        },
        _ => {},
    }
}

/// The two sequence rewrites agree under the same hypothesis.
pub proof fn lemma_replace_equiv_seq(
    ids: Seq<FunDeclId>,
    decls: Seq<Option<FunDeclV>>,
    sts: Seq<StatementV>,
)
    requires
        forall|id: FunDeclId| #[trigger] ids.contains(id) <==> shim_at(decls, id.idx() as int),
    ensures
        replace_stmts_ids(ids, sts) == replaced_stmts(decls, sts),
    decreases sts,
{
    if sts.len() > 0 {
        lemma_replace_equiv(ids, decls, sts[0]);
        lemma_replace_equiv_seq(ids, decls, sts.subrange(1, sts.len() as int));
    }
}

/// The visitor that replaces calls to the collected panic shims.
pub struct PanicCallReplacer<'a> {
    pub panic_fns: &'a Vec<FunDeclId>,
}

/// Replace every shim call of one statement, entering the branches of a
/// statement-level switch.
#[verifier::loop_isolation(false)]
#[verifier::rlimit(100)]
fn replace_in_stmt(ids: &Vec<FunDeclId>, st: &mut Statement)
    ensures
        final(st)@ == replace_stmt_ids(ids@, old(st)@),
    decreases *old(st),
{
    let ghost st0 = *st;
    let hit = match &st.content {
        RawStatement::Call(c) => match &c.func {
            crate::ullbc::FnOperand::Regular(p) => match &p.func {
                crate::ullbc::FunIdOrTraitMethodRef::Fun(FunId::Regular(id)) => {
                    contains_id(ids, *id)
                },
                _ => false,
            },
            _ => false,
        },
        _ => false,
    };
    if hit {
        st.content = RawStatement::Abort(AbortKind::Panic(explicit_panic_name()));
        proof {
            assert(is_shim_call_ids(ids@, st0@));
            assert(st@ == abort_stmt(st0.span));
        }
        return ;
    }
    let is_switch = match &st.content {
        RawStatement::Switch(_) => true,
        _ => false,
    };
    if !is_switch {
        return ;
    }
    let mut content = RawStatement::Nop;
    core::mem::swap(&mut st.content, &mut content);
    match content {
        RawStatement::Switch(crate::ullbc::Switch::If(op, mut b1, mut b2)) => {
            let ghost op0 = op;
            let ghost b10 = b1;
            let ghost b20 = b2;
            let ghost b1e = b1.statements@;
            let ghost b2e = b2.statements@;
            let ghost b1v = crate::ullbc::view_statements(b1e);
            let ghost b2v = crate::ullbc::view_statements(b2e);
            proof {
                lemma_replace_stmts_ids(ids@, b1v);
                lemma_replace_stmts_ids(ids@, b2v);
                crate::ullbc::lemma_view_statements(b1e);
                crate::ullbc::lemma_view_statements(b2e);
            }
            let mut j: usize = 0;
            let n1 = b1.statements.len();
            while j < n1
                invariant
                    j <= n1,
                    b1.statements@.len() == n1,
                    b1.span == b10.span,
                    b1e.len() == n1,
                    forall|k: int| j <= k < n1 ==> b1.statements@[k] == b1e[k],
                    forall|k: int|
                        0 <= k < j ==> crate::ullbc::view_statement(#[trigger] b1.statements@[k])
                            == replace_stmt_ids(ids@, b1v[k]),
                decreases n1 - j,
            {
                proof {
                    assert(b1.statements@[j as int] == b1e[j as int]);
                    assert(decreases_to!(st0 => b1e[j as int]));
                }
                replace_in_stmt(ids, &mut b1.statements[j]);
                j = j + 1;
            }
            proof {
                crate::ullbc::lemma_view_statements(b1.statements@);
                assert(crate::ullbc::view_statements(b1.statements@) =~= replace_stmts_ids(
                    ids@,
                    b1v,
                ));
            }
            let mut j: usize = 0;
            let n2 = b2.statements.len();
            while j < n2
                invariant
                    j <= n2,
                    b2.statements@.len() == n2,
                    b2.span == b20.span,
                    b2e.len() == n2,
                    forall|k: int| j <= k < n2 ==> b2.statements@[k] == b2e[k],
                    forall|k: int|
                        0 <= k < j ==> crate::ullbc::view_statement(#[trigger] b2.statements@[k])
                            == replace_stmt_ids(ids@, b2v[k]),
                decreases n2 - j,
            {
                proof {
                    assert(b2.statements@[j as int] == b2e[j as int]);
                    assert(decreases_to!(st0 => b2e[j as int]));
                }
                replace_in_stmt(ids, &mut b2.statements[j]);
                j = j + 1;
            }
            proof {
                crate::ullbc::lemma_view_statements(b2.statements@);
                assert(crate::ullbc::view_statements(b2.statements@) =~= replace_stmts_ids(
                    ids@,
                    b2v,
                ));
            }
            let ghost b1f = b1;
            let ghost b2f = b2;
            st.content = RawStatement::Switch(crate::ullbc::Switch::If(op, b1, b2));
            proof {
                reveal_with_fuel(crate::ullbc::view_statement, 4);
                reveal_with_fuel(crate::ullbc::view_raw_statement, 4);
                reveal_with_fuel(crate::ullbc::view_switch, 4);
                reveal_with_fuel(crate::ullbc::view_block, 4);
                assert(st0.content == RawStatement::Switch(
                    crate::ullbc::Switch::If(op0, b10, b20),
                ));
                assert(st0@.content == RawStatementV::Switch(
                    Box::new(
                        crate::ullbc::SwitchV::If(
                            crate::ullbc::view_operand(op0),
                            crate::ullbc::view_block(b10),
                            crate::ullbc::view_block(b20),
                        ),
                    ),
                ));
                assert(st.content == RawStatement::Switch(
                    crate::ullbc::Switch::If(op0, b1f, b2f),
                ));
                assert(crate::ullbc::view_block(b1f).span == crate::ullbc::view_block(b10).span);
                assert(crate::ullbc::view_block(b1f).statements == replace_stmts_ids(
                    ids@,
                    crate::ullbc::view_block(b10).statements,
                ));
                assert(crate::ullbc::view_block(b2f).statements == replace_stmts_ids(
                    ids@,
                    crate::ullbc::view_block(b20).statements,
                ));
                assert(st@ =~= replace_stmt_ids(ids@, st0@));
            }
        },
        _ => {
            proof {
                assert(false);
            }
        },
    }
}

impl<'a> StatementVisitor for PanicCallReplacer<'a> {
    open spec fn spec_visit(&self, st: StatementV) -> StatementV {
        replace_stmt_ids(self.panic_fns@, st)
    }

    fn visit_st(&self, st: &mut Statement) {
        replace_in_stmt(self.panic_fns, st);
    }
}

/// Whether the list holds the given handle.
#[verifier::loop_isolation(false)]
fn contains_id(ids: &Vec<FunDeclId>, id: FunDeclId) -> (r: bool)
    ensures
        r == ids@.contains(id),
{
    let mut i: usize = 0;
    while i < ids.len()
        invariant
            i <= ids@.len(),
            forall|j: int| 0 <= j < i ==> ids@[j] != id,
        decreases ids@.len() - i,
    {
        if ids[i] == id {
            proof {
                assert(ids@[i as int] == id);
            }
            return true;
        }
        i = i + 1;
    }
    proof {
        assert(!ids@.contains(id));
    }
    false
}

/// The panic-call-folding pass.
pub struct Transform;

impl Transform {
    /// Whether one declaration is a panic shim.
    fn decl_is_panic_shim(decl: &FunDecl) -> (r: bool)
        ensures
            r == is_panic_shim(decl@),
    {
        match &decl.body {
            Some(b) => {
                if b.body.elems.len() != 1 {
                    return false;
                }
                match &b.body.elems[0] {
                    Some(blk) => {
                        proof {
                            crate::ullbc::lemma_view_statements(blk.statements@);
                        }
                        if blk.statements.len() != 1 {
                            return false;
                        }
                        match &blk.statements[0].content {
                            RawStatement::Abort(AbortKind::Panic(n)) => {
                                let canonical = explicit_panic_name();
                                n.equals(&canonical)
                            },
                            _ => false,
                        }
                    },
                    None => false,
                }
            },
            None => false,
        }
    }

    /// Collect the handles of the panic shims, replace every call to one of
    /// them by a direct abort, and remove the shims from the declaration
    /// set.  Type declarations are untouched, no handle is renumbered, and
    /// the handles of removed declarations are never reused.
    #[verifier::loop_isolation(false)]
    #[verifier::rlimit(60)]
    pub fn transform_ctx(&self, ctx: &mut TransformCtx)
        ensures
            final(ctx)@.type_decls == old(ctx)@.type_decls,
            final(ctx)@.fun_decls.len() == old(ctx)@.fun_decls.len(),
            forall|i: int|
                shim_at(old(ctx)@.fun_decls, i) ==> final(ctx)@.fun_decls[i] is None,
            forall|i: int|
                0 <= i < old(ctx)@.fun_decls.len() && !shim_at(old(ctx)@.fun_decls, i)
                    ==> final(ctx)@.fun_decls[i] == replaced_decl(
                    old(ctx)@.fun_decls,
                    old(ctx)@.fun_decls[i],
                ),
    {
        let ghost decls0 = ctx@.fun_decls;
        // Collect the functions generated by panics.
        let mut panic_fns: Vec<FunDeclId> = Vec::new();
        let n = ctx.fun_decls.elems.len();
        let mut i: usize = 0;
        while i < n
            invariant
                i <= n,
                n == decls0.len(),
                ctx@.fun_decls == decls0,
                ctx@.type_decls == old(ctx)@.type_decls,
                forall|id: FunDeclId| #[trigger]
                    panic_fns@.contains(id) <==> (id.idx() < i && shim_at(
                        decls0,
                        id.idx() as int,
                    )),
            decreases n - i,
        {
            let is_shim = match &ctx.fun_decls.elems[i] {
                Some(decl) => Transform::decl_is_panic_shim(decl),
                None => false,
            };
            if is_shim {
                let id = FunDeclId { index: i };
                let ghost pf0 = panic_fns@;
                panic_fns.push(id);
                proof {
                    assert(panic_fns@ == pf0.push(id));
                    assert forall|id2: FunDeclId| #[trigger]
                        panic_fns@.contains(id2) implies (id2.idx() < i + 1 && shim_at(
                        decls0,
                        id2.idx() as int,
                    )) by {
                        let j = choose|j: int|
                            0 <= j < panic_fns@.len() && panic_fns@[j] == id2;
                        if j < pf0.len() {
                            assert(pf0[j] == id2);
                            assert(pf0.contains(id2));
                        } else {
                            assert(id2 == id);
                        }
                    }
                    assert forall|id2: FunDeclId|
                        (id2.idx() < i + 1 && shim_at(decls0, id2.idx() as int)) implies #[trigger]
                        panic_fns@.contains(id2) by {
                        if id2.idx() < i {
                            assert(pf0.contains(id2));
                            let j = choose|j: int| 0 <= j < pf0.len() && pf0[j] == id2;
                            assert(panic_fns@[j] == id2);
                        } else {
                            assert(id2.index == i);
                            assert(id2 == id);
                            assert(panic_fns@[panic_fns@.len() - 1] == id);
                        }
                    }
                }
            } else {
                proof {
                    assert forall|id2: FunDeclId|
                        (id2.idx() < i + 1 && shim_at(decls0, id2.idx() as int)) implies #[trigger]
                        panic_fns@.contains(id2) by {
                        if id2.idx() == i {
                            assert(!shim_at(decls0, i as int));
                        }
                    }
                }
            }
            i = i + 1;
        }
        proof {
            assert forall|id: FunDeclId| #[trigger]
                panic_fns@.contains(id) <==> shim_at(decls0, id.idx() as int) by {}
        }
        // Replace each call to one of those functions with an abort.
        let replacer = PanicCallReplacer { panic_fns: &panic_fns };
        let mut bi: usize = 0;
        while bi < n
            invariant
                bi <= n,
                n == ctx@.fun_decls.len(),
                n == decls0.len(),
                ctx@.type_decls == old(ctx)@.type_decls,
                forall|id: FunDeclId| #[trigger]
                    panic_fns@.contains(id) <==> shim_at(decls0, id.idx() as int),
                replacer.panic_fns@ == panic_fns@,
                forall|i2: int| bi <= i2 < n ==> ctx@.fun_decls[i2] == decls0[i2],
                forall|i2: int|
                    0 <= i2 < bi ==> ctx@.fun_decls[i2] == replaced_decl(decls0, decls0[i2]),
            decreases n - bi,
        {
            let ghost pre = ctx@.fun_decls;
            match &mut ctx.fun_decls.elems[bi] {
                Some(decl) => {
                    let ghost d0 = decl@;
                    match &mut decl.body {
                        Some(b) => {
                            let ghost b0 = b@;
                            b.visit_statements(&replacer);
                            proof {
                                assert forall|st: StatementV|
                                    true implies #[trigger] replacer.spec_visit(st)
                                    == replaced_stmt(decls0, st) by {
                                    lemma_replace_equiv(panic_fns@, decls0, st);
                                }
                                assert forall|ii: int|
                                    0 <= ii < b0.body.len() implies b@.body[ii] == replaced_body(
                                    decls0,
                                    b0,
                                ).body[ii] by {
                                    if b0.body[ii] is Some {
                                        let blk = b0.body[ii]->Some_0;
                                        assert(blk.statements.map(
                                            |j: int, st: StatementV| replacer.spec_visit(st),
                                        ) =~= blk.statements.map(
                                            |j: int, st: StatementV| replaced_stmt(decls0, st),
                                        ));
                                    }
                                }
                                assert(b@.body =~= replaced_body(decls0, b0).body);
                                assert(b@ =~= replaced_body(decls0, b0));
                            }
                        },
                        None => {},
                    }
                    proof {
                        assert(decl@ =~= match replaced_decl(decls0, Some(d0)) {
                            Some(d) => d,
                            None => d0,
                        });
                    }
                },
                None => {},
            }
            proof {
                assert(ctx@.fun_decls.len() == decls0.len());
                assert(forall|i2: int|
                    0 <= i2 < n && i2 != bi ==> ctx@.fun_decls[i2] == pre[i2]);
                assert(ctx@.fun_decls[bi as int] == replaced_decl(decls0, decls0[bi as int]));
                assert forall|i2: int|
                    0 <= i2 < bi + 1 implies ctx@.fun_decls[i2] == replaced_decl(
                    decls0,
                    decls0[i2],
                ) by {
                    if i2 != bi {
                        assert(ctx@.fun_decls[i2] == pre[i2]);
                    }
                }
            }
            bi = bi + 1;
        }
        // Remove the dead shims from the declaration set.
        let ghost mid_decls = ctx@.fun_decls;
        let mut k: usize = 0;
        while k < panic_fns.len()
            invariant
                k <= panic_fns@.len(),
                ctx@.type_decls == old(ctx)@.type_decls,
                ctx@.fun_decls.len() == decls0.len(),
                forall|i2: int|
                    0 <= i2 < decls0.len() && !shim_at(decls0, i2) ==> ctx@.fun_decls[i2]
                        == mid_decls[i2],
                forall|i2: int|
                    0 <= i2 < decls0.len() && shim_at(decls0, i2) ==> (ctx@.fun_decls[i2] is None
                        || ctx@.fun_decls[i2] == mid_decls[i2]),
                forall|j: int|
                    0 <= j < k ==> ctx@.fun_decls[panic_fns@[j].idx() as int] is None,
            decreases panic_fns@.len() - k,
        {
            let id = panic_fns[k];
            proof {
                assert(panic_fns@[k as int] == id);
                assert(panic_fns@.contains(id));
                assert(shim_at(decls0, id.idx() as int));
            }
            let ghost pre = ctx@.fun_decls;
            ctx.fun_decls.remove(id);
            proof {
                assert(ctx@.fun_decls =~= pre.update(id.idx() as int, None));
                assert forall|j: int|
                    0 <= j < k + 1 implies ctx@.fun_decls[panic_fns@[j].idx() as int] is None by {
                    assert(panic_fns@.contains(panic_fns@[j]));
                    assert(shim_at(decls0, panic_fns@[j].idx() as int));
                    if j < k {
                        assert(pre[panic_fns@[j].idx() as int] is None);
                    } else {
                        assert(panic_fns@[j] == id);
                    }
                }
            }
            k = k + 1;
        }
        proof {
            assert forall|i: int| shim_at(decls0, i) implies final(ctx)@.fun_decls[i] is None by {
                let id = FunDeclId { index: i as usize };
                assert(panic_fns@.contains(id));
                let j = choose|j: int| 0 <= j < panic_fns@.len() && panic_fns@[j] == id;
                assert(final(ctx)@.fun_decls[panic_fns@[j].idx() as int] is None);
            }
            assert forall|i: int|
                0 <= i < decls0.len() && !shim_at(decls0, i) implies final(ctx)@.fun_decls[i]
                == replaced_decl(decls0, decls0[i]) by {
                assert(final(ctx)@.fun_decls[i] == mid_decls[i]);
            }
        }
    }
}

/// The rewrite of one body: every statement has its shim calls replaced;
/// the locals, the spans and every terminator are kept.
pub open spec fn replaced_body(
    decls: Seq<Option<FunDeclV>>,
    b: crate::ullbc::ExprBodyV,
) -> crate::ullbc::ExprBodyV {
    crate::ullbc::ExprBodyV {
        span: b.span,
        locals: b.locals,
        body: Seq::new(
            b.body.len(),
            |i: int|
                match b.body[i] {
                    Some(blk) => Some(
                        crate::ullbc::BlockDataV {
                            statements: blk.statements.map(
                                |j: int, st: StatementV| replaced_stmt(decls, st),
                            ),
                            terminator: blk.terminator,
                        },
                    ),
                    None => None,
                },
        ),
    }
}

/// Replacing shim calls touches no terminator and no block handle, so the
/// control-flow well-formedness of a body is preserved.
pub proof fn lemma_replaced_body_preserves_wf(
    decls: Seq<Option<FunDeclV>>,
    b: crate::ullbc::ExprBodyV,
)
    requires
        crate::ullbc::body_wf(b.body),
    ensures
        crate::ullbc::body_wf(replaced_body(decls, b).body),
{
    let nb = replaced_body(decls, b).body;
    assert forall|i: int, j: int|
        0 <= i < nb.len() && nb[i] is Some && 0 <= j < crate::ullbc::terminator_targets(
            nb[i]->Some_0.terminator.content,
        ).len() implies crate::ullbc::valid_block_id(
        nb,
        crate::ullbc::terminator_targets(nb[i]->Some_0.terminator.content)[j],
    ) by {
        assert(b.body[i] is Some);
        assert(nb[i]->Some_0.terminator == b.body[i]->Some_0.terminator);
        let t = crate::ullbc::terminator_targets(b.body[i]->Some_0.terminator.content)[j];
        assert(crate::ullbc::valid_block_id(b.body, t));
        assert(nb[t.idx() as int] is Some);
    }
}

/// The rewrite of one declaration slot: every statement of the body has its
/// shim calls replaced; the signature and handle are kept.
pub open spec fn replaced_decl(
    decls: Seq<Option<FunDeclV>>,
    slot: Option<FunDeclV>,
) -> Option<FunDeclV> {
    match slot {
        Some(d) => Some(
            FunDeclV {
                def_id: d.def_id,
                sig: d.sig,
                body: match d.body {
                    Some(b) => Some(replaced_body(decls, b)),
                    None => None,
                },
            },
        ),
        None => None,
    }
}

} // verus!
