//! Desugar the array-to-slice unary operation and the array-repeat rvalue
//! into calls to built-in functions parameterized by the element type, the
//! length and the reference kind, so that downstream consumers handle one
//! call-based representation uniformly.

use crate::transform::ctx::TransformCtx;
use crate::types::{ConstGeneric, GenericArgs, GenericArgsV, Region, Ty, TyV};
use crate::ullbc::{
    BuiltinFunId, Call, CallV, ExprBody, FnOperand, FnOperandV, FnPtr, FnPtrV, FunId,
    FunIdOrTraitMethodRef, FunIdOrTraitMethodRefV, Operand, RawStatement, RawStatementV, Rvalue,
    Statement, StatementV, UnOp,
};
use crate::types::RefKind;
use crate::ullbc_utils::{visited_block, StatementVisitor};
use vstd::prelude::*;

verus! {

/// The generic arguments of a built-in call: one erased region, the element
/// type, and the length.
pub open spec fn builtin_generics(ty: TyV, cg: ConstGeneric) -> GenericArgsV {
    GenericArgsV {
        regions: seq![Region::Erased],
        types: seq![ty],
        const_generics: seq![cg],
        trait_refs: Seq::empty(),
    }
}

/// The call that a desugared operator becomes.
pub open spec fn builtin_call(
    id: BuiltinFunId,
    ty: TyV,
    cg: ConstGeneric,
    arg: crate::ullbc::OperandV,
    dest: crate::ullbc::Place,
) -> RawStatementV {
    RawStatementV::Call(
        CallV {
            func: FnOperandV::Regular(
                FnPtrV {
                    func: FunIdOrTraitMethodRefV::Fun(FunId::Builtin(id)),
                    generics: builtin_generics(ty, cg),
                },
            ),
            args: seq![arg],
            dest,
        },
    )
}

/// The rewrite this pass applies to one statement: the two recognized
/// operator forms become built-in calls, the branches of a statement-level
/// switch are desugared recursively, and everything else is unchanged.
pub open spec fn desugar_stmt(st: StatementV) -> StatementV
    decreases st,
{
    match st.content {
        RawStatementV::Switch(sw) => match *sw {
            crate::ullbc::SwitchV::If(op, b1, b2) => StatementV {
                span: st.span,
                content: RawStatementV::Switch(
                    Box::new(
                        crate::ullbc::SwitchV::If(
                            op,
                            crate::ullbc::BlockV {
                                span: b1.span,
                                statements: desugar_stmts(b1.statements),
                            },
                            crate::ullbc::BlockV {
                                span: b2.span,
                                statements: desugar_stmts(b2.statements),
                            },
                        ),
                    ),
                ),
            },
        },
        RawStatementV::Assign(p, crate::ullbc::RvalueV::UnaryOp(u, op)) => match u {
            crate::ullbc::UnOpV::ArrayToSlice(rk, ty, cg) => StatementV {
                span: st.span,
                content: builtin_call(
                    match rk {
                        crate::types::RefKind::Mut => BuiltinFunId::ArrayToSliceMut,
                        crate::types::RefKind::Shared => BuiltinFunId::ArrayToSliceShared,
                    },
                    ty,
                    cg,
                    op,
                    p,
                ),
            },
            _ => st,
        },
        RawStatementV::Assign(p, crate::ullbc::RvalueV::Repeat(op, ty, cg)) => StatementV {
            span: st.span,
            content: builtin_call(BuiltinFunId::ArrayRepeat, ty, cg, op, p),
        },
        _ => st,
    }
}

/// The rewrite of a statement sequence, statement by statement.
pub open spec fn desugar_stmts(sts: Seq<StatementV>) -> Seq<StatementV>
    decreases sts,
{
    if sts.len() == 0 {
        sts
    } else {
        seq![desugar_stmt(sts[0])] + desugar_stmts(sts.subrange(1, sts.len() as int))
    }
}

/// The sequence rewrite is pointwise.
pub proof fn lemma_desugar_stmts(sts: Seq<StatementV>)
    ensures
        desugar_stmts(sts).len() == sts.len(),
        forall|i: int| 0 <= i < sts.len() ==> desugar_stmts(sts)[i] == desugar_stmt(sts[i]),
    decreases sts.len(),
{
    if sts.len() > 0 {
        lemma_desugar_stmts(sts.subrange(1, sts.len() as int));
    }
}

/// Build the generic arguments of a built-in call.
fn make_builtin_generics(ty: Ty, cg: ConstGeneric) -> (r: GenericArgs)
    ensures
        r@ == builtin_generics(ty@, cg),
{
    let ghost tyv = ty@;
    let mut regions: Vec<Region> = Vec::new();
    regions.push(Region::Erased);
    let mut types: Vec<Ty> = Vec::new();
    types.push(ty);
    let mut cgs: Vec<ConstGeneric> = Vec::new();
    cgs.push(cg);
    let r = GenericArgs::new(regions, types, cgs, Vec::new());
    proof {
        assert(types@ =~= seq![types@[0]]);
        crate::types::lemma_view_tys(types@);
        crate::types::lemma_view_trait_refs(Seq::<crate::types::TraitRef>::empty());
        assert(crate::types::view_tys(types@) =~= seq![tyv]);
        assert(crate::types::view_trait_refs(Seq::<crate::types::TraitRef>::empty()) =~= Seq::<
            crate::types::TraitRefV,
        >::empty());
        assert(r@ =~= builtin_generics(tyv, cg));
    }
    r
}

/// Rewrite the two recognized operator forms of one statement into built-in
/// calls, entering the branches of a statement-level switch; any other
/// statement is left unchanged.
#[verifier::loop_isolation(false)]
#[verifier::rlimit(100)]
pub fn transform_st(s: &mut Statement)
    ensures
        final(s)@ == desugar_stmt(old(s)@),
    decreases *old(s),
{
    let ghost st0 = *s;
    let recognized = match &s.content {
        RawStatement::Assign(_, Rvalue::UnaryOp(UnOp::ArrayToSlice(_, _, _), _)) => true,
        RawStatement::Assign(_, Rvalue::Repeat(_, _, _)) => true,
        RawStatement::Switch(_) => true,
        _ => false,
    };
    if !recognized {
        return ;
    }
    let mut content = RawStatement::Nop;
    core::mem::swap(&mut s.content, &mut content);
    match content {
        RawStatement::Assign(p, Rvalue::UnaryOp(UnOp::ArrayToSlice(rk, ty, cg), op)) => {
            let id = match rk {
                RefKind::Mut => BuiltinFunId::ArrayToSliceMut,
                RefKind::Shared => BuiltinFunId::ArrayToSliceShared,
            };
            let ghost tyv = ty@;
            let ghost opv = crate::ullbc::view_operand(op);
            let generics = make_builtin_generics(ty, cg);
            let func = FnOperand::Regular(
                FnPtr { func: FunIdOrTraitMethodRef::Fun(FunId::Builtin(id)), generics },
            );
            let mut args: Vec<Operand> = Vec::new();
            args.push(op);
            proof {
                assert(crate::ullbc::view_operands(args@) =~= seq![opv]);
            }
            s.content = RawStatement::Call(Call { func, args, dest: p });
        },
        RawStatement::Assign(p, Rvalue::Repeat(op, ty, cg)) => {
            let ghost tyv = ty@;
            let ghost opv = crate::ullbc::view_operand(op);
            let generics = make_builtin_generics(ty, cg);
            let func = FnOperand::Regular(
                FnPtr {
                    func: FunIdOrTraitMethodRef::Fun(FunId::Builtin(BuiltinFunId::ArrayRepeat)),
                    generics,
                },
            );
            let mut args: Vec<Operand> = Vec::new();
            args.push(op);
            proof {
                assert(crate::ullbc::view_operands(args@) =~= seq![opv]);
            }
            s.content = RawStatement::Call(Call { func, args, dest: p });
        },
        RawStatement::Switch(crate::ullbc::Switch::If(op, mut b1, mut b2)) => {
            let ghost op0 = op;
            let ghost b10 = b1;
            let ghost b20 = b2;
            let ghost b1e = b1.statements@;
            let ghost b2e = b2.statements@;
            let ghost b1v = crate::ullbc::view_statements(b1e);
            let ghost b2v = crate::ullbc::view_statements(b2e);
            proof {
                lemma_desugar_stmts(b1v);
                lemma_desugar_stmts(b2v);
                crate::ullbc::lemma_view_statements(b1e);
                crate::ullbc::lemma_view_statements(b2e);
            }
            let mut j: usize = 0;
            let n1 = b1.statements.len();
            while j < n1
                invariant
                    j <= n1,
                    b1.statements@.len() == n1,
                    b1.span == b10.span,
                    b1e.len() == n1,
                    forall|k: int| j <= k < n1 ==> b1.statements@[k] == b1e[k],
                    forall|k: int|
                        0 <= k < j ==> crate::ullbc::view_statement(#[trigger] b1.statements@[k])
                            == desugar_stmt(b1v[k]),
                decreases n1 - j,
            {
                proof {
                    assert(b1.statements@[j as int] == b1e[j as int]);
                    assert(decreases_to!(st0 => b1e[j as int]));
                }
                transform_st(&mut b1.statements[j]);
                j = j + 1;
            }
            proof {
                crate::ullbc::lemma_view_statements(b1.statements@);
                assert(crate::ullbc::view_statements(b1.statements@) =~= desugar_stmts(b1v));
            }
            let mut j: usize = 0;
            let n2 = b2.statements.len();
            while j < n2
                invariant
                    j <= n2,
                    b2.statements@.len() == n2,
                    b2.span == b20.span,
                    b2e.len() == n2,
                    forall|k: int| j <= k < n2 ==> b2.statements@[k] == b2e[k],
                    forall|k: int|
                        0 <= k < j ==> crate::ullbc::view_statement(#[trigger] b2.statements@[k])
                            == desugar_stmt(b2v[k]),
                decreases n2 - j,
            {
                proof {
                    assert(b2.statements@[j as int] == b2e[j as int]);
                    assert(decreases_to!(st0 => b2e[j as int]));
                }
                transform_st(&mut b2.statements[j]);
                j = j + 1;
            }
            proof {
                crate::ullbc::lemma_view_statements(b2.statements@);
                assert(crate::ullbc::view_statements(b2.statements@) =~= desugar_stmts(b2v));
            }
            let ghost b1f = b1;
            let ghost b2f = b2;
            s.content = RawStatement::Switch(crate::ullbc::Switch::If(op, b1, b2));
            proof {
                reveal_with_fuel(crate::ullbc::view_statement, 4);
                reveal_with_fuel(crate::ullbc::view_raw_statement, 4);
                reveal_with_fuel(crate::ullbc::view_switch, 4);
                reveal_with_fuel(crate::ullbc::view_block, 4);
                assert(st0.content == RawStatement::Switch(
                    crate::ullbc::Switch::If(op0, b10, b20),
                ));
                assert(st0@.content == crate::ullbc::RawStatementV::Switch(
                    Box::new(
                        crate::ullbc::SwitchV::If(
                            crate::ullbc::view_operand(op0),
                            crate::ullbc::view_block(b10),
                            crate::ullbc::view_block(b20),
                        ),
                    ),
                ));
                assert(s.content == RawStatement::Switch(
                    crate::ullbc::Switch::If(op0, b1f, b2f),
                ));
                assert(crate::ullbc::view_block(b1f).statements == desugar_stmts(
                    crate::ullbc::view_block(b10).statements,
                ));
                assert(crate::ullbc::view_block(b2f).statements == desugar_stmts(
                    crate::ullbc::view_block(b20).statements,
                ));
                assert(s@ =~= desugar_stmt(st0@));
            }
        },
        _ => {
            proof {
                assert(false);
            }
        },
    }
}

/// The operator-desugaring pass.
pub struct Transform;

impl StatementVisitor for Transform {
    open spec fn spec_visit(&self, st: StatementV) -> StatementV {
        desugar_stmt(st)
    }

    fn visit_st(&self, st: &mut Statement) {
        transform_st(st);
    }
}

impl Transform {
    /// Desugar every statement of the body; statements the pass does not
    /// recognize, the locals, and every terminator are unchanged, so
    /// control-flow well-formedness is preserved.
    pub fn transform_body(&self, _ctx: &mut TransformCtx, b: &mut ExprBody)
        ensures
            final(_ctx)@ == old(_ctx)@,
            final(b)@.span == old(b)@.span,
            final(b)@.locals == old(b)@.locals,
            final(b)@.body.len() == old(b)@.body.len(),
            forall|i: int|
                0 <= i < old(b)@.body.len() ==> final(b)@.body[i] == visited_block(
                    Transform,
                    old(b)@.body[i],
                ),
            crate::ullbc::body_wf(old(b)@.body) ==> crate::ullbc::body_wf(final(b)@.body),
    {
        b.visit_statements(&Transform);
        proof {
            if crate::ullbc::body_wf(old(b)@.body) {
                assert forall|i: int, j: int|
                    0 <= i < final(b)@.body.len() && final(b)@.body[i] is Some && 0 <= j
                        < crate::ullbc::terminator_targets(
                        final(b)@.body[i]->Some_0.terminator.content,
                    ).len() implies crate::ullbc::valid_block_id(
                    final(b)@.body,
                    crate::ullbc::terminator_targets(
                        final(b)@.body[i]->Some_0.terminator.content,
                    )[j],
                ) by {
                    assert(old(b)@.body[i] is Some);
                    assert(final(b)@.body[i]->Some_0.terminator
                        == old(b)@.body[i]->Some_0.terminator);
                }
            }
        }
    }
}

} // verus!
