//! Constant-expression normalization.
//!
//! Raw bodies carry constant ADTs, arrays and references that duplicate the
//! regular aggregate forms of the operands.  This pass removes all those
//! forms, so that after it only literal, variable, raw-memory, trait-const
//! and function-pointer constants remain: every other constant is evaluated
//! into a fresh temporary by statements inserted immediately before the
//! statement whose operand triggered the normalization.

use crate::ids::{Idx, VarId};
use crate::meta::Span;
use crate::transform::ctx::TransformCtx;
use crate::types::{
    AssumedTy, ConstGeneric, Literal, RefKind, ScalarValue, Ty, TyV, TypeId,
};
use crate::ullbc::{
    view_statements, BorrowKind, ConstantExpr, ConstantExprV, ExprBody, Locals, LocalsV, Operand,
    OperandV, Place, RawConstantExpr, RawConstantExprV, RawStatement, RawStatementV, Rvalue,
    RvalueV, Statement, StatementV, VarV,
};
use crate::ullbc_utils::{
    body_transform_operands, process_blocks_operands, OperandTransformer,
};
use vstd::prelude::*;

verus! {

/// Whether a constant expression is in normalized form: only literal,
/// variable, raw-memory, trait-const and function-pointer constants remain.
pub open spec fn const_normalized(c: ConstantExprV) -> bool {
    ||| c.value is Literal
    ||| c.value is Var
    ||| c.value is RawMemory
    ||| c.value is TraitConst
    ||| c.value is FnPtr
}

/// Whether an operand is in normalized form.
pub open spec fn operand_normalized(op: OperandV) -> bool {
    match op {
        OperandV::Const(c) => const_normalized(c),
        _ => true,
    }
}

/// The place of the next fresh temporary.
pub open spec fn fresh_place(locals: LocalsV) -> Place {
    Place { var_id: VarId { index: locals.vars.len() as usize } }
}

/// Binding of an rvalue to a place: moving a place again is avoided; any
/// other rvalue is assigned to a newly appended temporary.
pub open spec fn spec_bind(locals: LocalsV, span: Span, rv: RvalueV, ty: TyV) -> (
    LocalsV,
    Seq<StatementV>,
    Place,
) {
    match rv {
        RvalueV::Use(OperandV::Move(p)) => (locals, Seq::empty(), p),
        _ => {
            let p = fresh_place(locals);
            let locals2 = LocalsV {
                arg_count: locals.arg_count,
                vars: locals.vars.push(Some(VarV { index: p.var_id, name: None, ty })),
            };
            (locals2, seq![StatementV { span, content: RawStatementV::Assign(p, rv) }], p)
        },
    }
}

/// Whether the type of a constant ADT has the shape the normalization
/// needs.
pub open spec fn adt_shape_ok(ty: TyV) -> bool {
    ty is Adt
}

/// Whether the type of a constant array has the shape the normalization
/// needs: an array or slice type applied to at least the element type.
pub open spec fn array_shape_ok(ty: TyV) -> bool {
    match ty {
        TyV::Adt(id, generics) => match id {
            TypeId::Assumed(at) => (at == AssumedTy::Array || at == AssumedTy::Slice)
                && generics.types.len() >= 1,
            _ => false,
        },
        _ => false,
    }
}

/// Whether all operands of a sequence are the same.
pub open spec fn all_same(ops: Seq<OperandV>) -> bool {
    forall|i: int| 0 <= i < ops.len() ==> #[trigger] ops[i] == ops[0]
}

/// The normalization of one constant expression: the new locals table, the
/// statements to insert before the enclosing statement, and the operand
/// that replaces the constant.  A constant whose type does not have the
/// shape its form requires is left untouched.
pub open spec fn norm_const(locals: LocalsV, span: Span, c: ConstantExprV) -> (
    LocalsV,
    Seq<StatementV>,
    OperandV,
)
    decreases c,
{
    match c.value {
        RawConstantExprV::Global(id) => {
            let (l2, sts, p) = spec_bind(locals, span, RvalueV::Global(id), c.ty);
            (l2, sts, OperandV::Move(p))
        },
        RawConstantExprV::Ref(inner) => {
            if inner.value is Global {
                let (l2, sts, p) = spec_bind(
                    locals,
                    span,
                    RvalueV::GlobalRef(inner.value->Global_0, RefKind::Shared),
                    c.ty,
                );
                (l2, sts, OperandV::Move(p))
            } else {
                let (l1, sts1, bop) = norm_const(locals, span, *inner);
                let (l2, sts2, bvar) = spec_bind(l1, span, RvalueV::Use(bop), inner.ty);
                let (l3, sts3, rvar) = spec_bind(
                    l2,
                    span,
                    RvalueV::Ref(bvar, BorrowKind::Shared),
                    c.ty,
                );
                (l3, sts1 + sts2 + sts3, OperandV::Move(rvar))
            }
        },
        RawConstantExprV::MutPtr(inner) => {
            if inner.value is Global {
                let (l2, sts, p) = spec_bind(
                    locals,
                    span,
                    RvalueV::GlobalRef(inner.value->Global_0, RefKind::Mut),
                    c.ty,
                );
                (l2, sts, OperandV::Move(p))
            } else {
                let (l1, sts1, bop) = norm_const(locals, span, *inner);
                let (l2, sts2, bvar) = spec_bind(l1, span, RvalueV::Use(bop), inner.ty);
                let (l3, sts3, rvar) = spec_bind(
                    l2,
                    span,
                    RvalueV::RawPtr(bvar, RefKind::Mut),
                    c.ty,
                );
                (l3, sts1 + sts2 + sts3, OperandV::Move(rvar))
            }
        },
        RawConstantExprV::Adt(variant, fields) => {
            if adt_shape_ok(c.ty) {
                let (l1, sts1, ops) = norm_consts(locals, span, fields);
                let kind = crate::ullbc::AggregateKindV::Adt(
                    c.ty->Adt_0,
                    variant,
                    None,
                    c.ty->Adt_1,
                );
                let (l2, sts2, var) = spec_bind(
                    l1,
                    span,
                    RvalueV::Aggregate(kind, ops),
                    c.ty,
                );
                (l2, sts1 + sts2, OperandV::Move(var))
            } else {
                (locals, Seq::empty(), OperandV::Const(c))
            }
        },
        RawConstantExprV::Array(fields) => {
            if array_shape_ok(c.ty) {
                let (l1, sts1, ops) = norm_consts(locals, span, fields);
                let elem_ty = c.ty->Adt_1.types[0];
                let len_cg = ConstGeneric::Value(
                    Literal::Scalar(ScalarValue::Usize(fields.len() as u64)),
                );
                let rv = if fields.len() >= 2 && all_same(ops) {
                    RvalueV::Repeat(ops[0], elem_ty, len_cg)
                } else {
                    RvalueV::Aggregate(crate::ullbc::AggregateKindV::Array(elem_ty, len_cg), ops)
                };
                let (l2, sts2, var) = spec_bind(l1, span, rv, c.ty);
                (l2, sts1 + sts2, OperandV::Move(var))
            } else {
                (locals, Seq::empty(), OperandV::Const(c))
            }
        },
        _ => (locals, Seq::empty(), OperandV::Const(c)),
    }
}

/// The normalization of a list of constant expressions, left to right.
pub open spec fn norm_consts(locals: LocalsV, span: Span, cs: Seq<ConstantExprV>) -> (
    LocalsV,
    Seq<StatementV>,
    Seq<OperandV>,
)
    decreases cs,
{
    if cs.len() == 0 {
        (locals, Seq::empty(), Seq::empty())
    } else {
        let (l1, sts1, op1) = norm_const(locals, span, cs[0]);
        let (l2, sts2, ops2) = norm_consts(l1, span, cs.subrange(1, cs.len() as int));
        (l2, sts1 + sts2, seq![op1] + ops2)
    }
}

/// Bind an rvalue to a place: reuse the place of a move, else append a
/// fresh unnamed temporary and emit the assignment.
fn bind_rvalue(span: &Span, locals: &mut Locals, nst: &mut Vec<Statement>, rv: Rvalue, ty: Ty) -> (p:
    Place)
    ensures
        ({
            let (l2, sts, p2) = spec_bind(
                old(locals)@,
                *span,
                crate::ullbc::view_rvalue(rv),
                ty@,
            );
            final(locals)@ == l2 && view_statements(final(nst)@) == view_statements(old(nst)@)
                + sts && p == p2
        }),
{
    let ghost rvv = crate::ullbc::view_rvalue(rv);
    let is_move = match &rv {
        Rvalue::Use(Operand::Move(_)) => true,
        _ => false,
    };
    if is_move {
        match rv {
            Rvalue::Use(Operand::Move(p)) => {
                proof {
                    assert(view_statements(nst@) =~= view_statements(nst@) + Seq::<
                        StatementV,
                    >::empty());
                }
                p
            },
            _ => {
                proof {
                    assert(false);
                }
                unreached()
            },
        }
    } else {
        let var = locals.new_var(None, ty);
        let ghost nst_mid = nst@;
        let st = Statement::new(*span, RawStatement::Assign(var, rv));
        let ghost stv = st@;
        nst.push(st);
        proof {
            assert(stv == (StatementV { span: *span, content: RawStatementV::Assign(var, rvv) }));
            crate::ullbc::lemma_view_statements_push(nst_mid, nst@[nst@.len() - 1]);
            assert(view_statements(nst@) =~= view_statements(nst_mid).push(stv));
            assert(view_statements(nst_mid).push(stv) =~= view_statements(nst_mid) + seq![stv]);
        }
        var
    }
}

/// Normalize one constant expression, pushing the statements that evaluate
/// its non-literal parts and returning the operand that replaces it.
#[verifier::loop_isolation(false)]
#[verifier::rlimit(100)]
pub fn transform_constant_expr(
    span: &Span,
    locals: &mut Locals,
    nst: &mut Vec<Statement>,
    val: ConstantExpr,
) -> (r: Operand)
    requires
        const_shapes_ok(val@),
    ensures
        ({
            let (l2, sts, op) = norm_const(old(locals)@, *span, val@);
            final(locals)@ == l2 && view_statements(final(nst)@) == view_statements(old(nst)@)
                + sts && r@ == op
        }),
    decreases val,
{
    let ghost val0 = val;
    proof {
        reveal_with_fuel(const_shapes_ok, 2);
        reveal_with_fuel(crate::ullbc::view_const_expr, 3);
        reveal_with_fuel(crate::ullbc::view_raw_const_expr, 3);
    }
    let ConstantExpr { value, ty } = val;
    match value {
        RawConstantExpr::Literal(l) => {
            let r = Operand::Const(ConstantExpr { value: RawConstantExpr::Literal(l), ty });
            proof {
                assert(val0.value == RawConstantExpr::Literal(l));
                assert(val0 == (ConstantExpr { value: val0.value, ty: val0.ty }));
                assert(r@ == crate::ullbc::OperandV::Const(val0@));
                assert(norm_const(old(locals)@, *span, val0@) == (
                    old(locals)@,
                    Seq::<StatementV>::empty(),
                    crate::ullbc::OperandV::Const(val0@),
                ));
                assert(view_statements(nst@) =~= view_statements(nst@) + Seq::<
                    StatementV,
                >::empty());
            }
            r
        },
        RawConstantExpr::Var(v) => {
            proof {
                assert(view_statements(nst@) =~= view_statements(nst@) + Seq::<
                    StatementV,
                >::empty());
            }
            Operand::Const(ConstantExpr { value: RawConstantExpr::Var(v), ty })
        },
        RawConstantExpr::RawMemory(bytes) => {
            proof {
                assert(view_statements(nst@) =~= view_statements(nst@) + Seq::<
                    StatementV,
                >::empty());
            }
            Operand::Const(ConstantExpr { value: RawConstantExpr::RawMemory(bytes), ty })
        },
        RawConstantExpr::TraitConst(tr, name) => {
            proof {
                assert(view_statements(nst@) =~= view_statements(nst@) + Seq::<
                    StatementV,
                >::empty());
            }
            Operand::Const(ConstantExpr { value: RawConstantExpr::TraitConst(tr, name), ty })
        },
        RawConstantExpr::FnPtr(p) => {
            proof {
                assert(view_statements(nst@) =~= view_statements(nst@) + Seq::<
                    StatementV,
                >::empty());
            }
            Operand::Const(ConstantExpr { value: RawConstantExpr::FnPtr(p), ty })
        },
        RawConstantExpr::Global(id) => {
            let p = bind_rvalue(span, locals, nst, Rvalue::Global(id), ty);
            Operand::Move(p)
        },
        RawConstantExpr::Ref(inner) => {
            proof {
                reveal_with_fuel(crate::ullbc::view_raw_const_expr, 3);
                reveal_with_fuel(crate::ullbc::view_const_expr, 3);
            }
            let is_global = match &inner.value {
                RawConstantExpr::Global(_) => true,
                _ => false,
            };
            if is_global {
                let id = match &inner.value {
                    RawConstantExpr::Global(id) => *id,
                    _ => unreached(),
                };
                let p = bind_rvalue(span, locals, nst, Rvalue::GlobalRef(id, RefKind::Shared), ty);
                Operand::Move(p)
            } else {
                let bval = *inner;
                proof {
                    assert(decreases_to!(val0 => bval));
                }
                let ghost bvalv = bval@;
                let bval_ty = bval.ty.clone();
                let bop = transform_constant_expr(span, locals, nst, bval);
                let bvar = bind_rvalue(span, locals, nst, Rvalue::Use(bop), bval_ty);
                let rvar = bind_rvalue(
                    span,
                    locals,
                    nst,
                    Rvalue::Ref(bvar, BorrowKind::Shared),
                    ty,
                );
                proof {
                    let (l1, sts1, bop_s) = norm_const(old(locals)@, *span, bvalv);
                    let (l2, sts2, bvar_s) = spec_bind(l1, *span, RvalueV::Use(bop_s), bvalv.ty);
                    let (l3, sts3, rvar_s) = spec_bind(
                        l2,
                        *span,
                        RvalueV::Ref(bvar_s, BorrowKind::Shared),
                        val0@.ty,
                    );
                    assert(view_statements(nst@) =~= view_statements(old(nst)@) + (sts1 + sts2
                        + sts3));
                }
                Operand::Move(rvar)
            }
        },
        RawConstantExpr::MutPtr(inner) => {
            proof {
                reveal_with_fuel(crate::ullbc::view_raw_const_expr, 3);
                reveal_with_fuel(crate::ullbc::view_const_expr, 3);
            }
            let is_global = match &inner.value {
                RawConstantExpr::Global(_) => true,
                _ => false,
            };
            if is_global {
                let id = match &inner.value {
                    RawConstantExpr::Global(id) => *id,
                    _ => unreached(),
                };
                let p = bind_rvalue(span, locals, nst, Rvalue::GlobalRef(id, RefKind::Mut), ty);
                Operand::Move(p)
            } else {
                let bval = *inner;
                proof {
                    assert(decreases_to!(val0 => bval));
                }
                let ghost bvalv = bval@;
                let bval_ty = bval.ty.clone();
                let bop = transform_constant_expr(span, locals, nst, bval);
                let bvar = bind_rvalue(span, locals, nst, Rvalue::Use(bop), bval_ty);
                let rvar = bind_rvalue(span, locals, nst, Rvalue::RawPtr(bvar, RefKind::Mut), ty);
                proof {
                    let (l1, sts1, bop_s) = norm_const(old(locals)@, *span, bvalv);
                    let (l2, sts2, bvar_s) = spec_bind(l1, *span, RvalueV::Use(bop_s), bvalv.ty);
                    let (l3, sts3, rvar_s) = spec_bind(
                        l2,
                        *span,
                        RvalueV::RawPtr(bvar_s, RefKind::Mut),
                        val0@.ty,
                    );
                    assert(view_statements(nst@) =~= view_statements(old(nst)@) + (sts1 + sts2
                        + sts3));
                }
                Operand::Move(rvar)
            }
        },
        RawConstantExpr::Adt(variant, fields) => {
            let shape_ok = match &ty {
                Ty::Adt(_, _) => true,
                _ => false,
            };
            if !shape_ok {
                proof {
                    reveal_with_fuel(crate::types::view_ty, 2);
                    assert(adt_shape_ok(val0@.ty));
                    assert(false);
                }
                return unreached();
            }
            let (tid, gens) = match &ty {
                Ty::Adt(t, g) => (*t, g.clone()),
                _ => unreached(),
            };
            let ghost fieldsv = crate::ullbc::view_const_exprs(fields@);
            let ghost gensv = gens@;
            proof {
                reveal_with_fuel(crate::types::view_ty, 2);
                assert(decreases_to!(val0 => fields@));
                assert(gensv == val0@.ty->Adt_1);
                assert(tid == val0@.ty->Adt_0);
            }
            let ops = transform_const_vec(span, locals, nst, fields);
            let rv = Rvalue::Aggregate(
                crate::ullbc::AggregateKind::Adt(tid, variant, None, gens),
                ops,
            );
            let var = bind_rvalue(span, locals, nst, rv, ty);
            proof {
                let (l1, sts1, ops_s) = norm_consts(old(locals)@, *span, fieldsv);
                let kind = crate::ullbc::AggregateKindV::Adt(
                    val0@.ty->Adt_0,
                    variant,
                    None,
                    val0@.ty->Adt_1,
                );
                let (l2, sts2, var_s) = spec_bind(
                    l1,
                    *span,
                    RvalueV::Aggregate(kind, ops_s),
                    val0@.ty,
                );
                assert(view_statements(nst@) =~= view_statements(old(nst)@) + (sts1 + sts2));
            }
            Operand::Move(var)
        },
        RawConstantExpr::Array(fields) => {
            let shape_ok = match &ty {
                Ty::Adt(TypeId::Assumed(AssumedTy::Array), g) => {
                    proof {
                        reveal_with_fuel(crate::types::view_ty, 2);
                        reveal_with_fuel(crate::types::view_args, 2);
                        crate::types::lemma_view_tys(g.types@);
                        assert(array_shape_ok(ty@) == (g.types@.len() >= 1));
                    }
                    g.types.len() >= 1
                },
                Ty::Adt(TypeId::Assumed(AssumedTy::Slice), g) => {
                    proof {
                        reveal_with_fuel(crate::types::view_ty, 2);
                        reveal_with_fuel(crate::types::view_args, 2);
                        crate::types::lemma_view_tys(g.types@);
                        assert(array_shape_ok(ty@) == (g.types@.len() >= 1));
                    }
                    g.types.len() >= 1
                },
                _ => {
                    proof {
                        assert(!array_shape_ok(ty@));
                    }
                    false
                },
            };
            proof {
                assert(shape_ok == array_shape_ok(ty@));
            }
            if !shape_ok {
                proof {
                    assert(array_shape_ok(val0@.ty));
                    assert(false);
                }
                return unreached();
            }
            let elem_ty = match &ty {
                Ty::Adt(_, g) => crate::types_utils::clone_ty(&g.types[0]),
                _ => unreached(),
            };
            let ghost fieldsv = crate::ullbc::view_const_exprs(fields@);
            let n_fields = fields.len();
            proof {
                reveal_with_fuel(crate::types::view_ty, 2);
                reveal_with_fuel(crate::types::view_args, 2);
                assert(decreases_to!(val0 => fields@));
                crate::ullbc::lemma_view_const_exprs(fields@);
                assert(elem_ty@ == val0@.ty->Adt_1.types[0]);
                assert(n_fields as nat == fieldsv.len());
            }
            let ops = transform_const_vec(span, locals, nst, fields);
            let len_cg = ConstGeneric::Value(
                Literal::Scalar(ScalarValue::Usize(n_fields as u64)),
            );
            let mut same = true;
            let mut j: usize = 1;
            while j < ops.len()
                invariant
                    1 <= j || ops@.len() == 0,
                    j <= ops@.len() || ops@.len() == 0,
                    same == (forall|k: int|
                        0 <= k < j && k < ops@.len() ==> #[trigger] crate::ullbc::view_operands(
                            ops@,
                        )[k] == crate::ullbc::view_operands(ops@)[0]),
                decreases ops@.len() - j,
            {
                if !ops[j].struct_eq(&ops[0]) {
                    proof {
                        assert(crate::ullbc::view_operands(ops@)[j as int]
                            != crate::ullbc::view_operands(ops@)[0]);
                    }
                    same = false;
                } else {
                    proof {
                        assert(crate::ullbc::view_operands(ops@)[j as int]
                            == crate::ullbc::view_operands(ops@)[0]);
                    }
                }
                j = j + 1;
            }
            proof {
                if ops@.len() == 0 {
                    assert(all_same(crate::ullbc::view_operands(ops@)));
                    assert(same);
                } else {
                    assert(same == all_same(crate::ullbc::view_operands(ops@)));
                }
            }
            let ghost opsv = crate::ullbc::view_operands(ops@);
            if n_fields >= 2 && same {
                let mut ops = ops;
                let op0 = ops.remove(0);
                proof {
                    assert(crate::ullbc::view_operand(op0) == opsv[0]);
                }
                let rv = Rvalue::Repeat(op0, elem_ty, len_cg);
                let var = bind_rvalue(span, locals, nst, rv, ty);
                proof {
                    let (l1, sts1, ops_s) = norm_consts(old(locals)@, *span, fieldsv);
                    let (l2, sts2, var_s) = spec_bind(
                        l1,
                        *span,
                        RvalueV::Repeat(ops_s[0], val0@.ty->Adt_1.types[0], len_cg),
                        val0@.ty,
                    );
                    assert(view_statements(nst@) =~= view_statements(old(nst)@) + (sts1 + sts2));
                }
                Operand::Move(var)
            } else {
                let rv = Rvalue::Aggregate(
                    crate::ullbc::AggregateKind::Array(elem_ty, len_cg),
                    ops,
                );
                let var = bind_rvalue(span, locals, nst, rv, ty);
                proof {
                    let (l1, sts1, ops_s) = norm_consts(old(locals)@, *span, fieldsv);
                    let (l2, sts2, var_s) = spec_bind(
                        l1,
                        *span,
                        RvalueV::Aggregate(
                            crate::ullbc::AggregateKindV::Array(
                                val0@.ty->Adt_1.types[0],
                                len_cg,
                            ),
                            ops_s,
                        ),
                        val0@.ty,
                    );
                    assert(view_statements(nst@) =~= view_statements(old(nst)@) + (sts1 + sts2));
                }
                Operand::Move(var)
            }
        },
    }
}

/// Normalize a list of constant expressions, left to right.
#[verifier::loop_isolation(false)]
fn transform_const_vec(
    span: &Span,
    locals: &mut Locals,
    nst: &mut Vec<Statement>,
    fields: Vec<ConstantExpr>,
) -> (ops: Vec<Operand>)
    requires
        consts_shapes_ok(crate::ullbc::view_const_exprs(fields@)),
    ensures
        ({
            let (l2, sts, os) = norm_consts(
                old(locals)@,
                *span,
                crate::ullbc::view_const_exprs(fields@),
            );
            final(locals)@ == l2 && view_statements(final(nst)@) == view_statements(old(nst)@)
                + sts && crate::ullbc::view_operands(ops@) == os && ops@.len() == fields@.len()
        }),
    decreases fields@,
{
    let ghost f0 = fields@;
    let ghost cs0 = crate::ullbc::view_const_exprs(f0);
    let ghost l00 = old(locals)@;
    let ghost nst00 = view_statements(old(nst)@);
    proof {
        crate::ullbc::lemma_view_const_exprs(f0);
    }
    let mut fields = fields;
    let mut ops: Vec<Operand> = Vec::new();
    while fields.len() > 0
        invariant
            fields@.len() <= f0.len(),
            ops@.len() + fields@.len() == f0.len(),
            fields@ =~= f0.subrange(ops@.len() as int, f0.len() as int),
            ({
                let (lp, sp, op) = norm_consts(l00, *span, cs0.subrange(0, ops@.len() as int));
                locals@ == lp && view_statements(nst@) == nst00 + sp
                    && crate::ullbc::view_operands(ops@) == op
            }),
        decreases fields@.len(),
    {
        let ghost k: int = ops@.len() as int;
        let ghost (lp, sp, opsp) = norm_consts(l00, *span, cs0.subrange(0, k as int));
        let c = fields.remove(0);
        proof {
            assert(c == f0[k as int]);
            assert(decreases_to!(f0 => f0[k as int]));
            assert(fields@ =~= f0.subrange(k + 1, f0.len() as int));
            assert(const_shapes_ok(cs0[k as int]));
            assert(crate::ullbc::view_const_expr(c) == cs0[k as int]);
        }
        let op = transform_constant_expr(span, locals, nst, c);
        ops.push(op);
        proof {
            lemma_norm_consts_snoc(l00, *span, cs0, k as int);
            assert(crate::ullbc::view_const_expr(c) == cs0[k as int]);
            let (lq, sq, oq) = norm_consts(l00, *span, cs0.subrange(0, k + 1));
            assert(locals@ == lq);
            assert(view_statements(nst@) =~= nst00 + sq);
            assert(crate::ullbc::view_operands(ops@) =~= oq);
        }
    }
    proof {
        assert(cs0.subrange(0, ops@.len() as int) =~= cs0);
    }
    ops
}

/// Whether a constant's types have the shapes the normalization needs.
#[verifier::loop_isolation(false)]
fn const_shape_check(c: &ConstantExpr) -> (r: bool)
    ensures
        r == const_shapes_ok(c@),
    decreases *c,
{
    proof {
        reveal_with_fuel(const_shapes_ok, 2);
        reveal_with_fuel(crate::ullbc::view_const_expr, 3);
        reveal_with_fuel(crate::ullbc::view_raw_const_expr, 3);
    }
    match &c.value {
        RawConstantExpr::Ref(inner) => const_shape_check(&**inner),
        RawConstantExpr::MutPtr(inner) => const_shape_check(&**inner),
        RawConstantExpr::Adt(_, fields) => {
            let shape_ok = match &c.ty {
                Ty::Adt(_, _) => true,
                _ => false,
            };
            proof {
                reveal_with_fuel(crate::types::view_ty, 2);
                assert(shape_ok == adt_shape_ok(c@.ty));
            }
            shape_ok && const_vec_shape_check(fields)
        },
        RawConstantExpr::Array(fields) => {
            let shape_ok = match &c.ty {
                Ty::Adt(TypeId::Assumed(AssumedTy::Array), g) => {
                    proof {
                        reveal_with_fuel(crate::types::view_ty, 2);
                        reveal_with_fuel(crate::types::view_args, 2);
                        crate::types::lemma_view_tys(g.types@);
                        assert(array_shape_ok(c@.ty) == (g.types@.len() >= 1));
                    }
                    g.types.len() >= 1
                },
                Ty::Adt(TypeId::Assumed(AssumedTy::Slice), g) => {
                    proof {
                        reveal_with_fuel(crate::types::view_ty, 2);
                        reveal_with_fuel(crate::types::view_args, 2);
                        crate::types::lemma_view_tys(g.types@);
                        assert(array_shape_ok(c@.ty) == (g.types@.len() >= 1));
                    }
                    g.types.len() >= 1
                },
                _ => {
                    proof {
                        reveal_with_fuel(crate::types::view_ty, 2);
                        assert(!array_shape_ok(c@.ty));
                    }
                    false
                },
            };
            shape_ok && const_vec_shape_check(fields)
        },
        _ => true,
    }
}

/// Whether every constant of a vector has well-shaped types throughout.
#[verifier::loop_isolation(false)]
fn const_vec_shape_check(cs: &Vec<ConstantExpr>) -> (r: bool)
    ensures
        r == consts_shapes_ok(crate::ullbc::view_const_exprs(cs@)),
    decreases cs@,
{
    proof {
        crate::ullbc::lemma_view_const_exprs(cs@);
    }
    let mut i: usize = 0;
    while i < cs.len()
        invariant
            i <= cs@.len(),
            forall|k: int|
                0 <= k < i ==> const_shapes_ok(
                    #[trigger] crate::ullbc::view_const_exprs(cs@)[k],
                ),
        decreases cs@.len() - i,
    {
        proof {
            assert(decreases_to!(cs@ => cs@[i as int]));
        }
        if !const_shape_check(&cs[i]) {
            proof {
                assert(!const_shapes_ok(crate::ullbc::view_const_exprs(cs@)[i as int]));
            }
            return false;
        }
        i = i + 1;
    }
    true
}

/// Whether a constant operand has well-shaped types.
fn operand_shape_check(op: &Operand) -> (r: bool)
    ensures
        r == (op@ is Const ==> const_shapes_ok(op@->Const_0)),
{
    match op {
        Operand::Const(c) => const_shape_check(c),
        _ => true,
    }
}

/// Whether every constant operand of a vector has well-shaped types.
#[verifier::loop_isolation(false)]
fn operand_vec_shape_check(ops: &Vec<Operand>) -> (r: bool)
    ensures
        r == ops_shapes_ok(crate::ullbc::view_operands(ops@)),
{
    let mut i: usize = 0;
    while i < ops.len()
        invariant
            i <= ops@.len(),
            forall|k: int|
                0 <= k < i ==> (#[trigger] crate::ullbc::view_operands(ops@)[k] is Const
                    ==> const_shapes_ok(crate::ullbc::view_operands(ops@)[k]->Const_0)),
        decreases ops@.len() - i,
    {
        if !operand_shape_check(&ops[i]) {
            proof {
                assert(crate::ullbc::view_operands(ops@)[i as int] is Const
                    && !const_shapes_ok(crate::ullbc::view_operands(ops@)[i as int]->Const_0));
                assert(!ops_shapes_ok(crate::ullbc::view_operands(ops@)));
            }
            return false;
        }
        i = i + 1;
    }
    proof {
        assert(ops_shapes_ok(crate::ullbc::view_operands(ops@)));
    }
    true
}

/// Whether every constant operand the traversal reaches in a statement
/// list has well-shaped types.
#[verifier::loop_isolation(false)]
fn stmt_vec_shape_check(sts: &Vec<Statement>) -> (r: bool)
    ensures
        r == stmts_shapes_ok(crate::ullbc::view_statements(sts@)),
    decreases sts@,
{
    proof {
        crate::ullbc::lemma_view_statements(sts@);
    }
    let mut i: usize = 0;
    while i < sts.len()
        invariant
            i <= sts@.len(),
            forall|k: int|
                0 <= k < i ==> stmt_shapes_ok(
                    #[trigger] crate::ullbc::view_statements(sts@)[k],
                ),
        decreases sts@.len() - i,
    {
        proof {
            assert(decreases_to!(sts@ => sts@[i as int]));
        }
        if !stmt_shape_check(&sts[i]) {
            proof {
                assert(!stmt_shapes_ok(crate::ullbc::view_statements(sts@)[i as int]));
                assert(!stmts_shapes_ok(crate::ullbc::view_statements(sts@)));
            }
            return false;
        }
        i = i + 1;
    }
    proof {
        assert(stmts_shapes_ok(crate::ullbc::view_statements(sts@)));
    }
    true
}

/// Whether every constant operand the traversal reaches in one statement
/// has well-shaped types, the branches of a statement-level switch
/// included.
#[verifier::loop_isolation(false)]
#[verifier::rlimit(100)]
fn stmt_shape_check(st: &Statement) -> (r: bool)
    ensures
        r == stmt_shapes_ok(st@),
    decreases *st,
{
    match &st.content {
        RawStatement::Assign(_, rv) => {
            match rv {
                Rvalue::Use(op) => {
                    let r = operand_shape_check(op);
                    proof {
                        assert(crate::ullbc_utils::stmt_operands(st@.content) =~= seq![
                            crate::ullbc::view_operand(*op),
                        ]);
                        lemma_ops_shapes_ok_one(crate::ullbc::view_operand(*op));
                    }
                    r
                },
                Rvalue::UnaryOp(_, op) => {
                    let r = operand_shape_check(op);
                    proof {
                        assert(crate::ullbc_utils::stmt_operands(st@.content) =~= seq![
                            crate::ullbc::view_operand(*op),
                        ]);
                        lemma_ops_shapes_ok_one(crate::ullbc::view_operand(*op));
                    }
                    r
                },
                Rvalue::Repeat(op, _, _) => {
                    let r = operand_shape_check(op);
                    proof {
                        assert(crate::ullbc_utils::stmt_operands(st@.content) =~= seq![
                            crate::ullbc::view_operand(*op),
                        ]);
                        lemma_ops_shapes_ok_one(crate::ullbc::view_operand(*op));
                    }
                    r
                },
                Rvalue::BinaryOp(_, a, b) => {
                    let r = operand_shape_check(a) && operand_shape_check(b);
                    proof {
                        assert(crate::ullbc_utils::stmt_operands(st@.content) =~= seq![
                            crate::ullbc::view_operand(*a),
                            crate::ullbc::view_operand(*b),
                        ]);
                        lemma_ops_shapes_ok_two(
                            crate::ullbc::view_operand(*a),
                            crate::ullbc::view_operand(*b),
                        );
                    }
                    r
                },
                Rvalue::Aggregate(_, fields) => {
                    let r = operand_vec_shape_check(fields);
                    proof {
                        assert(crate::ullbc_utils::stmt_operands(st@.content)
                            =~= crate::ullbc::view_operands(fields@));
                    }
                    r
                },
                _ => {
                    proof {
                        assert(crate::ullbc_utils::stmt_operands(st@.content) =~= Seq::<
                            OperandV,
                        >::empty());
                    }
                    true
                },
            }
        },
        RawStatement::Call(c) => {
            let r = operand_vec_shape_check(&c.args);
            proof {
                assert(crate::ullbc_utils::stmt_operands(st@.content)
                    =~= crate::ullbc::view_operands(c.args@));
            }
            r
        },
        RawStatement::Assert(a) => {
            let r = operand_shape_check(&a.cond);
            proof {
                assert(crate::ullbc_utils::stmt_operands(st@.content) =~= seq![
                    crate::ullbc::view_operand(a.cond),
                ]);
                lemma_ops_shapes_ok_one(crate::ullbc::view_operand(a.cond));
            }
            r
        },
        RawStatement::Switch(crate::ullbc::Switch::If(op, b1, b2)) => {
            let r0 = operand_shape_check(op);
            proof {
                reveal_with_fuel(crate::ullbc::view_statement, 4);
                reveal_with_fuel(crate::ullbc::view_raw_statement, 4);
                reveal_with_fuel(crate::ullbc::view_switch, 4);
                reveal_with_fuel(crate::ullbc::view_block, 4);
                assert(crate::ullbc_utils::stmt_operands(st@.content) =~= seq![
                    crate::ullbc::view_operand(*op),
                ]);
                lemma_ops_shapes_ok_one(crate::ullbc::view_operand(*op));
                assert(decreases_to!(*st => b1.statements@));
                assert(decreases_to!(*st => b2.statements@));
            }
            let r1 = stmt_vec_shape_check(&b1.statements);
            let r2 = stmt_vec_shape_check(&b2.statements);
            r0 && r1 && r2
        },
        _ => {
            proof {
                assert(crate::ullbc_utils::stmt_operands(st@.content) =~= Seq::<
                    OperandV,
                >::empty());
            }
            true
        },
    }
}

/// Whether every constant operand the traversal reaches in a body has
/// well-shaped types.
#[verifier::loop_isolation(false)]
#[verifier::rlimit(100)]
pub fn body_blocks_shapes_check(blocks: &crate::ids::Vector<crate::ids::BlockId, crate::ullbc::BlockData>) -> (r:
    bool)
    ensures
        r == blocks_shapes_ok(crate::ullbc::view_blocks(blocks@)),
{
    let ghost bv = crate::ullbc::view_blocks(blocks@);
    let n = blocks.elems.len();
    let mut i: usize = 0;
    while i < n
        invariant
            i <= n,
            n == bv.len(),
            forall|k: int| 0 <= k < i ==> block_slot_shapes_ok(#[trigger] bv[k]),
        decreases n - i,
    {
        let ok = match &blocks.elems[i] {
            Some(blk) => {
                proof {
                    crate::ullbc::lemma_view_statements(blk.statements@);
                }
                let mut ok = true;
                let mut j: usize = 0;
                let m = blk.statements.len();
                while j < m
                    invariant
                        j <= m,
                        m == blk.statements@.len(),
                        ok ==> (forall|k: int|
                            0 <= k < j ==> stmt_shapes_ok(
                                #[trigger] crate::ullbc::view_statements(blk.statements@)[k],
                            )),
                        !ok ==> !block_slot_shapes_ok(Some(crate::ullbc::view_block_data(*blk))),
                    decreases m - j,
                {
                    if ok {
                        if !stmt_shape_check(&blk.statements[j]) {
                            proof {
                                assert(!stmt_shapes_ok(
                                    crate::ullbc::view_statements(blk.statements@)[j as int],
                                ));
                                assert(crate::ullbc::view_block_data(*blk).statements
                                    == crate::ullbc::view_statements(blk.statements@));
                                assert(!stmt_shapes_ok(
                                    crate::ullbc::view_block_data(*blk).statements[j as int],
                                ));
                                assert(!block_slot_shapes_ok(
                                    Some(crate::ullbc::view_block_data(*blk)),
                                ));
                            }
                            ok = false;
                        }
                    }
                    j = j + 1;
                }
                if ok {
                    let term_ok = match &blk.terminator.content {
                        crate::ullbc::RawTerminator::Switch { discr, targets: _ } => {
                            let r = operand_shape_check(discr);
                            proof {
                                assert(crate::ullbc_utils::term_operands(
                                    crate::ullbc::view_raw_terminator(blk.terminator.content),
                                ) =~= seq![crate::ullbc::view_operand(*discr)]);
                                lemma_ops_shapes_ok_one(crate::ullbc::view_operand(*discr));
                            }
                            r
                        },
                        _ => {
                            proof {
                                assert(crate::ullbc_utils::term_operands(
                                    crate::ullbc::view_raw_terminator(blk.terminator.content),
                                ) =~= Seq::<OperandV>::empty());
                                lemma_ops_shapes_ok_empty();
                            }
                            true
                        },
                    };
                    proof {
                        if term_ok {
                            assert(block_slot_shapes_ok(
                                Some(crate::ullbc::view_block_data(*blk)),
                            ));
                        } else {
                            assert(!block_slot_shapes_ok(
                                Some(crate::ullbc::view_block_data(*blk)),
                            ));
                        }
                    }
                    term_ok
                } else {
                    false
                }
            },
            None => true,
        };
        if !ok {
            proof {
                assert(!block_slot_shapes_ok(bv[i as int]));
            }
            return false;
        }
        i = i + 1;
    }
    true
}

/// The constant-normalization pass.
pub struct Transform;

impl OperandTransformer for Transform {
    open spec fn spec_locals(&self, locals: LocalsV, span: Span, op: OperandV) -> LocalsV {
        match op {
            OperandV::Const(c) => if const_shapes_ok(c) {
                norm_const(locals, span, c).0
            } else {
                locals
            },
            _ => locals,
        }
    }

    open spec fn spec_op(&self, locals: LocalsV, span: Span, op: OperandV) -> OperandV {
        match op {
            OperandV::Const(c) => if const_shapes_ok(c) {
                norm_const(locals, span, c).2
            } else {
                op
            },
            _ => op,
        }
    }

    open spec fn spec_emitted(&self, locals: LocalsV, span: Span, op: OperandV) -> Seq<
        StatementV,
    > {
        match op {
            OperandV::Const(c) => if const_shapes_ok(c) {
                norm_const(locals, span, c).1
            } else {
                Seq::empty()
            },
            _ => Seq::empty(),
        }
    }

    fn transform_op(
        &self,
        span: &Span,
        locals: &mut Locals,
        nst: &mut Vec<Statement>,
        op: &mut Operand,
    ) {
        transform_operand(span, locals, nst, op);
    }
}

/// Transform a constant operand by normalizing it; any other operand, and a
/// constant whose type shapes are malformed (the pass rejects the whole
/// declaration before running in that case), is left unchanged.
pub fn transform_operand(
    span: &Span,
    locals: &mut Locals,
    nst: &mut Vec<Statement>,
    op: &mut Operand,
)
    ensures
        ({
            let t = Transform;
            final(locals)@ == t.spec_locals(old(locals)@, *span, old(op)@) && final(op)@
                == t.spec_op(old(locals)@, *span, old(op)@) && view_statements(final(nst)@)
                == view_statements(old(nst)@) + t.spec_emitted(old(locals)@, *span, old(op)@)
        }),
{
    let mut tmp = Operand::Copy(Place { var_id: VarId { index: 0 } });
    core::mem::swap(op, &mut tmp);
    match tmp {
        Operand::Const(c) => {
            if const_shape_check(&c) {
                let ghost nst0 = nst@;
                let r = transform_constant_expr(span, locals, nst, c);
                *op = r;
                proof {
                    crate::ullbc::lemma_view_statements(nst@);
                    crate::ullbc::lemma_view_statements(nst0);
                }
            } else {
                *op = Operand::Const(c);
                proof {
                    assert(view_statements(nst@) =~= view_statements(nst@) + Seq::<
                        StatementV,
                    >::empty());
                }
            }
        },
        other => {
            *op = other;
            proof {
                assert(view_statements(nst@) =~= view_statements(nst@) + Seq::<
                    StatementV,
                >::empty());
            }
        },
    }
}

impl Transform {
    /// Normalize every constant operand of the body, splicing the
    /// statements that evaluate constant parts immediately before the
    /// statement whose operand triggered the normalization.  A body holding
    /// a constant whose type does not have the shape its form requires is a
    /// structural error: the pass fails fast on that declaration, leaving
    /// its body untouched.  On success no non-pass-through constant form
    /// remains anywhere the traversal reaches.  Block handles and jump
    /// targets are unchanged, so control-flow well-formedness is preserved.
    pub fn transform_body(&self, _ctx: &mut TransformCtx, body: &mut ExprBody) -> (r: Result<
        (),
        MalformedConstant,
    >)
        ensures
            final(_ctx)@ == old(_ctx)@,
            r is Ok <==> blocks_shapes_ok(old(body)@.body),
            r is Err ==> final(body)@ == old(body)@,
            r is Ok ==> ({
                let (l2, b2) = process_blocks_operands(
                    Transform,
                    old(body)@.locals,
                    old(body)@.body,
                );
                final(body)@.locals == l2 && final(body)@.body == b2 && final(body)@.span == old(
                    body,
                )@.span && blocks_normalized(final(body)@.body)
            }),
            crate::ullbc::body_wf(old(body)@.body) ==> crate::ullbc::body_wf(final(body)@.body),
    {
        if !body_blocks_shapes_check(&body.body) {
            return Err(MalformedConstant);
        }
        body_transform_operands(&mut body.body, &mut body.locals, &Transform);
        proof {
            lemma_process_blocks_operands_normalizes(old(body)@.locals, old(body)@.body);
        }
        proof {
            crate::ullbc_utils::lemma_process_blocks_operands_structure(
                Transform,
                old(body)@.locals,
                old(body)@.body,
            );
            if crate::ullbc::body_wf(old(body)@.body) {
                assert forall|i: int, j: int|
                    0 <= i < final(body)@.body.len() && final(body)@.body[i] is Some && 0 <= j
                        < crate::ullbc::terminator_targets(
                        final(body)@.body[i]->Some_0.terminator.content,
                    ).len() implies crate::ullbc::valid_block_id(
                    final(body)@.body,
                    crate::ullbc::terminator_targets(
                        final(body)@.body[i]->Some_0.terminator.content,
                    )[j],
                ) by {
                    assert(old(body)@.body[i] is Some);
                    assert(crate::ullbc::terminator_targets(
                        final(body)@.body[i]->Some_0.terminator.content,
                    ) == crate::ullbc::terminator_targets(
                        old(body)@.body[i]->Some_0.terminator.content,
                    ));
                }
            }
        }
        Ok(())
    }
}

/// The structural error of a declaration holding a constant whose type does
/// not have the shape its form requires.
#[derive(Debug, Clone, Copy, PartialEq, Eq, Structural)]
pub struct MalformedConstant;

/// Normalizing one more constant continues from where the prefix left off.
pub proof fn lemma_norm_consts_snoc(locals: LocalsV, span: Span, cs: Seq<ConstantExprV>, k: int)
    requires
        0 <= k < cs.len(),
    ensures
        ({
            let (lp, sp, op) = norm_consts(locals, span, cs.subrange(0, k));
            let (l1, sts1, op1) = norm_const(lp, span, cs[k]);
            norm_consts(locals, span, cs.subrange(0, k + 1)) == (l1, sp + sts1, op.push(op1))
        }),
    decreases k,
{
    if k == 0 {
        assert(cs.subrange(0, 0) =~= Seq::<ConstantExprV>::empty());
        let s1 = cs.subrange(0, 1);
        assert(s1[0] == cs[0]);
        assert(s1.subrange(1, 1) =~= Seq::<ConstantExprV>::empty());
        let (l1, sts1, op1) = norm_const(locals, span, cs[0]);
        assert(norm_consts(locals, span, Seq::<ConstantExprV>::empty()) == (
            locals,
            Seq::<StatementV>::empty(),
            Seq::<OperandV>::empty(),
        ));
        assert(norm_consts(l1, span, Seq::<ConstantExprV>::empty()) == (
            l1,
            Seq::<StatementV>::empty(),
            Seq::<OperandV>::empty(),
        ));
        assert(sts1 + Seq::<StatementV>::empty() =~= sts1);
        assert(seq![op1] + Seq::<OperandV>::empty() =~= seq![op1]);
        assert(Seq::<StatementV>::empty() + sts1 =~= sts1);
        assert(Seq::<OperandV>::empty().push(op1) =~= seq![op1]);
    } else {
        let head = cs[0];
        let (lh, sh, oh) = norm_const(locals, span, head);
        let tail = cs.subrange(1, cs.len() as int);
        lemma_norm_consts_snoc(lh, span, tail, k - 1);
        assert(cs.subrange(0, k).subrange(1, k) =~= tail.subrange(0, k - 1));
        assert(cs.subrange(0, k)[0] == head);
        assert(cs.subrange(0, k + 1).subrange(1, k + 1) =~= tail.subrange(0, k));
        assert(cs.subrange(0, k + 1)[0] == head);
        assert(tail[k - 1] == cs[k]);
        let (lp, sp, op) = norm_consts(lh, span, tail.subrange(0, k - 1));
        let (l1, sts1, op1) = norm_const(lp, span, cs[k]);
        assert(sh + (sp + sts1) =~= (sh + sp) + sts1);
        assert((seq![oh] + op).push(op1) =~= seq![oh] + op.push(op1));
    }
}


// ---------------------------------------------------------------------------
// Laws of the normalization
// ---------------------------------------------------------------------------
/// Whether every operand of a list is in normalized form.
pub open spec fn operands_normalized(ops: Seq<OperandV>) -> bool {
    forall|i: int| 0 <= i < ops.len() ==> operand_normalized(#[trigger] ops[i])
}

/// Whether every operand of a statement is in normalized form, the
/// branches of a statement-level switch included.
pub open spec fn stmt_normalized(st: StatementV) -> bool
    decreases st,
{
    operands_normalized(crate::ullbc_utils::stmt_operands(st.content)) && (match st.content {
        RawStatementV::Switch(sw) => match *sw {
            crate::ullbc::SwitchV::If(op, b1, b2) => stmts_normalized(b1.statements)
                && stmts_normalized(b2.statements),
        },
        _ => true,
    })
}

/// Whether every operand of every statement of a list is normalized.
pub open spec fn stmts_normalized(sts: Seq<StatementV>) -> bool
    decreases sts,
{
    forall|i: int| 0 <= i < sts.len() ==> stmt_normalized(#[trigger] sts[i])
}

/// Whether every operand of a block slot is normalized.
pub open spec fn block_slot_normalized(slot: Option<crate::ullbc::BlockDataV>) -> bool {
    match slot {
        Some(b) => stmts_normalized(b.statements) && operands_normalized(
            crate::ullbc_utils::term_operands(b.terminator.content),
        ),
        None => true,
    }
}

/// Whether every operand of a body is normalized.
pub open spec fn blocks_normalized(blocks: Seq<Option<crate::ullbc::BlockDataV>>) -> bool {
    forall|i: int| 0 <= i < blocks.len() ==> block_slot_normalized(#[trigger] blocks[i])
}

/// Whether every constant ADT and array inside the expression carries a
/// type of the shape its form requires, so that the normalization can
/// translate it.  A malformed shape is a structural error in the input.
pub open spec fn const_shapes_ok(c: ConstantExprV) -> bool
    decreases c,
{
    match c.value {
        RawConstantExprV::Ref(inner) => const_shapes_ok(*inner),
        RawConstantExprV::MutPtr(inner) => const_shapes_ok(*inner),
        RawConstantExprV::Adt(variant, fields) => adt_shape_ok(c.ty) && consts_shapes_ok(fields),
        RawConstantExprV::Array(fields) => array_shape_ok(c.ty) && consts_shapes_ok(fields),
        _ => true,
    }
}

/// Whether every constant of a list has well-shaped types throughout.
pub open spec fn consts_shapes_ok(cs: Seq<ConstantExprV>) -> bool
    decreases cs,
{
    forall|i: int| 0 <= i < cs.len() ==> const_shapes_ok(#[trigger] cs[i])
}

/// Normalizing an already-normalized constant changes nothing: no residual
/// statement, the same operand, the same locals.
pub proof fn lemma_norm_const_noop(locals: LocalsV, span: Span, c: ConstantExprV)
    requires
        const_normalized(c),
    ensures
        norm_const(locals, span, c) == (locals, Seq::<StatementV>::empty(), OperandV::Const(c)),
{
}

/// A statement list made of one bind statement has normalized operands as
/// soon as the rvalue's operands are normalized.
proof fn lemma_bind_normalized(locals: LocalsV, span: Span, rv: RvalueV, ty: TyV)
    requires
        operands_normalized(crate::ullbc_utils::rvalue_operands(rv)),
    ensures
        ({
            let (l2, sts, p) = spec_bind(locals, span, rv, ty);
            stmts_normalized(sts)
        }),
{
    let (l2, sts, p) = spec_bind(locals, span, rv, ty);
    assert forall|i: int| 0 <= i < sts.len() implies stmt_normalized(#[trigger] sts[i]) by {
        assert(sts[i].content == RawStatementV::Assign(p, rv));
    }
}

/// Statement-lists with normalized operands stay normalized under
/// concatenation.
proof fn lemma_stmts_normalized_concat(a: Seq<StatementV>, b: Seq<StatementV>)
    requires
        stmts_normalized(a),
        stmts_normalized(b),
    ensures
        stmts_normalized(a + b),
{
    assert forall|i: int| 0 <= i < (a + b).len() implies stmt_normalized(
        #[trigger] (a + b)[i],
    ) by {
        if i < a.len() {
            assert((a + b)[i] == a[i]);
        } else {
            assert((a + b)[i] == b[i - a.len()]);
        }
    }
}

/// The normalization of a constant yields a normalized operand, and every
/// statement it emits has only normalized operands.
pub proof fn lemma_norm_const_normalized(locals: LocalsV, span: Span, c: ConstantExprV)
    requires
        const_shapes_ok(c),
    ensures
        ({
            let (l2, sts, op) = norm_const(locals, span, c);
            operand_normalized(op) && stmts_normalized(sts)
        }),
    decreases c,
{
    match c.value {
        RawConstantExprV::Global(id) => {
            lemma_bind_normalized(locals, span, RvalueV::Global(id), c.ty);
        },
        RawConstantExprV::Ref(inner) => {
            if inner.value is Global {
                lemma_bind_normalized(
                    locals,
                    span,
                    RvalueV::GlobalRef(inner.value->Global_0, RefKind::Shared),
                    c.ty,
                );
            } else {
                lemma_norm_const_normalized(locals, span, *inner);
                let (l1, sts1, bop) = norm_const(locals, span, *inner);
                assert(crate::ullbc_utils::rvalue_operands(RvalueV::Use(bop)) =~= seq![bop]);
                lemma_bind_normalized(l1, span, RvalueV::Use(bop), inner.ty);
                let (l2, sts2, bvar) = spec_bind(l1, span, RvalueV::Use(bop), inner.ty);
                lemma_bind_normalized(l2, span, RvalueV::Ref(bvar, BorrowKind::Shared), c.ty);
                let (l3, sts3, rvar) = spec_bind(
                    l2,
                    span,
                    RvalueV::Ref(bvar, BorrowKind::Shared),
                    c.ty,
                );
                lemma_stmts_normalized_concat(sts1, sts2);
                lemma_stmts_normalized_concat(sts1 + sts2, sts3);
            }
        },
        RawConstantExprV::MutPtr(inner) => {
            if inner.value is Global {
                lemma_bind_normalized(
                    locals,
                    span,
                    RvalueV::GlobalRef(inner.value->Global_0, RefKind::Mut),
                    c.ty,
                );
            } else {
                lemma_norm_const_normalized(locals, span, *inner);
                let (l1, sts1, bop) = norm_const(locals, span, *inner);
                assert(crate::ullbc_utils::rvalue_operands(RvalueV::Use(bop)) =~= seq![bop]);
                lemma_bind_normalized(l1, span, RvalueV::Use(bop), inner.ty);
                let (l2, sts2, bvar) = spec_bind(l1, span, RvalueV::Use(bop), inner.ty);
                lemma_bind_normalized(l2, span, RvalueV::RawPtr(bvar, RefKind::Mut), c.ty);
                let (l3, sts3, rvar) = spec_bind(
                    l2,
                    span,
                    RvalueV::RawPtr(bvar, RefKind::Mut),
                    c.ty,
                );
                lemma_stmts_normalized_concat(sts1, sts2);
                lemma_stmts_normalized_concat(sts1 + sts2, sts3);
            }
        },
        RawConstantExprV::Adt(variant, fields) => {
            if adt_shape_ok(c.ty) {
                lemma_norm_consts_normalized_out(locals, span, fields);
                let (l1, sts1, ops) = norm_consts(locals, span, fields);
                let kind = crate::ullbc::AggregateKindV::Adt(
                    c.ty->Adt_0,
                    variant,
                    None,
                    c.ty->Adt_1,
                );
                lemma_bind_normalized(l1, span, RvalueV::Aggregate(kind, ops), c.ty);
                let (l2, sts2, var) = spec_bind(l1, span, RvalueV::Aggregate(kind, ops), c.ty);
                lemma_stmts_normalized_concat(sts1, sts2);
            }
        },
        RawConstantExprV::Array(fields) => {
            if array_shape_ok(c.ty) {
                lemma_norm_consts_normalized_out(locals, span, fields);
                let (l1, sts1, ops) = norm_consts(locals, span, fields);
                let elem_ty = c.ty->Adt_1.types[0];
                let len_cg = ConstGeneric::Value(
                    Literal::Scalar(ScalarValue::Usize(fields.len() as u64)),
                );
                let rv = if fields.len() >= 2 && all_same(ops) {
                    RvalueV::Repeat(ops[0], elem_ty, len_cg)
                } else {
                    RvalueV::Aggregate(crate::ullbc::AggregateKindV::Array(elem_ty, len_cg), ops)
                };
                if fields.len() >= 2 && all_same(ops) {
                    assert(crate::ullbc_utils::rvalue_operands(rv) =~= seq![ops[0]]);
                }
                lemma_bind_normalized(l1, span, rv, c.ty);
                let (l2, sts2, var) = spec_bind(l1, span, rv, c.ty);
                lemma_stmts_normalized_concat(sts1, sts2);
            }
        },
        _ => {},
    }
}

/// The normalization of a constant list yields normalized operands and
/// emits only statements with normalized operands.
pub proof fn lemma_norm_consts_normalized_out(locals: LocalsV, span: Span, cs: Seq<ConstantExprV>)
    requires
        consts_shapes_ok(cs),
    ensures
        ({
            let (l2, sts, ops) = norm_consts(locals, span, cs);
            operands_normalized(ops) && stmts_normalized(sts) && ops.len() == cs.len()
        }),
    decreases cs,
{
    if cs.len() > 0 {
        lemma_norm_const_normalized(locals, span, cs[0]);
        let (l1, sts1, op1) = norm_const(locals, span, cs[0]);
        assert forall|i: int|
            0 <= i < cs.subrange(1, cs.len() as int).len() implies const_shapes_ok(
            #[trigger] cs.subrange(1, cs.len() as int)[i],
        ) by {
            assert(cs.subrange(1, cs.len() as int)[i] == cs[i + 1]);
        }
        lemma_norm_consts_normalized_out(l1, span, cs.subrange(1, cs.len() as int));
        let (l2, sts2, ops2) = norm_consts(l1, span, cs.subrange(1, cs.len() as int));
        lemma_stmts_normalized_concat(sts1, sts2);
        assert forall|i: int| 0 <= i < (seq![op1] + ops2).len() implies operand_normalized(
            #[trigger] (seq![op1] + ops2)[i],
        ) by {
            if i > 0 {
                assert((seq![op1] + ops2)[i] == ops2[i - 1]);
            }
        }
    }
}

/// The normalization of a list of already-normalized constants emits
/// nothing and yields exactly the constant operands.
pub proof fn lemma_norm_consts_noop(locals: LocalsV, span: Span, cs: Seq<ConstantExprV>)
    requires
        forall|i: int| 0 <= i < cs.len() ==> const_normalized(#[trigger] cs[i]),
    ensures
        ({
            let (l2, sts, ops) = norm_consts(locals, span, cs);
            l2 == locals && sts == Seq::<StatementV>::empty() && ops.len() == cs.len() && (forall|
                i: int,
            | 0 <= i < cs.len() ==> ops[i] == OperandV::Const(#[trigger] cs[i]))
        }),
    decreases cs,
{
    if cs.len() > 0 {
        lemma_norm_const_noop(locals, span, cs[0]);
        lemma_norm_consts_noop(locals, span, cs.subrange(1, cs.len() as int));
        let (l2, sts2, ops2) = norm_consts(locals, span, cs.subrange(1, cs.len() as int));
        assert(Seq::<StatementV>::empty() + sts2 =~= sts2);
        assert forall|i: int| 0 <= i < cs.len() implies (seq![OperandV::Const(cs[0])] + ops2)[i]
            == OperandV::Const(#[trigger] cs[i]) by {
            if i > 0 {
                assert((seq![OperandV::Const(cs[0])] + ops2)[i] == ops2[i - 1]);
                assert(ops2[i - 1] == OperandV::Const(cs.subrange(1, cs.len() as int)[i - 1]));
                assert(cs.subrange(1, cs.len() as int)[i - 1] == cs[i]);
            }
        }
    }
}

/// The repeat optimization: a constant array with at least two elements,
/// all equal, normalizes to a single statement binding a repeat rvalue; an
/// array with a differing element, or with fewer than two elements,
/// normalizes to a single statement binding an aggregate rvalue.
///
/// The elements are required to be already-normalized constants (literals
/// and the other scalar-like forms): an element that itself normalizes to a
/// fresh temporary never compares equal to another element's temporary.
pub proof fn lemma_repeat_optimization(locals: LocalsV, span: Span, c: ConstantExprV)
    requires
        c.value is Array,
        array_shape_ok(c.ty),
        forall|i: int|
            0 <= i < c.value->Array_0.len() ==> const_normalized(#[trigger] c.value->Array_0[i]),
    ensures
        ({
            let fields = c.value->Array_0;
            let (l2, sts, op) = norm_const(locals, span, c);
            &&& sts.len() == 1
            &&& sts[0].content is Assign
            &&& ((fields.len() >= 2 && (forall|i: int|
                0 <= i < fields.len() ==> #[trigger] fields[i] == fields[0]))
                ==> sts[0].content->Assign_1 is Repeat)
            &&& (!(fields.len() >= 2 && (forall|i: int|
                0 <= i < fields.len() ==> #[trigger] fields[i] == fields[0]))
                ==> sts[0].content->Assign_1 is Aggregate)
        }),
{
    let fields = c.value->Array_0;
    lemma_norm_consts_noop(locals, span, fields);
    let (l1, sts1, ops) = norm_consts(locals, span, fields);
    let elem_ty = c.ty->Adt_1.types[0];
    let len_cg = ConstGeneric::Value(Literal::Scalar(ScalarValue::Usize(fields.len() as u64)));
    let rv = if fields.len() >= 2 && all_same(ops) {
        RvalueV::Repeat(ops[0], elem_ty, len_cg)
    } else {
        RvalueV::Aggregate(crate::ullbc::AggregateKindV::Array(elem_ty, len_cg), ops)
    };
    let (l2, sts2, var) = spec_bind(l1, span, rv, c.ty);
    assert(Seq::<StatementV>::empty() + sts2 =~= sts2);
    if fields.len() >= 2 {
        if all_same(ops) {
            assert forall|i: int| 0 <= i < fields.len() implies #[trigger] fields[i]
                == fields[0] by {
                assert(ops[i] == ops[0]);
            }
        } else {
            assert(exists|i: int| 0 <= i < ops.len() && #[trigger] ops[i] != ops[0]);
            let i0 = choose|i: int| 0 <= i < ops.len() && #[trigger] ops[i] != ops[0];
            assert(fields[i0] != fields[0]);
        }
    }
}


/// Replacing a statement's operands by themselves gives the statement back.
proof fn lemma_stmt_with_operands_id(sc: RawStatementV)
    ensures
        crate::ullbc_utils::stmt_with_operands(sc, crate::ullbc_utils::stmt_operands(sc)) == sc,
{
    match sc {
        RawStatementV::Assign(p, r) => {
            match r {
                RvalueV::BinaryOp(b, x, y) => {
                    assert(seq![x, y][0] == x);
                    assert(seq![x, y][1] == y);
                },
                _ => {},
            }
        },
        RawStatementV::Switch(sw) => {
            match *sw {
                crate::ullbc::SwitchV::If(o, b1, b2) => {
                    assert(crate::ullbc_utils::stmt_with_operands(
                        sc,
                        crate::ullbc_utils::stmt_operands(sc),
                    ) =~= sc);
                },
            }
        },
        _ => {},
    }
}

/// Processing a list of normalized operands changes nothing and emits
/// nothing.
proof fn lemma_process_operands_noop(locals: LocalsV, span: Span, ops: Seq<OperandV>)
    requires
        operands_normalized(ops),
    ensures
        crate::ullbc_utils::process_operands(Transform, locals, span, ops) == (
            locals,
            Seq::<StatementV>::empty(),
            ops,
        ),
    decreases ops.len(),
{
    if ops.len() > 0 {
        match ops[0] {
            OperandV::Const(c) => {
                lemma_norm_const_noop(locals, span, c);
            },
            _ => {},
        }
        let t = Transform;
        assert(t.spec_locals(locals, span, ops[0]) == locals);
        assert(t.spec_op(locals, span, ops[0]) == ops[0]);
        assert(t.spec_emitted(locals, span, ops[0]) =~= Seq::<StatementV>::empty());
        assert forall|i: int|
            0 <= i < ops.subrange(1, ops.len() as int).len() implies operand_normalized(
            #[trigger] ops.subrange(1, ops.len() as int)[i],
        ) by {
            assert(ops.subrange(1, ops.len() as int)[i] == ops[i + 1]);
        }
        lemma_process_operands_noop(locals, span, ops.subrange(1, ops.len() as int));
        let (l2, e2, os2) = crate::ullbc_utils::process_operands(
            Transform,
            locals,
            span,
            ops.subrange(1, ops.len() as int),
        );
        assert(Seq::<StatementV>::empty() + e2 =~= Seq::<StatementV>::empty());
        assert(seq![ops[0]] + os2 =~= ops);
    }
}

/// Processing a normalized statement changes nothing and emits nothing.
proof fn lemma_process_stmt_operands_noop(locals: LocalsV, st: StatementV)
    requires
        stmt_normalized(st),
    ensures
        crate::ullbc_utils::process_stmt_operands(Transform, locals, st) == (
            locals,
            Seq::<StatementV>::empty(),
            st,
        ),
    decreases st,
{
    match st.content {
        RawStatementV::Switch(sw) => {
            match *sw {
                crate::ullbc::SwitchV::If(op, b1, b2) => {
                    let sv = seq![op];
                    assert(crate::ullbc_utils::stmt_operands(st.content) =~= sv);
                    assert(crate::ullbc_utils::stmt_operands(st.content)[0] == op);
                    assert(operand_normalized(op));
                    assert forall|i: int| 0 <= i < sv.len() implies operand_normalized(
                        #[trigger] sv[i],
                    ) by {
                        assert(sv[i] == op);
                    }
                    lemma_process_operands_noop(locals, st.span, sv);
                    lemma_process_block_operands_noop(locals, b1.statements);
                    lemma_process_block_operands_noop(locals, b2.statements);
                    let (l3, em, st2) = crate::ullbc_utils::process_stmt_operands(
                        Transform,
                        locals,
                        st,
                    );
                    assert(crate::ullbc::BlockV { span: b1.span, statements: b1.statements }
                        == b1);
                    assert(crate::ullbc::BlockV { span: b2.span, statements: b2.statements }
                        == b2);
                    assert(st2 =~= st);
                },
            }
        },
        _ => {
            lemma_process_operands_noop(
                locals,
                st.span,
                crate::ullbc_utils::stmt_operands(st.content),
            );
            lemma_stmt_with_operands_id(st.content);
        },
    }
}

/// Processing the statements of a normalized sequence changes nothing.
proof fn lemma_process_block_operands_noop(locals: LocalsV, sts: Seq<StatementV>)
    requires
        stmts_normalized(sts),
    ensures
        crate::ullbc_utils::process_block_operands(Transform, locals, sts) == (locals, sts),
    decreases sts,
{
    if sts.len() > 0 {
        assert(stmt_normalized(sts[0]));
        lemma_process_stmt_operands_noop(locals, sts[0]);
        let (l1, em, st1) = crate::ullbc_utils::process_stmt_operands(Transform, locals, sts[0]);
        assert(st1 == sts[0]);
        assert forall|i: int|
            0 <= i < sts.subrange(1, sts.len() as int).len() implies stmt_normalized(
            #[trigger] sts.subrange(1, sts.len() as int)[i],
        ) by {
            assert(sts.subrange(1, sts.len() as int)[i] == sts[i + 1]);
        }
        lemma_process_block_operands_noop(locals, sts.subrange(1, sts.len() as int));
        let (l2, rest) = crate::ullbc_utils::process_block_operands(
            Transform,
            locals,
            sts.subrange(1, sts.len() as int),
        );
        assert(Seq::<StatementV>::empty() + seq![sts[0]] + rest =~= sts);
    }
}

/// A statement that is not a branch stays not a branch when its operands
/// are replaced.
proof fn lemma_stmt_with_operands_not_switch(sc: RawStatementV, ops: Seq<OperandV>)
    requires
        !(sc is Switch),
    ensures
        !(crate::ullbc_utils::stmt_with_operands(sc, ops) is Switch),
{
}

/// Replacing a terminator's operands by themselves gives it back.
proof fn lemma_term_with_operands_id(tc: crate::ullbc::RawTerminatorV)
    ensures
        crate::ullbc_utils::term_with_operands(tc, crate::ullbc_utils::term_operands(tc)) == tc,
{
}

/// Processing the operands of a normalized body changes nothing.
pub proof fn lemma_process_blocks_operands_noop(
    locals: LocalsV,
    blocks: Seq<Option<crate::ullbc::BlockDataV>>,
)
    requires
        blocks_normalized(blocks),
    ensures
        crate::ullbc_utils::process_blocks_operands(Transform, locals, blocks) == (locals, blocks),
    decreases blocks.len(),
{
    if blocks.len() > 0 {
        match blocks[0] {
            Some(b) => {
                lemma_process_block_operands_noop(locals, b.statements);
                lemma_process_operands_noop(
                    locals,
                    b.terminator.span,
                    crate::ullbc_utils::term_operands(b.terminator.content),
                );
                lemma_term_with_operands_id(b.terminator.content);
                let (l1, b1) = crate::ullbc_utils::process_block_slot_operands(
                    Transform,
                    locals,
                    blocks[0],
                );
                assert(b.statements + Seq::<StatementV>::empty() =~= b.statements);
                assert(b1 == Some(crate::ullbc::BlockDataV {
                    statements: b.statements,
                    terminator: crate::ullbc::TerminatorV {
                        span: b.terminator.span,
                        content: b.terminator.content,
                    },
                }));
                assert(b1 =~= blocks[0]);
            },
            None => {},
        }
        assert forall|i: int|
            0 <= i < blocks.subrange(1, blocks.len() as int).len() implies block_slot_normalized(
            #[trigger] blocks.subrange(1, blocks.len() as int)[i],
        ) by {
            assert(blocks.subrange(1, blocks.len() as int)[i] == blocks[i + 1]);
        }
        lemma_process_blocks_operands_noop(locals, blocks.subrange(1, blocks.len() as int));
        let (l2, rest) = crate::ullbc_utils::process_blocks_operands(
            Transform,
            locals,
            blocks.subrange(1, blocks.len() as int),
        );
        assert(seq![blocks[0]] + rest =~= blocks);
    }
}

/// A statement's operands, after replacement, are the replaced operands.
proof fn lemma_stmt_operands_of_with(sc: RawStatementV, ops: Seq<OperandV>)
    requires
        ops.len() == crate::ullbc_utils::stmt_operands(sc).len(),
    ensures
        crate::ullbc_utils::stmt_operands(crate::ullbc_utils::stmt_with_operands(sc, ops)) == ops,
{
    match sc {
        RawStatementV::Assign(p, r) => {
            match r {
                RvalueV::Use(_) => {
                    assert(seq![ops[0]] =~= ops);
                },
                RvalueV::UnaryOp(_, _) => {
                    assert(seq![ops[0]] =~= ops);
                },
                RvalueV::BinaryOp(_, _, _) => {
                    assert(seq![ops[0], ops[1]] =~= ops);
                },
                RvalueV::Repeat(_, _, _) => {
                    assert(seq![ops[0]] =~= ops);
                },
                _ => {
                    assert(crate::ullbc_utils::stmt_operands(
                        crate::ullbc_utils::stmt_with_operands(sc, ops),
                    ) =~= ops);
                },
            }
        },
        RawStatementV::Assert(a) => {
            assert(seq![ops[0]] =~= ops);
        },
        RawStatementV::Switch(sw) => {
            match *sw {
                crate::ullbc::SwitchV::If(o, b1, b2) => {
                    assert(seq![ops[0]] =~= ops);
                },
            }
        },
        _ => {
            assert(crate::ullbc_utils::stmt_operands(
                crate::ullbc_utils::stmt_with_operands(sc, ops),
            ) =~= ops);
        },
    }
}

/// One application of the normalization leaves every operand of the body
/// normalized, provided every constant in the body is well-shaped.
pub proof fn lemma_process_operands_normalizes(locals: LocalsV, span: Span, ops: Seq<OperandV>)
    requires
        ops_shapes_ok(ops),
    ensures
        ({
            let (l2, em, os) = crate::ullbc_utils::process_operands(Transform, locals, span, ops);
            operands_normalized(os) && stmts_normalized(em) && os.len() == ops.len()
        }),
    decreases ops.len(),
{
    if ops.len() > 0 {
        let t = Transform;
        match ops[0] {
            OperandV::Const(c) => {
                lemma_norm_const_normalized(locals, span, c);
            },
            _ => {},
        }
        let l1 = t.spec_locals(locals, span, ops[0]);
        assert forall|i: int|
            0 <= i < ops.subrange(1, ops.len() as int).len() implies (#[trigger] ops.subrange(
            1,
            ops.len() as int,
        )[i] is Const ==> const_shapes_ok(ops.subrange(1, ops.len() as int)[i]->Const_0)) by {
            assert(ops.subrange(1, ops.len() as int)[i] == ops[i + 1]);
        }
        lemma_process_operands_normalizes(l1, span, ops.subrange(1, ops.len() as int));
        let e1 = t.spec_emitted(locals, span, ops[0]);
        let o1 = t.spec_op(locals, span, ops[0]);
        let (l2, e2, os2) = crate::ullbc_utils::process_operands(
            Transform,
            l1,
            span,
            ops.subrange(1, ops.len() as int),
        );
        lemma_stmts_normalized_concat(e1, e2);
        assert forall|i: int| 0 <= i < (seq![o1] + os2).len() implies operand_normalized(
            #[trigger] (seq![o1] + os2)[i],
        ) by {
            if i > 0 {
                assert((seq![o1] + os2)[i] == os2[i - 1]);
            }
        }
    }
}

/// Whether every constant operand of a list is well-shaped.
pub open spec fn ops_shapes_ok(ops: Seq<OperandV>) -> bool {
    forall|i: int|
        0 <= i < ops.len() ==> (#[trigger] ops[i] is Const ==> const_shapes_ok(ops[i]->Const_0))
}

/// Whether every constant operand of a statement is well-shaped, the
/// branches of a statement-level switch included.
pub open spec fn stmt_shapes_ok(st: StatementV) -> bool
    decreases st,
{
    ops_shapes_ok(crate::ullbc_utils::stmt_operands(st.content)) && (match st.content {
        RawStatementV::Switch(sw) => match *sw {
            crate::ullbc::SwitchV::If(op, b1, b2) => stmts_shapes_ok(b1.statements)
                && stmts_shapes_ok(b2.statements),
        },
        _ => true,
    })
}

/// Whether every constant operand of every statement of a list is
/// well-shaped.
pub open spec fn stmts_shapes_ok(sts: Seq<StatementV>) -> bool
    decreases sts,
{
    forall|i: int| 0 <= i < sts.len() ==> stmt_shapes_ok(#[trigger] sts[i])
}

/// Whether every constant operand of a block slot is well-shaped.
pub open spec fn block_slot_shapes_ok(slot: Option<crate::ullbc::BlockDataV>) -> bool {
    match slot {
        Some(b) => (forall|i: int|
            0 <= i < b.statements.len() ==> stmt_shapes_ok(#[trigger] b.statements[i]))
            && ops_shapes_ok(crate::ullbc_utils::term_operands(b.terminator.content)),
        None => true,
    }
}

/// The shape condition of a one-operand list, spelled out.
pub proof fn lemma_ops_shapes_ok_one(v: OperandV)
    ensures
        ops_shapes_ok(seq![v]) == (v is Const ==> const_shapes_ok(v->Const_0)),
{
    let s = seq![v];
    if v is Const ==> const_shapes_ok(v->Const_0) {
        assert forall|i: int| 0 <= i < s.len() implies (#[trigger] s[i] is Const
            ==> const_shapes_ok(s[i]->Const_0)) by {
            assert(s[i] == v);
        }
    } else {
        assert(s[0] == v);
        assert(!ops_shapes_ok(s));
    }
}

/// The shape condition of a two-operand list, spelled out.
pub proof fn lemma_ops_shapes_ok_two(a: OperandV, b: OperandV)
    ensures
        ops_shapes_ok(seq![a, b]) == ((a is Const ==> const_shapes_ok(a->Const_0)) && (b is Const
            ==> const_shapes_ok(b->Const_0))),
{
    let s = seq![a, b];
    if (a is Const ==> const_shapes_ok(a->Const_0)) && (b is Const ==> const_shapes_ok(
        b->Const_0,
    )) {
        assert forall|i: int| 0 <= i < s.len() implies (#[trigger] s[i] is Const
            ==> const_shapes_ok(s[i]->Const_0)) by {
            if i == 0 {
                assert(s[i] == a);
            } else {
                assert(s[i] == b);
            }
        }
    } else {
        if !(a is Const ==> const_shapes_ok(a->Const_0)) {
            assert(s[0] == a);
        } else {
            assert(s[1] == b);
        }
        assert(!ops_shapes_ok(s));
    }
}

/// The empty list is well-shaped.
pub proof fn lemma_ops_shapes_ok_empty()
    ensures
        ops_shapes_ok(Seq::<OperandV>::empty()),
{
}

/// Whether every constant operand of a body is well-shaped.
pub open spec fn blocks_shapes_ok(blocks: Seq<Option<crate::ullbc::BlockDataV>>) -> bool {
    forall|i: int| 0 <= i < blocks.len() ==> block_slot_shapes_ok(#[trigger] blocks[i])
}

/// Processing one well-shaped statement leaves it, and everything it
/// emits, with only normalized operands.
proof fn lemma_process_stmt_operands_normalizes(locals: LocalsV, st: StatementV)
    requires
        stmt_shapes_ok(st),
    ensures
        ({
            let (l, em, st2) = crate::ullbc_utils::process_stmt_operands(Transform, locals, st);
            stmts_normalized(em) && stmt_normalized(st2)
        }),
    decreases st,
{
    match st.content {
        RawStatementV::Switch(sw) => {
            match *sw {
                crate::ullbc::SwitchV::If(op, b1, b2) => {
                    let sv = seq![op];
                    assert(crate::ullbc_utils::stmt_operands(st.content) =~= sv);
                    lemma_process_operands_normalizes(locals, st.span, sv);
                    let (l1, em, ops) = crate::ullbc_utils::process_operands(
                        Transform,
                        locals,
                        st.span,
                        sv,
                    );
                    assert forall|i: int|
                        0 <= i < b1.statements.len() implies stmt_shapes_ok(
                        #[trigger] b1.statements[i],
                    ) by {}
                    lemma_process_block_operands_normalizes(l1, b1.statements);
                    let (l2, sts1) = crate::ullbc_utils::process_block_operands(
                        Transform,
                        l1,
                        b1.statements,
                    );
                    lemma_process_block_operands_normalizes(l2, b2.statements);
                    let (l3, sts2) = crate::ullbc_utils::process_block_operands(
                        Transform,
                        l2,
                        b2.statements,
                    );
                    let (lr, emr, st2) = crate::ullbc_utils::process_stmt_operands(
                        Transform,
                        locals,
                        st,
                    );
                    assert(crate::ullbc_utils::stmt_operands(st2.content) =~= seq![ops[0]]);
                    assert(operand_normalized(ops[0]));
                    assert forall|i: int|
                        0 <= i < crate::ullbc_utils::stmt_operands(st2.content).len() implies
                        operand_normalized(
                        #[trigger] crate::ullbc_utils::stmt_operands(st2.content)[i],
                    ) by {
                        assert(crate::ullbc_utils::stmt_operands(st2.content)[i] == ops[0]);
                    }
                    assert(stmt_normalized(st2));
                },
            }
        },
        _ => {
            lemma_process_operands_normalizes(
                locals,
                st.span,
                crate::ullbc_utils::stmt_operands(st.content),
            );
            let (l1, em, os) = crate::ullbc_utils::process_operands(
                Transform,
                locals,
                st.span,
                crate::ullbc_utils::stmt_operands(st.content),
            );
            lemma_stmt_operands_of_with(st.content, os);
            lemma_stmt_with_operands_not_switch(st.content, os);
            let st1 = StatementV {
                span: st.span,
                content: crate::ullbc_utils::stmt_with_operands(st.content, os),
            };
            assert(stmt_normalized(st1));
        },
    }
}

/// One application of the normalization leaves every statement of the
/// sequence, and every statement it emits, with only normalized operands.
proof fn lemma_process_block_operands_normalizes(locals: LocalsV, sts: Seq<StatementV>)
    requires
        forall|i: int| 0 <= i < sts.len() ==> stmt_shapes_ok(#[trigger] sts[i]),
    ensures
        ({
            let (l2, out) = crate::ullbc_utils::process_block_operands(Transform, locals, sts);
            stmts_normalized(out)
        }),
    decreases sts,
{
    if sts.len() > 0 {
        assert(stmt_shapes_ok(sts[0]));
        lemma_process_stmt_operands_normalizes(locals, sts[0]);
        let (l1, em, st1) = crate::ullbc_utils::process_stmt_operands(Transform, locals, sts[0]);
        assert forall|i: int|
            0 <= i < sts.subrange(1, sts.len() as int).len() implies stmt_shapes_ok(
            #[trigger] sts.subrange(1, sts.len() as int)[i],
        ) by {
            assert(sts.subrange(1, sts.len() as int)[i] == sts[i + 1]);
        }
        lemma_process_block_operands_normalizes(l1, sts.subrange(1, sts.len() as int));
        let (l2, rest) = crate::ullbc_utils::process_block_operands(
            Transform,
            l1,
            sts.subrange(1, sts.len() as int),
        );
        lemma_stmts_normalized_concat(em, seq![st1]);
        lemma_stmts_normalized_concat(em + seq![st1], rest);
        assert forall|i: int| 0 <= i < seq![st1].len() implies stmt_normalized(
            #[trigger] seq![st1][i],
        ) by {
            assert(seq![st1][i] == st1);
        }
    }
}

/// One application of the normalization leaves every operand of the body
/// normalized, provided every constant in the body is well-shaped.
pub proof fn lemma_process_blocks_operands_normalizes(
    locals: LocalsV,
    blocks: Seq<Option<crate::ullbc::BlockDataV>>,
)
    requires
        blocks_shapes_ok(blocks),
    ensures
        ({
            let (l2, out) = crate::ullbc_utils::process_blocks_operands(
                Transform,
                locals,
                blocks,
            );
            blocks_normalized(out)
        }),
    decreases blocks.len(),
{
    let (l2, out) = crate::ullbc_utils::process_blocks_operands(Transform, locals, blocks);
    if blocks.len() > 0 {
        let (l1, b1) = crate::ullbc_utils::process_block_slot_operands(
            Transform,
            locals,
            blocks[0],
        );
        match blocks[0] {
            Some(b) => {
                lemma_process_block_operands_normalizes(locals, b.statements);
                let (l1b, sts) = crate::ullbc_utils::process_block_operands(
                    Transform,
                    locals,
                    b.statements,
                );
                lemma_process_operands_normalizes(
                    l1b,
                    b.terminator.span,
                    crate::ullbc_utils::term_operands(b.terminator.content),
                );
                let (l2b, em_t, ops_t) = crate::ullbc_utils::process_operands(
                    Transform,
                    l1b,
                    b.terminator.span,
                    crate::ullbc_utils::term_operands(b.terminator.content),
                );
                lemma_stmts_normalized_concat(sts, em_t);
                crate::ullbc_utils::lemma_term_with_operands_targets(
                    b.terminator.content,
                    ops_t,
                );
                assert(block_slot_normalized(b1)) by {
                    match b.terminator.content {
                        crate::ullbc::RawTerminatorV::Switch { discr, targets } => {
                            assert(crate::ullbc_utils::term_operands(
                                crate::ullbc_utils::term_with_operands(
                                    b.terminator.content,
                                    ops_t,
                                ),
                            ) =~= ops_t);
                        },
                        _ => {},
                    }
                }
            },
            None => {},
        }
        assert forall|i: int|
            0 <= i < blocks.subrange(1, blocks.len() as int).len() implies block_slot_shapes_ok(
            #[trigger] blocks.subrange(1, blocks.len() as int)[i],
        ) by {
            assert(blocks.subrange(1, blocks.len() as int)[i] == blocks[i + 1]);
        }
        lemma_process_blocks_operands_normalizes(l1, blocks.subrange(1, blocks.len() as int));
        let (l3, rest) = crate::ullbc_utils::process_blocks_operands(
            Transform,
            l1,
            blocks.subrange(1, blocks.len() as int),
        );
        assert forall|i: int| 0 <= i < out.len() implies block_slot_normalized(
            #[trigger] out[i],
        ) by {
            if i == 0 {
                assert(out[i] == b1);
            } else {
                assert(out[i] == rest[i - 1]);
            }
        }
    }
}

/// Applying the constant normalization twice yields the same result as
/// applying it once: the first application leaves no non-normalized
/// constant behind, and the normalization does not touch a normalized
/// operand.  The body's constants must be well-shaped, as the input
/// boundary guarantees.
pub proof fn lemma_simplify_constants_idempotent(
    locals: LocalsV,
    blocks: Seq<Option<crate::ullbc::BlockDataV>>,
)
    requires
        blocks_shapes_ok(blocks),
    ensures
        ({
            let (l1, b1) = crate::ullbc_utils::process_blocks_operands(
                Transform,
                locals,
                blocks,
            );
            crate::ullbc_utils::process_blocks_operands(Transform, l1, b1) == (l1, b1)
        }),
{
    let (l1, b1) = crate::ullbc_utils::process_blocks_operands(Transform, locals, blocks);
    lemma_process_blocks_operands_normalizes(locals, blocks);
    lemma_process_blocks_operands_noop(l1, b1);
}

} // verus!
