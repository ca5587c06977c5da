//! When a function's declared return type is unit, the raw body does not
//! set the return value.  So that no return path leaves the return slot
//! undefined, this pass ensures a final explicit assignment of the unit
//! value to the return slot exists immediately before every return
//! terminator that lacks one.

use crate::ids::{Idx, VarId};
use crate::meta::Span;
use crate::transform::ctx::TransformCtx;
use crate::types::{is_unit_ty, ConstGeneric, GenericArgs, GenericArgsV, Region, TraitRefV, TyV,
    TypeId};
use crate::ullbc::{
    view_statements, AggregateKind, AggregateKindV, BlockDataV, FunDecl, Operand, Place,
    RawStatement, RawStatementV, RawTerminator, RvalueV, Statement, StatementV,
};
use vstd::prelude::*;

verus! {

/// The view of empty generic arguments.
pub open spec fn empty_args_v() -> GenericArgsV {
    GenericArgsV {
        regions: Seq::<Region>::empty(),
        types: Seq::<TyV>::empty(),
        const_generics: Seq::<ConstGeneric>::empty(),
        trait_refs: Seq::<TraitRefV>::empty(),
    }
}

/// Whether a statement assigns the unit value to the return slot.
pub open spec fn is_unit_assign(st: StatementV) -> bool {
    match st.content {
        RawStatementV::Assign(p, rv) => p == (Place { var_id: VarId { index: 0 } }) && rv
            == RvalueV::Aggregate(
            AggregateKindV::Adt(TypeId::Tuple, None, None, empty_args_v()),
            Seq::empty(),
        ),
        _ => false,
    }
}

/// The statement assigning the unit value to the return slot.
pub open spec fn unit_assign_stmt(span: Span) -> StatementV {
    StatementV {
        span,
        content: RawStatementV::Assign(
            Place { var_id: VarId { index: 0 } },
            RvalueV::Aggregate(
                AggregateKindV::Adt(TypeId::Tuple, None, None, empty_args_v()),
                Seq::empty(),
            ),
        ),
    }
}

/// The rewrite of one block slot: a block ending in a return terminator
/// gets the unit assignment appended, unless its last statement already is
/// one; every other block is unchanged.
pub open spec fn return_unit_slot(slot: Option<BlockDataV>) -> Option<BlockDataV> {
    match slot {
        Some(b) => if b.terminator.content is Return && !(b.statements.len() > 0 && is_unit_assign(
            b.statements.last(),
        )) {
            Some(
                BlockDataV {
                    statements: b.statements.push(unit_assign_stmt(b.terminator.span)),
                    terminator: b.terminator,
                },
            )
        } else {
            slot
        },
        None => None,
    }
}

/// Appending the unit assignment touches no terminator and no block
/// handle, so the control-flow well-formedness of a body is preserved.
pub proof fn lemma_return_unit_preserves_wf(
    blocks: Seq<Option<BlockDataV>>,
    out: Seq<Option<BlockDataV>>,
)
    requires
        crate::ullbc::body_wf(blocks),
        out.len() == blocks.len(),
        forall|i: int| 0 <= i < blocks.len() ==> out[i] == return_unit_slot(#[trigger] blocks[i]),
    ensures
        crate::ullbc::body_wf(out),
{
    assert forall|i: int, j: int|
        0 <= i < out.len() && out[i] is Some && 0 <= j < crate::ullbc::terminator_targets(
            out[i]->Some_0.terminator.content,
        ).len() implies crate::ullbc::valid_block_id(
        out,
        crate::ullbc::terminator_targets(out[i]->Some_0.terminator.content)[j],
    ) by {
        assert(blocks[i] is Some);
        assert(out[i]->Some_0.terminator == blocks[i]->Some_0.terminator);
        let t = crate::ullbc::terminator_targets(blocks[i]->Some_0.terminator.content)[j];
        assert(crate::ullbc::valid_block_id(blocks, t));
        assert(out[t.idx() as int] is Some);
    }
}

/// Whether a statement assigns the unit value to the return slot.
fn stmt_is_unit_assign(st: &Statement) -> (r: bool)
    ensures
        r == is_unit_assign(st@),
{
    match &st.content {
        RawStatement::Assign(p, crate::ullbc::Rvalue::Aggregate(kind, fields)) => {
            match kind {
                AggregateKind::Adt(TypeId::Tuple, None, None, args) => {
                    let r = p.var_id.index == 0 && fields.len() == 0 && args.regions.len() == 0
                        && args.types.len() == 0 && args.const_generics.len() == 0
                        && args.trait_refs.len() == 0;
                    proof {
                        crate::types::lemma_view_tys(args.types@);
                        crate::types::lemma_view_trait_refs(args.trait_refs@);
                        if r {
                            assert(crate::types::view_args(*args) =~= empty_args_v());
                            assert(crate::ullbc::view_operands(fields@) =~= Seq::<
                                crate::ullbc::OperandV,
                            >::empty());
                            assert(is_unit_assign(st@));
                        } else {
                            if p.var_id.index != 0 {
                                assert(!is_unit_assign(st@));
                            } else if fields.len() != 0 {
                                assert(crate::ullbc::view_operands(fields@).len() != 0);
                                assert(!is_unit_assign(st@));
                            } else {
                                assert(crate::types::view_args(*args) != empty_args_v());
                                assert(!is_unit_assign(st@));
                            }
                        }
                    }
                    r
                },
                _ => false,
            }
        },
        _ => false,
    }
}

/// The return-unit-insertion pass.
pub struct Transform;

impl Transform {
    /// If the declared return type is unit, append the unit assignment to
    /// the return slot before every return terminator that lacks one; any
    /// other declaration is left unchanged.  Block handles and terminators
    /// are untouched, so control-flow well-formedness is preserved.
    #[verifier::loop_isolation(false)]
    pub fn transform_decl(&self, _ctx: &mut TransformCtx, decl: &mut FunDecl)
        ensures
            final(_ctx)@ == old(_ctx)@,
            final(decl)@.def_id == old(decl)@.def_id,
            final(decl)@.sig == old(decl)@.sig,
            !is_unit_ty(old(decl)@.sig.output) ==> final(decl)@ == old(decl)@,
            is_unit_ty(old(decl)@.sig.output) ==> match old(decl)@.body {
                Some(b) => final(decl)@.body is Some && final(decl)@.body->Some_0.span == b.span
                    && final(decl)@.body->Some_0.locals == b.locals
                    && final(decl)@.body->Some_0.body.len() == b.body.len() && (forall|i: int|
                    0 <= i < b.body.len() ==> final(decl)@.body->Some_0.body[i]
                        == return_unit_slot(b.body[i])),
                None => final(decl)@.body is None,
            },
    {
        if !decl.sig.output.is_unit() {
            return ;
        }
        match &mut decl.body {
            Some(b) => {
                let n = b.body.elems.len();
                let mut bi: usize = 0;
                while bi < n
                    invariant
                        bi <= n,
                        n == b.body.elems@.len(),
                        b.body.elems@.len() == old(decl)@.body->Some_0.body.len(),
                        b.span == old(decl).body->Some_0.span,
                        b.locals == old(decl).body->Some_0.locals,
                        forall|i: int|
                            bi <= i < n ==> b.body.elems@[i] == old(
                                decl,
                            ).body->Some_0.body.elems@[i],
                        forall|i: int|
                            0 <= i < bi ==> crate::ullbc::view_blocks(b.body.elems@)[i]
                                == return_unit_slot(
                                crate::ullbc::view_blocks(
                                    old(decl).body->Some_0.body.elems@,
                                )[i],
                            ),
                    decreases n - bi,
                {
                    let ghost elems_before = b.body.elems@;
                    match &mut b.body.elems[bi] {
                        Some(blk) => {
                            let ghost blk0 = *blk;
                            let is_return = match &blk.terminator.content {
                                RawTerminator::Return => true,
                                _ => false,
                            };
                            if is_return {
                                let present: bool = if blk.statements.len() > 0 {
                                    let last = blk.statements.len() - 1;
                                    proof {
                                        crate::ullbc::lemma_view_statements(blk.statements@);
                                    }
                                    stmt_is_unit_assign(&blk.statements[last])
                                } else {
                                    false
                                };
                                if !present {
                                    let sp = blk.terminator.span;
                                    let st = Statement::new(
                                        sp,
                                        RawStatement::Assign(
                                            Place { var_id: VarId { index: 0 } },
                                            crate::ullbc::Rvalue::Aggregate(
                                                AggregateKind::Adt(
                                                    TypeId::Tuple,
                                                    None,
                                                    None,
                                                    GenericArgs::empty(),
                                                ),
                                                Vec::new(),
                                            ),
                                        ),
                                    );
                                    let ghost stv = st@;
                                    proof {
                                        assert(crate::ullbc::view_operands(
                                            Seq::<Operand>::empty(),
                                        ) =~= Seq::<crate::ullbc::OperandV>::empty());
                                        assert(stv == unit_assign_stmt(sp));
                                    }
                                    let ghost sts0 = blk.statements@;
                                    blk.statements.push(st);
                                    proof {
                                        crate::ullbc::lemma_view_statements_push(
                                            sts0,
                                            blk.statements@[blk.statements@.len() - 1],
                                        );
                                        assert(view_statements(blk.statements@)
                                            == view_statements(sts0).push(stv));
                                        assert(Some(crate::ullbc::view_block_data(*blk))
                                            =~= return_unit_slot(
                                            Some(crate::ullbc::view_block_data(blk0)),
                                        ));
                                    }
                                } else {
                                    proof {
                                        assert(Some(crate::ullbc::view_block_data(*blk))
                                            == return_unit_slot(
                                            Some(crate::ullbc::view_block_data(blk0)),
                                        ));
                                    }
                                }
                            } else {
                                proof {
                                    assert(Some(crate::ullbc::view_block_data(*blk))
                                        == return_unit_slot(
                                        Some(crate::ullbc::view_block_data(blk0)),
                                    ));
                                }
                            }
                        },
                        None => {},
                    }
                    proof {
                        assert(b.body.elems@.len() == elems_before.len());
                        assert(forall|i2: int|
                            0 <= i2 < n && i2 != bi ==> b.body.elems@[i2] == elems_before[i2]);
                        assert(crate::ullbc::view_blocks(b.body.elems@)[bi as int]
                            == return_unit_slot(
                            crate::ullbc::view_blocks(old(decl).body->Some_0.body.elems@)[bi as int],
                        ));
                        assert forall|i: int|
                            0 <= i < bi + 1 implies crate::ullbc::view_blocks(b.body.elems@)[i]
                            == return_unit_slot(
                            crate::ullbc::view_blocks(old(decl).body->Some_0.body.elems@)[i],
                        ) by {
                            if i < bi {
                                assert(b.body.elems@[i] == elems_before[i]);
                                assert(crate::ullbc::view_blocks(b.body.elems@)[i]
                                    == crate::ullbc::view_blocks(elems_before)[i]);
                            }
                        }
                    }
                    bi = bi + 1;
                }
            },
            None => {},
        }
    }
}

} // verus!
