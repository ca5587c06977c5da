//! The fixed, explicit pass sequence.  Each pass runs to completion over
//! all bodies before the next pass starts; later passes may depend on
//! invariants established by earlier ones (assert reconstruction assumes
//! panic-call folding already turned panic calls into aborts).
//!
//! The driver's contract pins the whole result: the final declaration set
//! is the composition, in order, of the five pass specifications.

use crate::ids::Idx;
use crate::transform::ctx::TransformCtx;
use crate::transform::inline_local_panic_functions::{replaced_decl, shim_at};
use crate::transform::insert_assign_return_unit::return_unit_slot;
use crate::transform::ops_to_function_calls;
use crate::transform::reconstruct_asserts;
use crate::transform::simplify_constants;
use crate::transform::simplify_constants::blocks_shapes_ok;
use crate::ullbc::{ExprBodyV, FunDecl, FunDeclV};
use crate::ullbc_utils::{process_blocks, process_blocks_operands, visited_block};
use vstd::prelude::*;

verus! {

/// One of the per-body passes, in the order the pipeline runs them.
#[derive(Clone, Copy)]
pub enum BodyPass {
    OpsToFunctionCalls,
    SimplifyConstants,
    ReconstructAsserts,
}

/// The effect of one per-body pass on one body.  A body holding a malformed
/// constant is left untouched by the normalization: that declaration failed
/// fast, and the pipeline goes on with the other declarations.
pub open spec fn body_pass_body(pass: BodyPass, b: ExprBodyV) -> ExprBodyV {
    match pass {
        BodyPass::OpsToFunctionCalls => ExprBodyV {
            span: b.span,
            locals: b.locals,
            body: Seq::new(
                b.body.len(),
                |i: int| visited_block(ops_to_function_calls::Transform, b.body[i]),
            ),
        },
        BodyPass::SimplifyConstants => if blocks_shapes_ok(b.body) {
            let (l2, b2) = process_blocks_operands(
                simplify_constants::Transform,
                b.locals,
                b.body,
            );
            ExprBodyV { span: b.span, locals: l2, body: b2 }
        } else {
            b
        },
        BodyPass::ReconstructAsserts => {
            let (l2, b2) = process_blocks(reconstruct_asserts::Transform, b.locals, b.body);
            ExprBodyV { span: b.span, locals: l2, body: b2 }
        },
    }
}

/// The effect of one per-body pass on one declaration slot.
pub open spec fn body_pass_slot(pass: BodyPass, slot: Option<FunDeclV>) -> Option<FunDeclV> {
    match slot {
        Some(d) => Some(
            FunDeclV {
                def_id: d.def_id,
                sig: d.sig,
                body: match d.body {
                    Some(b) => Some(body_pass_body(pass, b)),
                    None => None,
                },
            },
        ),
        None => None,
    }
}

/// The effect of return-unit insertion on one declaration slot.
pub open spec fn return_unit_decl(slot: Option<FunDeclV>) -> Option<FunDeclV> {
    match slot {
        Some(d) => if crate::types::is_unit_ty(d.sig.output) {
            Some(
                FunDeclV {
                    def_id: d.def_id,
                    sig: d.sig,
                    body: match d.body {
                        Some(b) => Some(
                            ExprBodyV {
                                span: b.span,
                                locals: b.locals,
                                body: Seq::new(
                                    b.body.len(),
                                    |i: int| return_unit_slot(b.body[i]),
                                ),
                            },
                        ),
                        None => None,
                    },
                },
            )
        } else {
            slot
        },
        None => None,
    }
}

/// The declaration set after panic-call folding: shim slots removed, every
/// other declaration with its shim calls replaced.
pub open spec fn folded_decls(decls: Seq<Option<FunDeclV>>) -> Seq<Option<FunDeclV>> {
    Seq::new(
        decls.len(),
        |i: int|
            if shim_at(decls, i) {
                None
            } else {
                replaced_decl(decls, decls[i])
            },
    )
}

/// The declaration set after the whole pipeline: panic-call folding, then
/// operator-to-call desugaring, constant normalization, assert
/// reconstruction and return-unit insertion over every body, in that order.
pub open spec fn pipeline_decls(decls: Seq<Option<FunDeclV>>) -> Seq<Option<FunDeclV>> {
    let d1 = folded_decls(decls);
    let d2 = Seq::new(d1.len(), |i: int| body_pass_slot(BodyPass::OpsToFunctionCalls, d1[i]));
    let d3 = Seq::new(d2.len(), |i: int| body_pass_slot(BodyPass::SimplifyConstants, d2[i]));
    let d4 = Seq::new(d3.len(), |i: int| body_pass_slot(BodyPass::ReconstructAsserts, d3[i]));
    Seq::new(d4.len(), |i: int| return_unit_decl(d4[i]))
}

/// Run one per-body pass over every declaration of the unit.  Declarations
/// without a body are inert.
#[verifier::loop_isolation(false)]
#[verifier::rlimit(60)]
fn run_body_pass(ctx: &mut TransformCtx, pass: BodyPass)
    ensures
        final(ctx)@.type_decls == old(ctx)@.type_decls,
        final(ctx)@.fun_decls.len() == old(ctx)@.fun_decls.len(),
        forall|i: int|
            0 <= i < old(ctx)@.fun_decls.len() ==> final(ctx)@.fun_decls[i] == body_pass_slot(
                pass,
                old(ctx)@.fun_decls[i],
            ),
{
    let ghost decls0 = ctx@.fun_decls;
    let n = ctx.fun_decls.elems.len();
    let mut i: usize = 0;
    while i < n
        invariant
            i <= n,
            n == ctx@.fun_decls.len(),
            n == decls0.len(),
            ctx@.type_decls == old(ctx)@.type_decls,
            forall|k: int| i <= k < n ==> ctx@.fun_decls[k] == decls0[k],
            forall|k: int|
                0 <= k < i ==> ctx@.fun_decls[k] == body_pass_slot(pass, decls0[k]),
        decreases n - i,
    {
        let ghost pre = ctx@.fun_decls;
        let mut slot: Option<FunDecl> = None;
        core::mem::swap(&mut ctx.fun_decls.elems[i], &mut slot);
        let ghost mid = ctx@;
        match &mut slot {
            Some(decl) => {
                let ghost d0 = decl@;
                match &mut decl.body {
                    Some(b) => {
                        let ghost b0 = b@;
                        match pass {
                            BodyPass::OpsToFunctionCalls => {
                                ops_to_function_calls::Transform.transform_body(ctx, b);
                                proof {
                                    assert(b@.body =~= body_pass_body(pass, b0).body);
                                    assert(b@ =~= body_pass_body(pass, b0));
                                }
                            },
                            BodyPass::SimplifyConstants => {
                                let outcome = simplify_constants::Transform.transform_body(
                                    ctx,
                                    b,
                                );
                                proof {
                                    match outcome {
                                        Ok(_) => {
                                            assert(blocks_shapes_ok(b0.body));
                                            assert(b@ =~= body_pass_body(pass, b0));
                                        },
                                        Err(_) => {
                                            assert(!blocks_shapes_ok(b0.body));
                                            assert(b@ =~= body_pass_body(pass, b0));
                                        },
                                    }
                                }
                            },
                            BodyPass::ReconstructAsserts => {
                                reconstruct_asserts::Transform.transform_body(ctx, b);
                                proof {
                                    assert(b@ =~= body_pass_body(pass, b0));
                                }
                            },
                        }
                    },
                    None => {},
                }
                proof {
                    assert(decl@ =~= match body_pass_slot(pass, Some(d0)) {
                        Some(d) => d,
                        None => d0,
                    });
                }
            },
            None => {},
        }
        proof {
            assert(ctx@ == mid);
            assert(ctx.fun_decls.elems@.len() == ctx@.fun_decls.len());
        }
        core::mem::swap(&mut ctx.fun_decls.elems[i], &mut slot);
        proof {
            assert(ctx@.fun_decls[i as int] == body_pass_slot(pass, decls0[i as int]));
            assert(forall|k: int|
                0 <= k < n && k != i ==> ctx@.fun_decls[k] == mid.fun_decls[k]);
            assert(forall|k: int|
                0 <= k < n && k != i ==> mid.fun_decls[k] == pre[k]);
            assert forall|k: int| 0 <= k < i + 1 implies ctx@.fun_decls[k] == body_pass_slot(
                pass,
                decls0[k],
            ) by {
                if k != i {
                    assert(ctx@.fun_decls[k] == pre[k]);
                }
            }
        }
        i = i + 1;
    }
}

/// Apply the ordered pass sequence to the whole translation unit:
/// panic-call folding, operator-to-call desugaring, constant-expression
/// normalization, assert reconstruction, and return-unit insertion.  The
/// result is exactly the composition of the five pass specifications.
#[verifier::loop_isolation(false)]
#[verifier::rlimit(60)]
pub fn run_transform_pipeline(ctx: &mut TransformCtx)
    ensures
        final(ctx)@.type_decls == old(ctx)@.type_decls,
        final(ctx)@.fun_decls == pipeline_decls(old(ctx)@.fun_decls),
{
    let ghost decls0 = ctx@.fun_decls;
    crate::transform::inline_local_panic_functions::Transform.transform_ctx(ctx);
    proof {
        assert(ctx@.fun_decls =~= folded_decls(decls0));
    }
    let ghost d1 = folded_decls(decls0);
    run_body_pass(ctx, BodyPass::OpsToFunctionCalls);
    proof {
        assert(ctx@.fun_decls =~= Seq::new(
            d1.len(),
            |i: int| body_pass_slot(BodyPass::OpsToFunctionCalls, d1[i]),
        ));
    }
    let ghost d2 = Seq::new(d1.len(), |i: int| body_pass_slot(BodyPass::OpsToFunctionCalls, d1[i]));
    run_body_pass(ctx, BodyPass::SimplifyConstants);
    proof {
        assert(ctx@.fun_decls =~= Seq::new(
            d2.len(),
            |i: int| body_pass_slot(BodyPass::SimplifyConstants, d2[i]),
        ));
    }
    let ghost d3 = Seq::new(d2.len(), |i: int| body_pass_slot(BodyPass::SimplifyConstants, d2[i]));
    run_body_pass(ctx, BodyPass::ReconstructAsserts);
    proof {
        assert(ctx@.fun_decls =~= Seq::new(
            d3.len(),
            |i: int| body_pass_slot(BodyPass::ReconstructAsserts, d3[i]),
        ));
    }
    let ghost d4 = Seq::new(
        d3.len(),
        |i: int| body_pass_slot(BodyPass::ReconstructAsserts, d3[i]),
    );
    let n = ctx.fun_decls.elems.len();
    let mut i: usize = 0;
    while i < n
        invariant
            i <= n,
            n == ctx@.fun_decls.len(),
            n == d4.len(),
            ctx@.type_decls == old(ctx)@.type_decls,
            forall|k: int| i <= k < n ==> ctx@.fun_decls[k] == d4[k],
            forall|k: int| 0 <= k < i ==> ctx@.fun_decls[k] == return_unit_decl(d4[k]),
        decreases n - i,
    {
        let ghost pre = ctx@.fun_decls;
        let mut slot: Option<FunDecl> = None;
        core::mem::swap(&mut ctx.fun_decls.elems[i], &mut slot);
        let ghost mid = ctx@;
        match &mut slot {
            Some(decl) => {
                let ghost d0 = decl@;
                crate::transform::insert_assign_return_unit::Transform.transform_decl(ctx, decl);
                proof {
                    if crate::types::is_unit_ty(d0.sig.output) {
                        match d0.body {
                            Some(b0) => {
                                assert(decl@.body is Some);
                                assert(decl@.body->Some_0.body =~= Seq::new(
                                    b0.body.len(),
                                    |k: int| return_unit_slot(b0.body[k]),
                                ));
                                assert(decl@.body->Some_0 =~= ExprBodyV {
                                    span: b0.span,
                                    locals: b0.locals,
                                    body: Seq::new(
                                        b0.body.len(),
                                        |k: int| return_unit_slot(b0.body[k]),
                                    ),
                                });
                                assert(decl@ =~= match return_unit_decl(Some(d0)) {
                                    Some(d) => d,
                                    None => d0,
                                });
                            },
                            None => {
                                assert(decl@ =~= match return_unit_decl(Some(d0)) {
                                    Some(d) => d,
                                    None => d0,
                                });
                            },
                        }
                    } else {
                        assert(decl@ == d0);
                    }
                }
            },
            None => {},
        }
        proof {
            assert(ctx@ == mid);
            assert(ctx.fun_decls.elems@.len() == ctx@.fun_decls.len());
        }
        core::mem::swap(&mut ctx.fun_decls.elems[i], &mut slot);
        proof {
            assert(ctx@.fun_decls[i as int] == return_unit_decl(d4[i as int]));
            assert(forall|k: int|
                0 <= k < n && k != i ==> ctx@.fun_decls[k] == mid.fun_decls[k]);
            assert(forall|k: int|
                0 <= k < n && k != i ==> mid.fun_decls[k] == pre[k]);
            assert forall|k: int| 0 <= k < i + 1 implies ctx@.fun_decls[k] == return_unit_decl(
                d4[k],
            ) by {
                if k != i {
                    assert(ctx@.fun_decls[k] == pre[k]);
                }
            }
        }
        i = i + 1;
    }
    proof {
        assert(ctx@.fun_decls =~= Seq::new(d4.len(), |k: int| return_unit_decl(d4[k])));
        assert(ctx@.fun_decls =~= pipeline_decls(decls0));
    }
}

} // verus!
