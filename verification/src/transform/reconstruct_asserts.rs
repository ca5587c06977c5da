//! In the raw body, an `assert!` written by the user appears as
//! `if cond { panic; ... } else { rest }`.  This pass rewrites such a
//! statement into a single `Assert { cond, expected: false }` followed by
//! the else branch, eliminating the branch wrapper.
//!
//! The pass only fires when the first statement of the then branch is an
//! abort; a then branch with an abort after other statements does not
//! qualify.  This first-statement-only rule is intentionally conservative.

use crate::transform::ctx::TransformCtx;
use crate::ullbc::{
    view_statements, Assert, AssertV, ExprBody, LocalsV, RawStatement, RawStatementV, Statement,
    StatementV, Switch, SwitchV,
};
use crate::ullbc_utils::{
    insert_before, lemma_process_blocks_structure, process_blocks, SequenceRewriter,
};
use vstd::prelude::*;

verus! {

/// Whether a statement is a branch whose then-branch starts with an abort.
pub open spec fn is_panic_if(st: StatementV) -> bool {
    match st.content {
        RawStatementV::Switch(sw) => match *sw {
            SwitchV::If(op, then_b, else_b) => then_b.statements.len() > 0
                && then_b.statements[0].content is Abort,
        },
        _ => false,
    }
}

/// What a recognized statement is replaced by: an assertion that the
/// condition is false, followed by the statements of the else branch.
pub open spec fn reconstructed(st: StatementV) -> Seq<StatementV> {
    match st.content {
        RawStatementV::Switch(sw) => match *sw {
            SwitchV::If(op, then_b, else_b) => seq![
                StatementV {
                    span: then_b.span,
                    content: RawStatementV::Assert(AssertV { cond: op, expected: false }),
                },
            ] + else_b.statements,
        },
        _ => seq![st],
    }
}

/// The assert-reconstruction pass.
pub struct Transform;

impl SequenceRewriter for Transform {
    open spec fn spec_step(&self, locals: LocalsV, suffix: Seq<StatementV>) -> (LocalsV, Seq<
        StatementV,
    >) {
        if suffix.len() > 0 && is_panic_if(suffix[0]) {
            (locals, reconstructed(suffix[0]) + suffix.subrange(1, suffix.len() as int))
        } else {
            (locals, suffix)
        }
    }

    #[verifier::loop_isolation(false)]
    fn rewrite(
        &self,
        locals: &mut crate::ullbc::Locals,
        statements: &mut Vec<Statement>,
        i: usize,
    ) {
        let ghost whole = view_statements(old(statements)@);
        let n = statements.len();
        proof {
            assert(i < n);
            crate::ullbc::lemma_view_statements(statements@);
        }
        let hit = match &statements[i].content {
            RawStatement::Switch(Switch::If(_, then_b, _)) => {
                if then_b.statements.len() > 0 {
                    proof {
                        crate::ullbc::lemma_view_statements(then_b.statements@);
                    }
                    match &then_b.statements[0].content {
                        RawStatement::Abort(_) => true,
                        _ => false,
                    }
                } else {
                    false
                }
            },
            _ => false,
        };
        proof {
            assert(hit == is_panic_if(whole[i as int]));
        }
        if !hit {
            proof {
                assert(view_statements(statements@) =~= whole.subrange(0, i as int)
                    + whole.subrange(i as int, whole.len() as int));
            }
            return ;
        }
        let mut content = RawStatement::Nop;
        let stref = &mut statements[i];
        core::mem::swap(&mut stref.content, &mut content);
        match content {
            RawStatement::Switch(Switch::If(op, then_b, else_b)) => {
                let ghost opv = crate::ullbc::view_operand(op);
                let ghost else_sts = crate::ullbc::view_block(else_b).statements;
                let sp = then_b.span;
                let stref2 = &mut statements[i];
                stref2.span = sp;
                stref2.content = RawStatement::Assert(Assert { cond: op, expected: false });
                let ghost mid = statements@;
                proof {
                    crate::ullbc::lemma_view_statements(mid);
                    crate::ullbc::lemma_view_statements_subrange(mid, 0, i as int);
                    crate::ullbc::lemma_view_statements_subrange(mid, i + 1, mid.len() as int);
                }
                insert_before(statements, i + 1, else_b.statements);
                proof {
                    assert(mid.subrange(0, i + 1).subrange(0, i as int) =~= mid.subrange(
                        0,
                        i as int,
                    ));
                    crate::ullbc::lemma_view_statements_subrange(mid.subrange(0, i + 1), 0, i as int);
                    crate::ullbc::lemma_view_statements(mid.subrange(0, i + 1));
                    assert(view_statements(statements@) =~= view_statements(
                        mid.subrange(0, i + 1),
                    ) + else_sts + view_statements(mid.subrange(i + 1, mid.len() as int)));
                    assert(view_statements(mid.subrange(0, i + 1)) =~= whole.subrange(0, i as int)
                        + seq![
                        StatementV {
                            span: sp,
                            content: RawStatementV::Assert(AssertV { cond: opv, expected: false }),
                        },
                    ]);
                    assert(view_statements(mid.subrange(i + 1, mid.len() as int)) =~= whole.subrange(
                        i + 1,
                        whole.len() as int,
                    ));
                    assert(reconstructed(whole[i as int]) =~= seq![
                        StatementV {
                            span: sp,
                            content: RawStatementV::Assert(AssertV { cond: opv, expected: false }),
                        },
                    ] + else_sts);
                    assert(view_statements(statements@) =~= whole.subrange(0, i as int) + (
                    reconstructed(whole[i as int]) + whole.subrange(i + 1, whole.len() as int)));
                    assert(whole.subrange(i as int, whole.len() as int).subrange(
                        1,
                        whole.len() - i,
                    ) =~= whole.subrange(i + 1, whole.len() as int));
                }
            },
            _ => {
                proof {
                    assert(false);
                }
            },
        }
    }
}

impl Transform {
    /// Reconstruct the assertions of every block of the body.  The locals
    /// table, the block handles and every terminator are unchanged, so
    /// control-flow well-formedness is preserved.
    pub fn transform_body(&self, _ctx: &mut TransformCtx, b: &mut ExprBody)
        ensures
            final(_ctx)@ == old(_ctx)@,
            ({
                let (l2, b2) = process_blocks(Transform, old(b)@.locals, old(b)@.body);
                final(b)@.locals == l2 && final(b)@.body == b2 && final(b)@.span == old(b)@.span
            }),
            crate::ullbc::body_wf(old(b)@.body) ==> crate::ullbc::body_wf(final(b)@.body),
    {
        b.transform_sequences(&Transform);
        proof {
            lemma_process_blocks_structure(Transform, old(b)@.locals, old(b)@.body);
            if crate::ullbc::body_wf(old(b)@.body) {
                assert forall|i: int, j: int|
                    0 <= i < final(b)@.body.len() && final(b)@.body[i] is Some && 0 <= j
                        < crate::ullbc::terminator_targets(
                        final(b)@.body[i]->Some_0.terminator.content,
                    ).len() implies crate::ullbc::valid_block_id(
                    final(b)@.body,
                    crate::ullbc::terminator_targets(
                        final(b)@.body[i]->Some_0.terminator.content,
                    )[j],
                ) by {
                    assert(old(b)@.body[i] is Some);
                    assert(final(b)@.body[i]->Some_0.terminator
                        == old(b)@.body[i]->Some_0.terminator);
                }
            }
        }
    }
}

} // verus!
