//! Operations on the control-flow body model: constructors, target
//! enumeration, fresh locals, and index-preserving statement insertion.

use crate::ids::{BlockId, Idx, VarId};
use crate::meta::Span;
use crate::types::Ty;
use crate::ullbc::{
    view_statements, view_var, BlockData, Locals, LocalsV, Operand, Place, RawStatement,
    RawTerminator, Statement, StatementV, SwitchTargets, Terminator, TerminatorV, Var, VarV,
};
use vstd::prelude::*;

verus! {

impl SwitchTargets {
    /// All the block handles this switch may jump to, the otherwise target
    /// last.
    pub fn get_targets(&self) -> (r: Vec<BlockId>)
        ensures
            r@ == crate::ullbc::switch_targets_seq(crate::ullbc::view_switch_targets(*self)),
    {
        match self {
            SwitchTargets::If(then_tgt, else_tgt) => {
                let mut all_targets: Vec<BlockId> = Vec::new();
                all_targets.push(*then_tgt);
                all_targets.push(*else_tgt);
                proof {
                    assert(all_targets@ =~= seq![*then_tgt, *else_tgt]);
                }
                all_targets
            },
            SwitchTargets::SwitchInt(_, targets, otherwise) => {
                let mut all_targets: Vec<BlockId> = Vec::new();
                let mut i: usize = 0;
                while i < targets.len()
                    invariant
                        i <= targets@.len(),
                        all_targets@.len() == i as nat,
                        forall|j: int| 0 <= j < i ==> all_targets@[j] == targets@[j].1,
                    decreases targets@.len() - i,
                {
                    all_targets.push(targets[i].1);
                    i = i + 1;
                }
                all_targets.push(*otherwise);
                proof {
                    assert(all_targets@ =~= targets@.map(
                        |i: int, p: (crate::types::ScalarValue, BlockId)| p.1,
                    ).push(*otherwise));
                }
                all_targets
            },
        }
    }
}

impl Statement {
    /// A statement with the given span and content.
    pub fn new(span: Span, content: RawStatement) -> (r: Self)
        ensures
            r@ == (StatementV { span, content: crate::ullbc::view_raw_statement(content) }),
    {
        Statement { span, content }
    }
}

impl Terminator {
    /// A terminator with the given span and content.
    pub fn new(span: Span, content: RawTerminator) -> (r: Self)
        ensures
            r@ == (TerminatorV { span, content: crate::ullbc::view_raw_terminator(content) }),
    {
        Terminator { span, content }
    }
}

impl BlockData {
    /// All the block handles this block's terminator may jump to.
    pub fn targets(&self) -> (r: Vec<BlockId>)
        ensures
            r@ == crate::ullbc::terminator_targets(self@.terminator.content),
    {
        match &self.terminator.content {
            RawTerminator::Goto { target } => {
                let mut r: Vec<BlockId> = Vec::new();
                r.push(*target);
                proof {
                    assert(r@ =~= seq![*target]);
                }
                r
            },
            RawTerminator::Switch { discr: _, targets } => targets.get_targets(),
            RawTerminator::Abort(_) => Vec::new(),
            RawTerminator::Return => Vec::new(),
        }
    }
}

impl Locals {
    /// Append a fresh typed variable slot and return the place addressing
    /// it.  Variables are only ever appended, never removed.
    pub fn new_var(&mut self, name: Option<String>, ty: Ty) -> (p: Place)
        ensures
            final(self)@.arg_count == old(self)@.arg_count,
            final(self)@.vars == old(self)@.vars.push(
                Some(
                    VarV {
                        index: VarId { index: old(self)@.vars.len() as usize },
                        name: crate::types::view_opt_string(name),
                        ty: ty@,
                    },
                ),
            ),
            p.var_id.idx() == old(self)@.vars.len(),
    {
        let ghost old_vars = self@.vars;
        let index = VarId { index: self.vars.slot_count() };
        let v = Var { index, name, ty };
        let ghost vv = view_var(v);
        let id: VarId = self.vars.push(v);
        proof {
            assert(final(self)@.vars =~= old_vars.push(Some(vv)));
        }
        Place { var_id: index }
    }
}

/// Insert statements immediately before position `at`, preserving
/// everything else: the resulting sequence is the original with the new
/// statements spliced in at `at`.
#[verifier::loop_isolation(false)]
pub fn insert_before(statements: &mut Vec<Statement>, at: usize, news: Vec<Statement>)
    requires
        at <= old(statements)@.len(),
    ensures
        final(statements)@ == old(statements)@.subrange(0, at as int) + news@ + old(
            statements,
        )@.subrange(at as int, old(statements)@.len() as int),
        view_statements(final(statements)@) == view_statements(
            old(statements)@.subrange(0, at as int),
        ) + view_statements(news@) + view_statements(
            old(statements)@.subrange(at as int, old(statements)@.len() as int),
        ),
        final(statements)@.len() == old(statements)@.len() + news@.len(),
{
    let ghost old_sts = statements@;
    let ghost all_news = news@;
    let mut news = news;
    while news.len() > 0
        invariant
            news@.len() <= all_news.len(),
            at <= statements@.len(),
            statements@.len() == old_sts.len() + (all_news.len() - news@.len()),
            statements@ =~= old_sts.subrange(0, at as int) + all_news.subrange(
                news@.len() as int,
                all_news.len() as int,
            ) + old_sts.subrange(at as int, old_sts.len() as int),
            news@ =~= all_news.subrange(0, news@.len() as int),
        decreases news@.len(),
    {
        let n_opt = news.pop();
        let n = match n_opt {
            Some(n) => n,
            None => {
                proof {
                    assert(false);
                }
                unreached()
            },
        };
        statements.insert(at, n);
        proof {
            assert(statements@ =~= old_sts.subrange(0, at as int) + all_news.subrange(
                news@.len() as int,
                all_news.len() as int,
            ) + old_sts.subrange(at as int, old_sts.len() as int));
            assert(news@ =~= all_news.subrange(0, news@.len() as int));
        }
    }
    proof {
        let pre = old_sts.subrange(0, at as int);
        let post = old_sts.subrange(at as int, old_sts.len() as int);
        assert(all_news.subrange(0, all_news.len() as int) =~= all_news);
        assert(statements@ =~= pre + all_news + post);
        assert(statements@ =~= pre + (all_news + post));
        crate::ullbc::lemma_view_statements_concat(pre, all_news + post);
        crate::ullbc::lemma_view_statements_concat(all_news, post);
        assert(view_statements(statements@) =~= view_statements(pre) + view_statements(all_news)
            + view_statements(post));
    }
}

/// A pure per-statement rewrite, applied by [`ExprBody::visit_statements`].
pub trait StatementVisitor {
    /// The rewrite the visitor applies to one statement.
    spec fn spec_visit(&self, st: StatementV) -> StatementV;

    /// Rewrite one statement in place.
    fn visit_st(&self, st: &mut Statement)
        ensures
            final(st)@ == self.spec_visit(old(st)@),
    ;
}

impl crate::ullbc::ExprBody {
    /// Apply a pure statement rewrite to every statement of every block, in
    /// a bottom-up manner (last block, last statement first).  The locals
    /// and every terminator are untouched, and every statement is visited
    /// exactly once.
    #[verifier::loop_isolation(false)]
    pub fn visit_statements<V: StatementVisitor>(&mut self, v: &V)
        ensures
            final(self)@.span == old(self)@.span,
            final(self)@.locals == old(self)@.locals,
            final(self)@.body.len() == old(self)@.body.len(),
            forall|i: int|
                0 <= i < old(self)@.body.len() ==> final(self)@.body[i] == visited_block(
                    *v,
                    old(self)@.body[i],
                ),
    {
        let mut bi = self.body.elems.len();
        while bi > 0
            invariant
                bi <= self.body.elems@.len(),
                self.span == old(self).span,
                self.locals == old(self).locals,
                self.body.elems@.len() == old(self).body.elems@.len(),
                forall|i: int| 0 <= i < bi ==> self.body.elems@[i] == old(self).body.elems@[i],
                forall|i: int|
                    bi <= i < self.body.elems@.len() ==> crate::ullbc::view_blocks(
                        self.body.elems@,
                    )[i] == visited_block(*v, crate::ullbc::view_blocks(old(self).body.elems@)[i]),
            decreases bi,
        {
            bi = bi - 1;
            let ghost elems_before = self.body.elems@;
            match &mut self.body.elems[bi] {
                Some(b) => {
                    let ghost b0 = *b;
                    let mut si = b.statements.len();
                    while si > 0
                        invariant
                            si <= b.statements@.len(),
                            b.statements@.len() == b0.statements@.len(),
                            b.terminator == b0.terminator,
                            forall|j: int| 0 <= j < si ==> b.statements@[j] == b0.statements@[j],
                            forall|j: int|
                                si <= j < b.statements@.len() ==> crate::ullbc::view_statement(
                                    b.statements@[j],
                                ) == v.spec_visit(crate::ullbc::view_statement(b0.statements@[j])),
                        decreases si,
                    {
                        si = si - 1;
                        v.visit_st(&mut b.statements[si]);
                    }
                    proof {
                        crate::ullbc::lemma_view_statements(b.statements@);
                        crate::ullbc::lemma_view_statements(b0.statements@);
                        assert(view_statements(b.statements@) =~= view_statements(
                            b0.statements@,
                        ).map(|j: int, st: StatementV| v.spec_visit(st)));
                        assert(crate::ullbc::view_block_data(*b) == (crate::ullbc::BlockDataV {
                            statements: crate::ullbc::view_block_data(b0).statements.map(
                                |j: int, st: StatementV| v.spec_visit(st),
                            ),
                            terminator: crate::ullbc::view_block_data(b0).terminator,
                        }));
                    }
                },
                None => {},
            }
            proof {
                assert(self.body.elems@.len() == elems_before.len());
                assert(forall|i: int|
                    0 <= i < elems_before.len() && i != bi ==> self.body.elems@[i]
                        == elems_before[i]);
                assert forall|i: int|
                    bi <= i < self.body.elems@.len() implies crate::ullbc::view_blocks(
                    self.body.elems@,
                )[i] == visited_block(*v, crate::ullbc::view_blocks(old(self).body.elems@)[i]) by {
                    if i == bi {
                        assert(crate::ullbc::view_blocks(self.body.elems@)[i] == visited_block(
                            *v,
                            crate::ullbc::view_blocks(old(self).body.elems@)[i],
                        ));
                    } else {
                        assert(self.body.elems@[i] == elems_before[i]);
                        assert(crate::ullbc::view_blocks(self.body.elems@)[i]
                            == crate::ullbc::view_blocks(elems_before)[i]);
                    }
                }
            }
        }
        proof {
            assert forall|i: int| 0 <= i < old(self)@.body.len() implies final(self)@.body[i]
                == visited_block(*v, old(self)@.body[i]) by {
                assert(final(self)@.body[i] == crate::ullbc::view_blocks(self.body.elems@)[i]);
            }
        }
    }
}

/// The result of visiting every statement of a block slot with a pure
/// statement rewrite: statements are rewritten pointwise, the terminator is
/// kept, and a hole stays a hole.
pub open spec fn visited_block<V: StatementVisitor>(
    v: V,
    b: Option<crate::ullbc::BlockDataV>,
) -> Option<crate::ullbc::BlockDataV> {
    match b {
        Some(b) => Some(
            crate::ullbc::BlockDataV {
                statements: b.statements.map(|j: int, st: StatementV| v.spec_visit(st)),
                terminator: b.terminator,
            },
        ),
        None => None,
    }
}

/// One visitation step of the bottom-up suffix-rewriting engine.
pub trait SequenceRewriter {
    /// The effect of one visit at the head of a suffix: the new locals
    /// table, and the statements that replace the suffix.
    spec fn spec_step(&self, locals: LocalsV, suffix: Seq<StatementV>) -> (LocalsV, Seq<
        StatementV,
    >);

    /// Visit `statements[i..]`: everything before `i` stays, and the suffix
    /// is replaced as `spec_step` says.
    fn rewrite(&self, locals: &mut Locals, statements: &mut Vec<Statement>, i: usize)
        requires
            i < old(statements)@.len(),
        ensures
            ({
                let whole = view_statements(old(statements)@);
                let (l2, s2) = self.spec_step(
                    old(locals)@,
                    whole.subrange(i as int, whole.len() as int),
                );
                final(locals)@ == l2 && view_statements(final(statements)@) == whole.subrange(
                    0,
                    i as int,
                ) + s2
            }),
    ;
}

/// Bottom-up processing of a statement sequence: indices are visited from
/// the last to the first, each visit seeing the suffix left by the later
/// visits, so that newly inserted statements are never revisited.
pub open spec fn process_suffixes<R: SequenceRewriter>(
    r: R,
    locals: LocalsV,
    s: Seq<StatementV>,
) -> (LocalsV, Seq<StatementV>)
    decreases s.len(),
{
    if s.len() == 0 {
        (locals, s)
    } else {
        let (l1, tail) = process_suffixes(r, locals, s.subrange(1, s.len() as int));
        r.spec_step(l1, seq![s[0]] + tail)
    }
}

/// The result of the engine on one block slot: the statements are processed
/// bottom-up, the terminator is kept, and a hole stays a hole.
pub open spec fn process_block_slot<R: SequenceRewriter>(
    r: R,
    locals: LocalsV,
    b: Option<crate::ullbc::BlockDataV>,
) -> (LocalsV, Option<crate::ullbc::BlockDataV>) {
    match b {
        Some(b) => {
            let (l, s) = process_suffixes(r, locals, b.statements);
            (l, Some(crate::ullbc::BlockDataV { statements: s, terminator: b.terminator }))
        },
        None => (locals, None),
    }
}

/// The result of the engine on a whole body: blocks are processed in order,
/// the locals table threading through.
pub open spec fn process_blocks<R: SequenceRewriter>(
    r: R,
    locals: LocalsV,
    blocks: Seq<Option<crate::ullbc::BlockDataV>>,
) -> (LocalsV, Seq<Option<crate::ullbc::BlockDataV>>)
    decreases blocks.len(),
{
    if blocks.len() == 0 {
        (locals, blocks)
    } else {
        let (l1, b1) = process_block_slot(r, locals, blocks[0]);
        let (l2, rest) = process_blocks(r, l1, blocks.subrange(1, blocks.len() as int));
        (l2, seq![b1] + rest)
    }
}

/// The suffix-rewriting engine touches no terminator and no block handle:
/// the processed body has the same slots, holes and terminators.
pub proof fn lemma_process_blocks_structure<R: SequenceRewriter>(
    r: R,
    locals: LocalsV,
    blocks: Seq<Option<crate::ullbc::BlockDataV>>,
)
    ensures
        ({
            let (l2, b2) = process_blocks(r, locals, blocks);
            b2.len() == blocks.len() && (forall|i: int|
                0 <= i < blocks.len() ==> (b2[i] is Some <==> blocks[i] is Some)) && (forall|
                i: int,
            |
                0 <= i < blocks.len() && blocks[i] is Some ==> b2[i]->Some_0.terminator
                    == blocks[i]->Some_0.terminator)
        }),
    decreases blocks.len(),
{
    if blocks.len() > 0 {
        let (l1, b1) = process_block_slot(r, locals, blocks[0]);
        lemma_process_blocks_structure(r, l1, blocks.subrange(1, blocks.len() as int));
    }
}

impl BlockData {
    /// Walk the statement indices from the end of the block to the start; at
    /// each position, hand the rewriter the suffix starting there.  Each
    /// original statement index is visited exactly once, in reverse order,
    /// and statements a visit inserts are not revisited.
    #[verifier::loop_isolation(false)]
    pub fn transform_sequences<R: SequenceRewriter>(&mut self, locals: &mut Locals, r: &R)
        ensures
            ({
                let (l2, s2) = process_suffixes(*r, old(locals)@, old(self)@.statements);
                final(locals)@ == l2 && final(self)@.statements == s2 && final(self)@.terminator
                    == old(self)@.terminator
            }),
    {
        let ghost ov = view_statements(old(self).statements@);
        proof {
            crate::ullbc::lemma_view_statements(old(self).statements@);
        }
        let mut i = self.statements.len();
        proof {
            assert(ov.subrange(i as int, ov.len() as int) =~= Seq::<StatementV>::empty());
            assert(view_statements(self.statements@) =~= ov.subrange(0, i as int) + Seq::<
                StatementV,
            >::empty());
        }
        while i > 0
            invariant
                i <= ov.len(),
                self.terminator == old(self).terminator,
                ({
                    let (li, si) = process_suffixes(
                        *r,
                        old(locals)@,
                        ov.subrange(i as int, ov.len() as int),
                    );
                    locals@ == li && view_statements(self.statements@) == ov.subrange(0, i as int)
                        + si
                }),
            decreases i,
        {
            i = i - 1;
            let ghost cur = view_statements(self.statements@);
            let ghost (l_next, s_next) = process_suffixes(
                *r,
                old(locals)@,
                ov.subrange(i + 1, ov.len() as int),
            );
            proof {
                crate::ullbc::lemma_view_statements(self.statements@);
                assert(cur.len() == (i + 1) + s_next.len());
            }
            r.rewrite(locals, &mut self.statements, i);
            proof {
                assert(cur.subrange(0, i as int) =~= ov.subrange(0, i as int));
                assert(cur.subrange(i as int, cur.len() as int) =~= seq![ov[i as int]] + s_next);
                let tail_range = ov.subrange(i as int, ov.len() as int);
                assert(tail_range.subrange(1, tail_range.len() as int) =~= ov.subrange(
                    i + 1,
                    ov.len() as int,
                ));
                assert(tail_range[0] == ov[i as int]);
                assert(process_suffixes(*r, old(locals)@, tail_range) == r.spec_step(
                    l_next,
                    seq![ov[i as int]] + s_next,
                ));
            }
        }
        proof {
            assert(ov.subrange(0, 0) =~= Seq::<StatementV>::empty());
            assert(ov.subrange(0int, ov.len() as int) =~= ov);
            let (l2, s2) = process_suffixes(*r, old(locals)@, ov);
            assert(view_statements(self.statements@) =~= Seq::<StatementV>::empty() + s2);
            assert(view_statements(self.statements@) =~= s2);
        }
    }
}

/// A per-statement transformer, the common case of the engine: rewrite one
/// statement in place and give back the statements to insert immediately
/// before it.
pub trait StatementTransformer {
    /// The locals table after transforming one statement.
    spec fn spec_locals(&self, locals: LocalsV, st: StatementV) -> LocalsV;

    /// The in-place rewrite of one statement.
    spec fn spec_rewrite(&self, locals: LocalsV, st: StatementV) -> StatementV;

    /// The statements to insert immediately before the rewritten statement.
    spec fn spec_new_before(&self, locals: LocalsV, st: StatementV) -> Seq<StatementV>;

    /// Transform one statement in place, returning the statements to insert
    /// immediately before it.
    fn transform_st(&self, locals: &mut Locals, st: &mut Statement) -> (news: Vec<Statement>)
        ensures
            final(locals)@ == self.spec_locals(old(locals)@, old(st)@),
            final(st)@ == self.spec_rewrite(old(locals)@, old(st)@),
            view_statements(news@) == self.spec_new_before(old(locals)@, old(st)@),
    ;
}

/// Bottom-up processing of a statement sequence by a per-statement
/// transformer: each original statement is rewritten in place, with the new
/// statements spliced immediately before it; insertions are not revisited.
pub open spec fn process_transform<T: StatementTransformer>(
    t: T,
    locals: LocalsV,
    s: Seq<StatementV>,
) -> (LocalsV, Seq<StatementV>)
    decreases s.len(),
{
    if s.len() == 0 {
        (locals, s)
    } else {
        let (l1, tail) = process_transform(t, locals, s.subrange(1, s.len() as int));
        (
            t.spec_locals(l1, s[0]),
            t.spec_new_before(l1, s[0]) + seq![t.spec_rewrite(l1, s[0])] + tail,
        )
    }
}

impl BlockData {
    /// Apply a per-statement transformer to all the statements, in a
    /// bottom-up manner: the transformer mutates the statement in place and
    /// returns the statements to introduce before it.
    #[verifier::loop_isolation(false)]
    pub fn transform<T: StatementTransformer>(&mut self, locals: &mut Locals, t: &T)
        ensures
            ({
                let (l2, s2) = process_transform(*t, old(locals)@, old(self)@.statements);
                final(locals)@ == l2 && final(self)@.statements == s2 && final(self)@.terminator
                    == old(self)@.terminator
            }),
    {
        let ghost ov = view_statements(old(self).statements@);
        proof {
            crate::ullbc::lemma_view_statements(old(self).statements@);
        }
        let mut i = self.statements.len();
        proof {
            assert(ov.subrange(i as int, ov.len() as int) =~= Seq::<StatementV>::empty());
            assert(view_statements(self.statements@) =~= ov.subrange(0, i as int) + Seq::<
                StatementV,
            >::empty());
        }
        while i > 0
            invariant
                i <= ov.len(),
                self.terminator == old(self).terminator,
                self.statements@.len() >= i,
                forall|j: int| 0 <= j < i ==> self.statements@[j] == old(self).statements@[j],
                ({
                    let (li, si) = process_transform(
                        *t,
                        old(locals)@,
                        ov.subrange(i as int, ov.len() as int),
                    );
                    locals@ == li && view_statements(self.statements@) == ov.subrange(0, i as int)
                        + si
                }),
            decreases i,
        {
            i = i - 1;
            let ghost cur = self.statements@;
            let ghost (l_next, s_next) = process_transform(
                *t,
                old(locals)@,
                ov.subrange(i + 1, ov.len() as int),
            );
            proof {
                crate::ullbc::lemma_view_statements(cur);
                assert(crate::ullbc::view_statement(cur[i as int]) == ov[i as int]);
            }
            let news = t.transform_st(locals, &mut self.statements[i]);
            let ghost mid = self.statements@;
            proof {
                crate::ullbc::lemma_view_statements(mid);
            }
            insert_before(&mut self.statements, i, news);
            proof {
                let tail_range = ov.subrange(i as int, ov.len() as int);
                assert(tail_range[0] == ov[i as int]);
                assert(tail_range.subrange(1, tail_range.len() as int) =~= ov.subrange(
                    i + 1,
                    ov.len() as int,
                ));
                // Views of the three pieces around the insertion point.
                crate::ullbc::lemma_view_statements(mid);
                crate::ullbc::lemma_view_statements_subrange(mid, 0, i as int);
                crate::ullbc::lemma_view_statements_subrange(mid, i as int, mid.len() as int);
                assert(view_statements(mid.subrange(0, i as int)) =~= ov.subrange(0, i as int));
                assert(crate::ullbc::view_statement(mid[i as int]) == t.spec_rewrite(
                    l_next,
                    ov[i as int],
                ));
                assert(forall|k: int| i < k < mid.len() ==> mid[k] == cur[k]);
                assert(view_statements(cur) == ov.subrange(0, i + 1) + s_next);
                crate::ullbc::lemma_view_statements(cur);
                assert forall|k: int|
                    i < k < mid.len() implies crate::ullbc::view_statement(#[trigger] mid[k])
                    == s_next[k - i - 1] by {
                    assert(mid[k] == cur[k]);
                    assert(crate::ullbc::view_statement(cur[k]) == view_statements(cur)[k]);
                    assert(view_statements(cur)[k] == (ov.subrange(0, i + 1) + s_next)[k]);
                }
                assert(view_statements(mid.subrange(i as int, mid.len() as int)) =~= seq![
                    t.spec_rewrite(l_next, ov[i as int]),
                ] + s_next);
                assert(view_statements(self.statements@) =~= ov.subrange(0, i as int) + (
                t.spec_new_before(l_next, ov[i as int]) + seq![
                    t.spec_rewrite(l_next, ov[i as int]),
                ] + s_next));
            }
        }
        proof {
            assert(ov.subrange(0int, ov.len() as int) =~= ov);
            let (l2, s2) = process_transform(*t, old(locals)@, ov);
            assert(view_statements(self.statements@) =~= Seq::<StatementV>::empty() + s2);
            assert(view_statements(self.statements@) =~= s2);
        }
    }
}

impl crate::ullbc::ExprBody {
    /// Run the suffix-rewriting engine over every block of the body, in
    /// order, threading the locals table through.
    #[verifier::loop_isolation(false)]
    pub fn transform_sequences<R: SequenceRewriter>(&mut self, r: &R)
        ensures
            ({
                let (l2, b2) = process_blocks(*r, old(self)@.locals, old(self)@.body);
                final(self)@.locals == l2 && final(self)@.body == b2 && final(self)@.span == old(
                    self,
                )@.span
            }),
    {
        let ghost ob = crate::ullbc::view_blocks(old(self).body.elems@);
        let ghost ol = crate::ullbc::view_locals(old(self).locals);
        let mut bi: usize = 0;
        let n = self.body.elems.len();
        proof {
            assert(ob.subrange(0, ob.len() as int) =~= ob);
            let (lc0, bc0) = process_blocks(*r, crate::ullbc::view_locals(self.locals), ob);
            assert(crate::ullbc::view_blocks(self.body.elems@).subrange(0, 0) + bc0 =~= bc0);
        }
        while bi < n
            invariant
                bi <= n,
                n == self.body.elems@.len(),
                self.body.elems@.len() == ob.len(),
                self.span == old(self).span,
                forall|i: int| bi <= i < ob.len() ==> self.body.elems@[i] == old(
                    self,
                ).body.elems@[i],
                ({
                    let (lf, bf) = process_blocks(*r, ol, ob);
                    let (lc, bc) = process_blocks(
                        *r,
                        crate::ullbc::view_locals(self.locals),
                        ob.subrange(bi as int, ob.len() as int),
                    );
                    lf == lc && bf == crate::ullbc::view_blocks(self.body.elems@).subrange(
                        0,
                        bi as int,
                    ) + bc
                }),
            decreases n - bi,
        {
            let ghost locals_before = crate::ullbc::view_locals(self.locals);
            let ghost elems_before = self.body.elems@;
            match &mut self.body.elems[bi] {
                Some(b) => {
                    let ghost b0 = *b;
                    b.transform_sequences(&mut self.locals, r);
                },
                None => {},
            }
            proof {
                let tail_range = ob.subrange(bi as int, ob.len() as int);
                assert(tail_range[0] == ob[bi as int]);
                assert(tail_range.subrange(1, tail_range.len() as int) =~= ob.subrange(
                    bi + 1,
                    ob.len() as int,
                ));
                assert(ob[bi as int] == crate::ullbc::view_blocks(elems_before)[bi as int]);
                let (l1, b1) = process_block_slot(*r, locals_before, ob[bi as int]);
                assert(crate::ullbc::view_locals(self.locals) == l1);
                assert(crate::ullbc::view_blocks(self.body.elems@)[bi as int] == b1);
                assert(forall|i: int|
                    0 <= i < ob.len() && i != bi ==> self.body.elems@[i] == elems_before[i]);
                assert(crate::ullbc::view_blocks(self.body.elems@).subrange(0, bi + 1)
                    =~= crate::ullbc::view_blocks(elems_before).subrange(0, bi as int) + seq![b1]);
                assert(crate::ullbc::view_blocks(self.body.elems@).subrange(0, bi as int)
                    =~= crate::ullbc::view_blocks(elems_before).subrange(0, bi as int));
            }
            bi = bi + 1;
        }
        proof {
            assert(ob.subrange(bi as int, ob.len() as int) =~= Seq::<
                Option<crate::ullbc::BlockDataV>,
            >::empty());
            let (lf, bf) = process_blocks(*r, ol, ob);
            let (lc, bc) = process_blocks(
                *r,
                crate::ullbc::view_locals(self.locals),
                ob.subrange(bi as int, ob.len() as int),
            );
            assert(bc =~= Seq::<Option<crate::ullbc::BlockDataV>>::empty());
            assert(bf =~= crate::ullbc::view_blocks(self.body.elems@).subrange(0, bi as int) + bc);
            assert(crate::ullbc::view_blocks(self.body.elems@).subrange(0, bi as int)
                =~= crate::ullbc::view_blocks(self.body.elems@));
            assert(bf =~= crate::ullbc::view_blocks(self.body.elems@));
        }
    }
}

// ---------------------------------------------------------------------------
// Operand traversal
// ---------------------------------------------------------------------------
/// The operands of an rvalue, in program order.
pub open spec fn rvalue_operands(r: crate::ullbc::RvalueV) -> Seq<crate::ullbc::OperandV> {
    match r {
        crate::ullbc::RvalueV::Use(o) => seq![o],
        crate::ullbc::RvalueV::Ref(_, _) => Seq::empty(),
        crate::ullbc::RvalueV::RawPtr(_, _) => Seq::empty(),
        crate::ullbc::RvalueV::UnaryOp(_, o) => seq![o],
        crate::ullbc::RvalueV::BinaryOp(_, a, b) => seq![a, b],
        crate::ullbc::RvalueV::Aggregate(_, fields) => fields,
        crate::ullbc::RvalueV::Global(_) => Seq::empty(),
        crate::ullbc::RvalueV::GlobalRef(_, _) => Seq::empty(),
        crate::ullbc::RvalueV::Repeat(o, _, _) => seq![o],
    }
}

/// The rvalue with its operands replaced, in program order.
pub open spec fn rvalue_with_operands(
    r: crate::ullbc::RvalueV,
    ops: Seq<crate::ullbc::OperandV>,
) -> crate::ullbc::RvalueV {
    match r {
        crate::ullbc::RvalueV::Use(_) => crate::ullbc::RvalueV::Use(ops[0]),
        crate::ullbc::RvalueV::Ref(p, k) => crate::ullbc::RvalueV::Ref(p, k),
        crate::ullbc::RvalueV::RawPtr(p, k) => crate::ullbc::RvalueV::RawPtr(p, k),
        crate::ullbc::RvalueV::UnaryOp(u, _) => crate::ullbc::RvalueV::UnaryOp(u, ops[0]),
        crate::ullbc::RvalueV::BinaryOp(b, _, _) => crate::ullbc::RvalueV::BinaryOp(
            b,
            ops[0],
            ops[1],
        ),
        crate::ullbc::RvalueV::Aggregate(k, _) => crate::ullbc::RvalueV::Aggregate(k, ops),
        crate::ullbc::RvalueV::Global(id) => crate::ullbc::RvalueV::Global(id),
        crate::ullbc::RvalueV::GlobalRef(id, k) => crate::ullbc::RvalueV::GlobalRef(id, k),
        crate::ullbc::RvalueV::Repeat(_, t, n) => crate::ullbc::RvalueV::Repeat(ops[0], t, n),
    }
}

/// The operands of a statement content, in program order.  The operands of
/// the sub-blocks of a statement-level branch are not part of this list:
/// they belong to the statements inside those blocks.
pub open spec fn stmt_operands(s: crate::ullbc::RawStatementV) -> Seq<crate::ullbc::OperandV> {
    match s {
        crate::ullbc::RawStatementV::Assign(_, r) => rvalue_operands(r),
        crate::ullbc::RawStatementV::Call(c) => c.args,
        crate::ullbc::RawStatementV::Assert(a) => seq![a.cond],
        crate::ullbc::RawStatementV::Abort(_) => Seq::empty(),
        crate::ullbc::RawStatementV::Switch(sw) => match *sw {
            crate::ullbc::SwitchV::If(o, _, _) => seq![o],
        },
        crate::ullbc::RawStatementV::Nop => Seq::empty(),
    }
}

/// The statement content with its operands replaced, in program order.
pub open spec fn stmt_with_operands(
    s: crate::ullbc::RawStatementV,
    ops: Seq<crate::ullbc::OperandV>,
) -> crate::ullbc::RawStatementV {
    match s {
        crate::ullbc::RawStatementV::Assign(p, r) => crate::ullbc::RawStatementV::Assign(
            p,
            rvalue_with_operands(r, ops),
        ),
        crate::ullbc::RawStatementV::Call(c) => crate::ullbc::RawStatementV::Call(
            crate::ullbc::CallV { func: c.func, args: ops, dest: c.dest },
        ),
        crate::ullbc::RawStatementV::Assert(a) => crate::ullbc::RawStatementV::Assert(
            crate::ullbc::AssertV { cond: ops[0], expected: a.expected },
        ),
        crate::ullbc::RawStatementV::Abort(k) => crate::ullbc::RawStatementV::Abort(k),
        crate::ullbc::RawStatementV::Switch(sw) => match *sw {
            crate::ullbc::SwitchV::If(_, b1, b2) => crate::ullbc::RawStatementV::Switch(
                Box::new(crate::ullbc::SwitchV::If(ops[0], b1, b2)),
            ),
        },
        crate::ullbc::RawStatementV::Nop => crate::ullbc::RawStatementV::Nop,
    }
}

/// The operands of a terminator content.
pub open spec fn term_operands(t: crate::ullbc::RawTerminatorV) -> Seq<crate::ullbc::OperandV> {
    match t {
        crate::ullbc::RawTerminatorV::Switch { discr, targets } => seq![discr],
        _ => Seq::empty(),
    }
}

/// The terminator content with its operands replaced.
pub open spec fn term_with_operands(
    t: crate::ullbc::RawTerminatorV,
    ops: Seq<crate::ullbc::OperandV>,
) -> crate::ullbc::RawTerminatorV {
    match t {
        crate::ullbc::RawTerminatorV::Switch { discr, targets } => crate::ullbc::RawTerminatorV::Switch {
            discr: ops[0],
            targets,
        },
        _ => t,
    }
}

/// An operand transformer: rewrites one operand, possibly appending
/// statements that evaluate sub-expressions into fresh temporaries.
pub trait OperandTransformer {
    /// The locals table after transforming one operand.
    spec fn spec_locals(&self, locals: LocalsV, span: Span, op: crate::ullbc::OperandV) -> LocalsV;

    /// The rewritten operand.
    spec fn spec_op(
        &self,
        locals: LocalsV,
        span: Span,
        op: crate::ullbc::OperandV,
    ) -> crate::ullbc::OperandV;

    /// The statements the transformation emits for one operand.
    spec fn spec_emitted(&self, locals: LocalsV, span: Span, op: crate::ullbc::OperandV) -> Seq<
        StatementV,
    >;

    /// Transform one operand in place, appending the emitted statements.
    fn transform_op(
        &self,
        span: &Span,
        locals: &mut Locals,
        nst: &mut Vec<Statement>,
        op: &mut Operand,
    )
        ensures
            final(locals)@ == self.spec_locals(old(locals)@, *span, old(op)@),
            final(op)@ == self.spec_op(old(locals)@, *span, old(op)@),
            view_statements(final(nst)@) == view_statements(old(nst)@) + self.spec_emitted(
                old(locals)@,
                *span,
                old(op)@,
            ),
    ;
}

/// Left-to-right processing of a list of operands, threading the locals
/// table and collecting the emitted statements and the rewritten operands.
pub open spec fn process_operands<T: OperandTransformer>(
    t: T,
    locals: LocalsV,
    span: Span,
    ops: Seq<crate::ullbc::OperandV>,
) -> (LocalsV, Seq<StatementV>, Seq<crate::ullbc::OperandV>)
    decreases ops.len(),
{
    if ops.len() == 0 {
        (locals, Seq::empty(), Seq::empty())
    } else {
        let l1 = t.spec_locals(locals, span, ops[0]);
        let o1 = t.spec_op(locals, span, ops[0]);
        let e1 = t.spec_emitted(locals, span, ops[0]);
        let (l2, e2, os2) = process_operands(t, l1, span, ops.subrange(1, ops.len() as int));
        (l2, e1 + e2, seq![o1] + os2)
    }
}

/// Processing a concatenated operand list processes the two halves in
/// order.
pub proof fn lemma_process_operands_concat<T: OperandTransformer>(
    t: T,
    locals: LocalsV,
    span: Span,
    a: Seq<crate::ullbc::OperandV>,
    b: Seq<crate::ullbc::OperandV>,
)
    ensures
        ({
            let (l1, e1, o1) = process_operands(t, locals, span, a);
            let (l2, e2, o2) = process_operands(t, l1, span, b);
            process_operands(t, locals, span, a + b) == (l2, e1 + e2, o1 + o2)
        }),
    decreases a.len(),
{
    let (l1, e1, o1) = process_operands(t, locals, span, a);
    let (l2, e2, o2) = process_operands(t, l1, span, b);
    if a.len() == 0 {
        assert(a + b =~= b);
        assert(e1 + e2 =~= e2);
        assert(o1 + o2 =~= o2);
    } else {
        let la = t.spec_locals(locals, span, a[0]);
        lemma_process_operands_concat(t, la, span, a.subrange(1, a.len() as int), b);
        assert((a + b).subrange(1, (a + b).len() as int) =~= a.subrange(1, a.len() as int) + b);
        assert((a + b)[0] == a[0]);
        let (lr, er, or) = process_operands(t, la, span, a.subrange(1, a.len() as int));
        let (lrb, erb, orb) = process_operands(t, lr, span, b);
        assert(t.spec_emitted(locals, span, a[0]) + (er + erb) =~= (t.spec_emitted(
            locals,
            span,
            a[0],
        ) + er) + erb);
        assert(seq![t.spec_op(locals, span, a[0])] + (or + orb) =~= (seq![
            t.spec_op(locals, span, a[0]),
        ] + or) + orb);
    }
}

/// Processing one operand: the three results, spelled out.
pub proof fn lemma_process_operands_one<T: OperandTransformer>(
    t: T,
    locals: LocalsV,
    span: Span,
    o: crate::ullbc::OperandV,
)
    ensures
        process_operands(t, locals, span, seq![o]) == (
            t.spec_locals(locals, span, o),
            t.spec_emitted(locals, span, o),
            seq![t.spec_op(locals, span, o)],
        ),
{
    let s = seq![o];
    assert(s.subrange(1, 1) =~= Seq::<crate::ullbc::OperandV>::empty());
    let l1 = t.spec_locals(locals, span, o);
    assert(process_operands(t, l1, span, Seq::<crate::ullbc::OperandV>::empty()) == (
        l1,
        Seq::<StatementV>::empty(),
        Seq::<crate::ullbc::OperandV>::empty(),
    ));
    assert(s[0] == o);
    assert(t.spec_emitted(locals, span, o) + Seq::<StatementV>::empty() =~= t.spec_emitted(
        locals,
        span,
        o,
    ));
    assert(seq![t.spec_op(locals, span, o)] + Seq::<crate::ullbc::OperandV>::empty() =~= seq![
        t.spec_op(locals, span, o),
    ]);
}

/// The result of visiting every operand of one statement: the new locals,
/// the statements emitted for the statement's own operands, and the
/// statement with its operands rewritten.  The branches of a
/// statement-level switch are visited recursively: the statements emitted
/// inside a branch are spliced within that branch.
pub open spec fn process_stmt_operands<T: OperandTransformer>(
    t: T,
    locals: LocalsV,
    st: StatementV,
) -> (LocalsV, Seq<StatementV>, StatementV)
    decreases st,
{
    match st.content {
        crate::ullbc::RawStatementV::Switch(sw) => match *sw {
            crate::ullbc::SwitchV::If(op, b1, b2) => {
                let (l1, em, ops) = process_operands(t, locals, st.span, seq![op]);
                let (l2, sts1) = process_block_operands(t, l1, b1.statements);
                let (l3, sts2) = process_block_operands(t, l2, b2.statements);
                (
                    l3,
                    em,
                    StatementV {
                        span: st.span,
                        content: crate::ullbc::RawStatementV::Switch(
                            Box::new(
                                crate::ullbc::SwitchV::If(
                                    ops[0],
                                    crate::ullbc::BlockV { span: b1.span, statements: sts1 },
                                    crate::ullbc::BlockV { span: b2.span, statements: sts2 },
                                ),
                            ),
                        ),
                    },
                )
            },
        },
        _ => {
            let (l, em, ops) = process_operands(t, locals, st.span, stmt_operands(st.content));
            (l, em, StatementV { span: st.span, content: stmt_with_operands(st.content, ops) })
        },
    }
}

/// The result of visiting every operand of a statement sequence, in program
/// order, the emitted statements spliced immediately before the statement
/// whose operand produced them.
pub open spec fn process_block_operands<T: OperandTransformer>(
    t: T,
    locals: LocalsV,
    sts: Seq<StatementV>,
) -> (LocalsV, Seq<StatementV>)
    decreases sts,
{
    if sts.len() == 0 {
        (locals, Seq::empty())
    } else {
        let (l1, em, st1) = process_stmt_operands(t, locals, sts[0]);
        let (l2, rest) = process_block_operands(t, l1, sts.subrange(1, sts.len() as int));
        (l2, em + seq![st1] + rest)
    }
}

// ---------------------------------------------------------------------------
// Structural equality of operands and constant expressions
// ---------------------------------------------------------------------------
/// Equality of raw-memory contents.
#[verifier::loop_isolation(false)]
fn eq_bytes(a: &Vec<u8>, b: &Vec<u8>) -> (r: bool)
    ensures
        r == (a@ == b@),
{
    if a.len() != b.len() {
        proof {
            assert(a@ != b@);
        }
        return false;
    }
    let mut i: usize = 0;
    while i < a.len()
        invariant
            i <= a@.len(),
            a@.len() == b@.len(),
            forall|j: int| 0 <= j < i ==> a@[j] == b@[j],
        decreases a@.len() - i,
    {
        if a[i] != b[i] {
            proof {
                assert(a@[i as int] != b@[i as int]);
            }
            return false;
        }
        i = i + 1;
    }
    proof {
        assert(a@ =~= b@);
    }
    true
}

/// Structural equality of function pointers.
fn eq_fn_ptr(a: &crate::ullbc::FnPtr, b: &crate::ullbc::FnPtr) -> (r: bool)
    ensures
        r == (crate::ullbc::view_fn_ptr(*a) == crate::ullbc::view_fn_ptr(*b)),
{
    let funcs = match (&a.func, &b.func) {
        (
            crate::ullbc::FunIdOrTraitMethodRef::Fun(f1),
            crate::ullbc::FunIdOrTraitMethodRef::Fun(f2),
        ) => *f1 == *f2,
        (
            crate::ullbc::FunIdOrTraitMethodRef::Trait(t1, n1),
            crate::ullbc::FunIdOrTraitMethodRef::Trait(t2, n2),
        ) => *n1 == *n2 && crate::types_utils::eq_trait_ref(t1, t2),
        _ => false,
    };
    let r = funcs && crate::types_utils::eq_args(&a.generics, &b.generics);
    proof {
        if r {
            assert(crate::ullbc::view_fn_ptr(*a) =~= crate::ullbc::view_fn_ptr(*b));
        }
    }
    r
}

/// Structural equality of constant expressions: equality of views.
#[verifier::loop_isolation(false)]
pub fn eq_const_expr(a: &crate::ullbc::ConstantExpr, b: &crate::ullbc::ConstantExpr) -> (r: bool)
    ensures
        r == (a@ == b@),
    decreases *a,
{
    let r = eq_raw_const_expr(&a.value, &b.value) && crate::types_utils::eq_ty(&a.ty, &b.ty);
    proof {
        if r {
            assert(a@ =~= b@);
        }
    }
    r
}

/// Structural equality of the contents of constant expressions.
#[verifier::loop_isolation(false)]
pub fn eq_raw_const_expr(
    a: &crate::ullbc::RawConstantExpr,
    b: &crate::ullbc::RawConstantExpr,
) -> (r: bool)
    ensures
        r == (crate::ullbc::view_raw_const_expr(*a) == crate::ullbc::view_raw_const_expr(*b)),
    decreases *a,
{
    match (a, b) {
        (crate::ullbc::RawConstantExpr::Literal(l1), crate::ullbc::RawConstantExpr::Literal(l2)) =>
        *l1 == *l2,
        (crate::ullbc::RawConstantExpr::Var(v1), crate::ullbc::RawConstantExpr::Var(v2)) => *v1
            == *v2,
        (
            crate::ullbc::RawConstantExpr::RawMemory(m1),
            crate::ullbc::RawConstantExpr::RawMemory(m2),
        ) => eq_bytes(m1, m2),
        (
            crate::ullbc::RawConstantExpr::TraitConst(t1, n1),
            crate::ullbc::RawConstantExpr::TraitConst(t2, n2),
        ) => *n1 == *n2 && crate::types_utils::eq_trait_ref(t1, t2),
        (crate::ullbc::RawConstantExpr::FnPtr(p1), crate::ullbc::RawConstantExpr::FnPtr(p2)) =>
        eq_fn_ptr(p1, p2),
        (crate::ullbc::RawConstantExpr::Global(g1), crate::ullbc::RawConstantExpr::Global(g2)) =>
        *g1 == *g2,
        (crate::ullbc::RawConstantExpr::Ref(c1), crate::ullbc::RawConstantExpr::Ref(c2)) =>
        eq_const_expr(&**c1, &**c2),
        (crate::ullbc::RawConstantExpr::MutPtr(c1), crate::ullbc::RawConstantExpr::MutPtr(c2)) =>
        eq_const_expr(&**c1, &**c2),
        (
            crate::ullbc::RawConstantExpr::Adt(v1, f1),
            crate::ullbc::RawConstantExpr::Adt(v2, f2),
        ) => {
            let vs = match (v1, v2) {
                (Some(x), Some(y)) => *x == *y,
                (None, None) => true,
                _ => false,
            };
            vs && eq_const_exprs(f1, f2)
        },
        (
            crate::ullbc::RawConstantExpr::Array(f1),
            crate::ullbc::RawConstantExpr::Array(f2),
        ) => eq_const_exprs(f1, f2),
        _ => false,
    }
}

/// Structural equality of constant-expression lists.
#[verifier::loop_isolation(false)]
pub fn eq_const_exprs(
    a: &Vec<crate::ullbc::ConstantExpr>,
    b: &Vec<crate::ullbc::ConstantExpr>,
) -> (r: bool)
    ensures
        r == (crate::ullbc::view_const_exprs(a@) == crate::ullbc::view_const_exprs(b@)),
    decreases a@,
{
    proof {
        crate::ullbc::lemma_view_const_exprs(a@);
        crate::ullbc::lemma_view_const_exprs(b@);
    }
    if a.len() != b.len() {
        proof {
            assert(crate::ullbc::view_const_exprs(a@).len() != crate::ullbc::view_const_exprs(
                b@,
            ).len());
        }
        return false;
    }
    let mut i: usize = 0;
    while i < a.len()
        invariant
            i <= a@.len(),
            a@.len() == b@.len(),
            forall|j: int|
                0 <= j < i ==> crate::ullbc::view_const_expr(a@[j]) == crate::ullbc::view_const_expr(
                    b@[j],
                ),
        decreases a@.len() - i,
    {
        if !eq_const_expr(&a[i], &b[i]) {
            proof {
                assert(crate::ullbc::view_const_exprs(a@)[i as int]
                    != crate::ullbc::view_const_exprs(b@)[i as int]);
            }
            return false;
        }
        i = i + 1;
    }
    proof {
        assert(crate::ullbc::view_const_exprs(a@) =~= crate::ullbc::view_const_exprs(b@));
    }
    true
}

impl Operand {
    /// Structural equality of operands: equality of views.
    pub fn struct_eq(&self, other: &Operand) -> (r: bool)
        ensures
            r == (self@ == other@),
    {
        match (self, other) {
            (Operand::Copy(p1), Operand::Copy(p2)) => *p1 == *p2,
            (Operand::Move(p1), Operand::Move(p2)) => *p1 == *p2,
            (Operand::Const(c1), Operand::Const(c2)) => eq_const_expr(c1, c2),
            _ => false,
        }
    }
}

/// Visit every operand of a vector of operands, left to right.
#[verifier::loop_isolation(false)]
fn transform_operand_vec<T: OperandTransformer>(
    t: &T,
    span: &Span,
    locals: &mut Locals,
    nst: &mut Vec<Statement>,
    ops: &mut Vec<Operand>,
)
    ensures
        ({
            let (l, em, os) = process_operands(
                *t,
                old(locals)@,
                *span,
                crate::ullbc::view_operands(old(ops)@),
            );
            final(locals)@ == l && view_statements(final(nst)@) == view_statements(old(nst)@) + em
                && crate::ullbc::view_operands(final(ops)@) == os && final(ops)@.len() == old(
                ops,
            )@.len()
        }),
{
    let ghost l0 = old(locals)@;
    let ghost nst0 = view_statements(old(nst)@);
    let ghost f0 = crate::ullbc::view_operands(old(ops)@);
    proof {
        assert(f0.subrange(0, 0) =~= Seq::<crate::ullbc::OperandV>::empty());
    }
    let mut j: usize = 0;
    while j < ops.len()
        invariant
            j <= ops@.len(),
            ops@.len() == old(ops)@.len(),
            forall|k: int| j <= k < ops@.len() ==> ops@[k] == old(ops)@[k],
            ({
                let (lj, ej, oj) = process_operands(*t, l0, *span, f0.subrange(0, j as int));
                locals@ == lj && view_statements(nst@) == nst0 + ej && oj.len() == j as nat
                    && (forall|k: int|
                    0 <= k < j ==> crate::ullbc::view_operand(#[trigger] ops@[k]) == oj[k])
            }),
        decreases ops@.len() - j,
    {
        let ghost (lj, ej, oj) = process_operands(*t, l0, *span, f0.subrange(0, j as int));
        t.transform_op(span, locals, nst, &mut ops[j]);
        proof {
            assert(f0.subrange(0, j + 1) =~= f0.subrange(0, j as int) + seq![f0[j as int]]);
            lemma_process_operands_concat(*t, l0, *span, f0.subrange(0, j as int), seq![
                f0[j as int],
            ]);
            lemma_process_operands_one(*t, lj, *span, f0[j as int]);
            let (lj2, ej2, oj2) = process_operands(*t, l0, *span, f0.subrange(0, j + 1));
            assert(lj2 == t.spec_locals(lj, *span, f0[j as int]));
            assert(ej2 =~= ej + t.spec_emitted(lj, *span, f0[j as int]));
            assert(oj2 =~= oj + seq![t.spec_op(lj, *span, f0[j as int])]);
        }
        j = j + 1;
    }
    proof {
        assert(f0.subrange(0, j as int) =~= f0);
        let (l, em, os) = process_operands(*t, l0, *span, f0);
        assert(crate::ullbc::view_operands(ops@) =~= os);
    }
}

/// Visit every operand of one statement, in program order, appending the
/// statements emitted for this statement's own operands.  The branches of a
/// statement-level switch are visited recursively; what a branch emits is
/// spliced inside that branch.
#[verifier::loop_isolation(false)]
#[verifier::rlimit(100)]
fn transform_statement_operands<T: OperandTransformer>(
    t: &T,
    locals: &mut Locals,
    nst: &mut Vec<Statement>,
    st: &mut Statement,
)
    ensures
        ({
            let (l, em, st2) = process_stmt_operands(*t, old(locals)@, old(st)@);
            final(locals)@ == l && final(st)@ == st2 && view_statements(final(nst)@)
                == view_statements(old(nst)@) + em
        }),
    decreases *old(st),
{
    let span = st.span;
    let ghost l0 = old(locals)@;
    let ghost nst0 = view_statements(old(nst)@);
    let ghost st0 = *old(st);
    let is_switch = match &st.content {
        RawStatement::Switch(_) => true,
        _ => false,
    };
    if is_switch {
        let mut content = RawStatement::Nop;
        core::mem::swap(&mut st.content, &mut content);
        match content {
            RawStatement::Switch(crate::ullbc::Switch::If(mut op, mut b1, mut b2)) => {
                let ghost op0 = op;
                let ghost b10 = b1;
                let ghost b20 = b2;
                let ghost o0 = crate::ullbc::view_operand(op);
                t.transform_op(&span, locals, nst, &mut op);
                proof {
                    lemma_process_operands_one(*t, l0, span, o0);
                }
                proof {
                    assert(decreases_to!(st0 => b10.statements@));
                    assert(b1.statements@ == b10.statements@);
                }
                transform_stmt_list_operands(t, locals, &mut b1.statements);
                proof {
                    assert(decreases_to!(st0 => b20.statements@));
                    assert(b2.statements@ == b20.statements@);
                }
                transform_stmt_list_operands(t, locals, &mut b2.statements);
                let ghost b1f = b1;
                let ghost b2f = b2;
                let ghost opf = op;
                st.content = RawStatement::Switch(crate::ullbc::Switch::If(op, b1, b2));
                proof {
                    reveal_with_fuel(crate::ullbc::view_statement, 4);
                    reveal_with_fuel(crate::ullbc::view_raw_statement, 4);
                    reveal_with_fuel(crate::ullbc::view_switch, 4);
                    reveal_with_fuel(crate::ullbc::view_block, 4);
                    assert(st0.content == RawStatement::Switch(
                        crate::ullbc::Switch::If(op0, b10, b20),
                    ));
                    assert(st0@.content == crate::ullbc::RawStatementV::Switch(
                        Box::new(
                            crate::ullbc::SwitchV::If(
                                o0,
                                crate::ullbc::view_block(b10),
                                crate::ullbc::view_block(b20),
                            ),
                        ),
                    ));
                    assert(st.content == RawStatement::Switch(
                        crate::ullbc::Switch::If(opf, b1f, b2f),
                    ));
                    let (l1s, em_s, ops_s) = process_operands(*t, l0, span, seq![o0]);
                    let (l2s, sts1) = process_block_operands(
                        *t,
                        l1s,
                        crate::ullbc::view_block(b10).statements,
                    );
                    let (l3s, sts2) = process_block_operands(
                        *t,
                        l2s,
                        crate::ullbc::view_block(b20).statements,
                    );
                    assert(crate::ullbc::view_operand(opf) == ops_s[0]);
                    assert(crate::ullbc::view_block(b1f).statements == sts1);
                    assert(crate::ullbc::view_block(b2f).statements == sts2);
                    assert(b1f.span == b10.span);
                    assert(b2f.span == b20.span);
                    assert(st@ =~= process_stmt_operands(*t, l0, st0@).2);
                    assert(locals@ == process_stmt_operands(*t, l0, st0@).0);
                    assert(view_statements(nst@) == nst0 + process_stmt_operands(
                        *t,
                        l0,
                        st0@,
                    ).1);
                }
            },
            _ => {
                proof {
                    assert(false);
                }
            },
        }
        return ;
    }
    match &mut st.content {
        RawStatement::Assign(_, rv) => {
            match rv {
                crate::ullbc::Rvalue::Use(op) => {
                    let ghost o0 = crate::ullbc::view_operand(*op);
                    t.transform_op(&span, locals, nst, op);
                    proof {
                        lemma_process_operands_one(*t, l0, span, o0);
                    }
                },
                crate::ullbc::Rvalue::UnaryOp(_, op) => {
                    let ghost o0 = crate::ullbc::view_operand(*op);
                    t.transform_op(&span, locals, nst, op);
                    proof {
                        lemma_process_operands_one(*t, l0, span, o0);
                    }
                },
                crate::ullbc::Rvalue::Repeat(op, _, _) => {
                    let ghost o0 = crate::ullbc::view_operand(*op);
                    t.transform_op(&span, locals, nst, op);
                    proof {
                        lemma_process_operands_one(*t, l0, span, o0);
                    }
                },
                crate::ullbc::Rvalue::BinaryOp(_, a, b) => {
                    let ghost a0 = crate::ullbc::view_operand(*a);
                    let ghost b0 = crate::ullbc::view_operand(*b);
                    t.transform_op(&span, locals, nst, a);
                    t.transform_op(&span, locals, nst, b);
                    proof {
                        assert(seq![a0, b0] =~= seq![a0] + seq![b0]);
                        lemma_process_operands_concat(*t, l0, span, seq![a0], seq![b0]);
                        lemma_process_operands_one(*t, l0, span, a0);
                        lemma_process_operands_one(*t, t.spec_locals(l0, span, a0), span, b0);
                        let (l, em, os) = process_operands(*t, l0, span, seq![a0, b0]);
                        assert(em =~= t.spec_emitted(l0, span, a0) + t.spec_emitted(
                            t.spec_locals(l0, span, a0),
                            span,
                            b0,
                        ));
                        assert(os =~= seq![
                            t.spec_op(l0, span, a0),
                            t.spec_op(t.spec_locals(l0, span, a0), span, b0),
                        ]);
                    }
                },
                crate::ullbc::Rvalue::Aggregate(_, fields) => {
                    transform_operand_vec(t, &span, locals, nst, fields);
                },
                _ => {
                    proof {
                        assert(view_statements(nst@) =~= nst0 + Seq::<StatementV>::empty());
                    }
                },
            }
        },
        RawStatement::Call(c) => {
            transform_operand_vec(t, &span, locals, nst, &mut c.args);
        },
        RawStatement::Assert(a) => {
            let ghost o0 = crate::ullbc::view_operand(a.cond);
            t.transform_op(&span, locals, nst, &mut a.cond);
            proof {
                lemma_process_operands_one(*t, l0, span, o0);
            }
        },
        _ => {
            proof {
                assert(view_statements(nst@) =~= nst0 + Seq::<StatementV>::empty());
            }
        },
    }
}

/// Visit every operand of every statement of a list, in program order,
/// splicing what each statement's operands emit immediately before that
/// statement.
#[verifier::loop_isolation(false)]
fn transform_stmt_list_operands<T: OperandTransformer>(
    t: &T,
    locals: &mut Locals,
    sts: &mut Vec<Statement>,
)
    ensures
        ({
            let (l2, out) = process_block_operands(
                *t,
                old(locals)@,
                view_statements(old(sts)@),
            );
            final(locals)@ == l2 && view_statements(final(sts)@) == out
        }),
    decreases old(sts)@,
{
    let ghost ol = old(locals)@;
    let ghost orig = old(sts)@;
    let ghost os = view_statements(orig);
    let mut old_sts: Vec<Statement> = Vec::new();
    core::mem::swap(sts, &mut old_sts);
    let mut nst: Vec<Statement> = Vec::new();
    let ghost mut processed: int = 0;
    proof {
        assert(old_sts@ == orig);
        assert(view_statements(nst@) =~= Seq::<StatementV>::empty());
        assert(orig.subrange(0, orig.len() as int) =~= orig);
    }
    while old_sts.len() > 0
        invariant
            0 <= processed <= orig.len(),
            old_sts@ =~= orig.subrange(processed, orig.len() as int),
            ({
                let (lf, sf) = process_block_operands(*t, ol, os);
                let (lc, sc) = process_block_operands(*t, locals@, view_statements(old_sts@));
                lf == lc && sf == view_statements(nst@) + sc
            }),
        decreases old_sts@.len(),
    {
        let ghost tail_exec = old_sts@;
        let ghost pre_tail = view_statements(tail_exec);
        proof {
            crate::ullbc::lemma_view_statements(tail_exec);
        }
        let mut st = old_sts.remove(0);
        proof {
            assert(old_sts@ =~= tail_exec.subrange(1, tail_exec.len() as int));
            crate::ullbc::lemma_view_statements_subrange(tail_exec, 1, tail_exec.len() as int);
            assert(view_statements(old_sts@) == pre_tail.subrange(1, pre_tail.len() as int));
            assert(crate::ullbc::view_statement(st) == pre_tail[0]);
            assert(st == orig[processed]);
            assert(decreases_to!(old(sts)@ => orig[processed]));
            assert(old_sts@ =~= orig.subrange(processed + 1, orig.len() as int));
        }
        let ghost nst_before = view_statements(nst@);
        let ghost locals_before = locals@;
        transform_statement_operands(t, locals, &mut nst, &mut st);
        let ghost nst_mid_exec = nst@;
        nst.push(st);
        proof {
            let (l1, em, st2) = process_stmt_operands(*t, locals_before, pre_tail[0]);
            assert(nst@ == nst_mid_exec.push(st));
            assert(nst_mid_exec.push(st) =~= nst_mid_exec + seq![st]);
            crate::ullbc::lemma_view_statements_concat(nst_mid_exec, seq![st]);
            assert(seq![st].subrange(1, 1) =~= Seq::<Statement>::empty());
            assert(view_statements(seq![st]) =~= seq![crate::ullbc::view_statement(st)]);
            assert(crate::ullbc::view_statement(st) == st2);
            assert(view_statements(nst@) == view_statements(nst_mid_exec) + seq![st2]);
            assert(view_statements(nst_mid_exec) == nst_before + em);
            assert(view_statements(nst@) =~= nst_before + (em + seq![st2]) + Seq::<
                StatementV,
            >::empty());
            assert(nst_before + (em + seq![st2]) =~= nst_before + em + seq![st2]);
            processed = processed + 1;
        }
    }
    proof {
        assert(view_statements(old_sts@) =~= Seq::<StatementV>::empty());
    }
    core::mem::swap(sts, &mut nst);
    proof {
        let (l2, out) = process_block_operands(*t, ol, os);
        assert(view_statements(sts@) =~= out);
    }
}

impl BlockData {
    /// Visit every operand appearing in the statements and in the
    /// terminator, in program order; the statements a visit emits are
    /// spliced immediately before the statement (or before the terminator)
    /// that contained the operand.
    #[verifier::loop_isolation(false)]
    pub fn transform_operands<T: OperandTransformer>(&mut self, locals: &mut Locals, t: &T)
        ensures
            ({
                let (l1, new_sts) = process_block_operands(
                    *t,
                    old(locals)@,
                    old(self)@.statements,
                );
                let (l2, em_t, ops_t) = process_operands(
                    *t,
                    l1,
                    old(self)@.terminator.span,
                    term_operands(old(self)@.terminator.content),
                );
                final(locals)@ == l2 && final(self)@.statements == new_sts + em_t
                    && final(self)@.terminator == (TerminatorV {
                    span: old(self)@.terminator.span,
                    content: term_with_operands(old(self)@.terminator.content, ops_t),
                })
            }),
    {
        let ghost ol = old(locals)@;
        let ghost os = old(self)@.statements;
        transform_stmt_list_operands(t, locals, &mut self.statements);
        let sp = self.terminator.span;
        let ghost l1g = locals@;
        let ghost term0 = crate::ullbc::view_raw_terminator(self.terminator.content);
        match &mut self.terminator.content {
            RawTerminator::Switch { discr, targets: _ } => {
                let ghost o0 = crate::ullbc::view_operand(*discr);
                t.transform_op(&sp, locals, &mut self.statements, discr);
                proof {
                    lemma_process_operands_one(*t, l1g, sp, o0);
                }
            },
            _ => {
                proof {
                    assert(view_statements(self.statements@) =~= view_statements(
                        self.statements@,
                    ) + Seq::<StatementV>::empty());
                }
            },
        }
    }
}

/// The result of visiting every operand of one block slot: a hole stays a
/// hole.
pub open spec fn process_block_slot_operands<T: OperandTransformer>(
    t: T,
    locals: LocalsV,
    slot: Option<crate::ullbc::BlockDataV>,
) -> (LocalsV, Option<crate::ullbc::BlockDataV>) {
    match slot {
        Some(b) => {
            let (l1, sts) = process_block_operands(t, locals, b.statements);
            let (l2, em_t, ops_t) = process_operands(
                t,
                l1,
                b.terminator.span,
                term_operands(b.terminator.content),
            );
            (
                l2,
                Some(
                    crate::ullbc::BlockDataV {
                        statements: sts + em_t,
                        terminator: TerminatorV {
                            span: b.terminator.span,
                            content: term_with_operands(b.terminator.content, ops_t),
                        },
                    },
                ),
            )
        },
        None => (locals, None),
    }
}

/// The result of visiting every operand of every block, in order, the
/// locals table threading through.
pub open spec fn process_blocks_operands<T: OperandTransformer>(
    t: T,
    locals: LocalsV,
    blocks: Seq<Option<crate::ullbc::BlockDataV>>,
) -> (LocalsV, Seq<Option<crate::ullbc::BlockDataV>>)
    decreases blocks.len(),
{
    if blocks.len() == 0 {
        (locals, blocks)
    } else {
        let (l1, b1) = process_block_slot_operands(t, locals, blocks[0]);
        let (l2, rest) = process_blocks_operands(t, l1, blocks.subrange(1, blocks.len() as int));
        (l2, seq![b1] + rest)
    }
}

/// Replacing the operands of a terminator leaves its jump targets as they
/// were.
pub proof fn lemma_term_with_operands_targets(
    t: crate::ullbc::RawTerminatorV,
    ops: Seq<crate::ullbc::OperandV>,
)
    ensures
        crate::ullbc::terminator_targets(term_with_operands(t, ops))
            == crate::ullbc::terminator_targets(t),
{
}

/// The operand engine touches no block handle and no jump target: the
/// processed body has the same slots and holes, and every terminator keeps
/// its targets.
pub proof fn lemma_process_blocks_operands_structure<T: OperandTransformer>(
    t: T,
    locals: LocalsV,
    blocks: Seq<Option<crate::ullbc::BlockDataV>>,
)
    ensures
        ({
            let (l2, b2) = process_blocks_operands(t, locals, blocks);
            b2.len() == blocks.len() && (forall|i: int|
                0 <= i < blocks.len() ==> (b2[i] is Some <==> blocks[i] is Some)) && (forall|
                i: int,
            |
                0 <= i < blocks.len() && blocks[i] is Some
                    ==> crate::ullbc::terminator_targets(
                    b2[i]->Some_0.terminator.content,
                ) == crate::ullbc::terminator_targets(blocks[i]->Some_0.terminator.content))
        }),
    decreases blocks.len(),
{
    if blocks.len() > 0 {
        let (l1, b1) = process_block_slot_operands(t, locals, blocks[0]);
        match blocks[0] {
            Some(b) => {
                let (l1b, sts) = process_block_operands(t, locals, b.statements);
                let (l2b, em_t, ops_t) = process_operands(
                    t,
                    l1b,
                    b.terminator.span,
                    term_operands(b.terminator.content),
                );
                lemma_term_with_operands_targets(b.terminator.content, ops_t);
            },
            None => {},
        }
        lemma_process_blocks_operands_structure(t, l1, blocks.subrange(1, blocks.len() as int));
    }
}

/// Transform a body by applying an operand transformer to every operand of
/// every block, splicing the statements it emits before the statement (or
/// terminator) whose operand produced them.
#[verifier::loop_isolation(false)]
pub fn body_transform_operands<T: OperandTransformer>(
    blocks: &mut crate::ids::Vector<BlockId, BlockData>,
    locals: &mut Locals,
    t: &T,
)
    ensures
        ({
            let (l2, b2) = process_blocks_operands(
                *t,
                old(locals)@,
                crate::ullbc::view_blocks(old(blocks)@),
            );
            final(locals)@ == l2 && crate::ullbc::view_blocks(final(blocks)@) == b2
        }),
{
    let ghost ob = crate::ullbc::view_blocks(old(blocks)@);
    let ghost ol = old(locals)@;
    let mut bi: usize = 0;
    let n = blocks.elems.len();
    proof {
        assert(ob.subrange(0, ob.len() as int) =~= ob);
        let (lc0, bc0) = process_blocks_operands(*t, old(locals)@, ob);
        assert(crate::ullbc::view_blocks(blocks.elems@).subrange(0, 0) + bc0 =~= bc0);
    }
    while bi < n
        invariant
            bi <= n,
            n == blocks.elems@.len(),
            blocks.elems@.len() == ob.len(),
            forall|i: int| bi <= i < ob.len() ==> blocks.elems@[i] == old(blocks).elems@[i],
            ({
                let (lf, bf) = process_blocks_operands(*t, ol, ob);
                let (lc, bc) = process_blocks_operands(
                    *t,
                    locals@,
                    ob.subrange(bi as int, ob.len() as int),
                );
                lf == lc && bf == crate::ullbc::view_blocks(blocks.elems@).subrange(0, bi as int)
                    + bc
            }),
        decreases n - bi,
    {
        let ghost locals_before = locals@;
        let ghost elems_before = blocks.elems@;
        match &mut blocks.elems[bi] {
            Some(b) => {
                b.transform_operands(locals, t);
            },
            None => {},
        }
        proof {
            let tail_range = ob.subrange(bi as int, ob.len() as int);
            assert(tail_range[0] == ob[bi as int]);
            assert(tail_range.subrange(1, tail_range.len() as int) =~= ob.subrange(
                bi + 1,
                ob.len() as int,
            ));
            assert(ob[bi as int] == crate::ullbc::view_blocks(elems_before)[bi as int]);
            let (l1, b1) = process_block_slot_operands(*t, locals_before, ob[bi as int]);
            assert(locals@ == l1);
            assert(crate::ullbc::view_blocks(blocks.elems@)[bi as int] == b1);
            assert(forall|i: int|
                0 <= i < ob.len() && i != bi ==> blocks.elems@[i] == elems_before[i]);
            assert(crate::ullbc::view_blocks(blocks.elems@).subrange(0, bi + 1)
                =~= crate::ullbc::view_blocks(elems_before).subrange(0, bi as int) + seq![b1]);
            assert(crate::ullbc::view_blocks(blocks.elems@).subrange(0, bi as int)
                =~= crate::ullbc::view_blocks(elems_before).subrange(0, bi as int));
        }
        bi = bi + 1;
    }
    proof {
        assert(ob.subrange(bi as int, ob.len() as int) =~= Seq::<
            Option<crate::ullbc::BlockDataV>,
        >::empty());
        let (lf, bf) = process_blocks_operands(*t, ol, ob);
        let (lc, bc) = process_blocks_operands(
            *t,
            locals@,
            ob.subrange(bi as int, ob.len() as int),
        );
        assert(bc =~= Seq::<Option<crate::ullbc::BlockDataV>>::empty());
        assert(bf =~= crate::ullbc::view_blocks(blocks.elems@).subrange(0, bi as int) + bc);
        assert(crate::ullbc::view_blocks(blocks.elems@).subrange(0, bi as int)
            =~= crate::ullbc::view_blocks(blocks.elems@));
    }
}

} // verus!
