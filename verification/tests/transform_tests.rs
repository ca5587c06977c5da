//! Scenario tests for the pass pipeline.

use charon::ids::{FunDeclId, TypeDeclId, VarId, Vector};
use charon::meta::Span;
use charon::transform::ctx::TransformCtx;
use charon::transform::inline_local_panic_functions;
use charon::transform::insert_assign_return_unit;
use charon::transform::ops_to_function_calls;
use charon::transform::reconstruct_asserts;
use charon::transform::simplify_constants;
use charon::types::{
    AssumedTy, ConstGeneric, GenericArgs, GenericParams, IntegerTy, Literal, LiteralTy, RefKind,
    ScalarValue, Ty, TypeId,
};
use charon::ullbc::{
    AbortKind, AggregateKind, Assert, Block, BlockData, Call, ConstantExpr, ExprBody, FnOperand,
    FnPtr, FunDecl, FunId, FunIdOrTraitMethodRef, Locals, Name, Operand, Place, RawConstantExpr,
    RawStatement, RawTerminator, Rvalue, Statement, Switch, SwitchTargets, Terminator, UnOp,
    BuiltinFunId,
};

fn sp() -> Span {
    Span::dummy()
}

fn place(i: usize) -> Place {
    Place { var_id: VarId { index: i } }
}

fn empty_ctx() -> TransformCtx {
    TransformCtx { type_decls: Vector::new(), fun_decls: Vector::new() }
}

fn u8_ty() -> Ty {
    Ty::Literal(LiteralTy::Integer(IntegerTy::U8))
}

fn u8_lit(v: u8) -> Literal {
    Literal::Scalar(ScalarValue::U8(v))
}

fn array_u8_ty(n: u64) -> Ty {
    let mut types = Vec::new();
    types.push(u8_ty());
    let mut cgs = Vec::new();
    cgs.push(ConstGeneric::Value(Literal::Scalar(ScalarValue::Usize(n))));
    Ty::Adt(
        TypeId::Assumed(AssumedTy::Array),
        GenericArgs { regions: Vec::new(), types, const_generics: cgs, trait_refs: Vec::new() },
    )
}

fn const_u8(v: u8) -> ConstantExpr {
    ConstantExpr { value: RawConstantExpr::Literal(u8_lit(v)), ty: u8_ty() }
}

fn body_with_block(statements: Vec<Statement>, terminator: Terminator) -> ExprBody {
    let mut blocks: Vector<charon::ids::BlockId, BlockData> = Vector::new();
    blocks.push(BlockData { statements, terminator });
    ExprBody {
        span: sp(),
        locals: Locals { arg_count: 0, vars: Vector::new() },
        body: blocks,
    }
}

#[test]
fn operator_desugaring_array_to_slice() {
    // `Assign(p, UnaryOp(ArrayToSlice(Shared, ty, len), op))` becomes
    // `Call { func: ArrayToSliceShared<ty, len>, args: [op], dest: p }`.
    let len = ConstGeneric::Value(Literal::Scalar(ScalarValue::Usize(3)));
    let mut s = Statement::new(
        sp(),
        RawStatement::Assign(
            place(1),
            Rvalue::UnaryOp(
                UnOp::ArrayToSlice(RefKind::Shared, u8_ty(), len),
                Operand::Copy(place(2)),
            ),
        ),
    );
    ops_to_function_calls::transform_st(&mut s);
    match &s.content {
        RawStatement::Call(c) => {
            assert_eq!(c.dest, place(1));
            assert_eq!(c.args.len(), 1);
            match &c.args[0] {
                Operand::Copy(p) => assert_eq!(*p, place(2)),
                _ => panic!("expected a copy of the source place"),
            }
            match &c.func {
                FnOperand::Regular(fnp) => {
                    assert!(matches!(
                        fnp.func,
                        FunIdOrTraitMethodRef::Fun(FunId::Builtin(
                            BuiltinFunId::ArrayToSliceShared,
                        ))
                    ));
                    assert_eq!(fnp.generics.regions.len(), 1);
                    assert_eq!(fnp.generics.types.len(), 1);
                    assert_eq!(fnp.generics.const_generics.len(), 1);
                    assert_eq!(fnp.generics.trait_refs.len(), 0);
                },
                _ => panic!("expected a regular function operand"),
            }
        },
        _ => panic!("expected a call"),
    }
}

#[test]
fn operator_desugaring_repeat() {
    let len = ConstGeneric::Value(Literal::Scalar(ScalarValue::Usize(4)));
    let mut s = Statement::new(
        sp(),
        RawStatement::Assign(place(1), Rvalue::Repeat(Operand::Copy(place(2)), u8_ty(), len)),
    );
    ops_to_function_calls::transform_st(&mut s);
    match &s.content {
        RawStatement::Call(c) => match &c.func {
            FnOperand::Regular(fnp) => {
                assert!(matches!(
                    fnp.func,
                    FunIdOrTraitMethodRef::Fun(FunId::Builtin(BuiltinFunId::ArrayRepeat))
                ));
            },
            _ => panic!("expected a regular function operand"),
        },
        _ => panic!("expected a call"),
    }
}

#[test]
fn operator_desugaring_ignores_other_statements() {
    let mut s = Statement::new(sp(), RawStatement::Nop);
    ops_to_function_calls::transform_st(&mut s);
    assert!(matches!(s.content, RawStatement::Nop));
}

#[test]
fn assert_reconstruction() {
    // `if cond { abort(Panic(core::panicking::panic_explicit)); } else { s1; s2 }`
    // becomes `[Assert { cond, expected: false }, s1, s2]`.
    let cond = Operand::Copy(place(3));
    let panic_stmt = Statement::new(
        sp(),
        RawStatement::Abort(AbortKind::Panic(Name::from_path(
            "core::panicking::panic_explicit",
        ))),
    );
    let s1 = Statement::new(sp(), RawStatement::Nop);
    let s2 = Statement::new(
        sp(),
        RawStatement::Assign(place(4), Rvalue::Use(Operand::Copy(place(5)))),
    );
    let then_block = Block { span: sp(), statements: vec![panic_stmt] };
    let else_block = Block { span: sp(), statements: vec![s1, s2] };
    let if_stmt = Statement::new(
        sp(),
        RawStatement::Switch(Switch::If(cond, then_block, else_block)),
    );
    let mut body = body_with_block(
        vec![if_stmt],
        Terminator::new(sp(), RawTerminator::Return),
    );
    let mut ctx = empty_ctx();
    reconstruct_asserts::Transform.transform_body(&mut ctx, &mut body);
    let blk = body.body.get(charon::ids::BlockId { index: 0 }).unwrap();
    assert_eq!(blk.statements.len(), 3);
    match &blk.statements[0].content {
        RawStatement::Assert(Assert { cond, expected }) => {
            assert!(matches!(cond, Operand::Copy(p) if *p == place(3)));
            assert!(!*expected);
        },
        _ => panic!("expected an assert"),
    }
    assert!(matches!(blk.statements[1].content, RawStatement::Nop));
    assert!(matches!(blk.statements[2].content, RawStatement::Assign(_, _)));
}

#[test]
fn assert_reconstruction_requires_leading_abort() {
    // A then branch whose abort is not the first statement does not fire.
    let cond = Operand::Copy(place(3));
    let panic_stmt = Statement::new(
        sp(),
        RawStatement::Abort(AbortKind::Panic(Name::from_path(
            "core::panicking::panic_explicit",
        ))),
    );
    let nop = Statement::new(sp(), RawStatement::Nop);
    let then_block = Block { span: sp(), statements: vec![nop, panic_stmt] };
    let else_block = Block { span: sp(), statements: vec![] };
    let if_stmt = Statement::new(
        sp(),
        RawStatement::Switch(Switch::If(cond, then_block, else_block)),
    );
    let mut body = body_with_block(
        vec![if_stmt],
        Terminator::new(sp(), RawTerminator::Return),
    );
    let mut ctx = empty_ctx();
    reconstruct_asserts::Transform.transform_body(&mut ctx, &mut body);
    let blk = body.body.get(charon::ids::BlockId { index: 0 }).unwrap();
    assert_eq!(blk.statements.len(), 1);
    assert!(matches!(blk.statements[0].content, RawStatement::Switch(_)));
}

fn unit_sig() -> charon::types::FunSig {
    charon::types::FunSig {
        is_unsafe: false,
        is_closure: false,
        closure_info: None,
        generics: GenericParams {
            regions: Vector::new(),
            types: Vector::new(),
            const_generics: Vector::new(),
            trait_clauses: Vector::new(),
            regions_outlive: Vec::new(),
            types_outlive: Vec::new(),
            trait_type_constraints: Vec::new(),
        },
        parent_params_info: None,
        inputs: Vec::new(),
        output: Ty::unit(),
    }
}

#[test]
fn panic_folding() {
    // A zero-argument function whose sole body statement is
    // `abort(Panic(core::panicking::panic_explicit))` is removed, and every
    // call to it becomes that abort directly.
    let panic_stmt = Statement::new(
        sp(),
        RawStatement::Abort(AbortKind::Panic(Name::from_path(
            "core::panicking::panic_explicit",
        ))),
    );
    let shim_body = body_with_block(
        vec![panic_stmt],
        Terminator::new(sp(), RawTerminator::Return),
    );
    let mut ctx = empty_ctx();
    let shim_id = ctx.fun_decls.push(FunDecl {
        def_id: FunDeclId { index: 0 },
        sig: unit_sig(),
        body: Some(shim_body),
    });
    let call_stmt = Statement::new(
        sp(),
        RawStatement::Call(Call {
            func: FnOperand::Regular(FnPtr {
                func: FunIdOrTraitMethodRef::Fun(FunId::Regular(shim_id)),
                generics: GenericArgs::empty(),
            }),
            args: Vec::new(),
            dest: place(0),
        }),
    );
    let caller_body = body_with_block(
        vec![call_stmt],
        Terminator::new(sp(), RawTerminator::Return),
    );
    ctx.fun_decls.push(FunDecl {
        def_id: FunDeclId { index: 1 },
        sig: unit_sig(),
        body: Some(caller_body),
    });
    inline_local_panic_functions::Transform.transform_ctx(&mut ctx);
    // The shim is gone; its handle is not reused.
    assert!(ctx.fun_decls.get(shim_id).is_none());
    assert_eq!(ctx.fun_decls.slot_count(), 2);
    // The call site is now a direct abort of the same kind.
    let caller = ctx.fun_decls.get(FunDeclId { index: 1 }).unwrap();
    let body = caller.body.as_ref().unwrap();
    let blk = body.body.get(charon::ids::BlockId { index: 0 }).unwrap();
    match &blk.statements[0].content {
        RawStatement::Abort(AbortKind::Panic(n)) => {
            assert!(n.equals(&Name::from_path("core::panicking::panic_explicit")));
        },
        _ => panic!("expected a panic abort"),
    }
}

fn run_simplify(body: &mut ExprBody) {
    let mut ctx = empty_ctx();
    let outcome = simplify_constants::Transform.transform_body(&mut ctx, body);
    assert!(outcome.is_ok());
}

fn const_array(elems: Vec<ConstantExpr>, n: u64) -> Operand {
    Operand::Const(ConstantExpr {
        value: RawConstantExpr::Array(elems),
        ty: array_u8_ty(n),
    })
}

fn simplified_body(op: Operand) -> ExprBody {
    let use_stmt = Statement::new(sp(), RawStatement::Assign(place(0), Rvalue::Use(op)));
    let mut body = body_with_block(
        vec![use_stmt],
        Terminator::new(sp(), RawTerminator::Return),
    );
    run_simplify(&mut body);
    body
}

#[test]
fn repeat_optimization_all_equal() {
    // A constant array of length >= 2 with all-equal elements becomes a
    // repeat rvalue.
    let body = simplified_body(const_array(vec![const_u8(7), const_u8(7), const_u8(7)], 3));
    let sts = &body.body.get(charon::ids::BlockId { index: 0 }).unwrap().statements;
    assert_eq!(sts.len(), 2);
    match &sts[0].content {
        RawStatement::Assign(_, Rvalue::Repeat(op, _, _)) => {
            assert!(op.struct_eq(&Operand::Const(const_u8(7))));
        },
        _ => panic!("expected a repeat"),
    }
}

#[test]
fn repeat_optimization_differing_element() {
    let body = simplified_body(const_array(vec![const_u8(7), const_u8(8)], 2));
    let sts = &body.body.get(charon::ids::BlockId { index: 0 }).unwrap().statements;
    assert_eq!(sts.len(), 2);
    match &sts[0].content {
        RawStatement::Assign(_, Rvalue::Aggregate(AggregateKind::Array(_, _), fields)) => {
            assert_eq!(fields.len(), 2);
        },
        _ => panic!("expected an aggregate"),
    }
}

#[test]
fn repeat_optimization_short_arrays() {
    // Arrays of length 1 and 0 always become aggregates.
    let body = simplified_body(const_array(vec![const_u8(7)], 1));
    let sts = &body.body.get(charon::ids::BlockId { index: 0 }).unwrap().statements;
    assert!(matches!(
        sts[0].content,
        RawStatement::Assign(_, Rvalue::Aggregate(AggregateKind::Array(_, _), _))
    ));
    let body = simplified_body(const_array(vec![], 0));
    let sts = &body.body.get(charon::ids::BlockId { index: 0 }).unwrap().statements;
    assert!(matches!(
        sts[0].content,
        RawStatement::Assign(_, Rvalue::Aggregate(AggregateKind::Array(_, _), _))
    ));
}

#[test]
fn constant_normalization_idempotent() {
    // Applying the normalization twice yields the same result as once.
    let inner = ConstantExpr {
        value: RawConstantExpr::Array(vec![const_u8(1), const_u8(2)]),
        ty: array_u8_ty(2),
    };
    let use_stmt = Statement::new(
        sp(),
        RawStatement::Assign(place(0), Rvalue::Use(Operand::Const(inner))),
    );
    let mut body = body_with_block(
        vec![use_stmt],
        Terminator::new(sp(), RawTerminator::Return),
    );
    run_simplify(&mut body);
    let count_after_one = body
        .body
        .get(charon::ids::BlockId { index: 0 })
        .unwrap()
        .statements
        .len();
    let vars_after_one = body.locals.vars.slot_count();
    run_simplify(&mut body);
    let count_after_two = body
        .body
        .get(charon::ids::BlockId { index: 0 })
        .unwrap()
        .statements
        .len();
    assert_eq!(count_after_one, count_after_two);
    assert_eq!(vars_after_one, body.locals.vars.slot_count());
}

#[test]
fn constant_adt_normalization() {
    // `f(const T::A(x))` introduces an aggregate bound to a fresh
    // temporary.
    let adt_ty = Ty::Adt(TypeId::Adt(TypeDeclId { index: 0 }), GenericArgs::empty());
    let c = ConstantExpr {
        value: RawConstantExpr::Adt(None, vec![const_u8(7)]),
        ty: adt_ty,
    };
    let use_stmt = Statement::new(
        sp(),
        RawStatement::Assign(place(0), Rvalue::Use(Operand::Const(c))),
    );
    let mut body = body_with_block(
        vec![use_stmt],
        Terminator::new(sp(), RawTerminator::Return),
    );
    run_simplify(&mut body);
    let blk = body.body.get(charon::ids::BlockId { index: 0 }).unwrap();
    assert_eq!(blk.statements.len(), 2);
    assert!(matches!(
        blk.statements[0].content,
        RawStatement::Assign(_, Rvalue::Aggregate(AggregateKind::Adt(_, _, _, _), _))
    ));
    // The original statement now moves the fresh temporary.
    match &blk.statements[1].content {
        RawStatement::Assign(_, Rvalue::Use(Operand::Move(_))) => {},
        _ => panic!("expected a move of the temporary"),
    }
    assert_eq!(body.locals.vars.slot_count(), 1);
}

#[test]
fn return_unit_insertion() {
    let mut ctx = empty_ctx();
    let body = body_with_block(vec![], Terminator::new(sp(), RawTerminator::Return));
    let mut decl = FunDecl { def_id: FunDeclId { index: 0 }, sig: unit_sig(), body: Some(body) };
    insert_assign_return_unit::Transform.transform_decl(&mut ctx, &mut decl);
    let body = decl.body.as_ref().unwrap();
    let blk = body.body.get(charon::ids::BlockId { index: 0 }).unwrap();
    assert_eq!(blk.statements.len(), 1);
    match &blk.statements[0].content {
        RawStatement::Assign(p, Rvalue::Aggregate(AggregateKind::Adt(TypeId::Tuple, _, _, _), f)) => {
            assert_eq!(*p, place(0));
            assert!(f.is_empty());
        },
        _ => panic!("expected the unit assignment"),
    }
    // A second application changes nothing: the assignment is recognized.
    insert_assign_return_unit::Transform.transform_decl(&mut ctx, &mut decl);
    let body = decl.body.as_ref().unwrap();
    let blk = body.body.get(charon::ids::BlockId { index: 0 }).unwrap();
    assert_eq!(blk.statements.len(), 1);
}

#[test]
fn pipeline_runs_all_passes() {
    let mut ctx = empty_ctx();
    let body = body_with_block(vec![], Terminator::new(sp(), RawTerminator::Return));
    ctx.fun_decls.push(FunDecl {
        def_id: FunDeclId { index: 0 },
        sig: unit_sig(),
        body: Some(body),
    });
    charon::transform::pipeline::run_transform_pipeline(&mut ctx);
    assert_eq!(ctx.fun_decls.slot_count(), 1);
    let decl = ctx.fun_decls.get(FunDeclId { index: 0 }).unwrap();
    let blk = decl.body.as_ref().unwrap().body.get(charon::ids::BlockId { index: 0 }).unwrap();
    assert_eq!(blk.statements.len(), 1);
}

#[test]
fn switch_targets() {
    let t = SwitchTargets::If(charon::ids::BlockId { index: 1 }, charon::ids::BlockId {
        index: 2,
    });
    let targets = t.get_targets();
    assert_eq!(targets.len(), 2);
    assert_eq!(targets[0].index, 1);
    assert_eq!(targets[1].index, 2);
    let t = SwitchTargets::SwitchInt(
        IntegerTy::U8,
        vec![
            (ScalarValue::U8(0), charon::ids::BlockId { index: 3 }),
            (ScalarValue::U8(1), charon::ids::BlockId { index: 4 }),
        ],
        charon::ids::BlockId { index: 5 },
    );
    let targets = t.get_targets();
    assert_eq!(targets.len(), 3);
    assert_eq!(targets[2].index, 5);
}

#[test]
fn passes_preserve_block_targets() {
    // After the pipeline, every terminator still addresses a block of the
    // body: handles are stable and never renumbered.
    let mut blocks: Vector<charon::ids::BlockId, BlockData> = Vector::new();
    let goto = Terminator::new(
        sp(),
        RawTerminator::Goto { target: charon::ids::BlockId { index: 1 } },
    );
    blocks.push(BlockData { statements: vec![], terminator: goto });
    blocks.push(BlockData {
        statements: vec![],
        terminator: Terminator::new(sp(), RawTerminator::Return),
    });
    let body = ExprBody {
        span: sp(),
        locals: Locals { arg_count: 0, vars: Vector::new() },
        body: blocks,
    };
    let mut ctx = empty_ctx();
    ctx.fun_decls.push(FunDecl {
        def_id: FunDeclId { index: 0 },
        sig: unit_sig(),
        body: Some(body),
    });
    charon::transform::pipeline::run_transform_pipeline(&mut ctx);
    let decl = ctx.fun_decls.get(FunDeclId { index: 0 }).unwrap();
    let body = decl.body.as_ref().unwrap();
    let b0 = body.body.get(charon::ids::BlockId { index: 0 }).unwrap();
    let targets = b0.targets();
    assert_eq!(targets.len(), 1);
    assert_eq!(targets[0].index, 1);
    assert!(body.body.get(targets[0]).is_some());
}


#[test]
fn malformed_constant_fails_fast() {
    // A constant ADT whose type is not an ADT instantiation is a structural
    // error: the pass rejects the declaration and leaves its body untouched.
    let bad = ConstantExpr {
        value: RawConstantExpr::Adt(None, vec![const_u8(1)]),
        ty: u8_ty(),
    };
    let use_stmt = Statement::new(
        sp(),
        RawStatement::Assign(place(0), Rvalue::Use(Operand::Const(bad))),
    );
    let mut body = body_with_block(
        vec![use_stmt],
        Terminator::new(sp(), RawTerminator::Return),
    );
    let mut ctx = empty_ctx();
    let outcome = simplify_constants::Transform.transform_body(&mut ctx, &mut body);
    assert!(outcome.is_err());
    // Nothing was rewritten and no temporary was introduced.
    let blk = body.body.get(charon::ids::BlockId { index: 0 }).unwrap();
    assert_eq!(blk.statements.len(), 1);
    assert!(matches!(
        blk.statements[0].content,
        RawStatement::Assign(_, Rvalue::Use(Operand::Const(_)))
    ));
    assert_eq!(body.locals.vars.slot_count(), 0);
}

#[test]
fn panic_folding_reaches_nested_calls() {
    // A shim call sitting inside the branch of a statement-level switch is
    // replaced too.
    let panic_stmt = Statement::new(
        sp(),
        RawStatement::Abort(AbortKind::Panic(Name::from_path(
            "core::panicking::panic_explicit",
        ))),
    );
    let shim_body = body_with_block(
        vec![panic_stmt],
        Terminator::new(sp(), RawTerminator::Return),
    );
    let mut ctx = empty_ctx();
    let shim_id = ctx.fun_decls.push(FunDecl {
        def_id: FunDeclId { index: 0 },
        sig: unit_sig(),
        body: Some(shim_body),
    });
    let call_stmt = Statement::new(
        sp(),
        RawStatement::Call(Call {
            func: FnOperand::Regular(FnPtr {
                func: FunIdOrTraitMethodRef::Fun(FunId::Regular(shim_id)),
                generics: GenericArgs::empty(),
            }),
            args: Vec::new(),
            dest: place(0),
        }),
    );
    let then_block = Block { span: sp(), statements: vec![call_stmt] };
    let else_block = Block { span: sp(), statements: vec![] };
    let if_stmt = Statement::new(
        sp(),
        RawStatement::Switch(Switch::If(Operand::Copy(place(1)), then_block, else_block)),
    );
    let caller_body = body_with_block(
        vec![if_stmt],
        Terminator::new(sp(), RawTerminator::Return),
    );
    ctx.fun_decls.push(FunDecl {
        def_id: FunDeclId { index: 1 },
        sig: unit_sig(),
        body: Some(caller_body),
    });
    inline_local_panic_functions::Transform.transform_ctx(&mut ctx);
    assert!(ctx.fun_decls.get(shim_id).is_none());
    let caller = ctx.fun_decls.get(FunDeclId { index: 1 }).unwrap();
    let blk = caller.body.as_ref().unwrap().body.get(charon::ids::BlockId { index: 0 }).unwrap();
    match &blk.statements[0].content {
        RawStatement::Switch(Switch::If(_, then_b, _)) => {
            match &then_b.statements[0].content {
                RawStatement::Abort(AbortKind::Panic(n)) => {
                    assert!(n.equals(&Name::from_path("core::panicking::panic_explicit")));
                },
                _ => panic!("expected the nested call to become an abort"),
            }
        },
        _ => panic!("expected the branch statement to stay a switch"),
    }
}

#[test]
fn pipeline_reconstructs_guarded_panics() {
    // The guarded panic of a user assertion sits inside a then branch:
    // panic folding turns the nested call into an abort, and assert
    // reconstruction then rewrites the whole branch statement.
    let panic_stmt = Statement::new(
        sp(),
        RawStatement::Abort(AbortKind::Panic(Name::from_path(
            "core::panicking::panic_explicit",
        ))),
    );
    let shim_body = body_with_block(
        vec![panic_stmt],
        Terminator::new(sp(), RawTerminator::Return),
    );
    let mut ctx = empty_ctx();
    let shim_id = ctx.fun_decls.push(FunDecl {
        def_id: FunDeclId { index: 0 },
        sig: unit_sig(),
        body: Some(shim_body),
    });
    let call_stmt = Statement::new(
        sp(),
        RawStatement::Call(Call {
            func: FnOperand::Regular(FnPtr {
                func: FunIdOrTraitMethodRef::Fun(FunId::Regular(shim_id)),
                generics: GenericArgs::empty(),
            }),
            args: Vec::new(),
            dest: place(0),
        }),
    );
    let rest = Statement::new(
        sp(),
        RawStatement::Assign(place(2), Rvalue::Use(Operand::Copy(place(3)))),
    );
    let then_block = Block { span: sp(), statements: vec![call_stmt] };
    let else_block = Block { span: sp(), statements: vec![rest] };
    let if_stmt = Statement::new(
        sp(),
        RawStatement::Switch(Switch::If(Operand::Copy(place(1)), then_block, else_block)),
    );
    let caller_body = body_with_block(
        vec![if_stmt],
        Terminator::new(sp(), RawTerminator::Return),
    );
    ctx.fun_decls.push(FunDecl {
        def_id: FunDeclId { index: 1 },
        sig: unit_sig(),
        body: Some(caller_body),
    });
    charon::transform::pipeline::run_transform_pipeline(&mut ctx);
    let caller = ctx.fun_decls.get(FunDeclId { index: 1 }).unwrap();
    let blk = caller.body.as_ref().unwrap().body.get(charon::ids::BlockId { index: 0 }).unwrap();
    // [Assert { cond, expected: false }, rest, unit assignment].
    assert_eq!(blk.statements.len(), 3);
    match &blk.statements[0].content {
        RawStatement::Assert(Assert { expected, .. }) => assert!(!*expected),
        _ => panic!("expected an assert"),
    }
    assert!(matches!(
        blk.statements[1].content,
        RawStatement::Assign(_, Rvalue::Use(Operand::Copy(_)))
    ));
}

#[test]
fn operator_desugaring_reaches_nested_statements() {
    // A repeat assignment inside the branch of a statement-level switch is
    // desugared too.
    let len = ConstGeneric::Value(Literal::Scalar(ScalarValue::Usize(4)));
    let nested = Statement::new(
        sp(),
        RawStatement::Assign(place(1), Rvalue::Repeat(Operand::Copy(place(2)), u8_ty(), len)),
    );
    let then_block = Block { span: sp(), statements: vec![nested] };
    let else_block = Block { span: sp(), statements: vec![] };
    let mut s = Statement::new(
        sp(),
        RawStatement::Switch(Switch::If(Operand::Copy(place(3)), then_block, else_block)),
    );
    ops_to_function_calls::transform_st(&mut s);
    match &s.content {
        RawStatement::Switch(Switch::If(_, then_b, _)) => {
            assert!(matches!(then_b.statements[0].content, RawStatement::Call(_)));
        },
        _ => panic!("expected the statement to stay a switch"),
    }
}

#[test]
fn constant_normalization_reaches_nested_statements() {
    // A constant ADT inside the branch of a statement-level switch is
    // normalized: the aggregate is bound to a fresh temporary spliced
    // inside the branch.
    let adt_ty = Ty::Adt(TypeId::Adt(TypeDeclId { index: 0 }), GenericArgs::empty());
    let c = ConstantExpr {
        value: RawConstantExpr::Adt(None, vec![const_u8(7)]),
        ty: adt_ty,
    };
    let nested = Statement::new(
        sp(),
        RawStatement::Assign(place(0), Rvalue::Use(Operand::Const(c))),
    );
    let then_block = Block { span: sp(), statements: vec![nested] };
    let else_block = Block { span: sp(), statements: vec![] };
    let if_stmt = Statement::new(
        sp(),
        RawStatement::Switch(Switch::If(Operand::Copy(place(3)), then_block, else_block)),
    );
    let mut body = body_with_block(
        vec![if_stmt],
        Terminator::new(sp(), RawTerminator::Return),
    );
    run_simplify(&mut body);
    let blk = body.body.get(charon::ids::BlockId { index: 0 }).unwrap();
    assert_eq!(blk.statements.len(), 1);
    match &blk.statements[0].content {
        RawStatement::Switch(Switch::If(_, then_b, _)) => {
            assert_eq!(then_b.statements.len(), 2);
            assert!(matches!(
                then_b.statements[0].content,
                RawStatement::Assign(_, Rvalue::Aggregate(AggregateKind::Adt(_, _, _, _), _))
            ));
            assert!(matches!(
                then_b.statements[1].content,
                RawStatement::Assign(_, Rvalue::Use(Operand::Move(_)))
            ));
        },
        _ => panic!("expected the statement to stay a switch"),
    }
    assert_eq!(body.locals.vars.slot_count(), 1);
}
