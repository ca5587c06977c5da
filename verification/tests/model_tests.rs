//! Tests of the data model, the handle arenas, the rewrite helpers and the
//! leaf utilities.

use charon::deps::{compiled_to_lib_name, insert_if_not_present, LibMap};
use charon::generics::{check_args_counts, check_ty_arity};
use charon::get_mir::{
    boxes_are_desugared, extract_constants_at_top_level, mir_query_for, MirLevel, MirQuery,
};
use charon::ids::{BlockId, TypeDeclId, TypeVarId, VarId, Vector};
use charon::meta::Span;
use charon::types::{
    ConstGeneric, GenericArgs, GenericParams, IntegerTy, Literal, LiteralTy, ScalarValue, Ty,
    TypeDecl, TypeDeclKind, TypeId, TypeVar,
};
use charon::types_utils::{clone_ty, eq_ty};
use charon::ullbc::{Locals, Name, Operand, Place, RawStatement, Statement};
use charon::ullbc_utils::insert_before;

fn sp() -> Span {
    Span::dummy()
}

fn u32_ty() -> Ty {
    Ty::Literal(LiteralTy::Integer(IntegerTy::U32))
}

#[test]
fn vector_push_get_remove() {
    let mut v: Vector<BlockId, u64> = Vector::new();
    let a = v.push(10);
    let b = v.push(20);
    assert_eq!(a.index, 0);
    assert_eq!(b.index, 1);
    assert_eq!(*v.get(a).unwrap(), 10);
    assert_eq!(*v.get(b).unwrap(), 20);
    let removed = v.remove(a);
    assert_eq!(removed, Some(10));
    // The handle is not reused: the slot stays a hole.
    assert!(v.get(a).is_none());
    assert_eq!(v.slot_count(), 2);
    let c = v.push(30);
    assert_eq!(c.index, 2);
}

#[test]
fn locals_append_only() {
    let mut locals = Locals { arg_count: 0, vars: Vector::new() };
    let p1 = locals.new_var(None, u32_ty());
    let p2 = locals.new_var(Some(String::from("x")), u32_ty());
    assert_eq!(p1.var_id.index, 0);
    assert_eq!(p2.var_id.index, 1);
    assert_eq!(locals.vars.slot_count(), 2);
}

fn assign(i: usize) -> Statement {
    Statement::new(
        sp(),
        RawStatement::Assign(
            Place { var_id: VarId { index: i } },
            charon::ullbc::Rvalue::Global(charon::ids::GlobalDeclId { index: i }),
        ),
    )
}

fn assigned_index(s: &Statement) -> usize {
    match &s.content {
        RawStatement::Assign(p, _) => p.var_id.index,
        _ => panic!("expected an assignment"),
    }
}

#[test]
fn insertion_offset() {
    // Splicing at position `at` yields the original with the new
    // statements at exactly that position, for several positions.
    for at in 0..4 {
        let mut sts = vec![assign(0), assign(1), assign(2)];
        insert_before(&mut sts, at, vec![assign(10), assign(11)]);
        assert_eq!(sts.len(), 5);
        let mut expected = vec![0, 1, 2];
        expected.splice(at..at, vec![10, 11]);
        let got: Vec<usize> = sts.iter().map(assigned_index).collect();
        assert_eq!(got, expected);
    }
}

#[test]
fn structural_equality_and_clone() {
    let t1 = Ty::Ref(
        charon::types::Region::Static,
        Box::new(u32_ty()),
        charon::types::RefKind::Shared,
    );
    let t2 = clone_ty(&t1);
    assert!(eq_ty(&t1, &t2));
    let t3 = Ty::Ref(
        charon::types::Region::Erased,
        Box::new(u32_ty()),
        charon::types::RefKind::Shared,
    );
    assert!(!eq_ty(&t1, &t3));
    let o1 = Operand::Copy(Place { var_id: VarId { index: 1 } });
    let o2 = Operand::Copy(Place { var_id: VarId { index: 1 } });
    let o3 = Operand::Move(Place { var_id: VarId { index: 1 } });
    assert!(o1.struct_eq(&o2));
    assert!(!o1.struct_eq(&o3));
}

#[test]
fn unit_type() {
    assert!(Ty::unit().is_unit());
    assert!(!u32_ty().is_unit());
}

fn decl_with_one_type_param() -> Vector<TypeDeclId, TypeDecl> {
    let mut params = GenericParams {
        regions: Vector::new(),
        types: Vector::new(),
        const_generics: Vector::new(),
        trait_clauses: Vector::new(),
        regions_outlive: Vec::new(),
        types_outlive: Vec::new(),
        trait_type_constraints: Vec::new(),
    };
    params.types.push(TypeVar { index: TypeVarId { index: 0 }, name: String::from("T") });
    let mut decls: Vector<TypeDeclId, TypeDecl> = Vector::new();
    decls.push(TypeDecl {
        def_id: TypeDeclId { index: 0 },
        generics: params,
        kind: TypeDeclKind::Opaque,
    });
    decls
}

#[test]
fn arity_invariant() {
    let decls = decl_with_one_type_param();
    let id = TypeDeclId { index: 0 };
    // One type argument: the counts match.
    let mut good_types = Vec::new();
    good_types.push(u32_ty());
    let good = GenericArgs {
        regions: Vec::new(),
        types: good_types,
        const_generics: Vec::new(),
        trait_refs: Vec::new(),
    };
    assert!(check_args_counts(&decls, id, &good));
    let good_ty = Ty::Adt(TypeId::Adt(id), good);
    assert!(check_ty_arity(&decls, &good_ty));
    // No type argument: the counts do not match.
    let bad = GenericArgs {
        regions: Vec::new(),
        types: Vec::new(),
        const_generics: Vec::new(),
        trait_refs: Vec::new(),
    };
    assert!(!check_args_counts(&decls, id, &bad));
    let bad_ty = Ty::Adt(TypeId::Adt(id), bad);
    assert!(!check_ty_arity(&decls, &bad_ty));
    // A tuple has no declared parameters to match.
    assert!(check_ty_arity(&decls, &Ty::Adt(TypeId::Tuple, GenericArgs::empty())));
}

#[test]
fn compiled_file_names() {
    // A compiled external crate: a `lib` prefix and a hash suffix.
    let name = compiled_to_lib_name(true, String::from("libserde_json-25bfd2343c819291"));
    assert_eq!(name, "serde_json");
    // A local crate's dependency file: no prefix.
    let name = compiled_to_lib_name(false, String::from("attributes-b73eebf157017326"));
    assert_eq!(name, "attributes");
    // Only the last dash starts the hash suffix.
    let name = compiled_to_lib_name(false, String::from("a-b-c"));
    assert_eq!(name, "a-b");
}

#[test]
fn lib_map_records_one_file_per_library() {
    let mut map = LibMap::new();
    assert!(!map.contains_key(&String::from("serde")));
    insert_if_not_present(&mut map, String::from("serde"), String::from("libserde-1.rlib"));
    assert!(map.contains_key(&String::from("serde")));
    assert!(!map.contains_key(&String::from("itertools")));
    insert_if_not_present(
        &mut map,
        String::from("itertools"),
        String::from("libitertools-2.rlib"),
    );
    assert_eq!(map.entries.len(), 2);
}

#[test]
fn extraction_levels() {
    assert!(extract_constants_at_top_level(MirLevel::Built));
    assert!(extract_constants_at_top_level(MirLevel::Promoted));
    assert!(!extract_constants_at_top_level(MirLevel::Optimized));
    assert!(!boxes_are_desugared(MirLevel::Built));
    assert!(!boxes_are_desugared(MirLevel::Promoted));
    assert!(boxes_are_desugared(MirLevel::Optimized));
}

#[test]
fn mir_queries() {
    assert_eq!(mir_query_for(true, MirLevel::Built, false, false), MirQuery::Built);
    assert_eq!(mir_query_for(true, MirLevel::Promoted, false, false), MirQuery::Promoted);
    assert_eq!(mir_query_for(true, MirLevel::Optimized, false, false), MirQuery::Optimized);
    assert_eq!(mir_query_for(false, MirLevel::Built, true, false), MirQuery::Optimized);
    assert_eq!(mir_query_for(false, MirLevel::Built, false, true), MirQuery::Ctfe);
    assert_eq!(mir_query_for(false, MirLevel::Built, false, false), MirQuery::Unavailable);
}

#[test]
fn names() {
    let a = Name::from_path("core::panicking::panic_explicit");
    let b = Name::from_path("core::panicking::panic_explicit");
    let c = Name::from_path("core::panicking::panic_fmt");
    assert!(a.equals(&b));
    assert!(!a.equals(&c));
}

#[test]
fn scalar_literals() {
    let a = Literal::Scalar(ScalarValue::Usize(3));
    let b = Literal::Scalar(ScalarValue::Usize(3));
    assert_eq!(a, b);
    let c = ConstGeneric::Value(a);
    assert!(matches!(c, ConstGeneric::Value(Literal::Scalar(ScalarValue::Usize(3)))));
}

fn goto(target: usize) -> charon::ullbc::Terminator {
    charon::ullbc::Terminator::new(
        sp(),
        charon::ullbc::RawTerminator::Goto { target: BlockId { index: target } },
    )
}

fn ret() -> charon::ullbc::Terminator {
    charon::ullbc::Terminator::new(sp(), charon::ullbc::RawTerminator::Return)
}

fn one_block_body(terminator: charon::ullbc::Terminator) -> charon::ullbc::ExprBody {
    let mut blocks: Vector<BlockId, charon::ullbc::BlockData> = Vector::new();
    blocks.push(charon::ullbc::BlockData { statements: vec![], terminator });
    charon::ullbc::ExprBody {
        span: sp(),
        locals: charon::ullbc::Locals { arg_count: 0, vars: Vector::new() },
        body: blocks,
    }
}

#[test]
fn cycle_detection() {
    // A block that jumps to itself is a loop; a lone return is not.
    let looping = one_block_body(goto(0));
    assert!(charon::divergent::body_has_cycle(&looping.body));
    let straight = one_block_body(ret());
    assert!(!charon::divergent::body_has_cycle(&straight.body));
}

fn sig_unit() -> charon::types::FunSig {
    charon::types::FunSig {
        is_unsafe: false,
        is_closure: false,
        closure_info: None,
        generics: GenericParams {
            regions: Vector::new(),
            types: Vector::new(),
            const_generics: Vector::new(),
            trait_clauses: Vector::new(),
            regions_outlive: Vec::new(),
            types_outlive: Vec::new(),
            trait_type_constraints: Vec::new(),
        },
        parent_params_info: None,
        inputs: Vec::new(),
        output: Ty::unit(),
    }
}

fn call_stmt(target: usize) -> Statement {
    Statement::new(
        sp(),
        RawStatement::Call(charon::ullbc::Call {
            func: charon::ullbc::FnOperand::Regular(charon::ullbc::FnPtr {
                func: charon::ullbc::FunIdOrTraitMethodRef::Fun(charon::ullbc::FunId::Regular(
                    charon::ids::FunDeclId { index: target },
                )),
                generics: GenericArgs::empty(),
            }),
            args: Vec::new(),
            dest: Place { var_id: VarId { index: 0 } },
        }),
    )
}

fn body_with_statements(sts: Vec<Statement>) -> charon::ullbc::ExprBody {
    let mut blocks: Vector<BlockId, charon::ullbc::BlockData> = Vector::new();
    blocks.push(charon::ullbc::BlockData { statements: sts, terminator: ret() });
    charon::ullbc::ExprBody {
        span: sp(),
        locals: charon::ullbc::Locals { arg_count: 0, vars: Vector::new() },
        body: blocks,
    }
}

#[test]
fn divergence_analysis() {
    // Function 0 loops; function 1 calls function 0; function 2 is
    // directly recursive; function 3 does nothing.
    let mut ctx = charon::transform::ctx::TransformCtx {
        type_decls: Vector::new(),
        fun_decls: Vector::new(),
    };
    ctx.fun_decls.push(charon::ullbc::FunDecl {
        def_id: charon::ids::FunDeclId { index: 0 },
        sig: sig_unit(),
        body: Some(one_block_body(goto(0))),
    });
    ctx.fun_decls.push(charon::ullbc::FunDecl {
        def_id: charon::ids::FunDeclId { index: 1 },
        sig: sig_unit(),
        body: Some(body_with_statements(vec![call_stmt(0)])),
    });
    ctx.fun_decls.push(charon::ullbc::FunDecl {
        def_id: charon::ids::FunDeclId { index: 2 },
        sig: sig_unit(),
        body: Some(body_with_statements(vec![call_stmt(2)])),
    });
    ctx.fun_decls.push(charon::ullbc::FunDecl {
        def_id: charon::ids::FunDeclId { index: 3 },
        sig: sig_unit(),
        body: Some(body_with_statements(vec![])),
    });
    let flags = charon::divergent::compute_divergent_functions(&ctx);
    assert_eq!(flags, vec![true, true, true, false]);
}
