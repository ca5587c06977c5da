//! The arity invariant of generic instantiations: at every use site, the
//! counts of the supplied regions, types, const generics and trait
//! references equal the corresponding parameter counts of the referenced
//! declaration.

use crate::ids::{Idx, TypeDeclId, Vector};
use crate::types::{
    view_trait_refs, view_tys, lemma_view_trait_refs, lemma_view_tys, GenericArgs, GenericArgsV,
    GenericParams, GenericParamsV, TraitRef, TraitRefV, Ty, TyV, TypeDecl, TypeDeclV, TypeId,
};
use vstd::prelude::*;

verus! {

/// View of a table of type declarations.
pub open spec fn view_type_decls(s: Seq<Option<TypeDecl>>) -> Seq<Option<TypeDeclV>> {
    Seq::new(
        s.len(),
        |i: int|
            match s[i] {
                Some(d) => Some(d@),
                None => None,
            },
    )
}

/// The arity condition at one instantiation site: the counts of the
/// supplied arguments equal the parameter counts of the declaration.
pub open spec fn args_counts_match(args: GenericArgsV, params: GenericParamsV) -> bool {
    &&& args.regions.len() == params.regions.len()
    &&& args.types.len() == params.types.len()
    &&& args.const_generics.len() == params.const_generics.len()
    &&& args.trait_refs.len() == params.trait_clauses.len()
}

/// Whether every instantiation site inside a type satisfies the arity
/// invariant with respect to the declaration table.
pub open spec fn ty_arity_ok(decls: Seq<Option<TypeDeclV>>, t: TyV) -> bool
    decreases t,
{
    match t {
        TyV::Adt(id, args) => args_arity_ok(decls, args) && (match id {
            TypeId::Adt(d) => d.idx() < decls.len() && decls[d.idx() as int] is Some
                && args_counts_match(args, decls[d.idx() as int]->Some_0.generics),
            _ => true,
        }),
        TyV::Ref(_, inner, _) => ty_arity_ok(decls, *inner),
        TyV::RawPtr(inner, _) => ty_arity_ok(decls, *inner),
        TyV::TraitType(tr, _) => trait_ref_arity_ok(decls, tr),
        TyV::Arrow(_, inputs, output) => tys_arity_ok(decls, inputs) && ty_arity_ok(
            decls,
            *output,
        ),
        _ => true,
    }
}

/// Arity of every type of a sequence.
pub open spec fn tys_arity_ok(decls: Seq<Option<TypeDeclV>>, ts: Seq<TyV>) -> bool
    decreases ts,
{
    if ts.len() == 0 {
        true
    } else {
        ty_arity_ok(decls, ts[0]) && tys_arity_ok(decls, ts.subrange(1, ts.len() as int))
    }
}

/// Arity of every nested site of a generic-arguments value.
pub open spec fn args_arity_ok(decls: Seq<Option<TypeDeclV>>, args: GenericArgsV) -> bool
    decreases args,
{
    tys_arity_ok(decls, args.types) && trait_refs_arity_ok(decls, args.trait_refs)
}

/// Arity of every trait reference of a sequence.
pub open spec fn trait_refs_arity_ok(decls: Seq<Option<TypeDeclV>>, trs: Seq<TraitRefV>) -> bool
    decreases trs,
{
    if trs.len() == 0 {
        true
    } else {
        trait_ref_arity_ok(decls, trs[0]) && trait_refs_arity_ok(
            decls,
            trs.subrange(1, trs.len() as int),
        )
    }
}

/// Arity of every site inside a trait reference.
pub open spec fn trait_ref_arity_ok(decls: Seq<Option<TypeDeclV>>, tr: TraitRefV) -> bool
    decreases tr,
{
    args_arity_ok(decls, tr.generics) && args_arity_ok(decls, tr.trait_decl_ref.generics)
}

/// The sequence form of the arity condition is pointwise.
pub proof fn lemma_tys_arity_ok(decls: Seq<Option<TypeDeclV>>, ts: Seq<TyV>)
    ensures
        tys_arity_ok(decls, ts) == (forall|i: int|
            0 <= i < ts.len() ==> ty_arity_ok(decls, #[trigger] ts[i])),
    decreases ts.len(),
{
    if ts.len() > 0 {
        lemma_tys_arity_ok(decls, ts.subrange(1, ts.len() as int));
        assert forall|i: int|
            0 <= i < ts.subrange(1, ts.len() as int).len() implies ts.subrange(
            1,
            ts.len() as int,
        )[i] == ts[i + 1] by {}
        if tys_arity_ok(decls, ts) {
            assert forall|i: int| 0 <= i < ts.len() implies ty_arity_ok(
                decls,
                #[trigger] ts[i],
            ) by {
                if i > 0 {
                    assert(ty_arity_ok(decls, ts.subrange(1, ts.len() as int)[i - 1]));
                }
            }
        }
    }
}

/// The sequence form of the trait-reference arity condition is pointwise.
pub proof fn lemma_trait_refs_arity_ok(decls: Seq<Option<TypeDeclV>>, trs: Seq<TraitRefV>)
    ensures
        trait_refs_arity_ok(decls, trs) == (forall|i: int|
            0 <= i < trs.len() ==> trait_ref_arity_ok(decls, #[trigger] trs[i])),
    decreases trs.len(),
{
    if trs.len() > 0 {
        lemma_trait_refs_arity_ok(decls, trs.subrange(1, trs.len() as int));
        assert forall|i: int|
            0 <= i < trs.subrange(1, trs.len() as int).len() implies trs.subrange(
            1,
            trs.len() as int,
        )[i] == trs[i + 1] by {}
        if trait_refs_arity_ok(decls, trs) {
            assert forall|i: int| 0 <= i < trs.len() implies trait_ref_arity_ok(
                decls,
                #[trigger] trs[i],
            ) by {
                if i > 0 {
                    assert(trait_ref_arity_ok(decls, trs.subrange(1, trs.len() as int)[i - 1]));
                }
            }
        }
    }
}

/// Check the arity condition at one site.
#[verifier::loop_isolation(false)]
pub fn check_args_counts(
    decls: &Vector<TypeDeclId, TypeDecl>,
    id: TypeDeclId,
    args: &GenericArgs,
) -> (r: bool)
    ensures
        r == (id.idx() < view_type_decls(decls@).len() && view_type_decls(decls@)[id.idx() as int]
            is Some && args_counts_match(
            args@,
            view_type_decls(decls@)[id.idx() as int]->Some_0.generics,
        )),
{
    proof {
        lemma_view_tys(args.types@);
        lemma_view_trait_refs(args.trait_refs@);
    }
    match decls.get(id) {
        Some(d) => {
            let r = args.regions.len() == d.generics.regions.slot_count() && args.types.len()
                == d.generics.types.slot_count() && args.const_generics.len()
                == d.generics.const_generics.slot_count() && args.trait_refs.len()
                == d.generics.trait_clauses.slot_count();
            proof {
                assert(view_type_decls(decls@)[id.idx() as int] == Some(
                    decls.spec_get(id)@,
                ));
            }
            r
        },
        None => {
            proof {
                if id.idx() < decls@.len() {
                    assert(view_type_decls(decls@)[id.idx() as int] is None);
                }
            }
            false
        },
    }
}

/// Check the arity invariant at every instantiation site of a type.
#[verifier::loop_isolation(false)]
pub fn check_ty_arity(decls: &Vector<TypeDeclId, TypeDecl>, t: &Ty) -> (r: bool)
    ensures
        r == ty_arity_ok(view_type_decls(decls@), t@),
    decreases *t,
{
    match t {
        Ty::Adt(id, args) => {
            let nested = check_args_arity(decls, args);
            match id {
                TypeId::Adt(d) => nested && check_args_counts(decls, *d, args),
                _ => nested,
            }
        },
        Ty::Ref(_, inner, _) => check_ty_arity(decls, &**inner),
        Ty::RawPtr(inner, _) => check_ty_arity(decls, &**inner),
        Ty::TraitType(tr, _) => check_trait_ref_arity(decls, tr),
        Ty::Arrow(_, inputs, output) => {
            let a = check_tys_arity(decls, inputs);
            a && check_ty_arity(decls, &**output)
        },
        _ => true,
    }
}

/// Check the arity invariant over a vector of types.
#[verifier::loop_isolation(false)]
pub fn check_tys_arity(decls: &Vector<TypeDeclId, TypeDecl>, ts: &Vec<Ty>) -> (r: bool)
    ensures
        r == tys_arity_ok(view_type_decls(decls@), view_tys(ts@)),
    decreases ts@,
{
    proof {
        lemma_view_tys(ts@);
        lemma_tys_arity_ok(view_type_decls(decls@), view_tys(ts@));
    }
    let mut i: usize = 0;
    while i < ts.len()
        invariant
            i <= ts@.len(),
            forall|j: int|
                0 <= j < i ==> ty_arity_ok(view_type_decls(decls@), view_tys(ts@)[j]),
        decreases ts@.len() - i,
    {
        if !check_ty_arity(decls, &ts[i]) {
            proof {
                assert(!ty_arity_ok(view_type_decls(decls@), view_tys(ts@)[i as int]));
            }
            return false;
        }
        i = i + 1;
    }
    true
}

/// Check the arity invariant over generic arguments.
#[verifier::loop_isolation(false)]
pub fn check_args_arity(decls: &Vector<TypeDeclId, TypeDecl>, args: &GenericArgs) -> (r: bool)
    ensures
        r == args_arity_ok(view_type_decls(decls@), args@),
    decreases *args,
{
    let a = check_tys_arity(decls, &args.types);
    a && check_trait_refs_arity(decls, &args.trait_refs)
}

/// Check the arity invariant over a vector of trait references.
#[verifier::loop_isolation(false)]
pub fn check_trait_refs_arity(decls: &Vector<TypeDeclId, TypeDecl>, trs: &Vec<TraitRef>) -> (r:
    bool)
    ensures
        r == trait_refs_arity_ok(view_type_decls(decls@), view_trait_refs(trs@)),
    decreases trs@,
{
    proof {
        lemma_view_trait_refs(trs@);
        lemma_trait_refs_arity_ok(view_type_decls(decls@), view_trait_refs(trs@));
    }
    let mut i: usize = 0;
    while i < trs.len()
        invariant
            i <= trs@.len(),
            forall|j: int|
                0 <= j < i ==> trait_ref_arity_ok(
                    view_type_decls(decls@),
                    view_trait_refs(trs@)[j],
                ),
        decreases trs@.len() - i,
    {
        if !check_trait_ref_arity(decls, &trs[i]) {
            proof {
                assert(!trait_ref_arity_ok(view_type_decls(decls@), view_trait_refs(trs@)[i as int]));
            }
            return false;
        }
        i = i + 1;
    }
    true
}

/// Check the arity invariant inside one trait reference.
#[verifier::loop_isolation(false)]
pub fn check_trait_ref_arity(decls: &Vector<TypeDeclId, TypeDecl>, tr: &TraitRef) -> (r: bool)
    ensures
        r == trait_ref_arity_ok(view_type_decls(decls@), tr@),
    decreases *tr,
{
    let a = check_args_arity(decls, &tr.generics);
    a && check_args_arity(decls, &tr.trait_decl_ref.generics)
}

} // verus!
