//! Cloning for the type model.
//!
//! The model is a tree, so cloning is structural recursion; every clone is
//! proved to have the same view as its source.

use crate::ids::{RegionId, Vector};
use crate::types::{
    view_args, view_opt_string, view_region_vars, view_trait_instance_id, view_trait_ref,
    view_trait_refs, view_ty, view_tys, lemma_view_trait_refs, lemma_view_tys, GenericArgs,
    GenericArgsV, Region, RegionVar, TraitDeclRef, TraitInstanceId, TraitRef, Ty,
};
use core::marker::PhantomData;
use vstd::prelude::*;

verus! {

/// Clone of a vector of copyable elements.
fn clone_copy_vec<T: Copy>(v: &Vec<T>) -> (r: Vec<T>)
    ensures
        r@ == v@,
{
    let mut out: Vec<T> = Vec::new();
    let mut i: usize = 0;
    while i < v.len()
        invariant
            i <= v@.len(),
            out@ == v@.subrange(0, i as int),
        decreases v@.len() - i,
    {
        out.push(v[i]);
        i = i + 1;
    }
    proof {
        assert(out@ =~= v@);
    }
    out
}

/// Clone of an optional name.
fn clone_opt_string(s: &Option<String>) -> (r: Option<String>)
    ensures
        view_opt_string(r) == view_opt_string(*s),
{
    match s {
        Some(s) => Some(s.clone()),
        None => None,
    }
}

/// Clone of a type.
#[verifier::loop_isolation(false)]
pub fn clone_ty(t: &Ty) -> (r: Ty)
    ensures
        r@ == t@,
    decreases *t,
{
    match t {
        Ty::Adt(id, args) => Ty::Adt(*id, clone_args(args)),
        Ty::TypeVar(v) => Ty::TypeVar(*v),
        Ty::Literal(l) => Ty::Literal(*l),
        Ty::Never => Ty::Never,
        Ty::Ref(r, inner, k) => Ty::Ref(*r, Box::new(clone_ty(&**inner)), *k),
        Ty::RawPtr(inner, k) => Ty::RawPtr(Box::new(clone_ty(&**inner)), *k),
        Ty::TraitType(tr, name) => Ty::TraitType(clone_trait_ref(tr), name.clone()),
        Ty::DynTrait(p) => Ty::DynTrait(*p),
        Ty::Arrow(regions, inputs, output) => Ty::Arrow(
            clone_region_var_arena(regions),
            clone_tys(inputs),
            Box::new(clone_ty(&**output)),
        ),
    }
}

/// Clone of a vector of types.
#[verifier::loop_isolation(false)]
pub fn clone_tys(v: &Vec<Ty>) -> (r: Vec<Ty>)
    ensures
        view_tys(r@) == view_tys(v@),
    decreases v@,
{
    let mut out: Vec<Ty> = Vec::new();
    let mut i: usize = 0;
    while i < v.len()
        invariant
            i <= v@.len(),
            out@.len() == i as nat,
            forall|j: int| 0 <= j < i ==> view_ty(out@[j]) == view_ty(v@[j]),
        decreases v@.len() - i,
    {
        out.push(clone_ty(&v[i]));
        i = i + 1;
    }
    proof {
        lemma_view_tys(out@);
        lemma_view_tys(v@);
        assert(view_tys(out@) =~= view_tys(v@));
    }
    out
}

/// Clone of generic arguments.
#[verifier::loop_isolation(false)]
pub fn clone_args(a: &GenericArgs) -> (r: GenericArgs)
    ensures
        r@ == a@,
    decreases *a,
{
    let r = GenericArgs {
        regions: clone_copy_vec(&a.regions),
        types: clone_tys(&a.types),
        const_generics: clone_copy_vec(&a.const_generics),
        trait_refs: clone_trait_refs(&a.trait_refs),
    };
    proof {
        assert(r@ =~= a@);
    }
    r
}

/// Clone of a vector of trait references.
#[verifier::loop_isolation(false)]
pub fn clone_trait_refs(v: &Vec<TraitRef>) -> (r: Vec<TraitRef>)
    ensures
        view_trait_refs(r@) == view_trait_refs(v@),
    decreases v@,
{
    let mut out: Vec<TraitRef> = Vec::new();
    let mut i: usize = 0;
    while i < v.len()
        invariant
            i <= v@.len(),
            out@.len() == i as nat,
            forall|j: int| 0 <= j < i ==> view_trait_ref(out@[j]) == view_trait_ref(v@[j]),
        decreases v@.len() - i,
    {
        out.push(clone_trait_ref(&v[i]));
        i = i + 1;
    }
    proof {
        lemma_view_trait_refs(out@);
        lemma_view_trait_refs(v@);
        assert(view_trait_refs(out@) =~= view_trait_refs(v@));
    }
    out
}

/// Clone of a trait reference.
#[verifier::loop_isolation(false)]
pub fn clone_trait_ref(t: &TraitRef) -> (r: TraitRef)
    ensures
        r@ == t@,
    decreases *t,
{
    let r = TraitRef {
        trait_id: clone_trait_instance_id(&t.trait_id),
        generics: clone_args(&t.generics),
        trait_decl_ref: TraitDeclRef {
            trait_id: t.trait_decl_ref.trait_id,
            generics: clone_args(&t.trait_decl_ref.generics),
        },
    };
    proof {
        assert(r@ =~= t@);
    }
    r
}

/// Clone of a trait instance path.
pub fn clone_trait_instance_id(t: &TraitInstanceId) -> (r: TraitInstanceId)
    ensures
        r@ == t@,
    decreases *t,
{
    match t {
        TraitInstanceId::TraitImpl(id) => TraitInstanceId::TraitImpl(*id),
        TraitInstanceId::Clause(id) => TraitInstanceId::Clause(*id),
        TraitInstanceId::ParentClause(inner, decl, clause) => TraitInstanceId::ParentClause(
            Box::new(clone_trait_instance_id(&**inner)),
            *decl,
            *clause,
        ),
        TraitInstanceId::ItemClause(inner, decl, item, clause) => TraitInstanceId::ItemClause(
            Box::new(clone_trait_instance_id(&**inner)),
            *decl,
            item.clone(),
            *clause,
        ),
        TraitInstanceId::SelfId => TraitInstanceId::SelfId,
        TraitInstanceId::BuiltinOrAuto(id) => TraitInstanceId::BuiltinOrAuto(*id),
        TraitInstanceId::Dyn(id) => TraitInstanceId::Dyn(*id),
        TraitInstanceId::Unknown(msg) => TraitInstanceId::Unknown(msg.clone()),
    }
}

/// Clone of an arena of region variables.
#[verifier::loop_isolation(false)]
pub fn clone_region_var_arena(v: &Vector<RegionId, RegionVar>) -> (r: Vector<RegionId, RegionVar>)
    ensures
        view_region_vars(r@) == view_region_vars(v@),
{
    let mut out: Vec<Option<RegionVar>> = Vec::new();
    let mut i: usize = 0;
    while i < v.elems.len()
        invariant
            i <= v@.len(),
            out@.len() == i as nat,
            forall|j: int|
                0 <= j < i ==> crate::types::view_opt_region_var(out@[j])
                    == crate::types::view_opt_region_var(v@[j]),
        decreases v@.len() - i,
    {
        let c: Option<RegionVar> = match &v.elems[i] {
            Some(rv) => Some(
                RegionVar { index: rv.index, name: clone_opt_string(&rv.name) },
            ),
            None => None,
        };
        out.push(c);
        i = i + 1;
    }
    let r = Vector { elems: out, marker: PhantomData };
    proof {
        assert(view_region_vars(r@) =~= view_region_vars(v@));
    }
    r
}

// ---------------------------------------------------------------------------
// Structural equality
// ---------------------------------------------------------------------------
/// Equality of optional names.
fn eq_opt_string(a: &Option<String>, b: &Option<String>) -> (r: bool)
    ensures
        r == (view_opt_string(*a) == view_opt_string(*b)),
{
    match (a, b) {
        (Some(a), Some(b)) => *a == *b,
        (None, None) => true,
        _ => false,
    }
}

/// Equality of region lists.
#[verifier::loop_isolation(false)]
fn eq_regions(a: &Vec<Region>, b: &Vec<Region>) -> (r: bool)
    ensures
        r == (a@ == b@),
{
    if a.len() != b.len() {
        proof {
            assert(a@ != b@);
        }
        return false;
    }
    let mut i: usize = 0;
    while i < a.len()
        invariant
            i <= a@.len(),
            a@.len() == b@.len(),
            forall|j: int| 0 <= j < i ==> a@[j] == b@[j],
        decreases a@.len() - i,
    {
        if !(a[i] == b[i]) {
            proof {
                assert(a@[i as int] != b@[i as int]);
            }
            return false;
        }
        i = i + 1;
    }
    proof {
        assert(a@ =~= b@);
    }
    true
}

/// Equality of const-generic lists.
#[verifier::loop_isolation(false)]
fn eq_const_generics(a: &Vec<crate::types::ConstGeneric>, b: &Vec<crate::types::ConstGeneric>) -> (r:
    bool)
    ensures
        r == (a@ == b@),
{
    if a.len() != b.len() {
        proof {
            assert(a@ != b@);
        }
        return false;
    }
    let mut i: usize = 0;
    while i < a.len()
        invariant
            i <= a@.len(),
            a@.len() == b@.len(),
            forall|j: int| 0 <= j < i ==> a@[j] == b@[j],
        decreases a@.len() - i,
    {
        if !(a[i] == b[i]) {
            proof {
                assert(a@[i as int] != b@[i as int]);
            }
            return false;
        }
        i = i + 1;
    }
    proof {
        assert(a@ =~= b@);
    }
    true
}

/// Structural equality of types: equality of views.
#[verifier::loop_isolation(false)]
pub fn eq_ty(a: &Ty, b: &Ty) -> (r: bool)
    ensures
        r == (a@ == b@),
    decreases *a,
{
    match (a, b) {
        (Ty::Adt(id1, g1), Ty::Adt(id2, g2)) => *id1 == *id2 && eq_args(g1, g2),
        (Ty::TypeVar(v1), Ty::TypeVar(v2)) => *v1 == *v2,
        (Ty::Literal(l1), Ty::Literal(l2)) => *l1 == *l2,
        (Ty::Never, Ty::Never) => true,
        (Ty::Ref(r1, t1, k1), Ty::Ref(r2, t2, k2)) => *r1 == *r2 && *k1 == *k2 && eq_ty(&**t1, &**t2),
        (Ty::RawPtr(t1, k1), Ty::RawPtr(t2, k2)) => *k1 == *k2 && eq_ty(&**t1, &**t2),
        (Ty::TraitType(tr1, n1), Ty::TraitType(tr2, n2)) => *n1 == *n2 && eq_trait_ref(tr1, tr2),
        (Ty::DynTrait(p1), Ty::DynTrait(p2)) => true,
        (Ty::Arrow(r1, in1, o1), Ty::Arrow(r2, in2, o2)) => eq_region_var_arenas(r1, r2) && eq_tys(
            in1,
            in2,
        ) && eq_ty(&**o1, &**o2),
        _ => false,
    }
}

/// Structural equality of type lists.
#[verifier::loop_isolation(false)]
pub fn eq_tys(a: &Vec<Ty>, b: &Vec<Ty>) -> (r: bool)
    ensures
        r == (view_tys(a@) == view_tys(b@)),
    decreases a@,
{
    proof {
        lemma_view_tys(a@);
        lemma_view_tys(b@);
    }
    if a.len() != b.len() {
        proof {
            assert(view_tys(a@).len() != view_tys(b@).len());
        }
        return false;
    }
    let mut i: usize = 0;
    while i < a.len()
        invariant
            i <= a@.len(),
            a@.len() == b@.len(),
            forall|j: int| 0 <= j < i ==> view_ty(a@[j]) == view_ty(b@[j]),
        decreases a@.len() - i,
    {
        if !eq_ty(&a[i], &b[i]) {
            proof {
                assert(view_tys(a@)[i as int] != view_tys(b@)[i as int]);
            }
            return false;
        }
        i = i + 1;
    }
    proof {
        assert(view_tys(a@) =~= view_tys(b@));
    }
    true
}

/// Structural equality of generic arguments.
#[verifier::loop_isolation(false)]
pub fn eq_args(a: &GenericArgs, b: &GenericArgs) -> (r: bool)
    ensures
        r == (a@ == b@),
    decreases *a,
{
    let r = eq_regions(&a.regions, &b.regions) && eq_tys(&a.types, &b.types) && eq_const_generics(
        &a.const_generics,
        &b.const_generics,
    ) && eq_trait_refs(&a.trait_refs, &b.trait_refs);
    proof {
        if r {
            assert(a@ =~= b@);
        }
    }
    r
}

/// Structural equality of trait-reference lists.
#[verifier::loop_isolation(false)]
pub fn eq_trait_refs(a: &Vec<TraitRef>, b: &Vec<TraitRef>) -> (r: bool)
    ensures
        r == (view_trait_refs(a@) == view_trait_refs(b@)),
    decreases a@,
{
    proof {
        lemma_view_trait_refs(a@);
        lemma_view_trait_refs(b@);
    }
    if a.len() != b.len() {
        proof {
            assert(view_trait_refs(a@).len() != view_trait_refs(b@).len());
        }
        return false;
    }
    let mut i: usize = 0;
    while i < a.len()
        invariant
            i <= a@.len(),
            a@.len() == b@.len(),
            forall|j: int| 0 <= j < i ==> view_trait_ref(a@[j]) == view_trait_ref(b@[j]),
        decreases a@.len() - i,
    {
        if !eq_trait_ref(&a[i], &b[i]) {
            proof {
                assert(view_trait_refs(a@)[i as int] != view_trait_refs(b@)[i as int]);
            }
            return false;
        }
        i = i + 1;
    }
    proof {
        assert(view_trait_refs(a@) =~= view_trait_refs(b@));
    }
    true
}

/// Structural equality of trait references.
#[verifier::loop_isolation(false)]
pub fn eq_trait_ref(a: &TraitRef, b: &TraitRef) -> (r: bool)
    ensures
        r == (a@ == b@),
    decreases *a,
{
    let r = eq_trait_instance_id(&a.trait_id, &b.trait_id) && a.trait_decl_ref.trait_id
        == b.trait_decl_ref.trait_id && eq_args(&a.generics, &b.generics) && eq_args(
        &a.trait_decl_ref.generics,
        &b.trait_decl_ref.generics,
    );
    proof {
        if r {
            assert(a@ =~= b@);
        }
    }
    r
}

/// Structural equality of trait instance paths.
pub fn eq_trait_instance_id(a: &TraitInstanceId, b: &TraitInstanceId) -> (r: bool)
    ensures
        r == (a@ == b@),
    decreases *a,
{
    match (a, b) {
        (TraitInstanceId::TraitImpl(i1), TraitInstanceId::TraitImpl(i2)) => *i1 == *i2,
        (TraitInstanceId::Clause(c1), TraitInstanceId::Clause(c2)) => *c1 == *c2,
        (
            TraitInstanceId::ParentClause(p1, d1, c1),
            TraitInstanceId::ParentClause(p2, d2, c2),
        ) => *d1 == *d2 && *c1 == *c2 && eq_trait_instance_id(&**p1, &**p2),
        (
            TraitInstanceId::ItemClause(p1, d1, n1, c1),
            TraitInstanceId::ItemClause(p2, d2, n2, c2),
        ) => *d1 == *d2 && *c1 == *c2 && *n1 == *n2 && eq_trait_instance_id(&**p1, &**p2),
        (TraitInstanceId::SelfId, TraitInstanceId::SelfId) => true,
        (TraitInstanceId::BuiltinOrAuto(d1), TraitInstanceId::BuiltinOrAuto(d2)) => *d1 == *d2,
        (TraitInstanceId::Dyn(d1), TraitInstanceId::Dyn(d2)) => *d1 == *d2,
        (TraitInstanceId::Unknown(m1), TraitInstanceId::Unknown(m2)) => *m1 == *m2,
        _ => false,
    }
}

/// Structural equality of region-variable arenas.
#[verifier::loop_isolation(false)]
pub fn eq_region_var_arenas(
    a: &Vector<RegionId, RegionVar>,
    b: &Vector<RegionId, RegionVar>,
) -> (r: bool)
    ensures
        r == (view_region_vars(a@) == view_region_vars(b@)),
{
    if a.elems.len() != b.elems.len() {
        proof {
            assert(view_region_vars(a@).len() != view_region_vars(b@).len());
        }
        return false;
    }
    let mut i: usize = 0;
    while i < a.elems.len()
        invariant
            i <= a@.len(),
            a@.len() == b@.len(),
            forall|j: int|
                0 <= j < i ==> crate::types::view_opt_region_var(a@[j])
                    == crate::types::view_opt_region_var(b@[j]),
        decreases a@.len() - i,
    {
        let same = match (&a.elems[i], &b.elems[i]) {
            (Some(x), Some(y)) => x.index == y.index && eq_opt_string(&x.name, &y.name),
            (None, None) => true,
            _ => false,
        };
        if !same {
            proof {
                assert(view_region_vars(a@)[i as int] != view_region_vars(b@)[i as int]);
            }
            return false;
        }
        i = i + 1;
    }
    proof {
        assert(view_region_vars(a@) =~= view_region_vars(b@));
    }
    true
}

impl Clone for Ty {
    /// Structural clone; the clone has the same view.
    fn clone(&self) -> (r: Ty)
        ensures
            r@ == self@,
    {
        clone_ty(self)
    }
}

impl Clone for GenericArgs {
    /// Structural clone; the clone has the same view.
    fn clone(&self) -> (r: GenericArgs)
        ensures
            r@ == self@,
    {
        clone_args(self)
    }
}

impl Clone for TraitRef {
    /// Structural clone; the clone has the same view.
    fn clone(&self) -> (r: TraitRef)
        ensures
            r@ == self@,
    {
        clone_trait_ref(self)
    }
}

impl Clone for TraitInstanceId {
    /// Structural clone; the clone has the same view.
    fn clone(&self) -> (r: TraitInstanceId)
        ensures
            r@ == self@,
    {
        clone_trait_instance_id(self)
    }
}

} // verus!
