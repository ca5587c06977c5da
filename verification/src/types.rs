//! The type and generics model: types, regions, trait-resolution paths,
//! generic parameters and arguments, and type declarations.
//!
//! Every compound type has a mathematical view (a mirror datatype over `Seq`
//! and plain values) through which all contracts speak; structural equality
//! of two values is equality of their views.

use crate::ids::{
    ConstGenericVarId, GlobalDeclId, Idx, RegionId, TraitClauseId, TraitDeclId, TraitImplId,
    TypeDeclId, TypeVarId, Vector,
};
use crate::meta::Span;
use vstd::prelude::*;

verus! {

pub type FieldName = String;

pub type TraitItemName = String;

/// A De Bruijn index: the number of enclosing binder groups to skip to reach
/// the group that binds a variable.
#[derive(Debug, Clone, Copy, PartialEq, Eq, Structural)]
pub struct DeBruijnId {
    pub index: usize,
}

/// A region (lifetime) as it appears on references and pointers.
///
/// A `BVar` region is identified by how many binder groups up it is bound
/// (the De Bruijn index) and by its identifier within that group, so that
/// substitution under binders needs no index shifting.  A `BVar` is only
/// meaningful relative to an enclosing sequence of binder groups; a region
/// that escapes its binder scope is ill-formed.
#[derive(Debug, Clone, Copy, PartialEq, Eq, Structural)]
pub enum Region {
    /// The static region.
    Static,
    /// A bound region variable.
    BVar(DeBruijnId, RegionId),
    /// An erased region, once lifetime information is no longer needed.
    Erased,
    /// A placeholder used for error reporting.
    Unknown,
}

/// The type of erased regions, for bodies in which all lifetime information
/// has been dropped.
#[derive(Debug, Clone, Copy, PartialEq, Eq, Structural)]
pub enum ErasedRegion {
    Erased,
}

/// Integer types, by width and signedness.
#[derive(Debug, Clone, Copy, PartialEq, Eq, Structural)]
pub enum IntegerTy {
    Isize,
    I8,
    I16,
    I32,
    I64,
    I128,
    Usize,
    U8,
    U16,
    U32,
    U64,
    U128,
}

/// Reference kind: mutable or shared.
#[derive(Debug, Clone, Copy, PartialEq, Eq, Structural)]
pub enum RefKind {
    Mut,
    Shared,
}

/// Built-in container, pointer, array, slice and string types that are
/// handled like primitive types.
#[derive(Debug, Clone, Copy, PartialEq, Eq, Structural)]
pub enum AssumedTy {
    /// Boxes get a special treatment: they are translated as the identity.
    Box,
    /// Pointer wrapper from the standard library.
    PtrUnique,
    /// Pointer wrapper from the standard library.
    PtrNonNull,
    Array,
    Slice,
    Str,
}

/// Type identifier: a user declaration, a tuple, or a built-in type.
#[derive(Debug, Clone, Copy, PartialEq, Eq, Structural)]
pub enum TypeId {
    /// A user-declared ADT, transparent or opaque.
    Adt(TypeDeclId),
    Tuple,
    /// A built-in type handled like a primitive one.
    Assumed(AssumedTy),
}

/// Types of primitive values: integer, bool or char.  There is no floating
/// point on purpose.
#[derive(Debug, Clone, Copy, PartialEq, Eq, Structural)]
pub enum LiteralTy {
    Integer(IntegerTy),
    Bool,
    Char,
}

/// A concrete scalar value, tagged with its integer type.
#[derive(Debug, Clone, Copy, PartialEq, Eq, Structural)]
pub enum ScalarValue {
    Isize(i64),
    I8(i8),
    I16(i16),
    I32(i32),
    I64(i64),
    I128(i128),
    Usize(u64),
    U8(u8),
    U16(u16),
    U32(u32),
    U64(u64),
    U128(u128),
}

/// A literal value: a scalar, a bool or a char.
#[derive(Debug, Clone, Copy, PartialEq, Eq, Structural)]
pub enum Literal {
    Scalar(ScalarValue),
    Bool(bool),
    Char(char),
}

/// A const-generic value: a global constant, a const-generic variable, or a
/// concrete literal.
#[derive(Debug, Clone, Copy, PartialEq, Eq, Structural)]
pub enum ConstGeneric {
    /// A global constant.
    Global(GlobalDeclId),
    /// A const-generic variable.
    Var(ConstGenericVarId),
    /// A concrete value.
    Value(Literal),
}

/// A type variable.
#[derive(Debug)]
pub struct TypeVar {
    /// Unique index identifying the variable.
    pub index: TypeVarId,
    /// Variable name.
    pub name: String,
}

/// A region variable.
#[derive(Debug)]
pub struct RegionVar {
    /// Unique index identifying the variable.
    pub index: RegionId,
    /// Region name.
    pub name: Option<String>,
}

/// A const-generic variable.
#[derive(Debug)]
pub struct ConstGenericVar {
    /// Unique index identifying the variable.
    pub index: ConstGenericVarId,
    /// Const-generic name.
    pub name: String,
    /// Type of the const generic.
    pub ty: LiteralTy,
}

/// A path describing how a trait obligation is discharged, not merely that
/// it is: read it as a path inside the trait clauses that apply to the
/// current definition.  Parent and item projections nest an inner path, so a
/// path is a tree whose depth is the number of supertrait or associated-type
/// hops traversed to reach a concrete witness.
///
/// `SelfId` sorts last among sibling clauses on purpose, so that local
/// clause resolution is preferred over self-reference when both apply.
#[derive(Debug)]
pub enum TraitInstanceId {
    /// A specific top-level implementation item.
    TraitImpl(TraitImplId),
    /// One of the local clauses of the enclosing declaration.
    Clause(TraitClauseId),
    /// A parent (supertrait) clause of the instance designated by the inner
    /// path.  The trait declaration identifier is the trait the inner
    /// instance implements; it is not necessary, and kept for convenience.
    ParentClause(Box<TraitInstanceId>, TraitDeclId, TraitClauseId),
    /// A clause bound in a trait item (typically a clause on an associated
    /// type) of the instance designated by the inner path.
    ItemClause(Box<TraitInstanceId>, TraitDeclId, TraitItemName, TraitClauseId),
    /// The implicit `Self: Trait` clause inside a trait declaration or
    /// implementation.
    SelfId,
    /// A built-in or auto trait implementation.
    BuiltinOrAuto(TraitDeclId),
    /// The automatically generated implementation for a trait object.
    Dyn(TraitDeclId),
    /// A placeholder carrying a diagnostic, for error reporting.
    Unknown(String),
}

/// A reference to a trait instance, with the generics it is applied to.
#[derive(Debug)]
pub struct TraitRef {
    pub trait_id: TraitInstanceId,
    pub generics: GenericArgs,
    /// Not necessary, but useful.
    pub trait_decl_ref: TraitDeclRef,
}

/// A reference to a trait declaration, with the generics it is applied to.
#[derive(Debug)]
pub struct TraitDeclRef {
    pub trait_id: TraitDeclId,
    pub generics: GenericArgs,
}

/// The actual substitution supplied at a use site: ordered sequences of
/// regions, types, const-generic values and trait-reference witnesses.
#[derive(Debug)]
pub struct GenericArgs {
    pub regions: Vec<Region>,
    pub types: Vec<Ty>,
    pub const_generics: Vec<ConstGeneric>,
    pub trait_refs: Vec<TraitRef>,
}

/// A predicate of the form `exists<T> where T: Trait`.
#[derive(Debug, Clone, Copy, PartialEq, Eq, Structural)]
pub struct ExistentialPredicate;

/// A type.
#[derive(Debug)]
pub enum Ty {
    /// An ADT instantiation.  ADTs are general here: user-defined types,
    /// tuples (including unit, the 0-tuple), and built-in types.
    Adt(TypeId, GenericArgs),
    /// A type variable.
    TypeVar(TypeVarId),
    /// A literal scalar type.
    Literal(LiteralTy),
    /// The never type, for computations which do not return.
    Never,
    /// A borrow.
    Ref(Region, Box<Ty>, RefKind),
    /// A raw pointer.
    RawPtr(Box<Ty>, RefKind),
    /// A trait associated type.
    TraitType(TraitRef, TraitItemName),
    /// An existential trait object.
    DynTrait(ExistentialPredicate),
    /// An arrow (function-pointer) type.  Only arrows introduce new bound
    /// regions; every other binder of a type comes from the enclosing
    /// declaration's generic parameters.
    Arrow(Vector<RegionId, RegionVar>, Vec<Ty>, Box<Ty>),
}

/// Where a given predicate came from.
#[derive(Debug)]
pub enum PredicateOrigin {
    /// A where-clause (or equivalent bound) on a function.
    WhereClauseOnFn,
    /// A where-clause (or equivalent bound) on a type declaration.
    WhereClauseOnType,
    /// A where-clause (or equivalent bound) on an impl block.
    WhereClauseOnImpl,
    /// The implicit `Self: Trait` clause in scope inside a trait declaration
    /// or an implementation of it.
    TraitSelf,
    /// A where-clause (or supertrait constraint) on a trait declaration.
    WhereClauseOnTrait,
    /// A bound on an associated type of a trait.
    TraitItem(TraitItemName),
}

/// A predicate of the form `Type: Trait<Args>`.
#[derive(Debug)]
pub struct TraitClause {
    /// Used to refer to this clause when solving trait constraints.
    pub clause_id: TraitClauseId,
    pub span: Option<Span>,
    /// Where the predicate was written, relative to the item that requires
    /// it.
    pub origin: PredicateOrigin,
    /// The trait that is implemented.
    pub trait_id: TraitDeclId,
    /// The generics applied to the trait; this includes the `Self` type.
    pub generics: GenericArgs,
}

/// An outlives constraint: the first component outlives the second.
#[derive(Debug)]
pub struct OutlivesPred<T, U>(pub T, pub U);

pub type RegionOutlives = OutlivesPred<Region, Region>;

pub type TypeOutlives = OutlivesPred<Ty, Region>;

/// A constraint over a trait associated type, `T: Trait<Item = Ty>`.
#[derive(Debug)]
pub struct TraitTypeConstraint {
    pub trait_ref: TraitRef,
    pub item_name: TraitItemName,
    pub ty: Ty,
}

/// The formal parameter list owned by a declaration: region, type and
/// const-generic variables, the trait clauses to be discharged, and the
/// constraints that do not need witnesses.
#[derive(Debug)]
pub struct GenericParams {
    pub regions: Vector<RegionId, RegionVar>,
    pub types: Vector<TypeVarId, TypeVar>,
    pub const_generics: Vector<ConstGenericVarId, ConstGenericVar>,
    pub trait_clauses: Vector<TraitClauseId, TraitClause>,
    /// The first region of each pair outlives the second.
    pub regions_outlive: Vec<RegionOutlives>,
    /// The type outlives the region.
    pub types_outlive: Vec<TypeOutlives>,
    /// Constraints over trait associated types.
    pub trait_type_constraints: Vec<TraitTypeConstraint>,
}

/// A field of a struct or of an enum variant.
#[derive(Debug)]
pub struct Field {
    pub span: Span,
    pub name: Option<FieldName>,
    pub ty: Ty,
}

/// A variant of an enum.
#[derive(Debug)]
pub struct Variant {
    pub span: Span,
    pub name: String,
    pub fields: Vector<crate::ids::FieldId, Field>,
    /// The discriminant used at runtime.
    pub discriminant: ScalarValue,
}

/// The kind of a type declaration: a struct, an enum, an opaque type, an
/// alias, or an error placeholder which every pass must treat as inert.
#[derive(Debug)]
pub enum TypeDeclKind {
    Struct(Vector<crate::ids::FieldId, Field>),
    Enum(Vector<crate::ids::VariantId, Variant>),
    /// A local type marked as opaque, or an external type.
    Opaque,
    /// An alias to another type.
    Alias(Ty),
    /// Used if an error happened during extraction; passes never look
    /// inside.
    Error(String),
}

/// A type declaration.
#[derive(Debug)]
pub struct TypeDecl {
    pub def_id: TypeDeclId,
    pub generics: GenericParams,
    /// The type kind: struct, enum, opaque, alias or error.
    pub kind: TypeDeclKind,
}

/// Counts of the generic parameters of the parent block of a declaration.
#[derive(Debug, Clone, Copy, PartialEq, Eq, Structural)]
pub struct ParamsInfo {
    pub num_region_params: usize,
    pub num_type_params: usize,
    pub num_const_generic_params: usize,
    pub num_trait_clauses: usize,
    pub num_regions_outlive: usize,
    pub num_types_outlive: usize,
    pub num_trait_type_constraints: usize,
}

/// The calling convention of a closure.
#[derive(Debug, Clone, Copy, PartialEq, Eq, Structural)]
pub enum ClosureKind {
    Fn,
    FnMut,
    FnOnce,
}

/// Additional information for closures: the calling convention and the types
/// of the fields of the closure state, one per captured place.
#[derive(Debug)]
pub struct ClosureInfo {
    pub kind: ClosureKind,
    pub state: Vec<Ty>,
}

/// A function signature.
#[derive(Debug)]
pub struct FunSig {
    pub is_unsafe: bool,
    /// `true` if the signature is for a closure; the type and const-generic
    /// parameters then come from the parent function, while the region
    /// variables are local to the closure.
    pub is_closure: bool,
    pub closure_info: Option<ClosureInfo>,
    pub generics: GenericParams,
    /// For trait methods only: the parameter counts of the parent block.
    pub parent_params_info: Option<ParamsInfo>,
    pub inputs: Vec<Ty>,
    pub output: Ty,
}

// ---------------------------------------------------------------------------
// Views
// ---------------------------------------------------------------------------
/// View of a region variable.
#[verifier::ext_equal]
pub struct RegionVarV {
    pub index: RegionId,
    pub name: Option<Seq<char>>,
}

/// View of a type variable.
#[verifier::ext_equal]
pub struct TypeVarV {
    pub index: TypeVarId,
    pub name: Seq<char>,
}

/// View of a const-generic variable.
#[verifier::ext_equal]
pub struct ConstGenericVarV {
    pub index: ConstGenericVarId,
    pub name: Seq<char>,
    pub ty: LiteralTy,
}

/// View of a trait instance path.
#[verifier::ext_equal]
pub enum TraitInstanceIdV {
    TraitImpl(TraitImplId),
    Clause(TraitClauseId),
    ParentClause(Box<TraitInstanceIdV>, TraitDeclId, TraitClauseId),
    ItemClause(Box<TraitInstanceIdV>, TraitDeclId, Seq<char>, TraitClauseId),
    SelfId,
    BuiltinOrAuto(TraitDeclId),
    Dyn(TraitDeclId),
    Unknown(Seq<char>),
}

/// View of a trait reference.
#[verifier::ext_equal]
pub struct TraitRefV {
    pub trait_id: TraitInstanceIdV,
    pub generics: GenericArgsV,
    pub trait_decl_ref: TraitDeclRefV,
}

/// View of a trait declaration reference.
#[verifier::ext_equal]
pub struct TraitDeclRefV {
    pub trait_id: TraitDeclId,
    pub generics: GenericArgsV,
}

/// View of the generic arguments supplied at a use site.
#[verifier::ext_equal]
pub struct GenericArgsV {
    pub regions: Seq<Region>,
    pub types: Seq<TyV>,
    pub const_generics: Seq<ConstGeneric>,
    pub trait_refs: Seq<TraitRefV>,
}

/// View of a type.
#[verifier::ext_equal]
pub enum TyV {
    Adt(TypeId, GenericArgsV),
    TypeVar(TypeVarId),
    Literal(LiteralTy),
    Never,
    Ref(Region, Box<TyV>, RefKind),
    RawPtr(Box<TyV>, RefKind),
    TraitType(TraitRefV, Seq<char>),
    DynTrait(ExistentialPredicate),
    Arrow(Seq<Option<RegionVarV>>, Seq<TyV>, Box<TyV>),
}

/// View of a predicate origin.
#[verifier::ext_equal]
pub enum PredicateOriginV {
    WhereClauseOnFn,
    WhereClauseOnType,
    WhereClauseOnImpl,
    TraitSelf,
    WhereClauseOnTrait,
    TraitItem(Seq<char>),
}

/// View of a trait clause.
#[verifier::ext_equal]
pub struct TraitClauseV {
    pub clause_id: TraitClauseId,
    pub span: Option<Span>,
    pub origin: PredicateOriginV,
    pub trait_id: TraitDeclId,
    pub generics: GenericArgsV,
}

/// View of a constraint over a trait associated type.
#[verifier::ext_equal]
pub struct TraitTypeConstraintV {
    pub trait_ref: TraitRefV,
    pub item_name: Seq<char>,
    pub ty: TyV,
}

/// View of the generic parameters of a declaration.
#[verifier::ext_equal]
pub struct GenericParamsV {
    pub regions: Seq<Option<RegionVarV>>,
    pub types: Seq<Option<TypeVarV>>,
    pub const_generics: Seq<Option<ConstGenericVarV>>,
    pub trait_clauses: Seq<Option<TraitClauseV>>,
    pub regions_outlive: Seq<(Region, Region)>,
    pub types_outlive: Seq<(TyV, Region)>,
    pub trait_type_constraints: Seq<TraitTypeConstraintV>,
}

/// View of a field.
#[verifier::ext_equal]
pub struct FieldV {
    pub span: Span,
    pub name: Option<Seq<char>>,
    pub ty: TyV,
}

/// View of a variant.
#[verifier::ext_equal]
pub struct VariantV {
    pub span: Span,
    pub name: Seq<char>,
    pub fields: Seq<Option<FieldV>>,
    pub discriminant: ScalarValue,
}

/// View of a type declaration kind.
#[verifier::ext_equal]
pub enum TypeDeclKindV {
    Struct(Seq<Option<FieldV>>),
    Enum(Seq<Option<VariantV>>),
    Opaque,
    Alias(TyV),
    Error(Seq<char>),
}

/// View of a type declaration.
#[verifier::ext_equal]
pub struct TypeDeclV {
    pub def_id: TypeDeclId,
    pub generics: GenericParamsV,
    pub kind: TypeDeclKindV,
}

/// View of the closure information.
#[verifier::ext_equal]
pub struct ClosureInfoV {
    pub kind: ClosureKind,
    pub state: Seq<TyV>,
}

/// View of a function signature.
#[verifier::ext_equal]
pub struct FunSigV {
    pub is_unsafe: bool,
    pub is_closure: bool,
    pub closure_info: Option<ClosureInfoV>,
    pub generics: GenericParamsV,
    pub parent_params_info: Option<ParamsInfo>,
    pub inputs: Seq<TyV>,
    pub output: TyV,
}

/// View of an optional string.
pub open spec fn view_opt_string(s: Option<String>) -> Option<Seq<char>> {
    match s {
        Some(s) => Some(s@),
        None => None,
    }
}

/// View of a type.
pub open spec fn view_ty(t: Ty) -> TyV
    decreases t,
{
    match t {
        Ty::Adt(id, args) => TyV::Adt(id, view_args(args)),
        Ty::TypeVar(v) => TyV::TypeVar(v),
        Ty::Literal(l) => TyV::Literal(l),
        Ty::Never => TyV::Never,
        Ty::Ref(r, inner, k) => TyV::Ref(r, Box::new(view_ty(*inner)), k),
        Ty::RawPtr(inner, k) => TyV::RawPtr(Box::new(view_ty(*inner)), k),
        Ty::TraitType(tr, name) => TyV::TraitType(view_trait_ref(tr), name@),
        Ty::DynTrait(p) => TyV::DynTrait(p),
        Ty::Arrow(regions, inputs, output) => TyV::Arrow(
            view_region_vars(regions@),
            view_tys(inputs@),
            Box::new(view_ty(*output)),
        ),
    }
}

/// View of a sequence of types.
pub open spec fn view_tys(s: Seq<Ty>) -> Seq<TyV>
    decreases s,
{
    if s.len() == 0 {
        Seq::empty()
    } else {
        seq![view_ty(s[0])] + view_tys(s.subrange(1, s.len() as int))
    }
}

/// View of the slots of an arena of region variables.
pub open spec fn view_region_vars(s: Seq<Option<RegionVar>>) -> Seq<Option<RegionVarV>> {
    Seq::new(s.len(), |i: int| view_opt_region_var(s[i]))
}

/// View of an optional region variable.
pub open spec fn view_opt_region_var(v: Option<RegionVar>) -> Option<RegionVarV> {
    match v {
        Some(v) => Some(RegionVarV { index: v.index, name: view_opt_string(v.name) }),
        None => None,
    }
}

/// View of the generic arguments supplied at a use site.
pub open spec fn view_args(a: GenericArgs) -> GenericArgsV
    decreases a,
{
    GenericArgsV {
        regions: a.regions@,
        types: view_tys(a.types@),
        const_generics: a.const_generics@,
        trait_refs: view_trait_refs(a.trait_refs@),
    }
}

/// View of a sequence of trait references.
pub open spec fn view_trait_refs(s: Seq<TraitRef>) -> Seq<TraitRefV>
    decreases s,
{
    if s.len() == 0 {
        Seq::empty()
    } else {
        seq![view_trait_ref(s[0])] + view_trait_refs(s.subrange(1, s.len() as int))
    }
}

/// View of a trait reference.
pub open spec fn view_trait_ref(t: TraitRef) -> TraitRefV
    decreases t,
{
    TraitRefV {
        trait_id: view_trait_instance_id(t.trait_id),
        generics: view_args(t.generics),
        trait_decl_ref: TraitDeclRefV {
            trait_id: t.trait_decl_ref.trait_id,
            generics: view_args(t.trait_decl_ref.generics),
        },
    }
}

/// View of a trait instance path.
pub open spec fn view_trait_instance_id(t: TraitInstanceId) -> TraitInstanceIdV
    decreases t,
{
    match t {
        TraitInstanceId::TraitImpl(id) => TraitInstanceIdV::TraitImpl(id),
        TraitInstanceId::Clause(id) => TraitInstanceIdV::Clause(id),
        TraitInstanceId::ParentClause(inner, decl, clause) => TraitInstanceIdV::ParentClause(
            Box::new(view_trait_instance_id(*inner)),
            decl,
            clause,
        ),
        TraitInstanceId::ItemClause(inner, decl, item, clause) => TraitInstanceIdV::ItemClause(
            Box::new(view_trait_instance_id(*inner)),
            decl,
            item@,
            clause,
        ),
        TraitInstanceId::SelfId => TraitInstanceIdV::SelfId,
        TraitInstanceId::BuiltinOrAuto(id) => TraitInstanceIdV::BuiltinOrAuto(id),
        TraitInstanceId::Dyn(id) => TraitInstanceIdV::Dyn(id),
        TraitInstanceId::Unknown(msg) => TraitInstanceIdV::Unknown(msg@),
    }
}

impl View for Ty {
    type V = TyV;

    open spec fn view(&self) -> TyV {
        view_ty(*self)
    }
}

impl View for GenericArgs {
    type V = GenericArgsV;

    open spec fn view(&self) -> GenericArgsV {
        view_args(*self)
    }
}

impl View for TraitRef {
    type V = TraitRefV;

    open spec fn view(&self) -> TraitRefV {
        view_trait_ref(*self)
    }
}

impl View for TraitDeclRef {
    type V = TraitDeclRefV;

    open spec fn view(&self) -> TraitDeclRefV {
        TraitDeclRefV { trait_id: self.trait_id, generics: view_args(self.generics) }
    }
}

impl View for TraitInstanceId {
    type V = TraitInstanceIdV;

    open spec fn view(&self) -> TraitInstanceIdV {
        view_trait_instance_id(*self)
    }
}

impl View for RegionVar {
    type V = RegionVarV;

    open spec fn view(&self) -> RegionVarV {
        RegionVarV { index: self.index, name: view_opt_string(self.name) }
    }
}

impl View for TypeVar {
    type V = TypeVarV;

    open spec fn view(&self) -> TypeVarV {
        TypeVarV { index: self.index, name: self.name@ }
    }
}

impl View for ConstGenericVar {
    type V = ConstGenericVarV;

    open spec fn view(&self) -> ConstGenericVarV {
        ConstGenericVarV { index: self.index, name: self.name@, ty: self.ty }
    }
}

impl View for PredicateOrigin {
    type V = PredicateOriginV;

    open spec fn view(&self) -> PredicateOriginV {
        match *self {
            PredicateOrigin::WhereClauseOnFn => PredicateOriginV::WhereClauseOnFn,
            PredicateOrigin::WhereClauseOnType => PredicateOriginV::WhereClauseOnType,
            PredicateOrigin::WhereClauseOnImpl => PredicateOriginV::WhereClauseOnImpl,
            PredicateOrigin::TraitSelf => PredicateOriginV::TraitSelf,
            PredicateOrigin::WhereClauseOnTrait => PredicateOriginV::WhereClauseOnTrait,
            PredicateOrigin::TraitItem(name) => PredicateOriginV::TraitItem(name@),
        }
    }
}

impl View for TraitClause {
    type V = TraitClauseV;

    open spec fn view(&self) -> TraitClauseV {
        TraitClauseV {
            clause_id: self.clause_id,
            span: self.span,
            origin: self.origin@,
            trait_id: self.trait_id,
            generics: view_args(self.generics),
        }
    }
}

impl View for TraitTypeConstraint {
    type V = TraitTypeConstraintV;

    open spec fn view(&self) -> TraitTypeConstraintV {
        TraitTypeConstraintV {
            trait_ref: view_trait_ref(self.trait_ref),
            item_name: self.item_name@,
            ty: view_ty(self.ty),
        }
    }
}

impl View for GenericParams {
    type V = GenericParamsV;

    open spec fn view(&self) -> GenericParamsV {
        GenericParamsV {
            regions: view_region_vars(self.regions@),
            types: Seq::new(
                self.types@.len(),
                |i: int|
                    match self.types@[i] {
                        Some(v) => Some(v@),
                        None => None,
                    },
            ),
            const_generics: Seq::new(
                self.const_generics@.len(),
                |i: int|
                    match self.const_generics@[i] {
                        Some(v) => Some(v@),
                        None => None,
                    },
            ),
            trait_clauses: Seq::new(
                self.trait_clauses@.len(),
                |i: int|
                    match self.trait_clauses@[i] {
                        Some(v) => Some(v@),
                        None => None,
                    },
            ),
            regions_outlive: Seq::new(
                self.regions_outlive@.len(),
                |i: int| (self.regions_outlive@[i].0, self.regions_outlive@[i].1),
            ),
            types_outlive: Seq::new(
                self.types_outlive@.len(),
                |i: int| (view_ty(self.types_outlive@[i].0), self.types_outlive@[i].1),
            ),
            trait_type_constraints: Seq::new(
                self.trait_type_constraints@.len(),
                |i: int| self.trait_type_constraints@[i]@,
            ),
        }
    }
}

impl View for Field {
    type V = FieldV;

    open spec fn view(&self) -> FieldV {
        FieldV { span: self.span, name: view_opt_string(self.name), ty: view_ty(self.ty) }
    }
}

impl View for Variant {
    type V = VariantV;

    open spec fn view(&self) -> VariantV {
        VariantV {
            span: self.span,
            name: self.name@,
            fields: Seq::new(
                self.fields@.len(),
                |i: int|
                    match self.fields@[i] {
                        Some(f) => Some(f@),
                        None => None,
                    },
            ),
            discriminant: self.discriminant,
        }
    }
}

impl View for TypeDeclKind {
    type V = TypeDeclKindV;

    open spec fn view(&self) -> TypeDeclKindV {
        match self {
            TypeDeclKind::Struct(fields) => TypeDeclKindV::Struct(
                Seq::new(
                    fields@.len(),
                    |i: int|
                        match fields@[i] {
                            Some(f) => Some(f@),
                            None => None,
                        },
                ),
            ),
            TypeDeclKind::Enum(variants) => TypeDeclKindV::Enum(
                Seq::new(
                    variants@.len(),
                    |i: int|
                        match variants@[i] {
                            Some(v) => Some(v@),
                            None => None,
                        },
                ),
            ),
            TypeDeclKind::Opaque => TypeDeclKindV::Opaque,
            TypeDeclKind::Alias(t) => TypeDeclKindV::Alias(view_ty(*t)),
            TypeDeclKind::Error(msg) => TypeDeclKindV::Error(msg@),
        }
    }
}

impl View for TypeDecl {
    type V = TypeDeclV;

    open spec fn view(&self) -> TypeDeclV {
        TypeDeclV { def_id: self.def_id, generics: self.generics@, kind: self.kind@ }
    }
}

impl View for ClosureInfo {
    type V = ClosureInfoV;

    open spec fn view(&self) -> ClosureInfoV {
        ClosureInfoV { kind: self.kind, state: view_tys(self.state@) }
    }
}

impl View for FunSig {
    type V = FunSigV;

    open spec fn view(&self) -> FunSigV {
        FunSigV {
            is_unsafe: self.is_unsafe,
            is_closure: self.is_closure,
            closure_info: match self.closure_info {
                Some(ci) => Some(ci@),
                None => None,
            },
            generics: self.generics@,
            parent_params_info: self.parent_params_info,
            inputs: view_tys(self.inputs@),
            output: view_ty(self.output),
        }
    }
}

// ---------------------------------------------------------------------------
// Lemmas about sequence views
// ---------------------------------------------------------------------------
/// The view of a sequence of types is pointwise.
pub proof fn lemma_view_tys(s: Seq<Ty>)
    ensures
        view_tys(s).len() == s.len(),
        forall|i: int| 0 <= i < s.len() ==> view_tys(s)[i] == view_ty(s[i]),
    decreases s.len(),
{
    if s.len() > 0 {
        lemma_view_tys(s.subrange(1, s.len() as int));
    }
}

/// The view of a sequence of trait references is pointwise.
pub proof fn lemma_view_trait_refs(s: Seq<TraitRef>)
    ensures
        view_trait_refs(s).len() == s.len(),
        forall|i: int| 0 <= i < s.len() ==> view_trait_refs(s)[i] == view_trait_ref(s[i]),
    decreases s.len(),
{
    if s.len() > 0 {
        lemma_view_trait_refs(s.subrange(1, s.len() as int));
    }
}

// ---------------------------------------------------------------------------
// Constructors and simple operations
// ---------------------------------------------------------------------------
impl GenericArgs {
    /// Generic arguments with the given components.
    pub fn new(
        regions: Vec<Region>,
        types: Vec<Ty>,
        const_generics: Vec<ConstGeneric>,
        trait_refs: Vec<TraitRef>,
    ) -> (r: GenericArgs)
        ensures
            r@.regions == regions@,
            r@.types == view_tys(types@),
            r@.const_generics == const_generics@,
            r@.trait_refs == view_trait_refs(trait_refs@),
    {
        GenericArgs { regions, types, const_generics, trait_refs }
    }

    /// Generic arguments with no component at all.
    pub fn empty() -> (r: GenericArgs)
        ensures
            r@ == (GenericArgsV {
                regions: Seq::<Region>::empty(),
                types: Seq::<TyV>::empty(),
                const_generics: Seq::<ConstGeneric>::empty(),
                trait_refs: Seq::<TraitRefV>::empty(),
            }),
    {
        let r = GenericArgs {
            regions: Vec::new(),
            types: Vec::new(),
            const_generics: Vec::new(),
            trait_refs: Vec::new(),
        };
        proof {
            assert(r@ =~= GenericArgsV {
                regions: Seq::<Region>::empty(),
                types: Seq::<TyV>::empty(),
                const_generics: Seq::<ConstGeneric>::empty(),
                trait_refs: Seq::<TraitRefV>::empty(),
            });
        }
        r
    }
}

/// Whether a type view is the unit type: the 0-tuple.
pub open spec fn is_unit_ty(t: TyV) -> bool {
    t == TyV::Adt(
        TypeId::Tuple,
        GenericArgsV {
            regions: Seq::<Region>::empty(),
            types: Seq::<TyV>::empty(),
            const_generics: Seq::<ConstGeneric>::empty(),
            trait_refs: Seq::<TraitRefV>::empty(),
        },
    )
}

impl Ty {
    /// The unit type.
    pub fn unit() -> (r: Ty)
        ensures
            is_unit_ty(r@),
    {
        let r = Ty::Adt(TypeId::Tuple, GenericArgs::empty());
        proof {
            assert(r@ =~= TyV::Adt(
                TypeId::Tuple,
                GenericArgsV {
                    regions: Seq::<Region>::empty(),
                    types: Seq::<TyV>::empty(),
                    const_generics: Seq::<ConstGeneric>::empty(),
                    trait_refs: Seq::<TraitRefV>::empty(),
                },
            ));
        }
        r
    }

    /// Whether this type is the unit type.
    pub fn is_unit(&self) -> (r: bool)
        ensures
            r == is_unit_ty(self@),
    {
        match self {
            Ty::Adt(TypeId::Tuple, args) => {
                let r = args.regions.len() == 0 && args.types.len() == 0
                    && args.const_generics.len() == 0 && args.trait_refs.len() == 0;
                proof {
                    lemma_view_tys(args.types@);
                    lemma_view_trait_refs(args.trait_refs@);
                    assert(self@ == TyV::Adt(TypeId::Tuple, view_args(*args)));
                    if r {
                        assert(args.types@ =~= Seq::<Ty>::empty());
                        assert(args.trait_refs@ =~= Seq::<TraitRef>::empty());
                        assert(view_args(*args) =~= GenericArgsV {
                            regions: Seq::<Region>::empty(),
                            types: Seq::<TyV>::empty(),
                            const_generics: Seq::<ConstGeneric>::empty(),
                            trait_refs: Seq::<TraitRefV>::empty(),
                        });
                    }
                }
                r
            },
            _ => false,
        }
    }
}

} // verus!
