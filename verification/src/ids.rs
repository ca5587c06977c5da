//! Typed integer handles and the ordered, append-only arenas they address.
//!
//! Every collection of declarations or variables is addressed by a handle
//! that is a thin wrapper over a dense integer index, with one distinct
//! handle type per entity kind so that indices of different kinds cannot be
//! confused.  An arena ([`Vector`]) maps handles to values; entries keep
//! their insertion order, may be removed (leaving a hole), and handles are
//! never reused after removal.

use core::marker::PhantomData;
use vstd::prelude::*;

verus! {

/// A typed handle over a dense integer index.
pub trait Idx: Sized + Copy {
    /// The underlying index.
    spec fn idx(self) -> nat;

    /// Build the handle with the given index.
    fn from_usize(i: usize) -> (r: Self)
        ensures
            r.idx() == i as nat,
    ;

    /// The underlying index, as a machine integer.
    fn to_usize(self) -> (r: usize)
        ensures
            r as nat == self.idx(),
    ;
}

/// Handle of a type variable.
#[derive(Debug, Clone, Copy, PartialEq, Eq, Structural)]
pub struct TypeVarId {
    pub index: usize,
}

/// Handle of a type declaration.
#[derive(Debug, Clone, Copy, PartialEq, Eq, Structural)]
pub struct TypeDeclId {
    pub index: usize,
}

/// Handle of an enum variant.
#[derive(Debug, Clone, Copy, PartialEq, Eq, Structural)]
pub struct VariantId {
    pub index: usize,
}

/// Handle of a field of a struct or of a variant.
#[derive(Debug, Clone, Copy, PartialEq, Eq, Structural)]
pub struct FieldId {
    pub index: usize,
}

/// Handle of a region variable.
#[derive(Debug, Clone, Copy, PartialEq, Eq, Structural)]
pub struct RegionId {
    pub index: usize,
}

/// Handle of a const-generic variable.
#[derive(Debug, Clone, Copy, PartialEq, Eq, Structural)]
pub struct ConstGenericVarId {
    pub index: usize,
}

/// Handle of a global declaration.
#[derive(Debug, Clone, Copy, PartialEq, Eq, Structural)]
pub struct GlobalDeclId {
    pub index: usize,
}

/// Handle of a trait clause within the generic parameters of a declaration.
#[derive(Debug, Clone, Copy, PartialEq, Eq, Structural)]
pub struct TraitClauseId {
    pub index: usize,
}

/// Handle of a trait declaration.
#[derive(Debug, Clone, Copy, PartialEq, Eq, Structural)]
pub struct TraitDeclId {
    pub index: usize,
}

/// Handle of a trait implementation.
#[derive(Debug, Clone, Copy, PartialEq, Eq, Structural)]
pub struct TraitImplId {
    pub index: usize,
}

/// Handle of a basic block within a function body.
#[derive(Debug, Clone, Copy, PartialEq, Eq, Structural)]
pub struct BlockId {
    pub index: usize,
}

/// Handle of a local variable slot within a function body.
#[derive(Debug, Clone, Copy, PartialEq, Eq, Structural)]
pub struct VarId {
    pub index: usize,
}

/// Handle of a function declaration.
#[derive(Debug, Clone, Copy, PartialEq, Eq, Structural)]
pub struct FunDeclId {
    pub index: usize,
}

impl Idx for TypeVarId {
    open spec fn idx(self) -> nat {
        self.index as nat
    }

    fn from_usize(i: usize) -> Self {
        TypeVarId { index: i }
    }

    fn to_usize(self) -> usize {
        self.index
    }
}

impl Idx for TypeDeclId {
    open spec fn idx(self) -> nat {
        self.index as nat
    }

    fn from_usize(i: usize) -> Self {
        TypeDeclId { index: i }
    }

    fn to_usize(self) -> usize {
        self.index
    }
}

impl Idx for VariantId {
    open spec fn idx(self) -> nat {
        self.index as nat
    }

    fn from_usize(i: usize) -> Self {
        VariantId { index: i }
    }

    fn to_usize(self) -> usize {
        self.index
    }
}

impl Idx for FieldId {
    open spec fn idx(self) -> nat {
        self.index as nat
    }

    fn from_usize(i: usize) -> Self {
        FieldId { index: i }
    }

    fn to_usize(self) -> usize {
        self.index
    }
}

impl Idx for RegionId {
    open spec fn idx(self) -> nat {
        self.index as nat
    }

    fn from_usize(i: usize) -> Self {
        RegionId { index: i }
    }

    fn to_usize(self) -> usize {
        self.index
    }
}

impl Idx for ConstGenericVarId {
    open spec fn idx(self) -> nat {
        self.index as nat
    }

    fn from_usize(i: usize) -> Self {
        ConstGenericVarId { index: i }
    }

    fn to_usize(self) -> usize {
        self.index
    }
}

impl Idx for GlobalDeclId {
    open spec fn idx(self) -> nat {
        self.index as nat
    }

    fn from_usize(i: usize) -> Self {
        GlobalDeclId { index: i }
    }

    fn to_usize(self) -> usize {
        self.index
    }
}

impl Idx for TraitClauseId {
    open spec fn idx(self) -> nat {
        self.index as nat
    }

    fn from_usize(i: usize) -> Self {
        TraitClauseId { index: i }
    }

    fn to_usize(self) -> usize {
        self.index
    }
}

impl Idx for TraitDeclId {
    open spec fn idx(self) -> nat {
        self.index as nat
    }

    fn from_usize(i: usize) -> Self {
        TraitDeclId { index: i }
    }

    fn to_usize(self) -> usize {
        self.index
    }
}

impl Idx for TraitImplId {
    open spec fn idx(self) -> nat {
        self.index as nat
    }

    fn from_usize(i: usize) -> Self {
        TraitImplId { index: i }
    }

    fn to_usize(self) -> usize {
        self.index
    }
}

impl Idx for BlockId {
    open spec fn idx(self) -> nat {
        self.index as nat
    }

    fn from_usize(i: usize) -> Self {
        BlockId { index: i }
    }

    fn to_usize(self) -> usize {
        self.index
    }
}

impl Idx for VarId {
    open spec fn idx(self) -> nat {
        self.index as nat
    }

    fn from_usize(i: usize) -> Self {
        VarId { index: i }
    }

    fn to_usize(self) -> usize {
        self.index
    }
}

impl Idx for FunDeclId {
    open spec fn idx(self) -> nat {
        self.index as nat
    }

    fn from_usize(i: usize) -> Self {
        FunDeclId { index: i }
    }

    fn to_usize(self) -> usize {
        self.index
    }
}

/// An ordered map from handles of kind `I` to values of type `T`.
///
/// The map is append-only: [`Vector::push`] appends a value under a fresh
/// handle, and [`Vector::remove`] leaves a hole so that handles are never
/// reused.  The view of a `Vector` is the sequence of its slots, a removed
/// slot showing as `None`.
#[derive(Debug)]
pub struct Vector<I, T> {
    pub elems: Vec<Option<T>>,
    pub marker: PhantomData<I>,
}

impl<I: Idx, T> View for Vector<I, T> {
    type V = Seq<Option<T>>;

    open spec fn view(&self) -> Seq<Option<T>> {
        self.elems@
    }
}

impl<I: Idx, T> Vector<I, T> {
    /// The empty arena.
    pub fn new() -> (v: Self)
        ensures
            v@ == Seq::<Option<T>>::empty(),
    {
        Vector { elems: Vec::new(), marker: PhantomData }
    }

    /// The number of slots, holes included.
    pub fn slot_count(&self) -> (n: usize)
        ensures
            n == self@.len(),
    {
        self.elems.len()
    }

    /// Whether `id` addresses a live (not removed) entry.
    pub open spec fn spec_is_live(&self, id: I) -> bool {
        id.idx() < self@.len() && self@[id.idx() as int] is Some
    }

    /// The value held under a live handle.
    pub open spec fn spec_get(&self, id: I) -> T
        recommends
            self.spec_is_live(id),
    {
        self@[id.idx() as int]->Some_0
    }

    /// Look a handle up; `None` for an out-of-range handle or a hole.
    pub fn get(&self, id: I) -> (r: Option<&T>)
        ensures
            r is Some <==> self.spec_is_live(id),
            r is Some ==> *r->Some_0 == self.spec_get(id),
    {
        let i = id.to_usize();
        if i < self.elems.len() {
            match &self.elems[i] {
                Some(x) => Some(x),
                None => None,
            }
        } else {
            None
        }
    }

    /// Append a value under a fresh handle.
    pub fn push(&mut self, x: T) -> (id: I)
        ensures
            final(self)@ == old(self)@.push(Some(x)),
            id.idx() == old(self)@.len(),
    {
        let id = I::from_usize(self.elems.len());
        self.elems.push(Some(x));
        id
    }

    /// Remove the entry under `id`, leaving a hole; the handle is never
    /// reused.  Removing an absent entry is allowed and changes nothing.
    pub fn remove(&mut self, id: I) -> (r: Option<T>)
        ensures
            id.idx() < old(self)@.len() ==> final(self)@ == old(self)@.update(
                id.idx() as int,
                None,
            ) && r == old(self)@[id.idx() as int],
            id.idx() >= old(self)@.len() ==> final(self)@ == old(self)@ && r is None,
    {
        let i = id.to_usize();
        if i < self.elems.len() {
            let slot = &mut self.elems[i];
            let mut taken: Option<T> = None;
            core::mem::swap(slot, &mut taken);
            taken
        } else {
            None
        }
    }
}

} // verus!
