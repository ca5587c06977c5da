//! The shared, mutable translation context handed to every pass: the full
//! declaration collections of one translation unit.

use crate::ids::{FunDeclId, TypeDeclId, Vector};
use crate::types::{TypeDecl, TypeDeclV};
use crate::ullbc::{FunDecl, FunDeclV};
use vstd::prelude::*;

verus! {

/// The translation context: every declaration of the translation unit.
#[derive(Debug)]
pub struct TransformCtx {
    pub type_decls: Vector<TypeDeclId, TypeDecl>,
    pub fun_decls: Vector<FunDeclId, FunDecl>,
}

/// View of the translation context.
#[verifier::ext_equal]
pub struct TransformCtxV {
    pub type_decls: Seq<Option<TypeDeclV>>,
    pub fun_decls: Seq<Option<FunDeclV>>,
}

impl View for TransformCtx {
    type V = TransformCtxV;

    open spec fn view(&self) -> TransformCtxV {
        TransformCtxV {
            type_decls: Seq::new(
                self.type_decls@.len(),
                |i: int|
                    match self.type_decls@[i] {
                        Some(d) => Some(d@),
                        None => None,
                    },
            ),
            fun_decls: Seq::new(
                self.fun_decls@.len(),
                |i: int|
                    match self.fun_decls@[i] {
                        Some(d) => Some(d@),
                        None => None,
                    },
            ),
        }
    }
}

} // verus!
