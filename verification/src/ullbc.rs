//! The control-flow body model: basic blocks, statements, operands, rvalues
//! and terminators, together with the local-variable table and the function
//! declarations that own bodies.
//!
//! A body is a handle-addressed collection of blocks, each holding an ordered
//! sequence of statements terminated by exactly one terminator.  Every
//! block-handle referenced by a terminator must exist in the same body
//! ([`body_wf`]); block handles are stable across passes.

use crate::ids::{
    BlockId, ConstGenericVarId, FieldId, FunDeclId, GlobalDeclId, Idx, VarId, VariantId, Vector,
};
use crate::meta::Span;
use crate::types::{
    view_args, view_opt_string, view_trait_ref, view_ty, ConstGeneric, FunSig, FunSigV,
    GenericArgs, GenericArgsV, IntegerTy, Literal, RefKind, ScalarValue, TraitItemName, TraitRef,
    TraitRefV, Ty, TyV, TypeId,
};
use vstd::prelude::*;

verus! {

/// The name of an item, as a `::`-separated path.
#[derive(Debug)]
pub struct Name {
    pub text: String,
}

/// View of a name.
pub open spec fn view_name(n: Name) -> Seq<char> {
    n.text@
}

impl View for Name {
    type V = Seq<char>;

    open spec fn view(&self) -> Seq<char> {
        self.text@
    }
}

impl Name {
    /// A name made of the given path.
    pub fn from_path(path: &str) -> (n: Name)
        ensures
            n@ == path@,
    {
        Name { text: path.to_owned() }
    }

    /// Whether two names denote the same path.
    pub fn equals(&self, other: &Name) -> (r: bool)
        ensures
            r == (self@ == other@),
    {
        self.text == other.text
    }
}

/// A place: a local variable slot.  (Projections are out of scope here.)
#[derive(Debug, Clone, Copy, PartialEq, Eq, Structural)]
pub struct Place {
    pub var_id: VarId,
}

/// The kind of a borrow.
#[derive(Debug, Clone, Copy, PartialEq, Eq, Structural)]
pub enum BorrowKind {
    Shared,
    Mut,
}

/// The kind of an abort.
#[derive(Debug)]
pub enum AbortKind {
    /// A panic, with the name of the panic function.
    Panic(Name),
    /// Undefined behaviour reached.
    UndefinedBehavior,
}

/// A built-in function: a fixed catalogue of synthetic functions used to
/// represent primitive operations uniformly as calls.
#[derive(Debug, Clone, Copy, PartialEq, Eq, Structural)]
pub enum BuiltinFunId {
    /// View a shared array as a slice.
    ArrayToSliceShared,
    /// View a mutable array as a slice.
    ArrayToSliceMut,
    /// Build an array by repeating a value.
    ArrayRepeat,
}

/// A function identifier: a declared function or a built-in one.
#[derive(Debug, Clone, Copy, PartialEq, Eq, Structural)]
pub enum FunId {
    /// A declared (local or external) function.
    Regular(FunDeclId),
    /// A built-in function.
    Builtin(BuiltinFunId),
}

/// A function identifier, or a reference to a trait method.
#[derive(Debug)]
pub enum FunIdOrTraitMethodRef {
    Fun(FunId),
    /// A trait method: the trait instance, and the method name.
    Trait(TraitRef, TraitItemName),
}

/// A function pointer: a function identifier with its generic arguments.
#[derive(Debug)]
pub struct FnPtr {
    pub func: FunIdOrTraitMethodRef,
    pub generics: GenericArgs,
}

/// A constant expression together with its type.
#[derive(Debug)]
pub struct ConstantExpr {
    pub value: RawConstantExpr,
    pub ty: Ty,
}

/// The different forms a constant expression can take.
#[derive(Debug)]
pub enum RawConstantExpr {
    /// A literal value.
    Literal(Literal),
    /// A const-generic variable.
    Var(ConstGenericVarId),
    /// Raw memory contents.
    RawMemory(Vec<u8>),
    /// A constant associated with a trait.
    TraitConst(TraitRef, TraitItemName),
    /// A function pointer constant.
    FnPtr(FnPtr),
    /// A reference to a global constant.
    Global(GlobalDeclId),
    /// A shared reference to a constant.
    Ref(Box<ConstantExpr>),
    /// A mutable raw pointer to a constant.
    MutPtr(Box<ConstantExpr>),
    /// A constant ADT instance: the variant (for enums) and the fields.
    Adt(Option<VariantId>, Vec<ConstantExpr>),
    /// A constant array.
    Array(Vec<ConstantExpr>),
}

/// An operand of a statement.
#[derive(Debug)]
pub enum Operand {
    Copy(Place),
    Move(Place),
    Const(ConstantExpr),
}

/// A unary operation.
#[derive(Debug)]
pub enum UnOp {
    Not,
    Neg,
    /// View an array as a slice: reference kind, element type, array length.
    ArrayToSlice(RefKind, Ty, ConstGeneric),
}

/// A binary operation.
#[derive(Debug, Clone, Copy, PartialEq, Eq, Structural)]
pub enum BinOp {
    Add,
    Sub,
    Mul,
    Div,
    Rem,
    Eq,
    Ne,
    Lt,
    Le,
    Gt,
    Ge,
}

/// The kind of an aggregate rvalue.
#[derive(Debug)]
pub enum AggregateKind {
    /// An ADT aggregate: type, variant (for enums), field (for unions), and
    /// the generic arguments of the instantiation.
    Adt(TypeId, Option<VariantId>, Option<FieldId>, GenericArgs),
    /// An array aggregate: element type and length.
    Array(Ty, ConstGeneric),
}

/// An rvalue: the right-hand side of an assignment.
#[derive(Debug)]
pub enum Rvalue {
    /// Use an operand.
    Use(Operand),
    /// Borrow a place.
    Ref(Place, BorrowKind),
    /// Take a raw pointer to a place.
    RawPtr(Place, RefKind),
    /// Apply a unary operation.
    UnaryOp(UnOp, Operand),
    /// Apply a binary operation.
    BinaryOp(BinOp, Operand, Operand),
    /// Build an aggregate value from fields.
    Aggregate(AggregateKind, Vec<Operand>),
    /// Evaluate a global constant.
    Global(GlobalDeclId),
    /// A reference to a global, of the given mutability.
    GlobalRef(GlobalDeclId, RefKind),
    /// Build an array by repeating an element: element, element type, count.
    Repeat(Operand, Ty, ConstGeneric),
}

/// The function operand of a call.
#[derive(Debug)]
pub enum FnOperand {
    /// A statically known function.
    Regular(FnPtr),
    /// A function pointer held in a place.
    Move(Place),
}

/// A function call.
#[derive(Debug)]
pub struct Call {
    pub func: FnOperand,
    pub args: Vec<Operand>,
    pub dest: Place,
}

/// An assertion: the operand must evaluate to the expected boolean.
#[derive(Debug)]
pub struct Assert {
    pub cond: Operand,
    pub expected: bool,
}

/// A structured two-way branch kept at statement level.
#[derive(Debug)]
pub enum Switch {
    /// `if` on a boolean operand: the then branch and the else branch.
    If(Operand, Block, Block),
}

/// A structured block of statements, as carried by a statement-level branch.
#[derive(Debug)]
pub struct Block {
    pub span: Span,
    pub statements: Vec<Statement>,
}

/// The content of a statement.
#[derive(Debug)]
pub enum RawStatement {
    /// Evaluate the rvalue into the place.
    Assign(Place, Rvalue),
    /// Call a function.
    Call(Call),
    /// Assert a condition.
    Assert(Assert),
    /// Abort execution.
    Abort(AbortKind),
    /// A structured branch.
    Switch(Switch),
    /// Do nothing.
    Nop,
}

/// A statement: a source span and its content.
#[derive(Debug)]
pub struct Statement {
    pub span: Span,
    pub content: RawStatement,
}

/// The targets of a terminator-level switch.
#[derive(Debug)]
pub enum SwitchTargets {
    /// Two-way branch on a boolean: then target, else target.
    If(BlockId, BlockId),
    /// Multi-way branch on an integer: the integer type, the matched values
    /// with their targets, and the otherwise target.
    SwitchInt(IntegerTy, Vec<(ScalarValue, BlockId)>, BlockId),
}

/// The content of a terminator.
#[derive(Debug)]
pub enum RawTerminator {
    /// Jump to the target block.
    Goto { target: BlockId },
    /// Branch on the discriminant.
    Switch { discr: Operand, targets: SwitchTargets },
    /// Abort execution.
    Abort(AbortKind),
    /// Return from the function.
    Return,
}

/// A terminator: a source span and its content.
#[derive(Debug)]
pub struct Terminator {
    pub span: Span,
    pub content: RawTerminator,
}

/// A basic block: an ordered sequence of statements and one terminator.
#[derive(Debug)]
pub struct BlockData {
    pub statements: Vec<Statement>,
    pub terminator: Terminator,
}

/// A typed local variable slot.
#[derive(Debug)]
pub struct Var {
    pub index: VarId,
    pub name: Option<String>,
    pub ty: Ty,
}

/// The local-variable table of a body: an ordered, append-only collection of
/// typed slots shared by the original variables and all newly introduced
/// temporaries.  Slot 0 is the return place.
#[derive(Debug)]
pub struct Locals {
    /// The number of argument variables (which follow the return place).
    pub arg_count: usize,
    pub vars: Vector<VarId, Var>,
}

/// The body of a function, closure or global initializer.
#[derive(Debug)]
pub struct ExprBody {
    pub span: Span,
    pub locals: Locals,
    pub body: Vector<BlockId, BlockData>,
}

/// A function declaration: its signature, and its body when the function is
/// transparent.  An opaque or error declaration has no body, and every pass
/// treats it as inert.
#[derive(Debug)]
pub struct FunDecl {
    pub def_id: FunDeclId,
    pub sig: FunSig,
    pub body: Option<ExprBody>,
}

// ---------------------------------------------------------------------------
// Views
// ---------------------------------------------------------------------------
/// View of an abort kind.
#[verifier::ext_equal]
pub enum AbortKindV {
    Panic(Seq<char>),
    UndefinedBehavior,
}

/// View of a function identifier or trait method reference.
#[verifier::ext_equal]
pub enum FunIdOrTraitMethodRefV {
    Fun(FunId),
    Trait(TraitRefV, Seq<char>),
}

/// View of a function pointer.
#[verifier::ext_equal]
pub struct FnPtrV {
    pub func: FunIdOrTraitMethodRefV,
    pub generics: GenericArgsV,
}

/// View of a constant expression.
#[verifier::ext_equal]
pub struct ConstantExprV {
    pub value: RawConstantExprV,
    pub ty: TyV,
}

/// View of the forms of constant expressions.
#[verifier::ext_equal]
pub enum RawConstantExprV {
    Literal(Literal),
    Var(ConstGenericVarId),
    RawMemory(Seq<u8>),
    TraitConst(TraitRefV, Seq<char>),
    FnPtr(FnPtrV),
    Global(GlobalDeclId),
    Ref(Box<ConstantExprV>),
    MutPtr(Box<ConstantExprV>),
    Adt(Option<VariantId>, Seq<ConstantExprV>),
    Array(Seq<ConstantExprV>),
}

/// View of an operand.
#[verifier::ext_equal]
pub enum OperandV {
    Copy(Place),
    Move(Place),
    Const(ConstantExprV),
}

/// View of a unary operation.
#[verifier::ext_equal]
pub enum UnOpV {
    Not,
    Neg,
    ArrayToSlice(RefKind, TyV, ConstGeneric),
}

/// View of an aggregate kind.
#[verifier::ext_equal]
pub enum AggregateKindV {
    Adt(TypeId, Option<VariantId>, Option<FieldId>, GenericArgsV),
    Array(TyV, ConstGeneric),
}

/// View of an rvalue.
#[verifier::ext_equal]
pub enum RvalueV {
    Use(OperandV),
    Ref(Place, BorrowKind),
    RawPtr(Place, RefKind),
    UnaryOp(UnOpV, OperandV),
    BinaryOp(BinOp, OperandV, OperandV),
    Aggregate(AggregateKindV, Seq<OperandV>),
    Global(GlobalDeclId),
    GlobalRef(GlobalDeclId, RefKind),
    Repeat(OperandV, TyV, ConstGeneric),
}

/// View of a function operand.
#[verifier::ext_equal]
pub enum FnOperandV {
    Regular(FnPtrV),
    Move(Place),
}

/// View of a call.
#[verifier::ext_equal]
pub struct CallV {
    pub func: FnOperandV,
    pub args: Seq<OperandV>,
    pub dest: Place,
}

/// View of an assertion.
#[verifier::ext_equal]
pub struct AssertV {
    pub cond: OperandV,
    pub expected: bool,
}

/// View of a statement-level branch.
#[verifier::ext_equal]
pub enum SwitchV {
    If(OperandV, BlockV, BlockV),
}

/// View of a structured block.
#[verifier::ext_equal]
pub struct BlockV {
    pub span: Span,
    pub statements: Seq<StatementV>,
}

/// View of a statement content.
#[verifier::ext_equal]
pub enum RawStatementV {
    Assign(Place, RvalueV),
    Call(CallV),
    Assert(AssertV),
    Abort(AbortKindV),
    Switch(Box<SwitchV>),
    Nop,
}

/// View of a statement.
#[verifier::ext_equal]
pub struct StatementV {
    pub span: Span,
    pub content: RawStatementV,
}

/// View of switch targets.
#[verifier::ext_equal]
pub enum SwitchTargetsV {
    If(BlockId, BlockId),
    SwitchInt(IntegerTy, Seq<(ScalarValue, BlockId)>, BlockId),
}

/// View of a terminator content.
#[verifier::ext_equal]
pub enum RawTerminatorV {
    Goto { target: BlockId },
    Switch { discr: OperandV, targets: SwitchTargetsV },
    Abort(AbortKindV),
    Return,
}

/// View of a terminator.
#[verifier::ext_equal]
pub struct TerminatorV {
    pub span: Span,
    pub content: RawTerminatorV,
}

/// View of a basic block.
#[verifier::ext_equal]
pub struct BlockDataV {
    pub statements: Seq<StatementV>,
    pub terminator: TerminatorV,
}

/// View of a local variable slot.
#[verifier::ext_equal]
pub struct VarV {
    pub index: VarId,
    pub name: Option<Seq<char>>,
    pub ty: TyV,
}

/// View of the local-variable table.
#[verifier::ext_equal]
pub struct LocalsV {
    pub arg_count: usize,
    pub vars: Seq<Option<VarV>>,
}

/// View of a body.
#[verifier::ext_equal]
pub struct ExprBodyV {
    pub span: Span,
    pub locals: LocalsV,
    pub body: Seq<Option<BlockDataV>>,
}

/// View of a function declaration.
#[verifier::ext_equal]
pub struct FunDeclV {
    pub def_id: FunDeclId,
    pub sig: FunSigV,
    pub body: Option<ExprBodyV>,
}

/// View of an abort kind.
pub open spec fn view_abort_kind(k: AbortKind) -> AbortKindV {
    match k {
        AbortKind::Panic(name) => AbortKindV::Panic(name.text@),
        AbortKind::UndefinedBehavior => AbortKindV::UndefinedBehavior,
    }
}

/// View of a constant expression.
pub open spec fn view_const_expr(c: ConstantExpr) -> ConstantExprV
    decreases c,
{
    ConstantExprV { value: view_raw_const_expr(c.value), ty: view_ty(c.ty) }
}

/// View of the content of a constant expression.
pub open spec fn view_raw_const_expr(c: RawConstantExpr) -> RawConstantExprV
    decreases c,
{
    match c {
        RawConstantExpr::Literal(l) => RawConstantExprV::Literal(l),
        RawConstantExpr::Var(v) => RawConstantExprV::Var(v),
        RawConstantExpr::RawMemory(bytes) => RawConstantExprV::RawMemory(bytes@),
        RawConstantExpr::TraitConst(tr, name) => RawConstantExprV::TraitConst(
            view_trait_ref(tr),
            name@,
        ),
        RawConstantExpr::FnPtr(p) => RawConstantExprV::FnPtr(view_fn_ptr(p)),
        RawConstantExpr::Global(id) => RawConstantExprV::Global(id),
        RawConstantExpr::Ref(inner) => RawConstantExprV::Ref(Box::new(view_const_expr(*inner))),
        RawConstantExpr::MutPtr(inner) => RawConstantExprV::MutPtr(
            Box::new(view_const_expr(*inner)),
        ),
        RawConstantExpr::Adt(variant, fields) => RawConstantExprV::Adt(
            variant,
            view_const_exprs(fields@),
        ),
        RawConstantExpr::Array(fields) => RawConstantExprV::Array(view_const_exprs(fields@)),
    }
}

/// View of a sequence of constant expressions.
pub open spec fn view_const_exprs(s: Seq<ConstantExpr>) -> Seq<ConstantExprV>
    decreases s,
{
    if s.len() == 0 {
        Seq::empty()
    } else {
        seq![view_const_expr(s[0])] + view_const_exprs(s.subrange(1, s.len() as int))
    }
}

/// View of a function pointer.
pub open spec fn view_fn_ptr(p: FnPtr) -> FnPtrV {
    FnPtrV {
        func: match p.func {
            FunIdOrTraitMethodRef::Fun(id) => FunIdOrTraitMethodRefV::Fun(id),
            FunIdOrTraitMethodRef::Trait(tr, name) => FunIdOrTraitMethodRefV::Trait(
                view_trait_ref(tr),
                name@,
            ),
        },
        generics: view_args(p.generics),
    }
}

/// View of an operand.
pub open spec fn view_operand(o: Operand) -> OperandV {
    match o {
        Operand::Copy(p) => OperandV::Copy(p),
        Operand::Move(p) => OperandV::Move(p),
        Operand::Const(c) => OperandV::Const(view_const_expr(c)),
    }
}

/// View of a sequence of operands.
pub open spec fn view_operands(s: Seq<Operand>) -> Seq<OperandV> {
    Seq::new(s.len(), |i: int| view_operand(s[i]))
}

/// View of a unary operation.
pub open spec fn view_un_op(o: UnOp) -> UnOpV {
    match o {
        UnOp::Not => UnOpV::Not,
        UnOp::Neg => UnOpV::Neg,
        UnOp::ArrayToSlice(k, t, n) => UnOpV::ArrayToSlice(k, view_ty(t), n),
    }
}

/// View of an aggregate kind.
pub open spec fn view_aggregate_kind(k: AggregateKind) -> AggregateKindV {
    match k {
        AggregateKind::Adt(id, variant, field, args) => AggregateKindV::Adt(
            id,
            variant,
            field,
            view_args(args),
        ),
        AggregateKind::Array(t, n) => AggregateKindV::Array(view_ty(t), n),
    }
}

/// View of an rvalue.
pub open spec fn view_rvalue(r: Rvalue) -> RvalueV {
    match r {
        Rvalue::Use(o) => RvalueV::Use(view_operand(o)),
        Rvalue::Ref(p, k) => RvalueV::Ref(p, k),
        Rvalue::RawPtr(p, k) => RvalueV::RawPtr(p, k),
        Rvalue::UnaryOp(o, a) => RvalueV::UnaryOp(view_un_op(o), view_operand(a)),
        Rvalue::BinaryOp(o, a, b) => RvalueV::BinaryOp(o, view_operand(a), view_operand(b)),
        Rvalue::Aggregate(k, fields) => RvalueV::Aggregate(
            view_aggregate_kind(k),
            view_operands(fields@),
        ),
        Rvalue::Global(id) => RvalueV::Global(id),
        Rvalue::GlobalRef(id, k) => RvalueV::GlobalRef(id, k),
        Rvalue::Repeat(o, t, n) => RvalueV::Repeat(view_operand(o), view_ty(t), n),
    }
}

/// View of a function operand.
pub open spec fn view_fn_operand(f: FnOperand) -> FnOperandV {
    match f {
        FnOperand::Regular(p) => FnOperandV::Regular(view_fn_ptr(p)),
        FnOperand::Move(p) => FnOperandV::Move(p),
    }
}

/// View of a call.
pub open spec fn view_call(c: Call) -> CallV {
    CallV { func: view_fn_operand(c.func), args: view_operands(c.args@), dest: c.dest }
}

/// View of a statement.
pub open spec fn view_statement(s: Statement) -> StatementV
    decreases s,
{
    StatementV { span: s.span, content: view_raw_statement(s.content) }
}

/// View of a statement content.
pub open spec fn view_raw_statement(s: RawStatement) -> RawStatementV
    decreases s,
{
    match s {
        RawStatement::Assign(p, r) => RawStatementV::Assign(p, view_rvalue(r)),
        RawStatement::Call(c) => RawStatementV::Call(view_call(c)),
        RawStatement::Assert(a) => RawStatementV::Assert(
            AssertV { cond: view_operand(a.cond), expected: a.expected },
        ),
        RawStatement::Abort(k) => RawStatementV::Abort(view_abort_kind(k)),
        RawStatement::Switch(sw) => RawStatementV::Switch(Box::new(view_switch(sw))),
        RawStatement::Nop => RawStatementV::Nop,
    }
}

/// View of a statement-level branch.
pub open spec fn view_switch(s: Switch) -> SwitchV
    decreases s,
{
    match s {
        Switch::If(op, then_block, else_block) => SwitchV::If(
            view_operand(op),
            view_block(then_block),
            view_block(else_block),
        ),
    }
}

/// View of a structured block.
pub open spec fn view_block(b: Block) -> BlockV
    decreases b,
{
    BlockV { span: b.span, statements: view_statements(b.statements@) }
}

/// View of a sequence of statements.
pub open spec fn view_statements(s: Seq<Statement>) -> Seq<StatementV>
    decreases s,
{
    if s.len() == 0 {
        Seq::empty()
    } else {
        seq![view_statement(s[0])] + view_statements(s.subrange(1, s.len() as int))
    }
}

/// View of switch targets.
pub open spec fn view_switch_targets(t: SwitchTargets) -> SwitchTargetsV {
    match t {
        SwitchTargets::If(a, b) => SwitchTargetsV::If(a, b),
        SwitchTargets::SwitchInt(ty, targets, otherwise) => SwitchTargetsV::SwitchInt(
            ty,
            targets@,
            otherwise,
        ),
    }
}

/// View of a terminator content.
pub open spec fn view_raw_terminator(t: RawTerminator) -> RawTerminatorV {
    match t {
        RawTerminator::Goto { target } => RawTerminatorV::Goto { target },
        RawTerminator::Switch { discr, targets } => RawTerminatorV::Switch {
            discr: view_operand(discr),
            targets: view_switch_targets(targets),
        },
        RawTerminator::Abort(k) => RawTerminatorV::Abort(view_abort_kind(k)),
        RawTerminator::Return => RawTerminatorV::Return,
    }
}

/// View of a terminator.
pub open spec fn view_terminator(t: Terminator) -> TerminatorV {
    TerminatorV { span: t.span, content: view_raw_terminator(t.content) }
}

/// View of a basic block.
pub open spec fn view_block_data(b: BlockData) -> BlockDataV {
    BlockDataV {
        statements: view_statements(b.statements@),
        terminator: view_terminator(b.terminator),
    }
}

/// View of a local variable slot.
pub open spec fn view_var(v: Var) -> VarV {
    VarV { index: v.index, name: view_opt_string(v.name), ty: view_ty(v.ty) }
}

/// View of the local-variable table.
pub open spec fn view_locals(l: Locals) -> LocalsV {
    LocalsV {
        arg_count: l.arg_count,
        vars: Seq::new(
            l.vars@.len(),
            |i: int|
                match l.vars@[i] {
                    Some(v) => Some(view_var(v)),
                    None => None,
                },
        ),
    }
}

/// View of the blocks of a body.
pub open spec fn view_blocks(s: Seq<Option<BlockData>>) -> Seq<Option<BlockDataV>> {
    Seq::new(
        s.len(),
        |i: int|
            match s[i] {
                Some(b) => Some(view_block_data(b)),
                None => None,
            },
    )
}

/// View of a body.
pub open spec fn view_body(b: ExprBody) -> ExprBodyV {
    ExprBodyV { span: b.span, locals: view_locals(b.locals), body: view_blocks(b.body@) }
}

impl View for AbortKind {
    type V = AbortKindV;

    open spec fn view(&self) -> AbortKindV {
        view_abort_kind(*self)
    }
}

impl View for ConstantExpr {
    type V = ConstantExprV;

    open spec fn view(&self) -> ConstantExprV {
        view_const_expr(*self)
    }
}

impl View for Operand {
    type V = OperandV;

    open spec fn view(&self) -> OperandV {
        view_operand(*self)
    }
}

impl View for Rvalue {
    type V = RvalueV;

    open spec fn view(&self) -> RvalueV {
        view_rvalue(*self)
    }
}

impl View for Statement {
    type V = StatementV;

    open spec fn view(&self) -> StatementV {
        view_statement(*self)
    }
}

impl View for Terminator {
    type V = TerminatorV;

    open spec fn view(&self) -> TerminatorV {
        view_terminator(*self)
    }
}

impl View for BlockData {
    type V = BlockDataV;

    open spec fn view(&self) -> BlockDataV {
        view_block_data(*self)
    }
}

impl View for Locals {
    type V = LocalsV;

    open spec fn view(&self) -> LocalsV {
        view_locals(*self)
    }
}

impl View for ExprBody {
    type V = ExprBodyV;

    open spec fn view(&self) -> ExprBodyV {
        view_body(*self)
    }
}

impl View for FunDecl {
    type V = FunDeclV;

    open spec fn view(&self) -> FunDeclV {
        FunDeclV {
            def_id: self.def_id,
            sig: self.sig@,
            body: match self.body {
                Some(b) => Some(view_body(b)),
                None => None,
            },
        }
    }
}

// ---------------------------------------------------------------------------
// Lemmas about sequence views
// ---------------------------------------------------------------------------
/// The view of a sequence of statements is pointwise.
pub proof fn lemma_view_statements(s: Seq<Statement>)
    ensures
        view_statements(s).len() == s.len(),
        forall|i: int| 0 <= i < s.len() ==> view_statements(s)[i] == view_statement(s[i]),
    decreases s.len(),
{
    if s.len() > 0 {
        lemma_view_statements(s.subrange(1, s.len() as int));
    }
}

/// The view of a concatenation of statement sequences is the concatenation
/// of the views.
pub proof fn lemma_view_statements_concat(a: Seq<Statement>, b: Seq<Statement>)
    ensures
        view_statements(a + b) == view_statements(a) + view_statements(b),
    decreases a.len(),
{
    if a.len() == 0 {
        assert(a + b =~= b);
        assert(view_statements(a) + view_statements(b) =~= view_statements(b));
    } else {
        lemma_view_statements_concat(a.subrange(1, a.len() as int), b);
        assert((a + b).subrange(1, (a + b).len() as int) =~= a.subrange(1, a.len() as int) + b);
        assert((a + b)[0] == a[0]);
        assert(view_statements(a + b) =~= view_statements(a) + view_statements(b));
    }
}

/// Views commute with appending one statement.
pub proof fn lemma_view_statements_push(s: Seq<Statement>, x: Statement)
    ensures
        view_statements(s.push(x)) == view_statements(s).push(view_statement(x)),
{
    lemma_view_statements(s.push(x));
    lemma_view_statements(s);
    assert(view_statements(s.push(x)) =~= view_statements(s).push(view_statement(x)));
}

/// Views commute with taking a subrange of a statement sequence.
pub proof fn lemma_view_statements_subrange(s: Seq<Statement>, a: int, b: int)
    requires
        0 <= a <= b <= s.len(),
    ensures
        view_statements(s.subrange(a, b)) == view_statements(s).subrange(a, b),
{
    lemma_view_statements(s);
    lemma_view_statements(s.subrange(a, b));
    assert(view_statements(s.subrange(a, b)) =~= view_statements(s).subrange(a, b));
}

/// The view of a sequence of constant expressions is pointwise.
pub proof fn lemma_view_const_exprs(s: Seq<ConstantExpr>)
    ensures
        view_const_exprs(s).len() == s.len(),
        forall|i: int| 0 <= i < s.len() ==> view_const_exprs(s)[i] == view_const_expr(s[i]),
    decreases s.len(),
{
    if s.len() > 0 {
        lemma_view_const_exprs(s.subrange(1, s.len() as int));
    }
}

// ---------------------------------------------------------------------------
// Control-flow well-formedness
// ---------------------------------------------------------------------------
/// The block handles a terminator content may jump to.
pub open spec fn terminator_targets(t: RawTerminatorV) -> Seq<BlockId> {
    match t {
        RawTerminatorV::Goto { target } => seq![target],
        RawTerminatorV::Switch { discr, targets } => switch_targets_seq(targets),
        RawTerminatorV::Abort(_) => Seq::empty(),
        RawTerminatorV::Return => Seq::empty(),
    }
}

/// The block handles of switch targets, in order, the otherwise target last.
pub open spec fn switch_targets_seq(t: SwitchTargetsV) -> Seq<BlockId> {
    match t {
        SwitchTargetsV::If(a, b) => seq![a, b],
        SwitchTargetsV::SwitchInt(ty, targets, otherwise) => targets.map(
            |i: int, p: (ScalarValue, BlockId)| p.1,
        ).push(otherwise),
    }
}

/// Whether a block handle addresses a live block of the body.
pub open spec fn valid_block_id(body: Seq<Option<BlockDataV>>, id: BlockId) -> bool {
    id.idx() < body.len() && body[id.idx() as int] is Some
}

/// Control-flow well-formedness: every target of every terminator exists in
/// the body.  A body with a dangling target is ill-formed.
pub open spec fn body_wf(body: Seq<Option<BlockDataV>>) -> bool {
    forall|i: int, j: int|
        0 <= i < body.len() && body[i] is Some && 0 <= j < terminator_targets(
            body[i]->Some_0.terminator.content,
        ).len() ==> valid_block_id(body, terminator_targets(body[i]->Some_0.terminator.content)[j])
}

} // verus!
