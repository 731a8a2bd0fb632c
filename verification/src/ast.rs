//! The syntax tree that the typechecker reads.
use crate::kind::Kind;
use crate::report::Span;
use vstd::prelude::*;

verus! {

/// A node of the syntax tree with its place in the source.
#[derive(Debug)]
pub struct Output {
    pub span: Span,
    pub expr: Box<Expression>,
}

/// Operator of a compound assignment.
#[derive(Debug, Clone, Copy, PartialEq, Eq, Structural)]
pub enum AssignOp {
    Add,
    Sub,
    Mul,
    Div,
    Mod,
    Pow,
    Shl,
    Shr,
    BitAnd,
    BitOr,
    BitXor,
}

/// Visibility of a member.
#[derive(Debug, Clone, Copy, PartialEq, Eq, Structural)]
pub enum Visibility {
    Public,
    Private,
}

/// A type parameter: its name, its annotated kind and its bounds.
#[derive(Debug)]
pub struct TypeParam {
    pub name: String,
    pub kind: Kind,
    pub bounds: Vec<String>,
}

/// A `where Class<T1, T2>` clause.
#[derive(Debug)]
pub struct WhereConstraint {
    pub class: String,
    pub args: Vec<Output>,
}

/// A named value in a record.
#[derive(Debug)]
pub struct FieldInit {
    pub name: String,
    pub value: Output,
}

/// The payload of a variant declaration: types.
#[derive(Debug)]
pub enum EnumVariantPayload {
    Unit,
    Tuple(Vec<Output>),
    Record(Vec<FieldInit>),
}

/// The payload of a constructor application: values.
#[derive(Debug)]
pub enum EnumConstructPayload {
    Unit,
    Tuple(Vec<Output>),
    Record(Vec<FieldInit>),
}

/// A pattern of a `match` arm.
#[derive(Debug)]
pub enum Pattern {
    Wildcard,
    Binding { name: String },
    Constructor { enum_name: String, variant_name: String, payload: PatternPayload },
}

/// The sub-patterns of a constructor pattern.
#[derive(Debug)]
pub enum PatternPayload {
    Unit,
    Tuple(Vec<Pattern>),
    Record(Vec<PatternField>),
}

/// A named sub-pattern.
#[derive(Debug)]
pub struct PatternField {
    pub name: String,
    pub pattern: Pattern,
}

/// One arm of a `match`.
#[derive(Debug)]
pub struct MatchArm {
    pub pattern: Pattern,
    pub body: Output,
}

/// A foreign function: its name, its arguments and what it returns.
#[derive(Debug)]
pub struct ForeignFn {
    pub name: String,
    pub args: Output,
    pub returns: Option<Output>,
}

/// A foreign struct: its name and its fields.
#[derive(Debug)]
pub struct ForeignStruct {
    pub name: String,
    pub fields: Vec<FieldInit>,
}

/// An expression, a statement, a declaration or a type annotation.
#[derive(Debug)]
pub enum Expression {
    Noop(String),
    Comment(String),
    Integer(i64),
    /// A float literal, by its bits.
    Float(u64),
    String(String),
    Bool(bool),
    Identifier(String),
    Type(String),
    TypeFun(Output, Output),
    TypeApp { name: String, args: Vec<Output> },
    TypeProjection { owner: String, name: String, args: Vec<Output> },
    Forall { params: Vec<TypeParam>, ty: Output },
    Break,
    Continue,
    Default(String),
    Use { path: Vec<String>, name: String, alias: Option<String> },
    Module(String, Vec<String>),
    ForeignBlock { library: String, declarations: Vec<ForeignFn> },
    ForeignStruct(ForeignStruct),
    Expr(Output),
    Group(Output),
    Statement(Output),
    ExprStatement(Output),
    Block(Vec<Output>),
    Program(Vec<Output>),
    Fragment(Vec<Output>),
    Variable(String, Option<Output>),
    Constant(Output, Option<Output>),
    Assignment(Output, Output),
    CompoundAssign(Output, AssignOp, Output),
    Adjust { target: Output, increment: bool, prefix: bool },
    Add(Output, Output),
    Sub(Output, Output),
    Mul(Output, Output),
    Div(Output, Output),
    Mod(Output, Output),
    Pow(Output, Output),
    Shl(Output, Output),
    Shr(Output, Output),
    Xor(Output, Output),
    BitAnd(Output, Output),
    BitOr(Output, Output),
    And(Output, Output),
    Or(Output, Output),
    Eq(Output, Output),
    Neq(Output, Output),
    Le(Output, Output),
    Gt(Output, Output),
    Leq(Output, Output),
    Geq(Output, Output),
    Negate(Output),
    Positive(Output),
    Not(Output),
    LogicalNot(Output),
    Call { name: Output, args: Option<Vec<Output>> },
    If(Vec<Output>),
    Branch(Option<Output>, Output),
    Match { scrutinee: Output, arms: Vec<MatchArm> },
    Loop { identifier: Option<Output>, iterable: Output, body: Output },
    For { init: Option<Output>, cond: Output, step: Option<Output>, body: Output },
    Return(Output),
    ImplicitReturn(Output),
    Raise(Output),
    Panic(Output),
    Try(Output),
    Coalesce(Output, Output),
    OptionalAccess(Output, String),
    Print(Output, Option<Vec<Output>>),
    Format(Output, Option<Vec<Output>>),
    Dload(Output),
    Done(Output),
    Tuple(Vec<Output>),
    Array(Vec<Output>),
    Index(Output, Output),
    Dict(Vec<FieldInit>),
    Declare(Vec<Output>),
    Invoke(Vec<Output>),
    Defer(Output),
    Yield(Output),
    YieldFrom(Output),
    Resume(Output, Option<Output>),
    List(Vec<Output>),
    Function {
        name: String,
        is_coro: bool,
        type_params: Vec<TypeParam>,
        args: Output,
        returns: Option<Output>,
        where_constraints: Vec<WhereConstraint>,
        body: Output,
    },
    Implementation { owner: String, type_params: Vec<TypeParam>, methods: Vec<Output> },
    Class { name: String, type_params: Vec<TypeParam>, fields: Vec<Output> },
    /// The type and the name of a parameter.
    Argument(Output, String),
    Method(Visibility, Output),
    Member(Output),
    Access(Output, String),
    Instantiate(Output, Option<Vec<Output>>),
    /// The name and the type of a class field.
    Field(Visibility, Output, Output),
    EnumDecl { name: String, type_params: Vec<TypeParam>, variants: Vec<Output> },
    EnumVariant { name: String, payload: EnumVariantPayload },
    TypeAlias { name: String, type_params: Vec<TypeParam>, ty: Output },
    Construct { enum_name: String, variant_name: String, fields: EnumConstructPayload },
    TypeClass { name: String, type_params: Vec<TypeParam>, methods: Vec<Output> },
    TypeClassImpl { class: String, args: Vec<Output>, methods: Vec<Output> },
    AssocTypeDecl { name: String, type_params: Vec<TypeParam> },
    AssocTypeDef { name: String, type_params: Vec<TypeParam>, ty: Output },
}

/// The node under any number of plain wrappers.
pub open spec fn unwrapped(node: Output) -> Output
    decreases node,
{
    match *node.expr {
        Expression::Expr(e) => unwrapped(e),
        Expression::Group(e) => unwrapped(e),
        Expression::Statement(e) => unwrapped(e),
        Expression::ExprStatement(e) => unwrapped(e),
        _ => node,
    }
}

/// Peel `Expr` / `Group` / `Statement` / `ExprStatement` wrappers.
pub fn unwrap_expr_wrappers(node: &Output) -> (r: &Output)
    ensures
        *r == unwrapped(*node),
    decreases node,
{
    match &*node.expr {
        Expression::Expr(e) => unwrap_expr_wrappers(e),
        Expression::Group(e) => unwrap_expr_wrappers(e),
        Expression::Statement(e) => unwrap_expr_wrappers(e),
        Expression::ExprStatement(e) => unwrap_expr_wrappers(e),
        _ => node,
    }
}

/// True when `node` is a `yield` expression, bare or in `Expr` / `Group`.
pub open spec fn yields(node: Output) -> bool
    decreases node,
{
    match *node.expr {
        Expression::Yield(_) => true,
        Expression::Expr(e) => yields(e),
        Expression::Group(e) => yields(e),
        _ => false,
    }
}

/// True when `node` is a `yield` expression (possibly wrapped in `Expr`).
pub fn is_yield_expression(node: &Output) -> (r: bool)
    ensures
        r == yields(*node),
    decreases node,
{
    match &*node.expr {
        Expression::Yield(_) => true,
        Expression::Expr(e) => is_yield_expression(e),
        Expression::Group(e) => is_yield_expression(e),
        _ => false,
    }
}

/// The name that a node refers to, when it is a bare identifier.
pub open spec fn named_by(node: Output) -> Option<Seq<char>> {
    match *unwrapped(node).expr {
        Expression::Identifier(name) => Some(name@),
        _ => None,
    }
}

/// The name that a node refers to, when it is a bare identifier.
pub fn identifier_name(node: &Output) -> (r: Option<&String>)
    ensures
        match r {
            Some(name) => named_by(*node) == Some(name@),
            None => named_by(*node) is None,
        },
{
    match &*unwrap_expr_wrappers(node).expr {
        Expression::Identifier(name) => Some(name),
        _ => None,
    }
}

/// Declarations and no-ops, which never are the initializer of a `let`.
pub open spec fn declares(node: Output) -> bool {
    match *unwrapped(node).expr {
        Expression::Variable(_, _) => true,
        Expression::Constant(_, _) => true,
        Expression::Assignment(_, _) => true,
        Expression::TypeAlias { .. } => true,
        Expression::Comment(_) => true,
        Expression::Use { .. } => true,
        Expression::Noop(_) => true,
        _ => false,
    }
}

/// True for nodes that look like declarations / no-ops rather than
/// initializers.
pub fn is_declaration_like(node: &Output) -> (r: bool)
    ensures
        r == declares(*node),
{
    match &*unwrap_expr_wrappers(node).expr {
        Expression::Variable(_, _) => true,
        Expression::Constant(_, _) => true,
        Expression::Assignment(_, _) => true,
        Expression::TypeAlias { .. } => true,
        Expression::Comment(_) => true,
        Expression::Use { .. } => true,
        Expression::Noop(_) => true,
        _ => false,
    }
}

/// The operands of an operator are smaller than the node.
pub proof fn operands_shrink(node: Output)
    ensures
        match *node.expr {
            Expression::Add(l, r) => {
                &&& decreases_to!(node => l)
                &&& decreases_to!(node => r)
            },
            Expression::Sub(l, r) => {
                &&& decreases_to!(node => l)
                &&& decreases_to!(node => r)
            },
            Expression::Mul(l, r) => {
                &&& decreases_to!(node => l)
                &&& decreases_to!(node => r)
            },
            Expression::Div(l, r) => {
                &&& decreases_to!(node => l)
                &&& decreases_to!(node => r)
            },
            Expression::Mod(l, r) => {
                &&& decreases_to!(node => l)
                &&& decreases_to!(node => r)
            },
            Expression::Pow(l, r) => {
                &&& decreases_to!(node => l)
                &&& decreases_to!(node => r)
            },
            Expression::Shl(l, r) => {
                &&& decreases_to!(node => l)
                &&& decreases_to!(node => r)
            },
            Expression::Shr(l, r) => {
                &&& decreases_to!(node => l)
                &&& decreases_to!(node => r)
            },
            Expression::Xor(l, r) => {
                &&& decreases_to!(node => l)
                &&& decreases_to!(node => r)
            },
            Expression::BitAnd(l, r) => {
                &&& decreases_to!(node => l)
                &&& decreases_to!(node => r)
            },
            Expression::BitOr(l, r) => {
                &&& decreases_to!(node => l)
                &&& decreases_to!(node => r)
            },
            Expression::Eq(l, r) => {
                &&& decreases_to!(node => l)
                &&& decreases_to!(node => r)
            },
            Expression::Neq(l, r) => {
                &&& decreases_to!(node => l)
                &&& decreases_to!(node => r)
            },
            Expression::Le(l, r) => {
                &&& decreases_to!(node => l)
                &&& decreases_to!(node => r)
            },
            Expression::Gt(l, r) => {
                &&& decreases_to!(node => l)
                &&& decreases_to!(node => r)
            },
            Expression::Leq(l, r) => {
                &&& decreases_to!(node => l)
                &&& decreases_to!(node => r)
            },
            Expression::Geq(l, r) => {
                &&& decreases_to!(node => l)
                &&& decreases_to!(node => r)
            },
            Expression::And(l, r) => {
                &&& decreases_to!(node => l)
                &&& decreases_to!(node => r)
            },
            Expression::Or(l, r) => {
                &&& decreases_to!(node => l)
                &&& decreases_to!(node => r)
            },
            Expression::Not(e) => decreases_to!(node => e),
            Expression::LogicalNot(e) => decreases_to!(node => e),
            Expression::Adjust { target, .. } => decreases_to!(node => target),
            Expression::CompoundAssign(target, _, value) => {
                &&& decreases_to!(node => target)
                &&& decreases_to!(node => value)
            },
            Expression::Assignment(name, value) => {
                &&& decreases_to!(node => name)
                &&& decreases_to!(node => value)
            },
            Expression::Negate(e) => decreases_to!(node => e),
            Expression::Positive(e) => decreases_to!(node => e),
            Expression::Group(e) => decreases_to!(node => e),
            Expression::Statement(e) => decreases_to!(node => e),
            Expression::Expr(e) => decreases_to!(node => e),
            Expression::ExprStatement(e) => decreases_to!(node => e),
            _ => true,
        },
{
}

} // verus!
