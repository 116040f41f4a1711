//! The engine's own view of the host's syntax tree.
//!
//! The engine never walks the host's nodes directly: the host converts
//! the candidate node (and only the parts the engine reads) into the
//! owned model below.  Identifiers carry an opaque scope token (`ctxt`)
//! minted by the host's resolver; text that only the host can render
//! (keyword types, the dotted parts of a meta-property, the printed
//! form of a numeric literal) arrives pre-rendered as plain strings.
//! Shapes the engine does not model are folded into `Unsupported`.

use vstd::prelude::*;

verus! {

/// A half-open range of byte positions in the host's source text.
///
/// Spans travel with every node so that a diagnostic can point back at
/// the offending source; the engine itself never interprets them.
#[derive(Debug, Clone, Copy, PartialEq, Eq, Structural)]
pub struct Span {
    pub lo: u32,
    pub hi: u32,
}

impl Span {
    /// The span carried by nodes that the engine fabricates itself.
    pub fn synthetic() -> (s: Span)
        ensures
            s == (Span { lo: 0, hi: 0 }),
    {
        Span { lo: 0, hi: 0 }
    }
}

/// An identifier expression together with the opaque token of the scope
/// that resolves it.
#[derive(Debug, Clone, PartialEq)]
pub struct Ident {
    pub span: Span,
    pub name: String,
    /// Scope token minted by the host's resolver.  Two identifiers
    /// carry the same token exactly when they denote the same binding.
    pub ctxt: u32,
}

/// A property name: an identifier that needs no scope resolution.
#[derive(Debug, Clone, PartialEq)]
pub struct IdentName {
    pub span: Span,
    pub name: String,
}

/// A numeric literal, as the host rendered it.
#[derive(Debug, Clone, PartialEq)]
pub struct NumLit {
    /// The printed form of the number, used when the literal becomes a
    /// segment name.
    pub text: String,
    /// `Some(n)` exactly when the literal denotes the integer `n`.
    pub value: Option<i64>,
}

/// The value of a literal the engine can read.  Literals of any other
/// kind are modelled as [`Expr::Unsupported`].
#[derive(Debug, Clone, PartialEq)]
pub enum LitValue {
    Str(String),
    Num(NumLit),
}

/// A literal expression.
#[derive(Debug, Clone, PartialEq)]
pub struct Lit {
    pub span: Span,
    pub value: LitValue,
}

/// A computed property name, `obj[expr]`.
#[derive(Debug, PartialEq)]
pub struct ComputedPropName {
    pub span: Span,
    pub expr: Box<Expr>,
}

/// The property side of a member access.
#[derive(Debug, PartialEq)]
pub enum MemberProp {
    Ident(IdentName),
    /// A private name `#x`; `name` holds the part after the hash.
    PrivateName(IdentName),
    Computed(ComputedPropName),
}

/// A property access `obj.prop` (or `obj?.prop`, which behaves the
/// same way during segment walking).
#[derive(Debug, PartialEq)]
pub struct MemberExpr {
    pub span: Span,
    pub obj: Box<Expr>,
    pub prop: MemberProp,
}

/// The property side of a `super` access.
#[derive(Debug, PartialEq)]
pub enum SuperMemberProp {
    Ident(IdentName),
    Computed(ComputedPropName),
}

/// A `super.prop` access.
#[derive(Debug, PartialEq)]
pub struct SuperPropExpr {
    pub span: Span,
    /// The span of the `super` keyword itself.
    pub super_span: Span,
    pub prop: SuperMemberProp,
}

/// A meta-property such as `new.target`, pre-rendered by the host as
/// its dotted parts (`["new", "target"]`).
#[derive(Debug, Clone, PartialEq)]
pub struct MetaPropExpr {
    pub span: Span,
    pub parts: Vec<String>,
}

/// The callee of a call expression.
#[derive(Debug, PartialEq)]
pub enum Callee {
    Expr(Box<Expr>),
    /// A callee the engine does not read (`super(...)`, `import(...)`).
    Unsupported(Span),
}

/// One argument of a call: an expression, optionally spread.
#[derive(Debug, PartialEq)]
pub struct Arg {
    /// `Some(span)` when the argument is written `...expr`; the span
    /// covers the spread token.
    pub spread: Option<Span>,
    pub expr: Box<Expr>,
}

/// A call expression, with any explicit type arguments.
#[derive(Debug, PartialEq)]
pub struct CallExpr {
    pub span: Span,
    pub callee: Callee,
    pub args: Vec<Arg>,
    pub type_args: Vec<TsType>,
}

/// An array literal; elisions (`[a, , b]`) appear as `None`.
#[derive(Debug, PartialEq)]
pub struct ArrayLit {
    pub span: Span,
    pub elems: Vec<Option<Arg>>,
}

/// A binding pattern, reduced to the scope tokens it introduces.
#[derive(Debug, PartialEq)]
pub enum Pat {
    /// A plain binding; the token of the scope it introduces.
    Ident(u32),
    Array(Vec<Option<Pat>>),
    Object(Vec<ObjectPatProp>),
    /// A pattern with a default value, `pat = expr`.
    Assign(Box<Pat>),
    /// A rest pattern, `...pat`.
    Rest(Box<Pat>),
    Unsupported,
}

/// A property inside an object pattern.
#[derive(Debug, PartialEq)]
pub enum ObjectPatProp {
    /// Shorthand `{ x }` or `{ x = default }`; the binding's token.
    Assign(u32),
    /// `{ key: pat }`.
    KeyValue(Box<Pat>),
    /// `{ ...pat }`.
    Rest(Box<Pat>),
}

/// A statement, reduced to what return-value scanning needs.
#[derive(Debug, PartialEq)]
pub enum Stmt {
    Return(Span, Option<Box<Expr>>),
    Unsupported(Span),
}

/// The body of an arrow function.
#[derive(Debug, PartialEq)]
pub enum ArrowBody {
    Expr(Box<Expr>),
    Block(Vec<Stmt>),
}

/// An arrow function expression.
#[derive(Debug, PartialEq)]
pub struct ArrowExpr {
    pub span: Span,
    pub params: Vec<Pat>,
    pub body: ArrowBody,
}

/// A function expression.
#[derive(Debug, PartialEq)]
pub struct FnExpr {
    pub span: Span,
    pub params: Vec<Pat>,
    pub body: Option<Vec<Stmt>>,
}

/// The operator of a unary expression, as far as the engine reads it.
#[derive(Debug, Clone, Copy, PartialEq, Eq, Structural)]
pub enum UnaryOp {
    Plus,
    Minus,
    Unsupported,
}

/// A unary expression; only signs over numeric literals are read.
#[derive(Debug, PartialEq)]
pub struct UnaryExpr {
    pub span: Span,
    pub op: UnaryOp,
    pub arg: Box<Expr>,
}

/// A template literal.  `quasis` holds the literal text runs and
/// `exprs` the spliced expressions; a well-formed template has one
/// more quasi than expressions.
#[derive(Debug, PartialEq)]
pub struct TplExpr {
    pub span: Span,
    pub quasis: Vec<String>,
    pub exprs: Vec<Expr>,
}

/// An expression node.
#[derive(Debug, PartialEq)]
pub enum Expr {
    Ident(Ident),
    /// A private name `#x` standing on its own.
    PrivateName(IdentName),
    This(Span),
    Member(MemberExpr),
    SuperProp(SuperPropExpr),
    MetaProp(MetaPropExpr),
    Call(CallExpr),
    Lit(Lit),
    Array(ArrayLit),
    Arrow(ArrowExpr),
    Function(FnExpr),
    /// A transparent wrapper: parentheses, a non-null assertion or a
    /// type assertion.  Unwrapped at every step of a walk.
    Wrapped(Span, Box<Expr>),
    Unary(UnaryExpr),
    Tpl(TplExpr),
    Unsupported(Span),
}

/// A dotted type name, `left.right`.
#[derive(Debug, PartialEq)]
pub struct TsQualifiedName {
    pub span: Span,
    pub left: Box<TsEntityName>,
    pub right: IdentName,
}

/// The name of a type reference.
#[derive(Debug, PartialEq)]
pub enum TsEntityName {
    Ident(Ident),
    Qualified(Box<TsQualifiedName>),
}

/// An `import("...")` type, possibly qualified.
#[derive(Debug, PartialEq)]
pub struct TsImportType {
    pub span: Span,
    pub qualifier: Option<TsEntityName>,
}

/// The operand of a `typeof` type query.
#[derive(Debug, PartialEq)]
pub enum TsTypeQueryExpr {
    Name(TsEntityName),
    Import(TsImportType),
}

/// A type node.
#[derive(Debug, PartialEq)]
pub enum TsType {
    /// A type reference, `A.B.C`.
    Ref(Span, TsEntityName),
    Import(TsImportType),
    /// A `typeof` query.
    Query(Span, TsTypeQueryExpr),
    /// An indexed access type, `T["k"]`.
    IndexedAccess(Span, Box<TsType>, Box<TsType>),
    /// A literal type; only string and number literals are read.
    LitType(Span, TsLit),
    /// A keyword type, pre-rendered by the host (`string`, `any`, ...).
    Keyword(Span, String),
    This(Span),
    /// A parenthesized type, unwrapped transparently.
    Paren(Span, Box<TsType>),
    /// A tuple type; read only as an `array` request's target list.
    Tuple(Span, Vec<TsType>),
    Unsupported(Span),
}

/// The literal inside a literal type.
#[derive(Debug, PartialEq)]
pub enum TsLit {
    Str(String),
    Num(NumLit),
    Unsupported,
}

impl Expr {
    /// The span of this node.
    pub open spec fn spec_span(self) -> Span {
        match self {
            Expr::Ident(i) => i.span,
            Expr::PrivateName(p) => p.span,
            Expr::This(s) => s,
            Expr::Member(m) => m.span,
            Expr::SuperProp(s) => s.span,
            Expr::MetaProp(m) => m.span,
            Expr::Call(c) => c.span,
            Expr::Lit(l) => l.span,
            Expr::Array(a) => a.span,
            Expr::Arrow(a) => a.span,
            Expr::Function(f) => f.span,
            Expr::Wrapped(s, _) => s,
            Expr::Unary(u) => u.span,
            Expr::Tpl(t) => t.span,
            Expr::Unsupported(s) => s,
        }
    }

    /// The span of this node.
    pub fn span(&self) -> (s: Span)
        ensures
            s == self.spec_span(),
    {
        match self {
            Expr::Ident(i) => i.span,
            Expr::PrivateName(p) => p.span,
            Expr::This(s) => *s,
            Expr::Member(m) => m.span,
            Expr::SuperProp(s) => s.span,
            Expr::MetaProp(m) => m.span,
            Expr::Call(c) => c.span,
            Expr::Lit(l) => l.span,
            Expr::Array(a) => a.span,
            Expr::Arrow(a) => a.span,
            Expr::Function(f) => f.span,
            Expr::Wrapped(s, _) => *s,
            Expr::Unary(u) => u.span,
            Expr::Tpl(t) => t.span,
            Expr::Unsupported(s) => *s,
        }
    }
}

impl TsType {
    /// The span of this node.
    pub open spec fn spec_span(self) -> Span {
        match self {
            TsType::Ref(s, _) => s,
            TsType::Import(i) => i.span,
            TsType::Query(s, _) => s,
            TsType::IndexedAccess(s, _, _) => s,
            TsType::LitType(s, _) => s,
            TsType::Keyword(s, _) => s,
            TsType::This(s) => s,
            TsType::Paren(s, _) => s,
            TsType::Tuple(s, _) => s,
            TsType::Unsupported(s) => s,
        }
    }

    /// The span of this node.
    pub fn span(&self) -> (s: Span)
        ensures
            s == self.spec_span(),
    {
        match self {
            TsType::Ref(s, _) => *s,
            TsType::Import(i) => i.span,
            TsType::Query(s, _) => *s,
            TsType::IndexedAccess(s, _, _) => *s,
            TsType::LitType(s, _) => *s,
            TsType::Keyword(s, _) => *s,
            TsType::This(s) => *s,
            TsType::Paren(s, _) => *s,
            TsType::Tuple(s, _) => *s,
            TsType::Unsupported(s) => *s,
        }
    }
}

impl TsEntityName {
    /// The span of this name.
    pub open spec fn spec_span(self) -> Span {
        match self {
            TsEntityName::Ident(i) => i.span,
            TsEntityName::Qualified(q) => q.span,
        }
    }

    /// The span of this name.
    pub fn span(&self) -> (s: Span)
        ensures
            s == self.spec_span(),
    {
        match self {
            TsEntityName::Ident(i) => i.span,
            TsEntityName::Qualified(q) => q.span,
        }
    }
}

/// A structural size for expressions, used as the termination measure
/// of walks and of the nested-request recursion.  Children that no
/// walk ever descends into count as leaves.
pub open spec fn expr_size(e: Expr) -> nat
    decreases e,
{
    match e {
        Expr::Member(m) => 1 + expr_size(*m.obj),
        Expr::MetaProp(m) => 1 + m.parts@.len(),
        Expr::Call(c) => 1 + args_size(c.args@),
        Expr::Array(a) => 1 + opt_args_size(a.elems@),
        Expr::Arrow(a) => 1 + arrow_body_size(a.body),
        Expr::Function(f) => match f.body {
            Some(stmts) => 1 + stmts_size(stmts@),
            None => 1,
        },
        Expr::Wrapped(_, inner) => 1 + expr_size(*inner),
        _ => 1,
    }
}

/// The combined size of a sequence of call arguments.
pub open spec fn args_size(s: Seq<Arg>) -> nat
    decreases s,
{
    if s.len() == 0 {
        0
    } else {
        1 + expr_size(*s[0].expr) + args_size(s.subrange(1, s.len() as int))
    }
}

/// The combined size of array-literal elements.
pub open spec fn opt_args_size(s: Seq<Option<Arg>>) -> nat
    decreases s,
{
    if s.len() == 0 {
        0
    } else {
        (match s[0] {
            Some(a) => 1 + expr_size(*a.expr),
            None => 1,
        }) + opt_args_size(s.subrange(1, s.len() as int))
    }
}

/// The size of an arrow function's body.
pub open spec fn arrow_body_size(b: ArrowBody) -> nat
    decreases b,
{
    match b {
        ArrowBody::Expr(e) => 1 + expr_size(*e),
        ArrowBody::Block(stmts) => 1 + stmts_size(stmts@),
    }
}

/// The combined size of a sequence of statements.
pub open spec fn stmts_size(s: Seq<Stmt>) -> nat
    decreases s,
{
    if s.len() == 0 {
        0
    } else {
        (match s[0] {
            Stmt::Return(_, Some(e)) => 1 + expr_size(*e),
            _ => 1,
        }) + stmts_size(s.subrange(1, s.len() as int))
    }
}

/// A structural rank for type nodes, decreasing along a type walk.
pub open spec fn type_rank(t: TsType) -> nat
    decreases t,
{
    match t {
        TsType::Ref(_, name) => 1 + entity_rank(name),
        TsType::Query(_, TsTypeQueryExpr::Name(name)) => 1 + entity_rank(name),
        TsType::IndexedAccess(_, obj, _) => 1 + type_rank(*obj),
        TsType::Paren(_, inner) => 1 + type_rank(*inner),
        _ => 1,
    }
}

/// A structural rank for entity names, decreasing towards the left.
pub open spec fn entity_rank(n: TsEntityName) -> nat
    decreases n,
{
    match n {
        TsEntityName::Ident(_) => 1,
        TsEntityName::Qualified(q) => 1 + entity_rank(*q.left),
    }
}

} // verus!
