//! The diagnostics a request can resolve to.
//!
//! Every failure is a value; the engine never panics.  A diagnostic
//! binds the smallest source span that identifies the problem plus the
//! contextual payload a host needs to render it (the offending node,
//! the observed argument counts, the invalid method name, or the local
//! variable that lacks an accessor).
//!
//! Contracts state diagnostics through [`ErrView`], a mathematical
//! image of [`NameofError`] in which strings appear as character
//! sequences and offending nodes are carried through unchanged.

use vstd::prelude::*;

use crate::ast::ComputedPropName;
use crate::ast::Expr;
use crate::ast::IdentName;
use crate::ast::Span;
use crate::ast::TsType;

verus! {

/// A syntactic shape the engine does not model, carried for rendering.
#[derive(Debug, PartialEq)]
pub enum UnsupportedNode {
    Expr(Box<Expr>),
    Type(Box<TsType>),
}

/// A computed property or indexed access whose key the engine cannot
/// turn into a name.
#[derive(Debug, PartialEq)]
pub enum UnsupportedIndexer {
    Type(Box<TsType>),
    Prop(ComputedPropName),
}

/// An error which occurred while resolving a `nameof` request.
#[derive(Debug, PartialEq)]
pub enum NameofError {
    /// A spread argument was supplied where a single expression was
    /// required; the span covers the spread token.
    Spread(Span),
    /// The request's argument and type-argument counts fit no shape.
    ArgumentError { span: Span, type_arg_count: usize, arg_count: usize },
    /// A function-like argument has no reachable `return` with a value.
    NoReturnedNode(Span),
    /// An unrecognized method on the `nameof` interface; the payload is
    /// the offending method token.
    InvalidMethod(IdentName),
    /// A collecting walk would begin at a local variable with no
    /// externally nameable accessor beneath it.
    MissingAccessor { span: Span, name: String },
    /// A computed key of an unsupported shape.
    UnsupportedIndexer(UnsupportedIndexer),
    /// A chain node of an unsupported shape.
    UnsupportedNode(UnsupportedNode),
    /// An interpolation segment in an output mode that forbids it.
    UnsupportedInterpolation(Span),
    /// An `interpolate` call outside a computed property of a `full`
    /// request.
    UnusedInterpolation(Span),
}

/// The mathematical image of a [`NameofError`].
pub enum ErrView {
    Spread(Span),
    ArgumentError { span: Span, type_arg_count: int, arg_count: int },
    NoReturnedNode(Span),
    InvalidMethod { span: Span, name: Seq<char> },
    MissingAccessor { span: Span, name: Seq<char> },
    UnsupportedIndexerType(TsType),
    UnsupportedIndexerProp(ComputedPropName),
    UnsupportedExpr(Expr),
    UnsupportedType(TsType),
    UnsupportedInterpolation(Span),
    UnusedInterpolation(Span),
}

/// Maps an error onto its mathematical image.
pub open spec fn err_view(e: NameofError) -> ErrView {
    match e {
        NameofError::Spread(s) => ErrView::Spread(s),
        NameofError::ArgumentError { span, type_arg_count, arg_count } => ErrView::ArgumentError {
            span,
            type_arg_count: type_arg_count as int,
            arg_count: arg_count as int,
        },
        NameofError::NoReturnedNode(s) => ErrView::NoReturnedNode(s),
        NameofError::InvalidMethod(id) => ErrView::InvalidMethod { span: id.span, name: id.name@ },
        NameofError::MissingAccessor { span, name } => ErrView::MissingAccessor {
            span,
            name: name@,
        },
        NameofError::UnsupportedIndexer(UnsupportedIndexer::Type(t)) => ErrView::UnsupportedIndexerType(
            *t,
        ),
        NameofError::UnsupportedIndexer(UnsupportedIndexer::Prop(p)) => ErrView::UnsupportedIndexerProp(
            p,
        ),
        NameofError::UnsupportedNode(UnsupportedNode::Expr(e)) => ErrView::UnsupportedExpr(*e),
        NameofError::UnsupportedNode(UnsupportedNode::Type(t)) => ErrView::UnsupportedType(*t),
        NameofError::UnsupportedInterpolation(s) => ErrView::UnsupportedInterpolation(s),
        NameofError::UnusedInterpolation(s) => ErrView::UnusedInterpolation(s),
    }
}

/// Maps a result whose error side is a [`NameofError`] onto one whose
/// error side is the error's image, leaving the success side alone.
pub open spec fn res_view<T>(r: Result<T, NameofError>) -> Result<T, ErrView> {
    match r {
        Ok(t) => Ok(t),
        Err(e) => Err(err_view(e)),
    }
}

} // verus!
