//! Resolution of a request's target from its arguments.
//!
//! A request names its target either through exactly one positional
//! argument (with up to one type argument alongside) or through
//! exactly one type argument; any other combination of counts is an
//! error.  A function-like argument stands for its returned
//! expression, and its parameters populate the request's local
//! contexts.  For collecting requests a trailing integer literal is
//! consumed as the slicing start index first; a numeric literal that
//! is not an integer is not taken as an index and is left to resolve
//! (and fail) as a target, so no slice is ever silently wrong.

use vstd::prelude::*;

use crate::ast::Arg;
use crate::ast::ArrowBody;
use crate::ast::CallExpr;
use crate::ast::Expr;
use crate::ast::LitValue;
use crate::ast::Span;
use crate::ast::Stmt;
use crate::ast::TsType;
use crate::ast::UnaryOp;
use crate::diagnostics::ErrView;
use crate::diagnostics::NameofError;
use crate::diagnostics::err_view;
use crate::scope::get_local_contexts;
use crate::scope::spec_pats_contexts;

verus! {

/// A node a name can be taken from: an expression or a type.
#[derive(Debug, PartialEq)]
pub enum NamedNode {
    Expr(Box<Expr>),
    Type(Box<TsType>),
}

/// The resolved context of a named node: the node itself and the
/// scope tokens of the local variables its resolution introduced.
#[derive(Debug, PartialEq)]
pub struct NameContext {
    pub node: NamedNode,
    pub syntax_contexts: Vec<u32>,
}

/// The source a name context is resolved from.
#[derive(Debug, PartialEq)]
pub enum NameSource {
    /// A whole call: its arguments and type arguments.
    Call(CallExpr),
    /// An argument list with the call's span for error reporting.
    Args(Span, Vec<Arg>, Vec<TsType>),
    /// A single positional argument.
    Param(Arg),
    /// A bare expression.
    Expr(Expr),
    /// A bare type.
    Type(TsType),
}

/// The mathematical image of a [`NamedNode`].
pub enum NodeView {
    Expr(Expr),
    Type(TsType),
}

/// The mathematical image of a [`NameContext`].
pub struct ContextView {
    pub node: NodeView,
    pub ctxts: Seq<u32>,
}

/// Maps a named node onto its image.
pub open spec fn node_view(n: NamedNode) -> NodeView {
    match n {
        NamedNode::Expr(e) => NodeView::Expr(*e),
        NamedNode::Type(t) => NodeView::Type(*t),
    }
}

/// Maps a name context onto its image.
pub open spec fn context_view(c: NameContext) -> ContextView {
    ContextView { node: node_view(c.node), ctxts: c.syntax_contexts@ }
}

/// Maps a context-or-error result onto its image.
pub open spec fn ctx_res_view(r: Result<NameContext, NameofError>) -> Result<
    ContextView,
    ErrView,
> {
    match r {
        Ok(c) => Ok(context_view(c)),
        Err(e) => Err(err_view(e)),
    }
}

/// Maps an optional machine integer onto an optional integer.
pub open spec fn opt_i64_view(v: Option<i64>) -> Option<int> {
    match v {
        Some(x) => Some(x as int),
        None => None,
    }
}

/// The expression carried by an argument; a spread argument carries
/// none and is an error.
pub open spec fn spec_unwrap_arg(a: Arg) -> Result<Expr, ErrView> {
    match a.spread {
        Some(sp) => Err(ErrView::Spread(sp)),
        None => Ok(*a.expr),
    }
}

/// Unwraps the specified argument, rejecting a spread.
pub fn unwrap_arg(arg: Arg) -> (r: Result<Expr, NameofError>)
    ensures
        (match r {
            Ok(e) => spec_unwrap_arg(arg) == Ok::<Expr, ErrView>(e),
            Err(er) => spec_unwrap_arg(arg) == Err::<Expr, ErrView>(err_view(er)),
        }),
{
    match arg.spread {
        Some(sp) => Err(NameofError::Spread(sp)),
        None => Ok(*arg.expr),
    }
}

/// The integer a (possibly signed) numeric literal denotes, if any.
/// A literal that denotes no machine-representable integer yields
/// `None`, as does any other expression shape.
pub open spec fn spec_parse_int(e: Expr) -> Option<int>
    decreases e,
{
    match e {
        Expr::Lit(l) => match l.value {
            LitValue::Num(n) => match n.value {
                Some(v) => Some(v as int),
                None => None,
            },
            _ => None,
        },
        Expr::Unary(u) => match u.op {
            UnaryOp::Plus => spec_parse_int(*u.arg),
            UnaryOp::Minus => match spec_parse_int(*u.arg) {
                Some(v) => if v == i64::MIN as int {
                    None
                } else {
                    Some(-v)
                },
                None => None,
            },
            _ => None,
        },
        _ => None,
    }
}

/// Parses the integer represented by the specified expression.
pub fn parse_int(e: &Expr) -> (r: Option<i64>)
    ensures
        opt_i64_view(r) == spec_parse_int(*e),
    decreases *e,
{
    match e {
        Expr::Lit(l) => match &l.value {
            LitValue::Num(n) => n.value,
            _ => None,
        },
        Expr::Unary(u) => match u.op {
            UnaryOp::Plus => parse_int(&u.arg),
            UnaryOp::Minus => match parse_int(&u.arg) {
                Some(v) => if v == i64::MIN {
                    None
                } else {
                    Some(-v)
                },
                None => None,
            },
            _ => None,
        },
        _ => None,
    }
}

/// Splits a collecting request's arguments into the optional slicing
/// start index (a trailing, non-spread integer literal) and the
/// remaining arguments.
pub open spec fn spec_parse_collect_args(args: Seq<Arg>) -> (Option<int>, Seq<Arg>) {
    if args.len() > 0 && args.last().spread is None && spec_parse_int(*args.last().expr)
        is Some {
        (spec_parse_int(*args.last().expr), args.drop_last())
    } else {
        (None, args)
    }
}

/// Parses the arguments passed to a collecting request.
pub fn parse_collect_args(args: Vec<Arg>) -> (r: (Option<i64>, Vec<Arg>))
    ensures
        opt_i64_view(r.0) == spec_parse_collect_args(args@).0,
        r.1@ == spec_parse_collect_args(args@).1,
{
    let mut args = args;
    let n = args.len();
    if n > 0 {
        let take_index: Option<i64> = match &args[n - 1].spread {
            None => parse_int(&args[n - 1].expr),
            Some(_) => None,
        };
        if let Some(v) = take_index {
            let _ = args.pop();
            return (Some(v), args);
        }
    }
    (None, args)
}

/// The expression returned from a statement list: the value of the
/// last `return` statement that carries one, scanning backwards.
pub open spec fn spec_returned(s: Seq<Stmt>) -> Option<Expr>
    decreases s,
{
    if s.len() == 0 {
        None
    } else {
        match s.last() {
            Stmt::Return(_, Some(e)) => Some(*e),
            _ => spec_returned(s.drop_last()),
        }
    }
}

/// Gets the expression returned from the specified block.
pub fn get_returned_expression(block: Vec<Stmt>) -> (r: Option<Expr>)
    ensures
        (match r {
            Some(e) => spec_returned(block@) == Some(e),
            None => spec_returned(block@) == None::<Expr>,
        }),
{
    let ghost orig = block@;
    let mut stmts = block;
    loop
        invariant
            orig == block@,
            spec_returned(stmts@) == spec_returned(orig),
        decreases stmts@.len(),
    {
        match stmts.pop() {
            Some(Stmt::Return(_, Some(e))) => {
                return Some(*e);
            },
            Some(_) => {},
            None => {
                return None;
            },
        }
    }
}

/// A termination rank over name sources: resolution hands a source on
/// to a strictly simpler kind.
pub open spec fn source_rank(s: NameSource) -> nat {
    match s {
        NameSource::Call(_) => 4,
        NameSource::Args(_, _, _) => 3,
        NameSource::Param(_) => 2,
        NameSource::Expr(_) => 1,
        NameSource::Type(_) => 0,
    }
}

/// Resolution of a bare expression to its context.  A function-like
/// expression stands for its returned expression — its absence is
/// `NoReturnedNode` — and contributes its parameters' scope tokens;
/// anything else is its own target with no local contexts.
pub open spec fn spec_context_of_expr(e: Expr) -> Result<ContextView, ErrView> {
    match e {
        Expr::Arrow(a) => match a.body {
            ArrowBody::Expr(b) => Ok(
                ContextView { node: NodeView::Expr(*b), ctxts: spec_pats_contexts(a.params@) },
            ),
            ArrowBody::Block(stmts) => match spec_returned(stmts@) {
                Some(r) => Ok(
                    ContextView { node: NodeView::Expr(r), ctxts: spec_pats_contexts(a.params@) },
                ),
                None => Err(ErrView::NoReturnedNode(a.span)),
            },
        },
        Expr::Function(f) => match f.body {
            Some(stmts) => match spec_returned(stmts@) {
                Some(r) => Ok(
                    ContextView { node: NodeView::Expr(r), ctxts: spec_pats_contexts(f.params@) },
                ),
                None => Err(ErrView::NoReturnedNode(f.span)),
            },
            None => Err(ErrView::NoReturnedNode(f.span)),
        },
        other => Ok(ContextView { node: NodeView::Expr(other), ctxts: Seq::empty() }),
    }
}

/// Resolution of a single positional argument to its context.
pub open spec fn spec_context_of_param(arg: Arg) -> Result<ContextView, ErrView> {
    match spec_unwrap_arg(arg) {
        Ok(e) => spec_context_of_expr(e),
        Err(er) => Err(er),
    }
}

/// Resolution of an argument list to its context.
///
/// Exactly one positional argument (and at most one type argument)
/// resolves through the argument; exactly one type argument and no
/// positional argument resolves to the type; any other combination is
/// an `ArgumentError` carrying both observed counts.
pub open spec fn spec_context_of_args(
    span: Span,
    args: Seq<Arg>,
    type_args: Seq<TsType>,
) -> Result<ContextView, ErrView> {
    if args.len() == 1 && type_args.len() <= 1 {
        spec_context_of_param(args[0])
    } else if type_args.len() == 1 && args.len() == 0 {
        Ok(ContextView { node: NodeView::Type(type_args[0]), ctxts: Seq::empty() })
    } else {
        Err(
            ErrView::ArgumentError {
                span,
                type_arg_count: type_args.len() as int,
                arg_count: args.len() as int,
            },
        )
    }
}

/// Resolution of a name source to its context.
pub open spec fn spec_name_context(s: NameSource) -> Result<ContextView, ErrView> {
    match s {
        NameSource::Call(call) => spec_context_of_args(call.span, call.args@, call.type_args@),
        NameSource::Args(span, args, type_args) => spec_context_of_args(span, args@, type_args@),
        NameSource::Param(arg) => spec_context_of_param(arg),
        NameSource::Expr(e) => spec_context_of_expr(e),
        NameSource::Type(t) => Ok(ContextView { node: NodeView::Type(t), ctxts: Seq::empty() }),
    }
}

/// Gets the context of the named node held by the specified source.
pub fn get_name_context(source: NameSource) -> (r: Result<NameContext, NameofError>)
    ensures
        ctx_res_view(r) == spec_name_context(source),
    decreases source_rank(source),
{
    match source {
        NameSource::Call(call) => get_name_context(
            NameSource::Args(call.span, call.args, call.type_args),
        ),
        NameSource::Args(span, args, type_args) => {
            let na = args.len();
            let nt = type_args.len();
            if na == 1 && nt <= 1 {
                let mut args = args;
                let arg = args.remove(0);
                get_name_context(NameSource::Param(arg))
            } else if nt == 1 && na == 0 {
                let mut type_args = type_args;
                let t = type_args.remove(0);
                get_name_context(NameSource::Type(t))
            } else {
                Err(NameofError::ArgumentError { span, type_arg_count: nt, arg_count: na })
            }
        },
        NameSource::Param(arg) => match unwrap_arg(arg) {
            Ok(e) => get_name_context(NameSource::Expr(e)),
            Err(er) => Err(er),
        },
        NameSource::Expr(e) => match e {
            Expr::Arrow(a) => {
                let ctxts = get_local_contexts(&a.params);
                match a.body {
                    ArrowBody::Expr(b) => Ok(
                        NameContext { node: NamedNode::Expr(b), syntax_contexts: ctxts },
                    ),
                    ArrowBody::Block(stmts) => match get_returned_expression(stmts) {
                        Some(r) => Ok(
                            NameContext {
                                node: NamedNode::Expr(Box::new(r)),
                                syntax_contexts: ctxts,
                            },
                        ),
                        None => Err(NameofError::NoReturnedNode(a.span)),
                    },
                }
            },
            Expr::Function(f) => {
                let ctxts = get_local_contexts(&f.params);
                match f.body {
                    Some(stmts) => match get_returned_expression(stmts) {
                        Some(r) => Ok(
                            NameContext {
                                node: NamedNode::Expr(Box::new(r)),
                                syntax_contexts: ctxts,
                            },
                        ),
                        None => Err(NameofError::NoReturnedNode(f.span)),
                    },
                    None => Err(NameofError::NoReturnedNode(f.span)),
                }
            },
            other => Ok(
                NameContext { node: NamedNode::Expr(Box::new(other)), syntax_contexts: Vec::new() },
            ),
        },
        NameSource::Type(t) => Ok(
            NameContext { node: NamedNode::Type(Box::new(t)), syntax_contexts: Vec::new() },
        ),
    }
}

} // verus!
