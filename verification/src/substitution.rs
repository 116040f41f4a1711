//! Resolution of a classified request to its substitution.
//!
//! The implicit tail request and the collecting requests resolve a
//! single target; the `array` request first tries the single-target
//! resolution and, where it fails, falls back to treating every
//! positional argument (or every type argument) as an independent
//! target — and where the single target resolves to an array literal
//! or a tuple type, its elements become the target list.  A
//! standalone `interpolate` request is `UnusedInterpolation`.

use vstd::prelude::*;

use crate::ast::Arg;
use crate::ast::ArrowBody;
use crate::ast::ArrowExpr;
use crate::ast::CallExpr;
use crate::ast::Expr;
use crate::ast::FnExpr;
use crate::ast::Stmt;
use crate::ast::TsType;
use crate::diagnostics::ErrView;
use crate::diagnostics::NameofError;
use crate::diagnostics::err_view;
use crate::engine::NameofEngine;
use crate::scope::get_local_contexts;
use crate::serialization::CollectOutput;
use crate::serialization::CommonExpr;
use crate::serialization::NameSubstitution;
use crate::serialization::NameofExpression;
use crate::serialization::NameofMethod;
use crate::target::NameContext;
use crate::target::NamedNode;
use crate::target::NameSource;
use crate::target::NodeView;
use crate::target::get_name_context;
use crate::target::node_view;
use crate::target::opt_i64_view;
use crate::target::parse_collect_args;
use crate::target::spec_context_of_args;
use crate::target::spec_parse_collect_args;
use crate::target::spec_returned;
use crate::target::spec_unwrap_arg;
use crate::target::unwrap_arg;

verus! {

/// The mathematical image of a [`NameSubstitution`].
pub enum SubView {
    Tail(NodeView),
    Collect { start: Option<int>, ctxts: Seq<u32>, output: CollectOutput, node: NodeView },
    Arr { ctxts: Seq<u32>, nodes: Seq<NodeView> },
}

/// The image of a sequence of named nodes.
pub open spec fn nodes_view(s: Seq<NamedNode>) -> Seq<NodeView> {
    s.map_values(|n: NamedNode| node_view(n))
}

/// Maps a substitution onto its image.
pub open spec fn sub_view(s: NameSubstitution) -> SubView {
    match s {
        NameSubstitution::Tail(n) => SubView::Tail(node_view(n)),
        NameSubstitution::Collect { start_index, local_contexts, output, node } => SubView::Collect {
            start: opt_i64_view(start_index),
            ctxts: local_contexts@,
            output,
            node: node_view(node),
        },
        NameSubstitution::Array { local_contexts, nodes } => SubView::Arr {
            ctxts: local_contexts@,
            nodes: nodes_view(nodes@),
        },
    }
}

/// Maps a substitution-or-error result onto its image.
pub open spec fn sub_res_view(r: Result<NameSubstitution, NameofError>) -> Result<
    SubView,
    ErrView,
> {
    match r {
        Ok(s) => Ok(sub_view(s)),
        Err(e) => Err(err_view(e)),
    }
}

/// The targets named by an argument list, every argument unwrapped;
/// the first spread argument decides the error.
pub open spec fn spec_unwrap_args(args: Seq<Arg>) -> Result<Seq<NodeView>, ErrView>
    decreases args.len(),
{
    if args.len() == 0 {
        Ok(Seq::empty())
    } else {
        match spec_unwrap_args(args.drop_last()) {
            Err(e) => Err(e),
            Ok(ns) => match spec_unwrap_arg(args.last()) {
                Ok(e) => Ok(ns.push(NodeView::Expr(e))),
                Err(er) => Err(er),
            },
        }
    }
}

/// The targets named by an array literal's elements, elisions
/// skipped; the first spread element decides the error.
pub open spec fn spec_unwrap_elems(elems: Seq<Option<Arg>>) -> Result<Seq<NodeView>, ErrView>
    decreases elems.len(),
{
    if elems.len() == 0 {
        Ok(Seq::empty())
    } else {
        match spec_unwrap_elems(elems.drop_last()) {
            Err(e) => Err(e),
            Ok(ns) => match elems.last() {
                None => Ok(ns),
                Some(a) => match spec_unwrap_arg(a) {
                    Ok(e) => Ok(ns.push(NodeView::Expr(e))),
                    Err(er) => Err(er),
                },
            },
        }
    }
}

/// The image of a sequence of types taken as independent targets.
pub open spec fn types_as_nodes(ts: Seq<TsType>) -> Seq<NodeView> {
    ts.map_values(|t: TsType| NodeView::Type(t))
}

/// The target list of a successfully resolved `array` target: an
/// array literal or a tuple type contributes its elements, anything
/// else stands alone.
pub open spec fn spec_expand_target(node: NodeView) -> Result<Seq<NodeView>, ErrView> {
    match node {
        NodeView::Expr(Expr::Array(arr)) => spec_unwrap_elems(arr.elems@),
        NodeView::Expr(other) => Ok(seq![NodeView::Expr(other)]),
        NodeView::Type(TsType::Tuple(_, elems)) => Ok(types_as_nodes(elems@)),
        NodeView::Type(other) => Ok(seq![NodeView::Type(other)]),
    }
}

/// Resolution of an `array` request: the single-target resolution is
/// tried first; where it fails, every positional argument — or,
/// absent positional arguments, every type argument — becomes an
/// independent target with no extra local contexts.
pub open spec fn spec_array_substitution(call: CallExpr, outer: Seq<u32>) -> Result<
    SubView,
    ErrView,
> {
    match spec_context_of_args(call.span, call.args@, call.type_args@) {
        Ok(ctx) => match spec_expand_target(ctx.node) {
            Ok(ns) => Ok(SubView::Arr { ctxts: outer + ctx.ctxts, nodes: ns }),
            Err(e) => Err(e),
        },
        Err(_) => if call.args@.len() > 0 {
            match spec_unwrap_args(call.args@) {
                Ok(ns) => Ok(SubView::Arr { ctxts: outer + Seq::empty(), nodes: ns }),
                Err(e) => Err(e),
            }
        } else {
            Ok(SubView::Arr { ctxts: outer + Seq::empty(), nodes: types_as_nodes(call.type_args@) })
        },
    }
}

/// Resolution of a common (call-shaped) request to its substitution.
pub open spec fn spec_common_substitution(
    method: Option<NameofMethod>,
    call: CallExpr,
    outer: Seq<u32>,
) -> Result<SubView, ErrView> {
    match method {
        None => match spec_context_of_args(call.span, call.args@, call.type_args@) {
            Ok(ctx) => Ok(SubView::Tail(ctx.node)),
            Err(e) => Err(e),
        },
        Some(NameofMethod::Interpolate) => Err(ErrView::UnusedInterpolation(call.span)),
        Some(NameofMethod::Collect(output)) => {
            let parsed = spec_parse_collect_args(call.args@);
            match spec_context_of_args(call.span, parsed.1, call.type_args@) {
                Ok(ctx) => Ok(
                    SubView::Collect {
                        start: parsed.0,
                        ctxts: outer + ctx.ctxts,
                        output,
                        node: ctx.node,
                    },
                ),
                Err(e) => Err(e),
            }
        },
        Some(NameofMethod::Array) => spec_array_substitution(call, outer),
    }
}

/// Resolution of a classified request to its substitution.  A typed
/// request's target is the whole member expression itself; the chain
/// walked from it ignores the local contexts, as no function-like
/// argument took part.
pub open spec fn spec_substitution(
    class: NameofExpression,
    node: Expr,
    outer: Seq<u32>,
) -> Result<SubView, ErrView> {
    match class {
        NameofExpression::Typed => Ok(SubView::Tail(NodeView::Expr(node))),
        NameofExpression::Common(CommonExpr { method }) => match node {
            Expr::Call(call) => spec_common_substitution(method, call, outer),
            other => Ok(SubView::Tail(NodeView::Expr(other))),
        },
    }
}

/// The position of the last `return` statement carrying a value.
fn find_returned(stmts: &Vec<Stmt>) -> (r: Option<usize>)
    ensures
        (match r {
            Some(i) => i < stmts@.len() && (stmts@[i as int] matches Stmt::Return(_, Some(e))
                && spec_returned(stmts@) == Some(*e)),
            None => spec_returned(stmts@) == None::<Expr>,
        }),
{
    let mut i = stmts.len();
    proof {
        assert(stmts@.take(stmts@.len() as int) =~= stmts@);
    }
    loop
        invariant
            i <= stmts@.len(),
            spec_returned(stmts@.take(i as int)) == spec_returned(stmts@),
        decreases i,
    {
        if i == 0 {
            return None;
        }
        i = i - 1;
        proof {
            assert(stmts@.take(i as int + 1).drop_last() =~= stmts@.take(i as int));
            assert(stmts@.take(i as int + 1).last() == stmts@[i as int]);
        }
        match &stmts[i] {
            Stmt::Return(_, Some(_)) => {
                return Some(i);
            },
            _ => {},
        }
    }
}

/// Unwraps every argument into an independent target.
fn unwrap_all_args(args: Vec<Arg>) -> (r: Result<Vec<NamedNode>, NameofError>)
    ensures
        (match r {
            Ok(v) => spec_unwrap_args(args@) == Ok::<_, ErrView>(nodes_view(v@)),
            Err(e) => spec_unwrap_args(args@) == Err::<Seq<NodeView>, _>(err_view(e)),
        }),
{
    let ghost all = args@;
    let mut nodes: Vec<NamedNode> = Vec::new();
    let mut rest = args;
    proof {
        assert(all.skip(0) =~= all);
        assert(all.take(0) =~= Seq::<Arg>::empty());
        assert(nodes_view(nodes@) =~= Seq::<NodeView>::empty());
    }
    loop
        invariant
            all == args@,
            rest@.len() <= all.len(),
            all.skip(all.len() - rest@.len()) == rest@,
            spec_unwrap_args(all.take(all.len() - rest@.len())) == Ok::<_, ErrView>(
                nodes_view(nodes@),
            ),
        decreases rest@.len(),
    {
        let ghost done = all.len() - rest@.len();
        if rest.len() == 0 {
            proof {
                assert(all.take(all.len() as int) =~= all);
            }
            return Ok(nodes);
        }
        let ghost rest_pre = rest@;
        let arg = rest.remove(0);
        proof {
            assert(all.take(done + 1).drop_last() =~= all.take(done));
            assert(all.take(done + 1).last() == all[done]);
            assert(all[done] == rest_pre[0]);
            assert(rest@ =~= rest_pre.skip(1));
            assert(all.skip(done + 1) =~= rest@);
        }
        let ghost pre_nodes = nodes_view(nodes@);
        match unwrap_arg(arg) {
            Ok(e) => {
                nodes.push(NamedNode::Expr(Box::new(e)));
                proof {
                    assert(nodes_view(nodes@) =~= pre_nodes.push(NodeView::Expr(e)));
                }
            },
            Err(er) => {
                proof {
                    lemma_unwrap_args_err_persists(all, done + 1);
                }
                return Err(er);
            },
        }
    }
}

/// An error settled by a prefix of the arguments settles the whole
/// unwrapping.
proof fn lemma_unwrap_args_err_persists(args: Seq<Arg>, i: int)
    requires
        0 <= i <= args.len(),
        spec_unwrap_args(args.take(i)) is Err,
    ensures
        spec_unwrap_args(args) == spec_unwrap_args(args.take(i)),
    decreases args.len() - i,
{
    if i < args.len() {
        assert(args.take(i + 1).drop_last() =~= args.take(i));
        lemma_unwrap_args_err_persists(args, i + 1);
    } else {
        assert(args.take(i) =~= args);
    }
}

/// An error settled by a prefix of the elements settles the whole
/// unwrapping.
proof fn lemma_unwrap_elems_err_persists(elems: Seq<Option<Arg>>, i: int)
    requires
        0 <= i <= elems.len(),
        spec_unwrap_elems(elems.take(i)) is Err,
    ensures
        spec_unwrap_elems(elems) == spec_unwrap_elems(elems.take(i)),
    decreases elems.len() - i,
{
    if i < elems.len() {
        assert(elems.take(i + 1).drop_last() =~= elems.take(i));
        lemma_unwrap_elems_err_persists(elems, i + 1);
    } else {
        assert(elems.take(i) =~= elems);
    }
}

/// Unwraps an array literal's elements into independent targets.
fn unwrap_all_elems(elems: Vec<Option<Arg>>) -> (r: Result<Vec<NamedNode>, NameofError>)
    ensures
        (match r {
            Ok(v) => spec_unwrap_elems(elems@) == Ok::<_, ErrView>(nodes_view(v@)),
            Err(e) => spec_unwrap_elems(elems@) == Err::<Seq<NodeView>, _>(err_view(e)),
        }),
{
    let ghost all = elems@;
    let mut nodes: Vec<NamedNode> = Vec::new();
    let mut rest = elems;
    proof {
        assert(all.skip(0) =~= all);
        assert(all.take(0) =~= Seq::<Option<Arg>>::empty());
        assert(nodes_view(nodes@) =~= Seq::<NodeView>::empty());
    }
    loop
        invariant
            all == elems@,
            rest@.len() <= all.len(),
            all.skip(all.len() - rest@.len()) == rest@,
            spec_unwrap_elems(all.take(all.len() - rest@.len())) == Ok::<_, ErrView>(
                nodes_view(nodes@),
            ),
        decreases rest@.len(),
    {
        let ghost done = all.len() - rest@.len();
        if rest.len() == 0 {
            proof {
                assert(all.take(all.len() as int) =~= all);
            }
            return Ok(nodes);
        }
        let ghost rest_pre = rest@;
        let elem = rest.remove(0);
        proof {
            assert(all.take(done + 1).drop_last() =~= all.take(done));
            assert(all.take(done + 1).last() == all[done]);
            assert(all[done] == rest_pre[0]);
            assert(rest@ =~= rest_pre.skip(1));
            assert(all.skip(done + 1) =~= rest@);
        }
        let ghost pre_nodes = nodes_view(nodes@);
        match elem {
            None => {},
            Some(arg) => match unwrap_arg(arg) {
                Ok(e) => {
                    nodes.push(NamedNode::Expr(Box::new(e)));
                    proof {
                        assert(nodes_view(nodes@) =~= pre_nodes.push(NodeView::Expr(e)));
                    }
                },
                Err(er) => {
                    proof {
                        lemma_unwrap_elems_err_persists(all, done + 1);
                    }
                    return Err(er);
                },
            },
        }
    }
}

/// Turns every type into an independent target.
fn types_to_nodes(ts: Vec<TsType>) -> (r: Vec<NamedNode>)
    ensures
        nodes_view(r@) == types_as_nodes(ts@),
{
    let ghost all = ts@;
    let mut nodes: Vec<NamedNode> = Vec::new();
    let mut rest = ts;
    proof {
        assert(all.skip(0) =~= all);
        assert(all.take(0) =~= Seq::<TsType>::empty());
        assert(nodes_view(nodes@) =~= Seq::<NodeView>::empty());
        assert(types_as_nodes(all.take(0)) =~= Seq::<NodeView>::empty());
    }
    loop
        invariant
            all == ts@,
            rest@.len() <= all.len(),
            all.skip(all.len() - rest@.len()) == rest@,
            nodes_view(nodes@) == types_as_nodes(all.take(all.len() - rest@.len())),
        decreases rest@.len(),
    {
        let ghost done = all.len() - rest@.len();
        if rest.len() == 0 {
            proof {
                assert(all.take(all.len() as int) =~= all);
            }
            return nodes;
        }
        let ghost rest_pre = rest@;
        let ghost pre_nodes = nodes_view(nodes@);
        let t = rest.remove(0);
        proof {
            assert(all[done] == rest_pre[0]);
            assert(rest@ =~= rest_pre.skip(1));
            assert(all.skip(done + 1) =~= rest@);
        }
        nodes.push(NamedNode::Type(Box::new(t)));
        proof {
            assert(nodes_view(nodes@) =~= pre_nodes.push(NodeView::Type(t)));
            assert(types_as_nodes(all.take(done + 1)) =~= pre_nodes.push(NodeView::Type(t)));
        }
    }
}

/// Expands a successfully resolved `array` target into the target
/// list and builds the substitution.
fn expand_array_target(
    node: NamedNode,
    syntax_contexts: Vec<u32>,
    outer: Vec<u32>,
) -> (r: Result<NameSubstitution, NameofError>)
    ensures
        (match r {
            Ok(s) => (match spec_expand_target(node_view(node)) {
                Ok(ns) => sub_view(s) == (SubView::Arr {
                    ctxts: outer@ + syntax_contexts@,
                    nodes: ns,
                }),
                Err(_) => false,
            }),
            Err(e) => spec_expand_target(node_view(node)) == Err::<Seq<NodeView>, _>(err_view(e)),
        }),
{
    let mut ctxts = outer;
    let mut sc = syntax_contexts;
    ctxts.append(&mut sc);
    match node {
        NamedNode::Expr(e) => match *e {
            Expr::Array(arr) => match unwrap_all_elems(arr.elems) {
                Ok(nodes) => Ok(NameSubstitution::Array { local_contexts: ctxts, nodes }),
                Err(er) => Err(er),
            },
            other => {
                let nodes = vec![NamedNode::Expr(Box::new(other))];
                proof {
                    assert(nodes_view(nodes@) =~= seq![NodeView::Expr(other)]);
                }
                Ok(NameSubstitution::Array { local_contexts: ctxts, nodes })
            },
        },
        NamedNode::Type(t) => match *t {
            TsType::Tuple(sp, elems) => {
                let nodes = types_to_nodes(elems);
                Ok(NameSubstitution::Array { local_contexts: ctxts, nodes })
            },
            other => {
                let nodes = vec![NamedNode::Type(Box::new(other))];
                proof {
                    assert(nodes_view(nodes@) =~= seq![NodeView::Type(other)]);
                }
                Ok(NameSubstitution::Array { local_contexts: ctxts, nodes })
            },
        },
    }
}

impl NameofEngine {
    /// Resolves an `array` request, trying the single-target
    /// resolution and falling back to the argument (or type-argument)
    /// list where it fails.
    fn array_substitution(&self, call: CallExpr, outer: Vec<u32>) -> (r: Result<
        NameSubstitution,
        NameofError,
    >)
        ensures
            sub_res_view(r) == spec_array_substitution(call, outer@),
    {
        let CallExpr { span, callee: _, args, type_args } = call;
        let na = args.len();
        let nt = type_args.len();
        if na == 1 && nt <= 1 {
            let mut args = args;
            let arg = args.remove(0);
            proof {
                assert(call.args@[0] == arg);
            }
            match unwrap_arg(arg) {
                Err(e) => {
                    proof {
                        assert(call.args@.take(1) =~= call.args@);
                        assert(spec_unwrap_args(call.args@.take(0)) == Ok::<_, ErrView>(
                            Seq::<NodeView>::empty(),
                        )) by {
                            assert(call.args@.take(0) =~= Seq::<Arg>::empty());
                        }
                    }
                    Err(e)
                },
                Ok(expr) => match expr {
                    Expr::Arrow(a) => {
                        let ArrowExpr { span: asp, params, body } = a;
                        let ctx2 = get_local_contexts(&params);
                        match body {
                            ArrowBody::Expr(b) => expand_array_target(
                                NamedNode::Expr(b),
                                ctx2,
                                outer,
                            ),
                            ArrowBody::Block(stmts) => match find_returned(&stmts) {
                                Some(i) => {
                                    let mut stmts = stmts;
                                    match stmts.remove(i) {
                                        Stmt::Return(_, Some(e)) => expand_array_target(
                                            NamedNode::Expr(e),
                                            ctx2,
                                            outer,
                                        ),
                                        _ => vstd::pervasive::unreached(),
                                    }
                                },
                                None => {
                                    let rebuilt = Expr::Arrow(
                                        ArrowExpr { span: asp, params, body: ArrowBody::Block(stmts) },
                                    );
                                    let nodes = vec![NamedNode::Expr(Box::new(rebuilt))];
                                    proof {
                                        assert(call.args@.take(1) =~= call.args@);
                                        assert(call.args@.take(0) =~= Seq::<Arg>::empty());
                                        assert(nodes_view(nodes@) =~= seq![
                                            NodeView::Expr(rebuilt),
                                        ]);
                                        assert(outer@ + Seq::<u32>::empty() =~= outer@);
                                    }
                                    Ok(
                                        NameSubstitution::Array {
                                            local_contexts: outer,
                                            nodes,
                                        },
                                    )
                                },
                            },
                        }
                    },
                    Expr::Function(f) => {
                        let FnExpr { span: fsp, params, body } = f;
                        let ctx2 = get_local_contexts(&params);
                        match body {
                            Some(stmts) => match find_returned(&stmts) {
                                Some(i) => {
                                    let mut stmts = stmts;
                                    match stmts.remove(i) {
                                        Stmt::Return(_, Some(e)) => expand_array_target(
                                            NamedNode::Expr(e),
                                            ctx2,
                                            outer,
                                        ),
                                        _ => vstd::pervasive::unreached(),
                                    }
                                },
                                None => {
                                    let rebuilt = Expr::Function(
                                        FnExpr { span: fsp, params, body: Some(stmts) },
                                    );
                                    let nodes = vec![NamedNode::Expr(Box::new(rebuilt))];
                                    proof {
                                        assert(call.args@.take(1) =~= call.args@);
                                        assert(call.args@.take(0) =~= Seq::<Arg>::empty());
                                        assert(nodes_view(nodes@) =~= seq![
                                            NodeView::Expr(rebuilt),
                                        ]);
                                        assert(outer@ + Seq::<u32>::empty() =~= outer@);
                                    }
                                    Ok(
                                        NameSubstitution::Array {
                                            local_contexts: outer,
                                            nodes,
                                        },
                                    )
                                },
                            },
                            None => {
                                let rebuilt = Expr::Function(
                                    FnExpr { span: fsp, params, body: None },
                                );
                                let nodes = vec![NamedNode::Expr(Box::new(rebuilt))];
                                proof {
                                    assert(call.args@.take(1) =~= call.args@);
                                    assert(call.args@.take(0) =~= Seq::<Arg>::empty());
                                    assert(nodes_view(nodes@) =~= seq![NodeView::Expr(rebuilt)]);
                                    assert(outer@ + Seq::<u32>::empty() =~= outer@);
                                }
                                Ok(NameSubstitution::Array { local_contexts: outer, nodes })
                            },
                        }
                    },
                    other => {
                        let empty: Vec<u32> = Vec::new();
                        proof {
                            assert(outer@ + Seq::<u32>::empty() =~= outer@);
                        }
                        expand_array_target(NamedNode::Expr(Box::new(other)), empty, outer)
                    },
                },
            }
        } else if nt == 1 && na == 0 {
            let mut type_args = type_args;
            let t = type_args.remove(0);
            proof {
                assert(call.type_args@[0] == t);
            }
            let empty: Vec<u32> = Vec::new();
            proof {
                assert(outer@ + Seq::<u32>::empty() =~= outer@);
            }
            expand_array_target(NamedNode::Type(Box::new(t)), empty, outer)
        } else {
            if na > 0 {
                match unwrap_all_args(args) {
                    Ok(nodes) => {
                        proof {
                            assert(outer@ + Seq::<u32>::empty() =~= outer@);
                        }
                        Ok(NameSubstitution::Array { local_contexts: outer, nodes })
                    },
                    Err(e) => Err(e),
                }
            } else {
                let nodes = types_to_nodes(type_args);
                proof {
                    assert(outer@ + Seq::<u32>::empty() =~= outer@);
                }
                Ok(NameSubstitution::Array { local_contexts: outer, nodes })
            }
        }
    }

    /// Resolves a common (call-shaped) request to its substitution.
    fn common_substitution(
        &self,
        method: Option<NameofMethod>,
        call: CallExpr,
        outer: Vec<u32>,
    ) -> (r: Result<NameSubstitution, NameofError>)
        ensures
            sub_res_view(r) == spec_common_substitution(method, call, outer@),
    {
        match method {
            None => {
                match get_name_context(NameSource::Call(call)) {
                    Ok(ctx) => Ok(NameSubstitution::Tail(ctx.node)),
                    Err(e) => Err(e),
                }
            },
            Some(NameofMethod::Interpolate) => Err(
                NameofError::UnusedInterpolation(call.span),
            ),
            Some(NameofMethod::Collect(output)) => {
                let CallExpr { span, callee: _, args, type_args } = call;
                let (start_index, args) = parse_collect_args(args);
                match get_name_context(NameSource::Args(span, args, type_args)) {
                    Ok(NameContext { node, syntax_contexts }) => {
                        let mut ctxts = outer;
                        let mut sc = syntax_contexts;
                        ctxts.append(&mut sc);
                        Ok(
                            NameSubstitution::Collect {
                                start_index,
                                local_contexts: ctxts,
                                output,
                                node,
                            },
                        )
                    },
                    Err(e) => Err(e),
                }
            },
            Some(NameofMethod::Array) => self.array_substitution(call, outer),
        }
    }

    /// Resolves a classified request to the substitution it denotes.
    pub fn get_name_substitution(
        &self,
        expr: NameofExpression,
        node: Expr,
        local_contexts: Vec<u32>,
    ) -> (r: Result<NameSubstitution, NameofError>)
        ensures
            sub_res_view(r) == spec_substitution(expr, node, local_contexts@),
    {
        match expr {
            NameofExpression::Typed => Ok(
                NameSubstitution::Tail(NamedNode::Expr(Box::new(node))),
            ),
            NameofExpression::Common(CommonExpr { method }) => match node {
                Expr::Call(call) => self.common_substitution(method, call, local_contexts),
                other => Ok(NameSubstitution::Tail(NamedNode::Expr(Box::new(other)))),
            },
        }
    }
}

} // verus!
