//! Assembly of the replacement node for a classified request.
//!
//! A tail substitution yields a single string literal; a collecting
//! substitution yields an array of string literals or a dotted
//! (possibly templated) literal; an `array` substitution yields an
//! array whose elements are resolved independently — an element that
//! is itself a recognized request is replaced recursively, with the
//! outer local contexts merged in.  Every fabricated node carries the
//! synthetic span.  Replacement is all-or-nothing: the first
//! diagnostic aborts the whole request.

use vstd::prelude::*;

use crate::ast::Arg;
use crate::ast::ArrayLit;
use crate::ast::ArrowBody;
use crate::ast::Expr;
use crate::ast::Lit;
use crate::ast::LitValue;
use crate::ast::Span;
use crate::ast::Stmt;
use crate::ast::args_size;
use crate::ast::arrow_body_size;
use crate::ast::expr_size;
use crate::ast::opt_args_size;
use crate::ast::stmts_size;
use crate::diagnostics::ErrView;
use crate::diagnostics::NameofError;
use crate::diagnostics::err_view;
use crate::engine::NameofEngine;
use crate::engine::spec_classify;
use crate::segment::NamedExpr;
use crate::segment::NamedSegment;
use crate::segment::NamedType;
use crate::segment::CursorView;
use crate::segment::spec_seg_name;
use crate::segment::spec_step;
use crate::serialization::CollectOutput;
use crate::serialization::NameSubstitution;
use crate::serialization::NameofExpression;
use crate::substitution::SubView;
use crate::substitution::nodes_view;
use crate::substitution::spec_substitution;
use crate::substitution::spec_unwrap_args;
use crate::substitution::spec_unwrap_elems;
use crate::substitution::types_as_nodes;
use crate::target::NamedNode;
use crate::target::NodeView;
use crate::target::node_view;
use crate::target::spec_context_of_args;
use crate::target::spec_returned;
use crate::target::spec_unwrap_arg;
use crate::walker::FullView;
use crate::walker::SegmentWalker;
use crate::walker::names_view;
use crate::walker::spec_full;
use crate::walker::spec_split;

verus! {

/// The mathematical image of a replacement node: a string literal, an
/// array of replacements, or a templated literal.
pub enum ReplView {
    Str(Seq<char>),
    Arr(Seq<ReplView>),
    Tpl { quasis: Seq<Seq<char>>, exprs: Seq<Expr> },
}

/// The termination weight of one target node: types never nest
/// further, expressions weigh their size.
pub open spec fn node_weight(n: NodeView) -> nat {
    match n {
        NodeView::Expr(e) => expr_size(e),
        NodeView::Type(_) => 0,
    }
}

/// The combined weight of a target list.
pub open spec fn nodes_weight(s: Seq<NodeView>) -> nat
    decreases s.len(),
{
    if s.len() == 0 {
        0
    } else {
        nodes_weight(s.drop_last()) + node_weight(s.last())
    }
}

/// The cursor a walk over the given target starts at.
pub open spec fn node_cursor(n: NodeView) -> CursorView {
    match n {
        NodeView::Expr(e) => CursorView::Expr(e),
        NodeView::Type(t) => CursorView::Type(t),
    }
}

/// The tail name of a target: the name of its own segment, no walk
/// beyond it.  The local contexts play no role in a single segment's
/// format.
pub open spec fn spec_tail_name(n: NodeView, en: NameofEngine) -> Result<Seq<char>, ErrView> {
    spec_seg_name(spec_step(node_cursor(n), Seq::empty()).0, en)
}

/// The tail replacement of a target.
pub open spec fn spec_tail_repl(n: NodeView, en: NameofEngine) -> Result<ReplView, ErrView> {
    match spec_tail_name(n, en) {
        Ok(nm) => Ok(ReplView::Str(nm)),
        Err(e) => Err(e),
    }
}

/// The size of an argument sequence grows by its last argument.
proof fn lemma_args_size_snoc(s: Seq<Arg>)
    requires
        s.len() > 0,
    ensures
        args_size(s) == args_size(s.drop_last()) + 1 + expr_size(*s.last().expr),
    decreases s.len(),
{
    if s.len() == 1 {
        assert(s.drop_last() =~= Seq::<Arg>::empty());
        assert(s.subrange(1, s.len() as int) =~= Seq::<Arg>::empty());
    } else {
        let tail = s.subrange(1, s.len() as int);
        lemma_args_size_snoc(tail);
        assert(tail.drop_last() =~= s.drop_last().subrange(1, s.drop_last().len() as int));
        assert(tail.last() == s.last());
        assert(s.drop_last()[0] == s[0]);
    }
}

/// The size of an element sequence grows by its last element.
proof fn lemma_opt_args_size_snoc(s: Seq<Option<Arg>>)
    requires
        s.len() > 0,
    ensures
        opt_args_size(s) == opt_args_size(s.drop_last()) + (match s.last() {
            Some(a) => 1 + expr_size(*a.expr),
            None => 1nat,
        }),
    decreases s.len(),
{
    if s.len() == 1 {
        assert(s.drop_last() =~= Seq::<Option<Arg>>::empty());
        assert(s.subrange(1, s.len() as int) =~= Seq::<Option<Arg>>::empty());
    } else {
        let tail = s.subrange(1, s.len() as int);
        lemma_opt_args_size_snoc(tail);
        assert(tail.drop_last() =~= s.drop_last().subrange(1, s.drop_last().len() as int));
        assert(tail.last() == s.last());
        assert(s.drop_last()[0] == s[0]);
    }
}

/// The size of a statement sequence grows by its last statement.
proof fn lemma_stmts_size_snoc(s: Seq<Stmt>)
    requires
        s.len() > 0,
    ensures
        stmts_size(s) == stmts_size(s.drop_last()) + (match s.last() {
            Stmt::Return(_, Some(e)) => 1 + expr_size(*e),
            _ => 1nat,
        }),
    decreases s.len(),
{
    if s.len() == 1 {
        assert(s.drop_last() =~= Seq::<Stmt>::empty());
        assert(s.subrange(1, s.len() as int) =~= Seq::<Stmt>::empty());
    } else {
        let tail = s.subrange(1, s.len() as int);
        lemma_stmts_size_snoc(tail);
        assert(tail.drop_last() =~= s.drop_last().subrange(1, s.drop_last().len() as int));
        assert(tail.last() == s.last());
        assert(s.drop_last()[0] == s[0]);
    }
}

/// A returned expression is smaller than the statement list around it.
proof fn lemma_returned_size(stmts: Seq<Stmt>)
    ensures
        (match spec_returned(stmts) {
            Some(r) => expr_size(r) < stmts_size(stmts),
            None => true,
        }),
    decreases stmts.len(),
{
    if stmts.len() > 0 {
        lemma_stmts_size_snoc(stmts);
        match stmts.last() {
            Stmt::Return(_, Some(_)) => {},
            _ => {
                lemma_returned_size(stmts.drop_last());
            },
        }
    }
}

/// Unwrapped arguments weigh no more than the argument list.
proof fn lemma_unwrap_args_weight(args: Seq<Arg>)
    ensures
        (match spec_unwrap_args(args) {
            Ok(ns) => nodes_weight(ns) <= args_size(args),
            Err(_) => true,
        }),
    decreases args.len(),
{
    if args.len() > 0 {
        lemma_unwrap_args_weight(args.drop_last());
        lemma_args_size_snoc(args);
        match spec_unwrap_args(args.drop_last()) {
            Ok(ns) => match spec_unwrap_arg(args.last()) {
                Ok(e) => {
                    assert(ns.push(NodeView::Expr(e)).drop_last() =~= ns);
                },
                Err(_) => {},
            },
            Err(_) => {},
        }
    }
}

/// Unwrapped array elements weigh no more than the element list.
proof fn lemma_unwrap_elems_weight(elems: Seq<Option<Arg>>)
    ensures
        (match spec_unwrap_elems(elems) {
            Ok(ns) => nodes_weight(ns) <= opt_args_size(elems),
            Err(_) => true,
        }),
    decreases elems.len(),
{
    if elems.len() > 0 {
        lemma_unwrap_elems_weight(elems.drop_last());
        lemma_opt_args_size_snoc(elems);
        match spec_unwrap_elems(elems.drop_last()) {
            Ok(ns) => match elems.last() {
                Some(a) => match spec_unwrap_arg(a) {
                    Ok(e) => {
                        assert(ns.push(NodeView::Expr(e)).drop_last() =~= ns);
                    },
                    Err(_) => {},
                },
                None => {},
            },
            Err(_) => {},
        }
    }
}

/// A list of type targets weighs nothing.
proof fn lemma_types_nodes_weight(ts: Seq<crate::ast::TsType>)
    ensures
        nodes_weight(types_as_nodes(ts)) == 0,
    decreases ts.len(),
{
    if ts.len() > 0 {
        lemma_types_nodes_weight(ts.drop_last());
        assert(types_as_nodes(ts).drop_last() =~= types_as_nodes(ts.drop_last()));
        assert(types_as_nodes(ts).last() == NodeView::Type(ts.last()));
    } else {
        assert(types_as_nodes(ts) =~= Seq::<NodeView>::empty());
    }
}

/// A single target weighs exactly its node.
proof fn lemma_single_node_weight(n: NodeView)
    ensures
        nodes_weight(seq![n]) == node_weight(n),
{
    assert(seq![n].drop_last() =~= Seq::<NodeView>::empty());
    assert(nodes_weight(Seq::<NodeView>::empty()) == 0);
    assert(seq![n].last() == n);
}

/// Every element weighs no more than its list.
proof fn lemma_nodes_weight_elem(s: Seq<NodeView>, i: int)
    requires
        0 <= i < s.len(),
    ensures
        node_weight(s[i]) <= nodes_weight(s),
    decreases s.len(),
{
    if i == s.len() - 1 {
    } else {
        lemma_nodes_weight_elem(s.drop_last(), i);
    }
}

/// A resolved single target weighs no more than the argument list it
/// came from.
proof fn lemma_context_weight(span: Span, args: Seq<Arg>, type_args: Seq<crate::ast::TsType>)
    ensures
        (match spec_context_of_args(span, args, type_args) {
            Ok(ctx) => node_weight(ctx.node) <= args_size(args),
            Err(_) => true,
        }),
{
    if args.len() == 1 && type_args.len() <= 1 {
        lemma_args_size_snoc(args);
        assert(args.drop_last() =~= Seq::<Arg>::empty());
        assert(args_size(Seq::<Arg>::empty()) == 0);
        assert(args.last() == args[0]);
        match spec_unwrap_arg(args[0]) {
            Ok(e) => {
                assert(e == *args[0].expr);
                match e {
                    Expr::Arrow(a) => {
                        assert(expr_size(e) == 1 + arrow_body_size(a.body));
                        match a.body {
                            ArrowBody::Expr(b) => {
                                assert(arrow_body_size(a.body) == 1 + expr_size(*b));
                            },
                            ArrowBody::Block(stmts) => {
                                assert(arrow_body_size(a.body) == 1 + stmts_size(stmts@));
                                lemma_returned_size(stmts@);
                            },
                        }
                    },
                    Expr::Function(f) => match f.body {
                        Some(stmts) => {
                            assert(expr_size(e) == 1 + stmts_size(stmts@));
                            lemma_returned_size(stmts@);
                        },
                        None => {},
                    },
                    _ => {},
                }
            },
            Err(_) => {},
        }
    }
}

/// The targets of an `array` substitution weigh strictly less than
/// the request node itself.
pub proof fn lemma_substitution_weight(class: NameofExpression, node: Expr, outer: Seq<u32>)
    ensures
        (match spec_substitution(class, node, outer) {
            Ok(SubView::Arr { nodes, .. }) => nodes_weight(nodes) < expr_size(node),
            _ => true,
        }),
{
    match class {
        NameofExpression::Typed => {},
        NameofExpression::Common(c) => match node {
            Expr::Call(call) => match c.method {
                Some(crate::serialization::NameofMethod::Array) => {
                    lemma_context_weight(call.span, call.args@, call.type_args@);
                    match spec_context_of_args(call.span, call.args@, call.type_args@) {
                        Ok(ctx) => {
                            match ctx.node {
                                NodeView::Expr(Expr::Array(arr)) => {
                                    lemma_unwrap_elems_weight(arr.elems@);
                                },
                                NodeView::Expr(other) => {
                                    lemma_single_node_weight(NodeView::Expr(other));
                                },
                                NodeView::Type(crate::ast::TsType::Tuple(_, elems)) => {
                                    lemma_types_nodes_weight(elems@);
                                },
                                NodeView::Type(other) => {
                                    lemma_single_node_weight(NodeView::Type(other));
                                },
                            }
                        },
                        Err(_) => {
                            if call.args@.len() > 0 {
                                lemma_unwrap_args_weight(call.args@);
                            } else {
                                lemma_types_nodes_weight(call.type_args@);
                            }
                        },
                    }
                },
                _ => {},
            },
            _ => {},
        },
    }
}

/// The replacement a classified request resolves to.
pub open spec fn spec_replace(
    en: NameofEngine,
    class: NameofExpression,
    node: Expr,
    outer: Seq<u32>,
) -> Result<ReplView, ErrView>
    decreases expr_size(node), 0nat, 0nat,
    via spec_replace_decreases
{
    match spec_substitution(class, node, outer) {
        Err(e) => Err(e),
        Ok(SubView::Tail(nv)) => spec_tail_repl(nv, en),
        Ok(SubView::Collect { start, ctxts, output, node: nv }) => match output {
            CollectOutput::Array => match spec_split(Some(node_cursor(nv)), ctxts, start, en) {
                Ok(names) => Ok(ReplView::Arr(names.map_values(|n: Seq<char>| ReplView::Str(n)))),
                Err(e) => Err(e),
            },
            CollectOutput::Full => match spec_full(Some(node_cursor(nv)), ctxts, start, en) {
                Ok(FullView::Str(s)) => Ok(ReplView::Str(s)),
                Ok(FullView::Tpl { quasis, exprs }) => Ok(ReplView::Tpl { quasis, exprs }),
                Err(e) => Err(e),
            },
        },
        Ok(SubView::Arr { ctxts, nodes }) => match spec_array_elems(en, nodes, ctxts) {
            Ok(rs) => Ok(ReplView::Arr(rs)),
            Err(e) => Err(e),
        },
    }
}

/// The replacements of an `array` request's targets, in declaration
/// order.  A target that is itself a recognized request is replaced
/// recursively under the merged local contexts; a classification
/// error inside a target does not abort the list — the target then
/// resolves to its tail name like any other.
pub open spec fn spec_array_elems(
    en: NameofEngine,
    nodes: Seq<NodeView>,
    ctxts: Seq<u32>,
) -> Result<Seq<ReplView>, ErrView>
    decreases nodes_weight(nodes), 1nat, nodes.len(),
    via spec_array_elems_decreases
{
    if nodes.len() == 0 {
        Ok(Seq::empty())
    } else {
        match spec_array_elems(en, nodes.drop_last(), ctxts) {
            Err(e) => Err(e),
            Ok(rs) => match nodes.last() {
                NodeView::Expr(e) => match spec_classify(en, e) {
                    Ok(Some(class2)) => match spec_replace(en, class2, e, ctxts) {
                        Ok(r) => Ok(rs.push(r)),
                        Err(er) => Err(er),
                    },
                    _ => match spec_tail_name(NodeView::Expr(e), en) {
                        Ok(n) => Ok(rs.push(ReplView::Str(n))),
                        Err(er) => Err(er),
                    },
                },
                NodeView::Type(t) => match spec_tail_name(NodeView::Type(t), en) {
                    Ok(n) => Ok(rs.push(ReplView::Str(n))),
                    Err(er) => Err(er),
                },
            },
        }
    }
}

#[via_fn]
proof fn spec_replace_decreases(
    en: NameofEngine,
    class: NameofExpression,
    node: Expr,
    outer: Seq<u32>,
) {
    lemma_substitution_weight(class, node, outer);
}

#[via_fn]
proof fn spec_array_elems_decreases(en: NameofEngine, nodes: Seq<NodeView>, ctxts: Seq<u32>) {
    if nodes.len() > 0 {
        assert(nodes_weight(nodes) == nodes_weight(nodes.drop_last()) + node_weight(
            nodes.last(),
        ));
    }
}

/// The transformation of a whole candidate node: nothing for a node
/// that is no request, the replacement or the diagnostic otherwise.
pub open spec fn spec_transform(en: NameofEngine, node: Expr) -> Result<
    Option<ReplView>,
    ErrView,
> {
    match spec_classify(en, node) {
        Err(e) => Err(e),
        Ok(None) => Ok(None),
        Ok(Some(class)) => match spec_replace(en, class, node, Seq::empty()) {
            Ok(rv) => Ok(Some(rv)),
            Err(e) => Err(e),
        },
    }
}

/// The image of a replacement output node, where it has the canonical
/// shape: fabricated nodes carry the synthetic span, and an array's
/// elements are themselves canonical, spread-free outputs.
pub open spec fn repl_out_view(e: Expr) -> Option<ReplView>
    decreases e,
{
    match e {
        Expr::Lit(l) => if l.span == (Span { lo: 0, hi: 0 }) && l.value is Str {
            Some(ReplView::Str(l.value->Str_0@))
        } else {
            None
        },
        Expr::Tpl(t) => if t.span == (Span { lo: 0, hi: 0 }) && t.quasis@.len() == t.exprs@.len()
            + 1 {
            Some(ReplView::Tpl { quasis: names_view(t.quasis@), exprs: t.exprs@ })
        } else {
            None
        },
        Expr::Array(a) => if a.span == (Span { lo: 0, hi: 0 }) {
            match elems_out_view(a.elems@) {
                Some(rs) => Some(ReplView::Arr(rs)),
                None => None,
            }
        } else {
            None
        },
        _ => None,
    }
}

/// The images of an output array's elements.
pub open spec fn elems_out_view(elems: Seq<Option<Arg>>) -> Option<Seq<ReplView>>
    decreases elems,
{
    if elems.len() == 0 {
        Some(Seq::empty())
    } else {
        match elems_out_view(elems.drop_last()) {
            None => None,
            Some(rs) => match elems.last() {
                Some(arg) => if arg.spread is None {
                    match repl_out_view(*arg.expr) {
                        Some(r) => Some(rs.push(r)),
                        None => None,
                    }
                } else {
                    None
                },
                None => None,
            },
        }
    }
}

/// Maps a replacement-or-error result onto its image; `None` marks a
/// non-canonical output, which no verified path produces.
pub open spec fn out_res_view(r: Result<Expr, NameofError>) -> Option<Result<ReplView, ErrView>> {
    match r {
        Ok(e) => match repl_out_view(e) {
            Some(rv) => Some(Ok(rv)),
            None => None,
        },
        Err(e) => Some(Err(err_view(e))),
    }
}

/// An error settled by a prefix of the targets settles the whole
/// element resolution.
proof fn lemma_array_elems_err_persists(
    en: NameofEngine,
    nodes: Seq<NodeView>,
    ctxts: Seq<u32>,
    i: int,
)
    requires
        0 <= i <= nodes.len(),
        spec_array_elems(en, nodes.take(i), ctxts) is Err,
    ensures
        spec_array_elems(en, nodes, ctxts) == spec_array_elems(en, nodes.take(i), ctxts),
    decreases nodes.len() - i,
{
    if i < nodes.len() {
        assert(nodes.take(i + 1).drop_last() =~= nodes.take(i));
        lemma_array_elems_err_persists(en, nodes, ctxts, i + 1);
    } else {
        assert(nodes.take(i) =~= nodes);
    }
}

/// Builds the array literal of a `split` collection's names.
#[verifier::rlimit(50)]
fn split_array_expr(names: Vec<String>) -> (r: Expr)
    ensures
        repl_out_view(r) == Some(
            ReplView::Arr(names_view(names@).map_values(|n: Seq<char>| ReplView::Str(n))),
        ),
{
    let ghost all = names@;
    let mut elems: Vec<Option<Arg>> = Vec::new();
    let mut rest = names;
    proof {
        assert(all.skip(0) =~= all);
        assert(elems@.len() == 0);
        assert(elems_out_view(elems@) == Some(Seq::<ReplView>::empty()));
        assert(names_view(all.take(0)).map_values(|n: Seq<char>| ReplView::Str(n)) =~= Seq::<
            ReplView,
        >::empty()) by {
            assert(all.take(0) =~= Seq::<String>::empty());
        }
    }
    loop
        invariant
            all == names@,
            rest@.len() <= all.len(),
            all.skip(all.len() - rest@.len()) == rest@,
            elems_out_view(elems@) == Some(
                names_view(all.take(all.len() - rest@.len())).map_values(
                    |n: Seq<char>| ReplView::Str(n),
                ),
            ),
        decreases rest@.len(),
    {
        let ghost done = all.len() - rest@.len();
        if rest.len() == 0 {
            proof {
                assert(all.take(all.len() as int) =~= all);
            }
            return Expr::Array(ArrayLit { span: Span::synthetic(), elems });
        }
        let ghost rest_pre = rest@;
        let ghost pre = elems_out_view(elems@);
        let n = rest.remove(0);
        proof {
            assert(all[done] == rest_pre[0]);
            assert(rest@ =~= rest_pre.skip(1));
            assert(all.skip(done + 1) =~= rest@);
        }
        let ghost elems_pre = elems@;
        let lit = Expr::Lit(Lit { span: Span::synthetic(), value: LitValue::Str(n) });
        elems.push(Some(Arg { spread: None, expr: Box::new(lit) }));
        proof {
            assert(elems@.drop_last() =~= elems_pre);
            assert(repl_out_view(*(elems@.last()->0).expr) == Some(ReplView::Str(all[done]@)));
            assert(elems_out_view(elems@) == Some(pre->0.push(ReplView::Str(all[done]@))));
            assert(names_view(all.take(done + 1)).map_values(|n2: Seq<char>| ReplView::Str(n2))
                =~= names_view(all.take(done)).map_values(|n2: Seq<char>| ReplView::Str(n2)).push(
                ReplView::Str(all[done]@),
            ));
        }
    }
}

impl NameofEngine {
    /// The tail replacement of one target: a string literal holding
    /// the target's own segment name.
    fn tail_replacement(&self, node: NamedNode) -> (r: Result<Expr, NameofError>)
        ensures
            out_res_view(r) == Some(spec_tail_repl(node_view(node), *self)),
    {
        let current = match node {
            NamedNode::Expr(e) => NamedSegment::Expr(NamedExpr::Expr(e)),
            NamedNode::Type(t) => NamedSegment::Type(NamedType::Type(t)),
        };
        let empty: Vec<u32> = Vec::new();
        let (seg, _next) = current.step(&empty);
        match seg.get_name(self) {
            Ok(name) => Ok(Expr::Lit(Lit { span: Span::synthetic(), value: LitValue::Str(name) })),
            Err(e) => Err(e),
        }
    }

    /// Resolves each of an `array` request's targets to its element.
    #[verifier::rlimit(80)]
    fn replace_array_nodes(&self, nodes: Vec<NamedNode>, ctxts: Vec<u32>) -> (r: Result<
        Vec<Option<Arg>>,
        NameofError,
    >)
        ensures
            (match r {
                Ok(v) => spec_array_elems(*self, nodes_view(nodes@), ctxts@) == Ok::<_, ErrView>(
                    (match elems_out_view(v@) {
                        Some(rs) => rs,
                        None => Seq::empty(),
                    }),
                ) && elems_out_view(v@) is Some,
                Err(e) => spec_array_elems(*self, nodes_view(nodes@), ctxts@) == Err::<
                    Seq<ReplView>,
                    _,
                >(err_view(e)),
            }),
        decreases nodes_weight(nodes_view(nodes@)), 1nat, nodes@.len(),
    {
        let ghost all = nodes_view(nodes@);
        let mut elems: Vec<Option<Arg>> = Vec::new();
        let mut rest = nodes;
        proof {
            assert(all.skip(0) =~= all);
            assert(all.take(0) =~= Seq::<NodeView>::empty());
            assert(elems_out_view(elems@) == Some(Seq::<ReplView>::empty()));
        }
        loop
            invariant
                all == nodes_view(nodes@),
                ctxts@ == ctxts@,
                rest@.len() <= all.len(),
                all.skip(all.len() - rest@.len()) == nodes_view(rest@),
                spec_array_elems(*self, all.take(all.len() - rest@.len()), ctxts@) == Ok::<
                    _,
                    ErrView,
                >(
                    (match elems_out_view(elems@) {
                        Some(rs) => rs,
                        None => Seq::empty(),
                    }),
                ),
                elems_out_view(elems@) is Some,
            decreases rest@.len(),
        {
            let ghost done = all.len() - rest@.len();
            if rest.len() == 0 {
                proof {
                    assert(all.take(all.len() as int) =~= all);
                }
                return Ok(elems);
            }
            let ghost rest_pre = rest@;
            let node = rest.remove(0);
            proof {
                assert(all.take(done + 1).drop_last() =~= all.take(done));
                assert(all.take(done + 1).last() == all[done]);
                assert(nodes_view(rest_pre)[0] == node_view(rest_pre[0]));
                assert(all[done] == node_view(node));
                assert(rest@ =~= rest_pre.skip(1));
                assert forall|k: int| 0 <= k < rest@.len() implies nodes_view(rest@)[k]
                    == all.skip(done + 1)[k] by {
                    assert(nodes_view(rest_pre)[k + 1] == node_view(rest_pre[k + 1]));
                    assert(all.skip(done)[k + 1] == all[done + k + 1]);
                }
                assert(nodes_view(rest@) =~= all.skip(done + 1));
            }
            let ghost pre = elems_out_view(elems@);
            let element: Result<Expr, NameofError> = match node {
                NamedNode::Expr(e) => {
                    match self.get_nameof_expression(&e) {
                        Ok(Some(class2)) => {
                            let c2 = ctxts.clone();
                            proof {
                                assert(c2@ =~= ctxts@);
                                lemma_nodes_weight_elem(all, done);
                            }
                            self.get_replacement(class2, *e, c2)
                        },
                        _ => self.tail_replacement(NamedNode::Expr(e)),
                    }
                },
                NamedNode::Type(t) => self.tail_replacement(NamedNode::Type(t)),
            };
            match element {
                Ok(out) => {
                    let ghost elems_pre = elems@;
                    elems.push(Some(Arg { spread: None, expr: Box::new(out) }));
                    proof {
                        assert(elems@.drop_last() =~= elems_pre);
                        assert(elems@.last() == Some(Arg { spread: None, expr: Box::new(out) }));
                    }
                },
                Err(e) => {
                    proof {
                        lemma_array_elems_err_persists(*self, all, ctxts@, done + 1);
                    }
                    return Err(e);
                },
            }
        }
    }

    /// Gets the replacement for the specified classified request.
    #[verifier::rlimit(80)]
    pub fn get_replacement(
        &self,
        expr: NameofExpression,
        node: Expr,
        local_contexts: Vec<u32>,
    ) -> (r: Result<Expr, NameofError>)
        ensures
            out_res_view(r) == Some(spec_replace(*self, expr, node, local_contexts@)),
        decreases expr_size(node), 0nat, 0nat,
    {
        let ghost g_class = expr;
        let ghost g_node = node;
        let ghost g_outer = local_contexts@;
        match self.get_name_substitution(expr, node, local_contexts) {
            Err(e) => Err(e),
            Ok(sub) => match sub {
                NameSubstitution::Tail(n) => self.tail_replacement(n),
                NameSubstitution::Collect { start_index, local_contexts, output, node: target } => {
                    let current = match target {
                        NamedNode::Expr(e) => NamedSegment::Expr(NamedExpr::Expr(e)),
                        NamedNode::Type(t) => NamedSegment::Type(NamedType::Type(t)),
                    };
                    let walker = SegmentWalker {
                        start_index,
                        local_contexts,
                        current: Some(current),
                    };
                    match output {
                        CollectOutput::Array => match walker.split(self) {
                            Ok(names) => Ok(split_array_expr(names)),
                            Err(e) => Err(e),
                        },
                        CollectOutput::Full => walker.full(self),
                    }
                },
                NameSubstitution::Array { local_contexts, nodes } => {
                    proof {
                        lemma_substitution_weight(g_class, g_node, g_outer);
                    }
                    match self.replace_array_nodes(nodes, local_contexts) {
                        Ok(elems) => Ok(
                            Expr::Array(ArrayLit { span: Span::synthetic(), elems }),
                        ),
                        Err(e) => Err(e),
                    }
                },
            },
        }
    }

    /// Transforms the specified node if it is a `nameof` request.
    ///
    /// Returns `Ok(None)` for a node that is no request (the host
    /// keeps descending into its children), the replacement node for
    /// a resolved request, and the diagnostic for a failed one.
    pub fn transform_nameof(&self, node: Expr) -> (r: Result<Option<Expr>, NameofError>)
        ensures
            (match r {
                Ok(None) => spec_transform(*self, node) == Ok::<Option<ReplView>, ErrView>(None),
                Ok(Some(e)) => (match repl_out_view(e) {
                    Some(rv) => spec_transform(*self, node) == Ok::<_, ErrView>(Some(rv)),
                    None => false,
                }),
                Err(e) => spec_transform(*self, node) == Err::<Option<ReplView>, _>(err_view(e)),
            }),
    {
        match self.get_nameof_expression(&node) {
            Err(e) => Err(e),
            Ok(None) => Ok(None),
            Ok(Some(class)) => {
                let empty: Vec<u32> = Vec::new();
                match self.get_replacement(class, node, empty) {
                    Ok(e) => Ok(Some(e)),
                    Err(e) => Err(e),
                }
            },
        }
    }
}

} // verus!
