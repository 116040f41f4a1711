//! The engine's laws: properties that hold of whole families of
//! inputs, proved once and for all over the same specifications the
//! executable functions are verified against.

use vstd::prelude::*;

use crate::ast::CallExpr;
use crate::ast::Callee;
use crate::ast::Expr;
use crate::ast::Ident;
use crate::ast::IdentName;
use crate::ast::MemberExpr;
use crate::ast::MemberProp;
use crate::ast::Span;
use crate::ast::TsType;
use crate::diagnostics::ErrView;
use crate::engine::NameofEngine;
use crate::engine::spec_classify;
use crate::engine::spec_is_global;
use crate::engine::spec_method_of;
use crate::ast::Arg;
use crate::replace::ReplView;
use crate::replace::repl_out_view;
use crate::replace::spec_transform;
use crate::serialization::CollectOutput;
use crate::serialization::NameofMethod;
use crate::substitution::SubView;
use crate::segment::CursorView;
use crate::segment::SegView;
use crate::segment::spec_is_local;
use crate::segment::spec_seg_name;
use crate::segment::spec_step;
use crate::serialization::NameofExpression;
use crate::target::spec_context_of_args;
use crate::ast::ComputedPropName;
use crate::replace::spec_tail_name;
use crate::segment::spec_seg_format;
use crate::serialization::CommonExpr;
use crate::serialization::FormatView;
use crate::target::NodeView;
use crate::walker::FullView;
use crate::walker::spec_append_all;
use crate::walker::spec_chain;
use crate::walker::spec_full;
use crate::walker::spec_names_of;
use crate::walker::spec_slice;
use crate::walker::spec_split;

verus! {

/// Whether `e` is a plain dotted chain `a.b.c`: identifier root,
/// identifier properties, nothing else; `names` are its segment
/// names in root-to-leaf order.
pub open spec fn plain_chain(e: Expr, names: Seq<Seq<char>>) -> bool
    decreases e,
{
    match e {
        Expr::Ident(id) => names.len() == 1 && names[0] == id.name@,
        Expr::Member(m) => names.len() >= 2 && (match m.prop {
            MemberProp::Ident(p) => p.name@ == names.last(),
            _ => false,
        }) && plain_chain(*m.obj, names.drop_last()),
        _ => false,
    }
}

/// The chain walked from a plain dotted chain with no local bindings
/// has one segment per name, leaf first, each resolving to its name
/// and none of them local.
proof fn lemma_plain_chain_segments(en: NameofEngine, e: Expr, names: Seq<Seq<char>>)
    requires
        plain_chain(e, names),
    ensures
        ({
            let segs = spec_chain(CursorView::Expr(e), Seq::empty());
            &&& segs.len() == names.len()
            &&& forall|i: int|
                0 <= i < segs.len() ==> spec_seg_format(#[trigger] segs[i], en) == Ok::<
                    _,
                    ErrView,
                >(FormatView::Ident(names[names.len() - 1 - i]))
            &&& forall|i: int|
                0 <= i < segs.len() ==> spec_seg_name(#[trigger] segs[i], en) == Ok::<_, ErrView>(
                    names[names.len() - 1 - i],
                )
            &&& forall|i: int| 0 <= i < segs.len() ==> !spec_is_local(#[trigger] segs[i], Seq::empty())
        }),
    decreases e,
{
    crate::walker::lemma_step_rank(CursorView::Expr(e), Seq::empty());
    match e {
        Expr::Ident(id) => {
            assert(spec_chain(CursorView::Expr(e), Seq::empty()) =~= seq![
                SegView::Expr(Expr::Ident(id)),
            ]);
        },
        Expr::Member(m) => {
            lemma_plain_chain_segments(en, *m.obj, names.drop_last());
            let inner = spec_chain(CursorView::Expr(*m.obj), Seq::empty());
            let segs = spec_chain(CursorView::Expr(e), Seq::empty());
            assert(spec_step(CursorView::Expr(e), Seq::empty()).1 == Some(
                CursorView::Expr(*m.obj),
            ));
            assert(segs =~= seq![spec_step(CursorView::Expr(e), Seq::empty()).0] + inner);
            assert(segs[0] == (SegView::Member { span: m.span, prop: m.prop }));
            assert(spec_seg_format(segs[0], en) == Ok::<_, ErrView>(
                FormatView::Ident(names.last()),
            ));
            assert(spec_seg_name(segs[0], en) == Ok::<_, ErrView>(names.last()));
            assert forall|i: int| 1 <= i < segs.len() implies spec_seg_format(
                #[trigger] segs[i],
                en,
            ) == Ok::<_, ErrView>(FormatView::Ident(names[names.len() - 1 - i]))
                && spec_seg_name(segs[i], en) == Ok::<_, ErrView>(names[names.len() - 1 - i]) by {
                assert(segs[i] == inner[i - 1]);
                let j = names.len() - 1 - i;
                assert(names.drop_last()[names.drop_last().len() - 1 - (i - 1)] == names[j]);
            }
        },
        _ => {},
    }
}

/// The names collected from a chain whose segments each resolve to a
/// name are exactly those names.
proof fn lemma_names_of_resolved(en: NameofEngine, segs: Seq<SegView>, names: Seq<Seq<char>>)
    requires
        segs.len() == names.len(),
        forall|i: int|
            0 <= i < segs.len() ==> spec_seg_name(#[trigger] segs[i], en) == Ok::<_, ErrView>(
                names[i],
            ),
    ensures
        spec_names_of(segs, en) == Ok::<_, ErrView>(names),
    decreases segs.len(),
{
    if segs.len() == 0 {
        assert(names =~= Seq::<Seq<char>>::empty());
    } else {
        lemma_names_of_resolved(en, segs.drop_last(), names.drop_last());
        assert(names.drop_last().push(names.last()) =~= names);
    }
}

/// For every plain dotted chain with no local bindings, `split`
/// collects exactly the chain's names, root first, and the slicing
/// start index selects the documented sub-range: a non-negative index
/// `k` keeps the earliest `len - k` names, a negative index of
/// magnitude `m` keeps the last `m`.
pub proof fn law_split_plain_chain(
    en: NameofEngine,
    e: Expr,
    names: Seq<Seq<char>>,
    start: Option<int>,
)
    requires
        plain_chain(e, names),
    ensures
        spec_split(Some(CursorView::Expr(e)), Seq::empty(), start, en) == Ok::<_, ErrView>(
            (match start {
                None => names,
                Some(k) => if k >= 0 {
                    if k <= names.len() {
                        names.take(names.len() - k)
                    } else {
                        Seq::empty()
                    }
                } else {
                    if -k <= names.len() {
                        names.skip(names.len() + k)
                    } else {
                        names
                    }
                },
            }),
        ),
{
    lemma_plain_chain_segments(en, e, names);
    let segs = spec_chain(CursorView::Expr(e), Seq::empty());
    let n = names.len() as int;
    let sliced = spec_slice(segs, start);
    let kept: Seq<Seq<char>> = match start {
        None => names,
        Some(k) => if k >= 0 {
            if k <= n {
                names.take(n - k)
            } else {
                Seq::empty()
            }
        } else {
            if -k <= n {
                names.skip(n + k)
            } else {
                names
            }
        },
    };
    assert(sliced.len() == kept.len());
    assert forall|i: int| 0 <= i < sliced.len() implies spec_seg_name(#[trigger] sliced[i], en)
        == Ok::<_, ErrView>(kept.reverse()[i]) by {
        match start {
            None => {
                assert(sliced[i] == segs[i]);
                assert(kept.reverse()[i] == names[n - 1 - i]);
            },
            Some(k) => if k >= 0 {
                if k <= n {
                    assert(sliced[i] == segs[i + k]);
                    assert(kept.reverse()[i] == names.take(n - k)[n - k - 1 - i]);
                    assert(names.take(n - k)[n - k - 1 - i] == names[n - k - 1 - i]);
                    assert(spec_seg_name(segs[i + k], en) == Ok::<_, ErrView>(
                        names[n - 1 - (i + k)],
                    ));
                }
            } else {
                if -k <= n {
                    assert(sliced[i] == segs[i]);
                    assert(kept.reverse()[i] == names.skip(n + k)[(-k) - 1 - i]);
                    assert(names.skip(n + k)[(-k) - 1 - i] == names[n - 1 - i]);
                } else {
                    assert(sliced[i] == segs[i]);
                    assert(kept.reverse()[i] == names[n - 1 - i]);
                }
            },
        }
    }
    if sliced.len() > 0 {
        assert(!spec_is_local(sliced[0], Seq::empty()));
    }
    lemma_names_of_resolved(en, sliced, kept.reverse());
    assert(kept.reverse().reverse() =~= kept);
}

/// Re-classifying the engine's own output yields no request at all:
/// the fabricated literals are never themselves recognized requests.
pub proof fn law_output_not_a_request(en: NameofEngine, e: Expr)
    requires
        repl_out_view(e) is Some,
    ensures
        spec_classify(en, e) == Ok::<Option<NameofExpression>, ErrView>(None),
{
}

/// A call on a method of the recognized global whose name is outside
/// the closed vocabulary classifies to `InvalidMethod`, carrying the
/// offending method token's span and text.
pub proof fn law_invalid_method(en: NameofEngine, call: CallExpr, m: MemberExpr, prop: IdentName)
    requires
        call.callee matches Callee::Expr(callee) && *callee == Expr::Member(m),
        m.prop == MemberProp::Ident(prop),
        *m.obj matches Expr::Ident(id) && spec_is_global(en, id),
        spec_method_of(prop.name@) is None,
    ensures
        spec_classify(en, Expr::Call(call)) == Err::<Option<NameofExpression>, _>(
            ErrView::InvalidMethod { span: prop.span, name: prop.name@ },
        ),
{
}

/// Argument counts that fit no request shape resolve to
/// `ArgumentError` carrying exactly the observed counts.
pub proof fn law_argument_error(
    span: Span,
    args: Seq<crate::ast::Arg>,
    type_args: Seq<crate::ast::TsType>,
)
    requires
        !(args.len() == 1 && type_args.len() <= 1),
        !(type_args.len() == 1 && args.len() == 0),
    ensures
        spec_context_of_args(span, args, type_args) == Err::<crate::target::ContextView, _>(
            ErrView::ArgumentError {
                span,
                type_arg_count: type_args.len() as int,
                arg_count: args.len() as int,
            },
        ),
{
}

/// The dotted rendering of a name list, `a.b.c`.
pub open spec fn dotted(names: Seq<Seq<char>>) -> Seq<char>
    decreases names.len(),
{
    if names.len() == 0 {
        Seq::empty()
    } else if names.len() == 1 {
        names[0]
    } else {
        dotted(names.drop_last()) + "."@ + names.last()
    }
}

/// Appending segments that all format as plain identifiers yields the
/// dotted rendering of their names and opens no hole.
proof fn lemma_append_idents(en: NameofEngine, segs: Seq<SegView>, names: Seq<Seq<char>>)
    requires
        segs.len() == names.len(),
        names.len() >= 1,
        forall|i: int|
            0 <= i < segs.len() ==> spec_seg_format(#[trigger] segs[i], en) == Ok::<_, ErrView>(
                FormatView::Ident(names[i]),
            ),
    ensures
        spec_append_all(segs, en) == Ok::<_, ErrView>(
            (seq![dotted(names)], Seq::<Expr>::empty()),
        ),
    decreases segs.len(),
{
    if segs.len() == 1 {
        assert(segs.drop_last() =~= Seq::<SegView>::empty());
        assert(spec_append_all(segs.drop_last(), en) == Ok::<_, ErrView>(
            (Seq::<Seq<char>>::empty(), Seq::<Expr>::empty()),
        ));
        assert(segs.last() == segs[0]);
        assert(spec_append_all(segs, en) == Ok::<_, ErrView>(
            (seq![names[0]], Seq::<Expr>::empty()),
        ));
        assert(dotted(names) == names[0]);
    } else {
        lemma_append_idents(en, segs.drop_last(), names.drop_last());
        assert(segs.drop_last().len() == names.drop_last().len());
        let base = seq![dotted(names.drop_last())];
        let grown = base.update(0, base[0] + ("."@ + names.last()));
        assert(spec_append_all(segs, en) == Ok::<_, ErrView>((grown, Seq::<Expr>::empty())));
        assert(grown =~~= seq![dotted(names)]) by {
            assert(base[0] + ("."@ + names.last()) =~= dotted(names.drop_last()) + "."@
                + names.last());
        }
    }
}

/// For every plain dotted chain with no local bindings, `full`
/// collects the whole chain into the dotted string of its names.
pub proof fn law_full_plain_chain(en: NameofEngine, e: Expr, names: Seq<Seq<char>>)
    requires
        plain_chain(e, names),
    ensures
        spec_full(Some(CursorView::Expr(e)), Seq::empty(), None, en) == Ok::<_, ErrView>(
            FullView::Str(dotted(names)),
        ),
{
    lemma_plain_chain_segments(en, e, names);
    let segs = spec_chain(CursorView::Expr(e), Seq::empty());
    let rev = segs.reverse();
    assert forall|i: int| 0 <= i < rev.len() implies spec_seg_format(#[trigger] rev[i], en)
        == Ok::<_, ErrView>(FormatView::Ident(names[i])) by {
        assert(rev[i] == segs[segs.len() - 1 - i]);
    }
    lemma_append_idents(en, rev, names);
}

/// For every plain dotted chain, the tail request resolves to the
/// last segment's name alone.
pub proof fn law_tail_plain_chain(en: NameofEngine, e: Expr, names: Seq<Seq<char>>)
    requires
        plain_chain(e, names),
    ensures
        spec_tail_name(NodeView::Expr(e), en) == Ok::<_, ErrView>(names.last()),
{
}

/// Whether `e` is a dotted chain rooted at a local variable: the root
/// identifier is bound in `locals`, and `names` are the member names
/// above it, root side first — the local's own name not among them.
pub open spec fn local_rooted_chain(e: Expr, locals: Seq<u32>, names: Seq<Seq<char>>) -> bool
    decreases e,
{
    match e {
        Expr::Member(m) => names.len() >= 1 && (match m.prop {
            MemberProp::Ident(p) => p.name@ == names.last(),
            _ => false,
        }) && (if names.len() == 1 {
            (match *m.obj {
                Expr::Ident(id) => locals.contains(id.ctxt),
                _ => false,
            })
        } else {
            local_rooted_chain(*m.obj, locals, names.drop_last())
        }),
        _ => false,
    }
}

/// The chain walked from a locally rooted chain stops before the
/// local variable: one segment per member name, none local.
proof fn lemma_local_chain_segments(
    en: NameofEngine,
    e: Expr,
    locals: Seq<u32>,
    names: Seq<Seq<char>>,
)
    requires
        local_rooted_chain(e, locals, names),
    ensures
        ({
            let segs = spec_chain(CursorView::Expr(e), locals);
            &&& segs.len() == names.len()
            &&& forall|i: int|
                0 <= i < segs.len() ==> spec_seg_format(#[trigger] segs[i], en) == Ok::<
                    _,
                    ErrView,
                >(FormatView::Ident(names[names.len() - 1 - i]))
            &&& forall|i: int|
                0 <= i < segs.len() ==> spec_seg_name(#[trigger] segs[i], en) == Ok::<_, ErrView>(
                    names[names.len() - 1 - i],
                )
            &&& forall|i: int| 0 <= i < segs.len() ==> !spec_is_local(#[trigger] segs[i], locals)
        }),
    decreases e,
{
    crate::walker::lemma_step_rank(CursorView::Expr(e), locals);
    match e {
        Expr::Member(m) => {
            let segs = spec_chain(CursorView::Expr(e), locals);
            if names.len() == 1 {
                assert(spec_step(CursorView::Expr(e), locals).1 is None);
                assert(segs =~= seq![spec_step(CursorView::Expr(e), locals).0]);
                assert(segs[0] == (SegView::Member { span: m.span, prop: m.prop }));
            } else {
                lemma_local_chain_segments(en, *m.obj, locals, names.drop_last());
                let inner = spec_chain(CursorView::Expr(*m.obj), locals);
                assert(local_rooted_chain(*m.obj, locals, names.drop_last()));
                assert(*m.obj is Member);
                assert(spec_step(CursorView::Expr(e), locals).1 == Some(
                    CursorView::Expr(*m.obj),
                ));
                assert(segs =~= seq![spec_step(CursorView::Expr(e), locals).0] + inner);
                assert(segs[0] == (SegView::Member { span: m.span, prop: m.prop }));
                assert forall|i: int| 1 <= i < segs.len() implies spec_seg_format(
                    #[trigger] segs[i],
                    en,
                ) == Ok::<_, ErrView>(FormatView::Ident(names[names.len() - 1 - i]))
                    && spec_seg_name(segs[i], en) == Ok::<_, ErrView>(
                    names[names.len() - 1 - i],
                ) && !spec_is_local(segs[i], locals) by {
                    assert(segs[i] == inner[i - 1]);
                    let j = names.len() - 1 - i;
                    assert(names.drop_last()[names.drop_last().len() - 1 - (i - 1)] == names[j]);
                }
            }
        },
        _ => {},
    }
}

/// Collecting from a chain rooted at a local variable stops before
/// the local: `full` yields the dotted names above it and `split`
/// yields those names, the local's own name appearing in neither.
pub proof fn law_local_stop_collect(
    en: NameofEngine,
    e: Expr,
    locals: Seq<u32>,
    names: Seq<Seq<char>>,
)
    requires
        local_rooted_chain(e, locals, names),
    ensures
        spec_full(Some(CursorView::Expr(e)), locals, None, en) == Ok::<_, ErrView>(
            FullView::Str(dotted(names)),
        ),
        spec_split(Some(CursorView::Expr(e)), locals, None, en) == Ok::<_, ErrView>(names),
{
    lemma_local_chain_segments(en, e, locals, names);
    let segs = spec_chain(CursorView::Expr(e), locals);
    let rev = segs.reverse();
    assert forall|i: int| 0 <= i < rev.len() implies spec_seg_format(#[trigger] rev[i], en)
        == Ok::<_, ErrView>(FormatView::Ident(names[i])) by {
        assert(rev[i] == segs[segs.len() - 1 - i]);
    }
    lemma_append_idents(en, rev, names);
    assert forall|i: int| 0 <= i < segs.len() implies spec_seg_name(#[trigger] segs[i], en)
        == Ok::<_, ErrView>(names.reverse()[i]) by {
        assert(names.reverse()[i] == names[names.len() - 1 - i]);
    }
    lemma_names_of_resolved(en, segs, names.reverse());
    assert(names.reverse().reverse() =~= names);
}

/// Requesting a collection over a bare local variable fails with
/// `MissingAccessor`: no externally resolvable segment lies beneath
/// the stopping point.
pub proof fn law_local_bare_missing_accessor(en: NameofEngine, id: Ident, locals: Seq<u32>)
    requires
        locals.contains(id.ctxt),
    ensures
        spec_split(Some(CursorView::Expr(Expr::Ident(id))), locals, None, en) == Err::<
            Seq<Seq<char>>,
            _,
        >(ErrView::MissingAccessor { span: id.span, name: id.name@ }),
        spec_full(Some(CursorView::Expr(Expr::Ident(id))), locals, None, en) == Err::<
            FullView,
            _,
        >(ErrView::MissingAccessor { span: id.span, name: id.name@ }),
{
    let c = CursorView::Expr(Expr::Ident(id));
    crate::walker::lemma_step_rank(c, locals);
    assert(spec_chain(c, locals) =~= seq![SegView::Expr(Expr::Ident(id))]);
}

/// A plain dotted chain is never itself a recognized request.
proof fn lemma_plain_chain_not_request(en: NameofEngine, e: Expr, names: Seq<Seq<char>>)
    requires
        plain_chain(e, names),
    ensures
        spec_classify(en, e) == Ok::<Option<NameofExpression>, ErrView>(None),
    decreases e,
{
    match e {
        Expr::Member(m) => {
            lemma_plain_chain_not_request(en, *m.obj, names.drop_last());
        },
        _ => {},
    }
}

/// Whether a target is a plain dotted chain with the given names.
pub open spec fn plain_expr_node(n: NodeView, names: Seq<Seq<char>>) -> bool {
    n matches NodeView::Expr(e) && plain_chain(e, names)
}

/// The `array` request's targets keep their declaration order: over
/// plain dotted chains, the result lists each target's tail name in
/// the order the targets were given, not reversed.
pub proof fn law_array_order(
    en: NameofEngine,
    nodes: Seq<NodeView>,
    ctxts: Seq<u32>,
    names_list: Seq<Seq<Seq<char>>>,
)
    requires
        nodes.len() == names_list.len(),
        forall|i: int|
            0 <= i < nodes.len() ==> plain_expr_node(#[trigger] nodes[i], names_list[i]),
    ensures
        crate::replace::spec_array_elems(en, nodes, ctxts) == Ok::<_, ErrView>(
            Seq::new(nodes.len(), |i: int| ReplView::Str(names_list[i].last())),
        ),
    decreases nodes.len(),
{
    let want = Seq::new(nodes.len(), |i: int| ReplView::Str(names_list[i].last()));
    if nodes.len() == 0 {
        assert(want =~= Seq::<ReplView>::empty());
    } else {
        assert forall|i: int| 0 <= i < nodes.drop_last().len() implies plain_expr_node(
            #[trigger] nodes.drop_last()[i],
            names_list.drop_last()[i],
        ) by {
            assert(nodes.drop_last()[i] == nodes[i]);
            assert(names_list.drop_last()[i] == names_list[i]);
        }
        law_array_order(en, nodes.drop_last(), ctxts, names_list.drop_last());
        assert(nodes.last() == nodes[nodes.len() - 1]);
        assert(names_list.last() == names_list[names_list.len() - 1]);
        let prev = Seq::new(
            nodes.drop_last().len(),
            |i: int| ReplView::Str(names_list.drop_last()[i].last()),
        );
        let e = nodes.last()->Expr_0;
        lemma_plain_chain_not_request(en, e, names_list.last());
        law_tail_plain_chain(en, e, names_list.last());
        assert(want =~= prev.push(ReplView::Str(names_list.last().last())));
    }
}

/// A nested `interpolate` request inside a computed property is legal
/// only inside `full`: there it opens a dynamic hole carrying the
/// interpolation's first argument, the following member name becoming
/// literal text after the hole; under `split` the same construct
/// fails with `UnsupportedInterpolation`.
pub proof fn law_interpolation_full_vs_split(
    en: NameofEngine,
    target: Expr,
    outer_m: MemberExpr,
    inner: MemberExpr,
    cp: ComputedPropName,
    icall: CallExpr,
    a: Ident,
    b: IdentName,
    locals: Seq<u32>,
)
    requires
        target == Expr::Member(outer_m),
        outer_m.prop == MemberProp::Ident(b),
        *outer_m.obj == Expr::Member(inner),
        inner.prop == MemberProp::Computed(cp),
        *cp.expr == Expr::Call(icall),
        *inner.obj == Expr::Ident(a),
        !locals.contains(a.ctxt),
        spec_classify(en, Expr::Call(icall)) == Ok::<_, ErrView>(
            Some(
                NameofExpression::Common(
                    CommonExpr { method: Some(NameofMethod::Interpolate) },
                ),
            ),
        ),
        icall.args@.len() >= 1,
        icall.args@[0].spread is None,
    ensures
        spec_full(Some(CursorView::Expr(target)), locals, None, en) == Ok::<_, ErrView>(
            FullView::Tpl {
                quasis: seq![a.name@ + "["@, "."@ + b.name@],
                exprs: seq![*icall.args@[0].expr],
            },
        ),
        spec_split(Some(CursorView::Expr(target)), locals, None, en) == Err::<
            Seq<Seq<char>>,
            _,
        >(ErrView::UnsupportedInterpolation(icall.span)),
{
    let c0 = CursorView::Expr(target);
    let c1 = CursorView::Expr(*outer_m.obj);
    let c2 = CursorView::Expr(*inner.obj);
    crate::walker::lemma_step_rank(c0, locals);
    crate::walker::lemma_step_rank(c1, locals);
    crate::walker::lemma_step_rank(c2, locals);
    let s0 = SegView::Member { span: outer_m.span, prop: outer_m.prop };
    let s1 = SegView::Member { span: inner.span, prop: inner.prop };
    let s2 = SegView::Expr(Expr::Ident(a));
    assert(spec_step(c0, locals) == (s0, Some(c1)));
    assert(spec_step(c1, locals) == (s1, Some(c2)));
    assert(spec_step(c2, locals) == (s2, None::<CursorView>));
    let segs = spec_chain(c0, locals);
    assert(spec_chain(c2, locals) =~= seq![s2]);
    assert(spec_chain(c1, locals) =~= seq![s1] + spec_chain(c2, locals));
    assert(spec_chain(c1, locals) =~= seq![s1, s2]);
    assert(segs =~= seq![s0] + spec_chain(c1, locals));
    assert(segs =~= seq![s0, s1, s2]);
    assert(spec_seg_format(s0, en) == Ok::<_, ErrView>(FormatView::Ident(b.name@)));
    assert(spec_seg_format(s1, en) == Ok::<_, ErrView>(FormatView::Interpolation(icall)));
    assert(spec_seg_format(s2, en) == Ok::<_, ErrView>(FormatView::Ident(a.name@)));
    assert(!spec_is_local(s0, locals));
    // split: the interpolation segment has no name of its own
    assert(segs.drop_last() =~= seq![s0, s1]);
    assert(seq![s0, s1].drop_last() =~= seq![s0]);
    assert(seq![s0].drop_last() =~= Seq::<SegView>::empty());
    assert(Seq::<Seq<char>>::empty().push(b.name@) =~= seq![b.name@]);
    assert(crate::walker::spec_names_of(Seq::<SegView>::empty(), en) == Ok::<_, ErrView>(
        Seq::<Seq<char>>::empty(),
    ));
    assert(crate::walker::spec_names_of(seq![s0], en) == Ok::<_, ErrView>(seq![b.name@]));
    assert(crate::walker::spec_names_of(seq![s0, s1], en) == Err::<Seq<Seq<char>>, _>(
        ErrView::UnsupportedInterpolation(icall.span),
    ));
    // full: the hole opens after `a[` and the text resumes with `.b`
    let rev = segs.reverse();
    assert(rev =~= seq![s2, s1, s0]);
    assert(rev.drop_last() =~= seq![s2, s1]);
    assert(seq![s2, s1].drop_last() =~= seq![s2]);
    assert(seq![s2].drop_last() =~= Seq::<SegView>::empty());
    assert(spec_append_all(Seq::<SegView>::empty(), en) == Ok::<_, ErrView>(
        (Seq::<Seq<char>>::empty(), Seq::<Expr>::empty()),
    ));
    assert(spec_append_all(seq![s2], en) == Ok::<_, ErrView>(
        (seq![a.name@], Seq::<Expr>::empty()),
    ));
    let q1 = seq![a.name@].update(0, a.name@ + "["@);
    assert(spec_append_all(seq![s2, s1], en) == Ok::<_, ErrView>(
        (q1.push(Seq::<char>::empty()), Seq::<Expr>::empty().push(*icall.args@[0].expr)),
    ));
    let base2 = q1.push(Seq::<char>::empty());
    let q2 = base2.update(1, base2[1] + ("."@ + b.name@));
    assert(spec_append_all(rev, en) == Ok::<_, ErrView>(
        (q2, Seq::<Expr>::empty().push(*icall.args@[0].expr)),
    ));
    assert(q2 =~~= seq![a.name@ + "["@, "."@ + b.name@]) by {
        assert(base2[1] + ("."@ + b.name@) =~= "."@ + b.name@);
    }
    assert(Seq::<Expr>::empty().push(*icall.args@[0].expr) =~= seq![*icall.args@[0].expr]);
}

/// Whether a target is a plain type reference with the given name.
pub open spec fn plain_type_node(n: NodeView, name: Seq<char>) -> bool {
    n matches NodeView::Type(t) && (t matches crate::ast::TsType::Ref(_, tn) && (tn
        matches crate::ast::TsEntityName::Ident(id) && id.name@ == name))
}

/// The `array` request preserves order for type targets as well:
/// over plain type references, the result lists each type's name in
/// declaration order.
pub proof fn law_array_order_types(
    en: NameofEngine,
    nodes: Seq<NodeView>,
    ctxts: Seq<u32>,
    names: Seq<Seq<char>>,
)
    requires
        nodes.len() == names.len(),
        forall|i: int| 0 <= i < nodes.len() ==> plain_type_node(#[trigger] nodes[i], names[i]),
    ensures
        crate::replace::spec_array_elems(en, nodes, ctxts) == Ok::<_, ErrView>(
            Seq::new(nodes.len(), |i: int| ReplView::Str(names[i])),
        ),
    decreases nodes.len(),
{
    let want = Seq::new(nodes.len(), |i: int| ReplView::Str(names[i]));
    if nodes.len() == 0 {
        assert(want =~= Seq::<ReplView>::empty());
    } else {
        assert forall|i: int| 0 <= i < nodes.drop_last().len() implies plain_type_node(
            #[trigger] nodes.drop_last()[i],
            names.drop_last()[i],
        ) by {
            assert(nodes.drop_last()[i] == nodes[i]);
            assert(names.drop_last()[i] == names[i]);
        }
        law_array_order_types(en, nodes.drop_last(), ctxts, names.drop_last());
        assert(nodes.last() == nodes[nodes.len() - 1]);
        assert(names.last() == names[names.len() - 1]);
        let prev = Seq::new(nodes.drop_last().len(), |i: int| ReplView::Str(names.drop_last()[i]));
        assert(want =~= prev.push(ReplView::Str(names.last())));
    }
}

/// Transparent wrappers — parentheses, non-null assertions, type
/// assertions — are invisible to a walk: two nodes that agree once
/// every wrapper is stripped have the same format and step to the
/// same parent, at every step.  The same holds of parenthesized
/// types.
pub proof fn law_wrapper_transparency(
    en: NameofEngine,
    e1: Expr,
    e2: Expr,
    locals: Seq<u32>,
)
    requires
        crate::segment::spec_unwrap_expr(e1) == crate::segment::spec_unwrap_expr(e2),
    ensures
        crate::segment::spec_format_expr(e1, en) == crate::segment::spec_format_expr(e2, en),
        crate::segment::spec_step_expr(e1, locals).1 == crate::segment::spec_step_expr(
            e2,
            locals,
        ).1,
{
}

/// The type-side counterpart of wrapper transparency.
pub proof fn law_wrapper_transparency_types(
    en: NameofEngine,
    t1: TsType,
    t2: TsType,
    locals: Seq<u32>,
)
    requires
        crate::segment::spec_unwrap_type(t1) == crate::segment::spec_unwrap_type(t2),
    ensures
        crate::segment::spec_format_type(t1, en) == crate::segment::spec_format_type(t2, en),
        crate::segment::spec_step_type(t1, locals).1 == crate::segment::spec_step_type(
            t2,
            locals,
        ).1,
{
}

/// Whether `call` is a well-formed request on the recognized global,
/// plain or with the given method name, whose single argument is the
/// given expression.
pub open spec fn simple_request(
    en: NameofEngine,
    call: CallExpr,
    method: Option<Seq<char>>,
    target: Expr,
) -> bool {
    &&& (match call.callee {
        Callee::Expr(callee) => match method {
            None => *callee matches Expr::Ident(id) && spec_is_global(en, id),
            Some(mname) => *callee matches Expr::Member(m) && (match m.prop {
                MemberProp::Ident(p) => p.name@ == mname && (match *m.obj {
                    Expr::Ident(id) => spec_is_global(en, id),
                    _ => false,
                }),
                _ => false,
            }),
        },
        _ => false,
    })
    &&& call.args@ =~= seq![Arg { spread: None, expr: Box::new(target) }]
    &&& call.type_args@.len() == 0
}

/// End to end: a plain `nameof(a.b.c)` request transforms into the
/// string literal of the last name.
pub proof fn law_transform_tail_request(
    en: NameofEngine,
    call: CallExpr,
    target: Expr,
    names: Seq<Seq<char>>,
)
    requires
        simple_request(en, call, None, target),
        plain_chain(target, names),
    ensures
        spec_transform(en, Expr::Call(call)) == Ok::<_, ErrView>(
            Some(ReplView::Str(names.last())),
        ),
{
    law_tail_plain_chain(en, target, names);
    assert(spec_transform(en, Expr::Call(call)) == Ok::<_, ErrView>(
        Some(ReplView::Str(names.last())),
    ));
}

/// End to end: a `nameof.split(a.b.c)` request transforms into the
/// array of the chain's names in root-to-leaf order.
pub proof fn law_transform_split_request(
    en: NameofEngine,
    call: CallExpr,
    target: Expr,
    names: Seq<Seq<char>>,
)
    requires
        simple_request(en, call, Some("split"@), target),
        plain_chain(target, names),
    ensures
        spec_transform(en, Expr::Call(call)) == Ok::<_, ErrView>(
            Some(ReplView::Arr(names.map_values(|n: Seq<char>| ReplView::Str(n)))),
        ),
{
    reveal_strlit("split");
    reveal_strlit("full");
    reveal_strlit("interpolate");
    reveal_strlit("array");
    assert("split"@.len() == 5);
    assert("full"@.len() == 4);
    assert("split"@ != "full"@ && "split"@ != "interpolate"@);
    assert("split"@ != "array"@) by {
        assert("split"@[0] == 's' && "array"@[0] == 'a');
    }
    assert(spec_method_of("split"@) == Some(NameofMethod::Collect(CollectOutput::Array)));
    assert(spec_classify(en, Expr::Call(call)) == Ok::<_, ErrView>(
        Some(
            NameofExpression::Common(
                CommonExpr { method: Some(NameofMethod::Collect(CollectOutput::Array)) },
            ),
        ),
    ));
    // a plain chain parses as no start index, so the argument stays
    lemma_plain_chain_not_numeric(target, names);
    let parsed = crate::target::spec_parse_collect_args(call.args@);
    assert(parsed.0 is None && parsed.1 =~= call.args@);
    // the single argument resolves to the chain itself
    assert(crate::target::spec_context_of_args(call.span, call.args@, call.type_args@)
        == Ok::<_, ErrView>(
        crate::target::ContextView {
            node: crate::target::NodeView::Expr(target),
            ctxts: Seq::<u32>::empty(),
        },
    ));
    let sub = crate::substitution::spec_substitution(
        NameofExpression::Common(
            CommonExpr { method: Some(NameofMethod::Collect(CollectOutput::Array)) },
        ),
        Expr::Call(call),
        Seq::empty(),
    );
    assert(sub == Ok::<_, ErrView>(
        SubView::Collect {
            start: None,
            ctxts: Seq::<u32>::empty() + Seq::<u32>::empty(),
            output: CollectOutput::Array,
            node: crate::target::NodeView::Expr(target),
        },
    ));
    assert(Seq::<u32>::empty() + Seq::<u32>::empty() =~= Seq::<u32>::empty());
    law_split_plain_chain(en, target, names, None);
}

/// A plain dotted chain never denotes an integer, so it is never
/// mistaken for a slicing start index.
proof fn lemma_plain_chain_not_numeric(e: Expr, names: Seq<Seq<char>>)
    requires
        plain_chain(e, names),
    ensures
        crate::target::spec_parse_int(e) is None,
{
}

} // verus!
