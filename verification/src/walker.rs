//! The segment walker and the collecting output assembler.
//!
//! A walk materializes the chain leaf-to-root, applies the slicing
//! rule, and only then asks the remaining segments for their formats:
//! a segment a slice discards can never raise an error.  A
//! non-negative start index of n drops the n segments nearest the
//! leaf, keeping the earliest of the chain in root-to-leaf order; a
//! negative one of magnitude m keeps only the m segments nearest the
//! leaf; an index that consumes the whole chain leaves an empty
//! result.  If
//! the first kept segment is a local variable, collection fails with
//! `MissingAccessor`: collecting names requires at least one
//! externally resolvable segment beneath the stopping point.

use vstd::prelude::*;

use crate::ast::Expr;
use crate::ast::Lit;
use crate::ast::LitValue;
use crate::ast::Span;
use crate::ast::TplExpr;
use crate::ast::TsEntityName;
use crate::ast::TsType;
use crate::ast::TsTypeQueryExpr;
use crate::ast::entity_rank;
use crate::ast::expr_size;
use crate::ast::type_rank;
use crate::diagnostics::ErrView;
use crate::diagnostics::NameofError;
use crate::diagnostics::err_view;
use crate::engine::NameofEngine;
use crate::segment::CursorView;
use crate::segment::NamedSegment;
use crate::segment::NodeSegment;
use crate::segment::SegView;
use crate::segment::cursor_rank;
use crate::segment::cursor_view;
use crate::segment::opt_cursor_view;
use crate::segment::seg_view;
use crate::segment::spec_is_local;
use crate::segment::spec_seg_format;
use crate::segment::spec_seg_name;
use crate::segment::spec_seg_span;
use crate::segment::spec_step;
use crate::serialization::FormatView;
use crate::serialization::SegmentFormat;
use crate::target::opt_i64_view;
use crate::target::spec_unwrap_arg;
use crate::target::unwrap_arg;

verus! {

/// Walks over the segments of a chain and collects them in the
/// requested output shape.
pub struct SegmentWalker {
    /// The optional slicing start index.
    pub start_index: Option<i64>,
    /// The scope tokens of the request's local variables.
    pub local_contexts: Vec<u32>,
    /// The cursor the walk starts at.
    pub current: Option<NamedSegment>,
}

/// The mathematical image of a collecting `full` result: a plain
/// string, or a template whose holes splice the carried expressions.
pub enum FullView {
    Str(Seq<char>),
    Tpl { quasis: Seq<Seq<char>>, exprs: Seq<Expr> },
}

/// The image of a sequence of segment records.
pub open spec fn segs_view(s: Seq<NodeSegment>) -> Seq<SegView> {
    s.map_values(|x: NodeSegment| seg_view(x))
}

/// The image of a sequence of names.
pub open spec fn names_view(s: Seq<String>) -> Seq<Seq<char>> {
    s.map_values(|x: String| x@)
}

/// The segments of the whole chain starting at `c`, leaf first.
pub open spec fn spec_chain(c: CursorView, locals: Seq<u32>) -> Seq<SegView>
    decreases cursor_rank(c),
{
    let (s, next) = spec_step(c, locals);
    match next {
        Some(p) => if cursor_rank(p) < cursor_rank(c) {
            seq![s] + spec_chain(p, locals)
        } else {
            seq![s]
        },
        None => seq![s],
    }
}

/// Every step's parent ranks strictly below its cursor, so the guard
/// inside [`spec_chain`] never actually cuts a chain short.
pub proof fn lemma_step_rank(c: CursorView, locals: Seq<u32>)
    ensures
        (match spec_step(c, locals).1 {
            Some(p) => cursor_rank(p) < cursor_rank(c),
            None => true,
        }),
{
    match c {
        CursorView::Expr(e) => {
            crate::segment::lemma_unwrap_expr_size(e);
            match crate::segment::spec_unwrap_expr(e) {
                Expr::Member(m) => {
                    assert(expr_size(crate::segment::spec_unwrap_expr(e)) == 1 + expr_size(
                        *m.obj,
                    ));
                },
                Expr::MetaProp(mp) => {
                    assert(expr_size(crate::segment::spec_unwrap_expr(e)) == 1
                        + mp.parts@.len());
                },
                Expr::SuperProp(_) => {
                    assert(expr_size(crate::segment::spec_unwrap_expr(e)) == 1);
                },
                _ => {},
            }
        },
        CursorView::Super(_) => {},
        CursorView::Custom { .. } => {},
        CursorView::Type(t) => {
            crate::segment::lemma_unwrap_type_rank(t);
            match crate::segment::spec_unwrap_type(t) {
                TsType::Ref(_, name) => {
                    assert(type_rank(crate::segment::spec_unwrap_type(t)) == 1 + entity_rank(
                        name,
                    ));
                    match name {
                        TsEntityName::Qualified(q) => {
                            assert(entity_rank(name) == 1 + entity_rank(*q.left));
                        },
                        _ => {},
                    }
                },
                TsType::Query(_, TsTypeQueryExpr::Name(name)) => {
                    assert(type_rank(crate::segment::spec_unwrap_type(t)) == 1 + entity_rank(
                        name,
                    ));
                    match name {
                        TsEntityName::Qualified(q) => {
                            assert(entity_rank(name) == 1 + entity_rank(*q.left));
                        },
                        _ => {},
                    }
                },
                TsType::IndexedAccess(_, obj, _) => {
                    assert(type_rank(crate::segment::spec_unwrap_type(t)) == 1 + type_rank(
                        *obj,
                    ));
                },
                _ => {},
            }
        },
        CursorView::Name(n) => {
            match n {
                TsEntityName::Qualified(q) => {
                    assert(entity_rank(n) == 1 + entity_rank(*q.left));
                },
                _ => {},
            }
        },
    }
}

/// The segments of an optional chain.
pub open spec fn spec_opt_chain(c: Option<CursorView>, locals: Seq<u32>) -> Seq<SegView> {
    match c {
        Some(cur) => spec_chain(cur, locals),
        None => Seq::empty(),
    }
}

/// The slicing rule over the collected (leaf-first) segments.  `None`
/// keeps everything; a non-negative index drops that many segments
/// nearest the leaf; a negative index keeps only that many segments
/// nearest the leaf.
pub open spec fn spec_slice(segs: Seq<SegView>, start: Option<int>) -> Seq<SegView> {
    match start {
        None => segs,
        Some(i) => if i < 0 {
            if -i <= segs.len() {
                segs.take(-i)
            } else {
                segs
            }
        } else {
            if i <= segs.len() {
                segs.skip(i)
            } else {
                Seq::empty()
            }
        },
    }
}

/// The segments a collection works on: the sliced chain, unless its
/// first segment is a local variable, which is `MissingAccessor`.
pub open spec fn spec_get_segments(
    c: Option<CursorView>,
    locals: Seq<u32>,
    start: Option<int>,
    en: NameofEngine,
) -> Result<Seq<SegView>, ErrView> {
    let sliced = spec_slice(spec_opt_chain(c, locals), start);
    if sliced.len() > 0 && spec_is_local(sliced[0], locals) {
        match spec_seg_name(sliced[0], en) {
            Ok(nm) => Err(ErrView::MissingAccessor { span: spec_seg_span(sliced[0]), name: nm }),
            Err(e) => Err(e),
        }
    } else {
        Ok(sliced)
    }
}

/// The names of the given segments in order; the first segment whose
/// format or name fails decides the error.
pub open spec fn spec_names_of(segs: Seq<SegView>, en: NameofEngine) -> Result<
    Seq<Seq<char>>,
    ErrView,
>
    decreases segs.len(),
{
    if segs.len() == 0 {
        Ok(Seq::empty())
    } else {
        match spec_names_of(segs.drop_last(), en) {
            Err(e) => Err(e),
            Ok(names) => match spec_seg_name(segs.last(), en) {
                Ok(n) => Ok(names.push(n)),
                Err(e) => Err(e),
            },
        }
    }
}

/// The names of a `split` collection: the kept segments' names in
/// root-to-leaf order.
pub open spec fn spec_split(
    c: Option<CursorView>,
    locals: Seq<u32>,
    start: Option<int>,
    en: NameofEngine,
) -> Result<Seq<Seq<char>>, ErrView> {
    match spec_get_segments(c, locals, start, en) {
        Err(e) => Err(e),
        Ok(sliced) => match spec_names_of(sliced, en) {
            Err(e) => Err(e),
            Ok(names) => Ok(names.reverse()),
        },
    }
}

/// Appends one segment format to a template in the making.  The first
/// appended segment opens the text; an identifier continues it with
/// `.name`, a computed key with `[key]`; an interpolation opens a
/// bracket, splices its first argument as a dynamic hole and resumes
/// with fresh text.  An `interpolate` call without arguments is an
/// argument-count error; a spread argument is rejected as everywhere.
pub open spec fn spec_append_one(
    quasis: Seq<Seq<char>>,
    exprs: Seq<Expr>,
    f: FormatView,
) -> Result<(Seq<Seq<char>>, Seq<Expr>), ErrView> {
    if quasis.len() == 0 && f is Ident {
        Ok((seq![f->Ident_0], exprs))
    } else {
        let base = if quasis.len() == 0 {
            seq![Seq::<char>::empty()]
        } else {
            quasis
        };
        let add = match f {
            FormatView::Ident(n) => "."@ + n,
            FormatView::ComputedStr(s) => "[\""@ + s + "\"]"@,
            FormatView::ComputedNum { text, .. } => "["@ + text + "]"@,
            FormatView::Interpolation(_) => "["@,
        };
        let grown = base.update(base.len() - 1, base.last() + add);
        match f {
            FormatView::Interpolation(call) => if call.args@.len() == 0 {
                Err(
                    ErrView::ArgumentError {
                        span: call.span,
                        type_arg_count: call.type_args@.len() as int,
                        arg_count: 0,
                    },
                )
            } else {
                match spec_unwrap_arg(call.args@[0]) {
                    Ok(e) => Ok((grown.push(Seq::empty()), exprs.push(e))),
                    Err(er) => Err(er),
                }
            },
            _ => Ok((grown, exprs)),
        }
    }
}

/// Appends every given segment in order (the caller hands them root
/// first); the first failing segment decides the error.
pub open spec fn spec_append_all(segs: Seq<SegView>, en: NameofEngine) -> Result<
    (Seq<Seq<char>>, Seq<Expr>),
    ErrView,
>
    decreases segs.len(),
{
    if segs.len() == 0 {
        Ok((Seq::empty(), Seq::empty()))
    } else {
        match spec_append_all(segs.drop_last(), en) {
            Err(e) => Err(e),
            Ok(state) => match spec_seg_format(segs.last(), en) {
                Err(e) => Err(e),
                Ok(f) => spec_append_one(state.0, state.1, f),
            },
        }
    }
}

/// A `full` collection: the kept segments, root first, assembled into
/// a dotted string, or into a template when an interpolation opened at
/// least one hole.
pub open spec fn spec_full(
    c: Option<CursorView>,
    locals: Seq<u32>,
    start: Option<int>,
    en: NameofEngine,
) -> Result<FullView, ErrView> {
    match spec_get_segments(c, locals, start, en) {
        Err(e) => Err(e),
        Ok(sliced) => match spec_append_all(sliced.reverse(), en) {
            Err(e) => Err(e),
            Ok(state) => if state.1.len() == 0 {
                Ok(
                    FullView::Str(
                        if state.0.len() == 0 {
                            Seq::empty()
                        } else {
                            state.0.last()
                        },
                    ),
                )
            } else {
                Ok(FullView::Tpl { quasis: state.0, exprs: state.1 })
            },
        },
    }
}

/// Maps a name-list result onto its image.
pub open spec fn names_res_view(r: Result<Vec<String>, NameofError>) -> Result<
    Seq<Seq<char>>,
    ErrView,
> {
    match r {
        Ok(v) => Ok(names_view(v@)),
        Err(e) => Err(err_view(e)),
    }
}

/// The image of a `full` output node, where it has the canonical
/// shape: a synthetic-span string literal or template whose quasis
/// count exceeds its holes by one.
pub open spec fn full_out_view(e: Expr) -> Option<FullView> {
    match e {
        Expr::Lit(l) => if l.span == (Span { lo: 0, hi: 0 }) && l.value is Str {
            Some(FullView::Str(l.value->Str_0@))
        } else {
            None
        },
        Expr::Tpl(t) => if t.span == (Span { lo: 0, hi: 0 }) && t.quasis@.len() == t.exprs@.len()
            + 1 {
            Some(FullView::Tpl { quasis: names_view(t.quasis@), exprs: t.exprs@ })
        } else {
            None
        },
        _ => None,
    }
}

/// An error settled by a prefix of the segments settles the whole
/// name collection.
proof fn lemma_names_err_persists(segs: Seq<SegView>, i: int, en: NameofEngine)
    requires
        0 <= i <= segs.len(),
        spec_names_of(segs.take(i), en) is Err,
    ensures
        spec_names_of(segs, en) == spec_names_of(segs.take(i), en),
    decreases segs.len() - i,
{
    if i < segs.len() {
        assert(segs.take(i + 1).drop_last() =~= segs.take(i));
        lemma_names_err_persists(segs, i + 1, en);
    } else {
        assert(segs.take(i) =~= segs);
    }
}

/// An error settled by a prefix of the segments settles the whole
/// template assembly.
proof fn lemma_append_err_persists(segs: Seq<SegView>, i: int, en: NameofEngine)
    requires
        0 <= i <= segs.len(),
        spec_append_all(segs.take(i), en) is Err,
    ensures
        spec_append_all(segs, en) == spec_append_all(segs.take(i), en),
    decreases segs.len() - i,
{
    if i < segs.len() {
        assert(segs.take(i + 1).drop_last() =~= segs.take(i));
        lemma_append_err_persists(segs, i + 1, en);
    } else {
        assert(segs.take(i) =~= segs);
    }
}

/// A successful template assembly always holds one more quasi than
/// holes — or no quasi at all when nothing was appended.
proof fn lemma_append_counts(segs: Seq<SegView>, en: NameofEngine)
    ensures
        (match spec_append_all(segs, en) {
            Ok(state) => state.0.len() == state.1.len() + 1 || (state.0.len() == 0
                && state.1.len() == 0),
            Err(_) => true,
        }),
    decreases segs.len(),
{
    if segs.len() > 0 {
        lemma_append_counts(segs.drop_last(), en);
    }
}

/// Reverses a vector.
fn reverse_vec<T>(v: Vec<T>) -> (r: Vec<T>)
    ensures
        r@ == v@.reverse(),
{
    let ghost orig = v@;
    let mut rest = v;
    let mut r: Vec<T> = Vec::new();
    proof {
        assert(orig =~= rest@ + r@.reverse());
    }
    loop
        invariant
            orig == v@,
            orig == rest@ + r@.reverse(),
        decreases rest@.len(),
    {
        match rest.pop() {
            Some(x) => {
                r.push(x);
                proof {
                    assert(orig =~= rest@ + r@.reverse());
                }
            },
            None => {
                proof {
                    assert(r@ =~= orig.reverse());
                }
                return r;
            },
        }
    }
}

impl SegmentWalker {
    /// Materializes the chain, leaf first.
    fn collect(current: Option<NamedSegment>, locals: &Vec<u32>) -> (r: Vec<NodeSegment>)
        ensures
            segs_view(r@) == spec_opt_chain(opt_cursor_view(current), locals@),
    {
        let ghost whole = spec_opt_chain(opt_cursor_view(current), locals@);
        let mut segs: Vec<NodeSegment> = Vec::new();
        let mut cur = current;
        proof {
            assert(segs_view(segs@) + spec_opt_chain(opt_cursor_view(cur), locals@) =~= whole);
        }
        loop
            invariant
                whole == spec_opt_chain(opt_cursor_view(current), locals@),
                segs_view(segs@) + spec_opt_chain(opt_cursor_view(cur), locals@) == whole,
            decreases (match cur {
                Some(c) => 1 + cursor_rank(cursor_view(c)),
                None => 0nat,
            }),
    {
            match cur {
                None => {
                    proof {
                        assert(segs_view(segs@) + Seq::<SegView>::empty() =~= segs_view(segs@));
                    }
                    return segs;
                },
                Some(c) => {
                    proof {
                        lemma_step_rank(cursor_view(c), locals@);
                    }
                    let ghost pre = segs_view(segs@);
                    let ghost cview = cursor_view(c);
                    let (seg, next) = c.step(locals);
                    segs.push(seg);
                    proof {
                        assert(segs_view(segs@) =~= pre.push(seg_view(seg)));
                        assert(seq![spec_step(cview, locals@).0] + spec_opt_chain(
                            opt_cursor_view(next),
                            locals@,
                        ) =~= spec_chain(cview, locals@));
                        assert(pre.push(seg_view(seg)) + spec_opt_chain(
                            opt_cursor_view(next),
                            locals@,
                        ) =~= pre + spec_chain(cview, locals@));
                    }
                    cur = next;
                },
            }
        }
    }

    /// Materializes the sliced chain and checks its first segment, as
    /// the collecting outputs consume it.
    #[verifier::rlimit(50)]
    pub fn get_segments(self, en: &NameofEngine) -> (r: Result<Vec<NodeSegment>, NameofError>)
        ensures
            (match r {
                Ok(v) => spec_get_segments(
                    opt_cursor_view(self.current),
                    self.local_contexts@,
                    opt_i64_view(self.start_index),
                    *en,
                ) == Ok::<_, ErrView>(segs_view(v@)),
                Err(e) => spec_get_segments(
                    opt_cursor_view(self.current),
                    self.local_contexts@,
                    opt_i64_view(self.start_index),
                    *en,
                ) == Err::<Seq<SegView>, _>(err_view(e)),
            }),
    {
        let SegmentWalker { start_index, local_contexts, current } = self;
        let mut segs = Self::collect(current, &local_contexts);
        let ghost chain = segs_view(segs@);
        let len = segs.len();
        match start_index {
            None => {},
            Some(i) => if i < 0 {
                let mag: u64 = if i == i64::MIN {
                    9223372036854775808u64
                } else {
                    (-i) as u64
                };
                let m: usize = if mag >= (len as u64) {
                    len
                } else {
                    mag as usize
                };
                segs.truncate(m);
                proof {
                    if -(i as int) <= chain.len() {
                        assert(segs_view(segs@) =~= chain.take(-(i as int)));
                    } else {
                        assert(segs_view(segs@) =~= chain);
                    }
                }
            } else {
                if (i as u64) >= (len as u64) {
                    segs.truncate(0);
                    proof {
                        assert(segs_view(segs@) =~= Seq::<SegView>::empty());
                    }
                } else {
                    let k = i as usize;
                    let ghost pre = segs@;
                    let mut j: usize = 0;
                    while j < k
                        invariant
                            j <= k,
                            k < pre.len(),
                            segs@ == pre.skip(j as int),
                        decreases k - j,
                    {
                        let _ = segs.remove(0);
                        j = j + 1;
                        proof {
                            assert(segs@ =~= pre.skip(j as int));
                        }
                    }
                    proof {
                        assert(segs_view(segs@) =~= chain.skip(i as int));
                    }
                }
            },
        }
        proof {
            assert(segs_view(segs@) =~= spec_slice(chain, opt_i64_view(start_index)));
        }
        if segs.len() > 0 && segs[0].is_local(&local_contexts) {
            let seg = segs.remove(0);
            proof {
                assert(seg_view(seg) == spec_slice(chain, opt_i64_view(start_index))[0]);
            }
            let span = seg.get_span();
            match seg.get_name(en) {
                Ok(name) => Err(NameofError::MissingAccessor { span, name }),
                Err(e) => Err(e),
            }
        } else {
            Ok(segs)
        }
    }

    /// Collects the segment names as an ordered (root-first) list.
    #[verifier::rlimit(50)]
    pub fn split(self, en: &NameofEngine) -> (r: Result<Vec<String>, NameofError>)
        ensures
            names_res_view(r) == spec_split(
                opt_cursor_view(self.current),
                self.local_contexts@,
                opt_i64_view(self.start_index),
                *en,
            ),
    {
        let ghost g_cur = opt_cursor_view(self.current);
        let ghost g_loc = self.local_contexts@;
        let ghost g_start = opt_i64_view(self.start_index);
        let segs = match self.get_segments(en) {
            Ok(v) => v,
            Err(e) => {
                return Err(e);
            },
        };
        let ghost all = segs_view(segs@);
        let mut names: Vec<String> = Vec::new();
        let mut rest = segs;
        proof {
            assert(all.skip(0) =~= all);
            assert(all.take(0) =~= Seq::<SegView>::empty());
            assert(names_view(names@) =~= Seq::<Seq<char>>::empty());
        }
        loop
            invariant
                g_cur == opt_cursor_view(self.current),
                g_loc == self.local_contexts@,
                g_start == opt_i64_view(self.start_index),
                spec_get_segments(g_cur, g_loc, g_start, *en) == Ok::<_, ErrView>(all),
                rest@.len() <= all.len(),
                all.skip(all.len() - rest@.len()) == segs_view(rest@),
                spec_names_of(all.take(all.len() - rest@.len()), *en) == Ok::<_, ErrView>(
                    names_view(names@),
                ),
            decreases rest@.len(),
        {
            let ghost done = all.len() - rest@.len();
            if rest.len() == 0 {
                proof {
                    assert(all.take(all.len() as int) =~= all);
                }
                let out = reverse_vec(names);
                proof {
                    assert(names_view(out@) =~= names_view(names@).reverse());
                }
                return Ok(out);
            }
            let ghost rest_pre = rest@;
            let seg = rest.remove(0);
            proof {
                assert(all.take(done + 1).drop_last() =~= all.take(done));
                assert(all.take(done + 1).last() == all[done]);
                assert(all[done] == segs_view(rest_pre)[0]);
                assert(all[done] == seg_view(seg));
                assert(rest@ =~= rest_pre.skip(1));
                assert forall|k: int| 0 <= k < rest@.len() implies segs_view(rest@)[k] == all.skip(
                    done + 1,
                )[k] by {
                    assert(segs_view(rest_pre)[k + 1] == seg_view(rest_pre[k + 1]));
                    assert(all.skip(done)[k + 1] == all[done + k + 1]);
                }
                assert(segs_view(rest@) =~= all.skip(done + 1));
            }
            let ghost pre_names = names_view(names@);
            match seg.get_name(en) {
                Ok(n) => {
                    names.push(n);
                    proof {
                        assert(names_view(names@) =~= pre_names.push(n@));
                    }
                },
                Err(e) => {
                    proof {
                        lemma_names_err_persists(all, done + 1, *en);
                    }
                    return Err(e);
                },
            }
        }
    }

    /// Collects the segments into a dotted or templated name.
    #[verifier::rlimit(50)]
    pub fn full(self, en: &NameofEngine) -> (r: Result<Expr, NameofError>)
        ensures
            (match r {
                Ok(e) => (match full_out_view(e) {
                    Some(fv) => spec_full(
                        opt_cursor_view(self.current),
                        self.local_contexts@,
                        opt_i64_view(self.start_index),
                        *en,
                    ) == Ok::<_, ErrView>(fv),
                    None => false,
                }),
                Err(e) => spec_full(
                    opt_cursor_view(self.current),
                    self.local_contexts@,
                    opt_i64_view(self.start_index),
                    *en,
                ) == Err::<FullView, _>(err_view(e)),
            }),
    {
        let ghost g_cur = opt_cursor_view(self.current);
        let ghost g_loc = self.local_contexts@;
        let ghost g_start = opt_i64_view(self.start_index);
        let segs = match self.get_segments(en) {
            Ok(v) => v,
            Err(e) => {
                return Err(e);
            },
        };
        let ghost sliced = segs_view(segs@);
        let rev = reverse_vec(segs);
        let ghost all = segs_view(rev@);
        proof {
            assert(all =~= sliced.reverse());
        }
        let mut quasis: Vec<String> = Vec::new();
        let mut exprs: Vec<Expr> = Vec::new();
        let mut rest = rev;
        proof {
            assert(all.skip(0) =~= all);
            assert(all.take(0) =~= Seq::<SegView>::empty());
            assert(names_view(quasis@) =~= Seq::<Seq<char>>::empty());
        }
        loop
            invariant
                g_cur == opt_cursor_view(self.current),
                g_loc == self.local_contexts@,
                g_start == opt_i64_view(self.start_index),
                spec_get_segments(g_cur, g_loc, g_start, *en) == Ok::<_, ErrView>(sliced),
                all == sliced.reverse(),
                rest@.len() <= all.len(),
                all.skip(all.len() - rest@.len()) == segs_view(rest@),
                spec_append_all(all.take(all.len() - rest@.len()), *en) == Ok::<_, ErrView>(
                    (names_view(quasis@), exprs@),
                ),
            ensures
                g_cur == opt_cursor_view(self.current),
                g_loc == self.local_contexts@,
                g_start == opt_i64_view(self.start_index),
                spec_get_segments(g_cur, g_loc, g_start, *en) == Ok::<_, ErrView>(sliced),
                all == sliced.reverse(),
                spec_append_all(all, *en) == Ok::<_, ErrView>((names_view(quasis@), exprs@)),
            decreases rest@.len(),
        {
            let ghost done = all.len() - rest@.len();
            if rest.len() == 0 {
                proof {
                    assert(all.take(all.len() as int) =~= all);
                }
                break ;
            }
            let ghost rest_pre = rest@;
            let seg = rest.remove(0);
            proof {
                assert(all.take(done + 1).drop_last() =~= all.take(done));
                assert(all.take(done + 1).last() == all[done]);
                assert(all[done] == segs_view(rest_pre)[0]);
                assert(all[done] == seg_view(seg));
                assert(rest@ =~= rest_pre.skip(1));
                assert forall|k: int| 0 <= k < rest@.len() implies segs_view(rest@)[k] == all.skip(
                    done + 1,
                )[k] by {
                    assert(segs_view(rest_pre)[k + 1] == seg_view(rest_pre[k + 1]));
                    assert(all.skip(done)[k + 1] == all[done + k + 1]);
                }
                assert(segs_view(rest@) =~= all.skip(done + 1));
            }
            let f = match seg.get_format(en) {
                Ok(f) => f,
                Err(e) => {
                    proof {
                        lemma_append_err_persists(all, done + 1, *en);
                    }
                    return Err(e);
                },
            };
            match Self::append_one(&mut quasis, &mut exprs, f) {
                Ok(()) => {},
                Err(e) => {
                    proof {
                        lemma_append_err_persists(all, done + 1, *en);
                    }
                    return Err(e);
                },
            }
        }
        proof {
            lemma_append_counts(all, *en);
        }
        if exprs.len() == 0 {
            let ghost q_pre = names_view(quasis@);
            let mut quasis = quasis;
            let text = match quasis.pop() {
                Some(s) => s,
                None => String::new(),
            };
            proof {
                if q_pre.len() > 0 {
                    assert(text@ == q_pre.last());
                } else {
                    assert(text@ =~= Seq::<char>::empty());
                }
            }
            Ok(Expr::Lit(Lit { span: Span::synthetic(), value: LitValue::Str(text) }))
        } else {
            proof {
                assert(names_view(quasis@).len() == quasis@.len());
            }
            Ok(Expr::Tpl(TplExpr { span: Span::synthetic(), quasis, exprs }))
        }
    }

    /// Appends one segment format to the template being assembled.
    fn append_one(quasis: &mut Vec<String>, exprs: &mut Vec<Expr>, f: SegmentFormat) -> (r: Result<
        (),
        NameofError,
    >)
        ensures
            (match r {
                Ok(_) => spec_append_one(
                    names_view(old(quasis)@),
                    old(exprs)@,
                    crate::serialization::fmt_view(f),
                ) == Ok::<_, ErrView>((names_view(final(quasis)@), final(exprs)@)),
                Err(e) => spec_append_one(
                    names_view(old(quasis)@),
                    old(exprs)@,
                    crate::serialization::fmt_view(f),
                ) == Err::<(Seq<Seq<char>>, Seq<Expr>), _>(err_view(e)),
            }),
    {
        if quasis.len() == 0 {
            match f {
                SegmentFormat::Ident(n) => {
                    let ghost nv = n@;
                    quasis.push(n);
                    proof {
                        assert(names_view(quasis@) =~= seq![nv]);
                    }
                    return Ok(());
                },
                _ => {
                    quasis.push(String::new());
                    proof {
                        assert(names_view(quasis@) =~= seq![Seq::<char>::empty()]);
                    }
                },
            }
        }
        let ghost base = names_view(quasis@);
        let last = quasis.len() - 1;
        let cur = quasis[last].clone();
        let grown: String = match &f {
            SegmentFormat::Ident(n) => cur.concat(".").concat(n.as_str()),
            SegmentFormat::ComputedProp(LitValue::Str(s)) => cur.concat("[\"").concat(
                s.as_str(),
            ).concat("\"]"),
            SegmentFormat::ComputedProp(LitValue::Num(n)) => cur.concat("[").concat(
                n.text.as_str(),
            ).concat("]"),
            SegmentFormat::Interpolation(_) => cur.concat("["),
        };
        quasis.set(last, grown);
        proof {
            assert(names_view(quasis@) =~~= base.update(
                base.len() - 1,
                base.last() + (match crate::serialization::fmt_view(f) {
                    FormatView::Ident(n) => "."@ + n,
                    FormatView::ComputedStr(s) => "[\""@ + s + "\"]"@,
                    FormatView::ComputedNum { text, .. } => "["@ + text + "]"@,
                    FormatView::Interpolation(_) => "["@,
                }),
            ));
        }
        match f {
            SegmentFormat::Interpolation(call) => {
                let crate::ast::CallExpr { span, callee: _, args, type_args } = call;
                if args.len() == 0 {
                    return Err(
                        NameofError::ArgumentError {
                            span,
                            type_arg_count: type_args.len(),
                            arg_count: 0,
                        },
                    );
                }
                let mut args = args;
                let arg = args.remove(0);
                match unwrap_arg(arg) {
                    Ok(e) => {
                        let ghost pre = names_view(quasis@);
                        exprs.push(e);
                        quasis.push(String::new());
                        proof {
                            assert(names_view(quasis@) =~= pre.push(Seq::<char>::empty()));
                        }
                        Ok(())
                    },
                    Err(er) => Err(er),
                }
            },
            _ => Ok(()),
        }
    }
}

} // verus!
