//! The segment model: a cursor over an accessor chain.
//!
//! A walk starts at the resolved target and steps from each node to
//! its syntactic parent.  Stepping is a pure decomposition: it
//! consumes the cursor and yields an owned segment record — exactly
//! what later formatting, locality and span queries need — together
//! with the parent cursor, or `None` at the chain's root.
//! Transparent wrappers are unwrapped at every step, however deeply
//! they nest.  A member access whose object is an identifier bound in
//! the local contexts has no parent: the chain stops there.  Formats
//! stay lazy, so a segment that a slice later discards can never
//! raise its format error.

use vstd::prelude::*;

use crate::ast::ComputedPropName;
use crate::ast::Expr;
use crate::ast::MemberProp;
use crate::ast::MetaPropExpr;
use crate::ast::Span;
use crate::ast::SuperMemberProp;
use crate::ast::TsEntityName;
use crate::ast::TsLit;
use crate::ast::TsQualifiedName;
use crate::ast::TsType;
use crate::ast::TsTypeQueryExpr;
use crate::ast::entity_rank;
use crate::ast::expr_size;
use crate::ast::type_rank;
use crate::diagnostics::ErrView;
use crate::diagnostics::NameofError;
use crate::diagnostics::UnsupportedIndexer;
use crate::diagnostics::UnsupportedNode;
use crate::diagnostics::err_view;
use crate::engine::NameofEngine;
use crate::engine::spec_classify;
use crate::serialization::CommonExpr;
use crate::serialization::FormatView;
use crate::serialization::NameofExpression;
use crate::serialization::NameofMethod;
use crate::serialization::SegmentFormat;
use crate::serialization::fmt_view;

verus! {

/// A synthetic chain of names, used for meta-properties whose dotted
/// parts are walked as if they were member accesses.  The tail is the
/// current segment's name; `rest` holds the names beneath it.
#[derive(Debug, PartialEq)]
pub struct CustomExpr {
    pub span: Span,
    pub tail: String,
    pub rest: Vec<String>,
}

/// An expression-side cursor position.
#[derive(Debug, PartialEq)]
pub enum NamedExpr {
    Expr(Box<Expr>),
    /// The `super` keyword itself, always a terminal segment.
    Super(Span),
    Custom(CustomExpr),
}

/// A type-side cursor position.
#[derive(Debug, PartialEq)]
pub enum NamedType {
    Type(Box<TsType>),
    Name(Box<TsEntityName>),
}

/// A cursor over either kind of chain.
#[derive(Debug, PartialEq)]
pub enum NamedSegment {
    Expr(NamedExpr),
    Type(NamedType),
}

/// An owned segment record: what one emitted segment keeps for later
/// formatting, locality checks and error reporting.
#[derive(Debug, PartialEq)]
pub enum NodeSegment {
    /// A terminal expression kept whole.
    Expr(Box<Expr>),
    /// A member access; the object went to the parent cursor.
    Member { span: Span, prop: MemberProp },
    /// A `super` property access.
    SuperMember { span: Span, prop: SuperMemberProp },
    /// A segment that is already a plain name, with the scope token of
    /// the identifier it came from, where one exists.
    Named { span: Span, name: String, ctxt: Option<u32> },
    /// A terminal type kept whole.
    Type(Box<TsType>),
    /// An indexed access; the object went to the parent cursor.
    Indexed { span: Span, index: Box<TsType> },
}

/// The mathematical image of a cursor.
pub enum CursorView {
    Expr(Expr),
    Super(Span),
    Custom { span: Span, tail: Seq<char>, rest: Seq<Seq<char>> },
    Type(TsType),
    Name(TsEntityName),
}

/// The mathematical image of a segment record.
pub enum SegView {
    Expr(Expr),
    Member { span: Span, prop: MemberProp },
    SuperMember { span: Span, prop: SuperMemberProp },
    Named { span: Span, name: Seq<char>, ctxt: Option<u32> },
    Type(TsType),
    Indexed { span: Span, index: TsType },
}

/// Maps a cursor onto its image.
pub open spec fn cursor_view(c: NamedSegment) -> CursorView {
    match c {
        NamedSegment::Expr(NamedExpr::Expr(e)) => CursorView::Expr(*e),
        NamedSegment::Expr(NamedExpr::Super(s)) => CursorView::Super(s),
        NamedSegment::Expr(NamedExpr::Custom(c)) => CursorView::Custom {
            span: c.span,
            tail: c.tail@,
            rest: c.rest@.map_values(|s: String| s@),
        },
        NamedSegment::Type(NamedType::Type(t)) => CursorView::Type(*t),
        NamedSegment::Type(NamedType::Name(n)) => CursorView::Name(*n),
    }
}

/// Maps an optional cursor onto its image.
pub open spec fn opt_cursor_view(c: Option<NamedSegment>) -> Option<CursorView> {
    match c {
        Some(s) => Some(cursor_view(s)),
        None => None,
    }
}

/// Maps a segment record onto its image.
pub open spec fn seg_view(s: NodeSegment) -> SegView {
    match s {
        NodeSegment::Expr(e) => SegView::Expr(*e),
        NodeSegment::Member { span, prop } => SegView::Member { span, prop },
        NodeSegment::SuperMember { span, prop } => SegView::SuperMember { span, prop },
        NodeSegment::Named { span, name, ctxt } => SegView::Named { span, name: name@, ctxt },
        NodeSegment::Type(t) => SegView::Type(*t),
        NodeSegment::Indexed { span, index } => SegView::Indexed { span, index: *index },
    }
}

/// The termination rank of a cursor: every step's parent ranks
/// strictly lower.
pub open spec fn cursor_rank(c: CursorView) -> nat {
    match c {
        CursorView::Expr(e) => expr_size(e),
        CursorView::Super(_) => 0,
        CursorView::Custom { rest, .. } => 1 + rest.len(),
        CursorView::Type(t) => type_rank(t),
        CursorView::Name(n) => entity_rank(n),
    }
}

/// The parent of a member access: its object, unless that object is
/// an identifier bound in the local contexts — a local variable may
/// not be dereferenced further, so the chain ends silently.
pub open spec fn spec_member_parent(obj: Expr, locals: Seq<u32>) -> Option<CursorView> {
    match obj {
        Expr::Ident(id) => if locals.contains(id.ctxt) {
            None
        } else {
            Some(CursorView::Expr(Expr::Ident(id)))
        },
        other => Some(CursorView::Expr(other)),
    }
}

/// The parent of a qualified name: its left part, unless that part is
/// an identifier bound in the local contexts.
pub open spec fn spec_qualified_parent(q: TsQualifiedName, locals: Seq<u32>) -> Option<
    CursorView,
> {
    match *q.left {
        TsEntityName::Ident(id) => if locals.contains(id.ctxt) {
            None
        } else {
            Some(CursorView::Name(TsEntityName::Ident(id)))
        },
        other => Some(CursorView::Name(other)),
    }
}

/// The node under every transparent wrapper.
pub open spec fn spec_unwrap_expr(e: Expr) -> Expr
    decreases e,
{
    match e {
        Expr::Wrapped(_, inner) => spec_unwrap_expr(*inner),
        other => other,
    }
}

/// Whether an expression, seen through all its wrappers, continues a
/// chain: a member access, a `super` property or a meta-property.
pub open spec fn spec_expr_continues(e: Expr) -> bool {
    ||| spec_unwrap_expr(e) matches Expr::Member(_)
    ||| spec_unwrap_expr(e) matches Expr::SuperProp(_)
    ||| spec_unwrap_expr(e) matches Expr::MetaProp(_)
}

/// The type under every transparent parenthesis.
pub open spec fn spec_unwrap_type(t: TsType) -> TsType
    decreases t,
{
    match t {
        TsType::Paren(_, inner) => spec_unwrap_type(*inner),
        other => other,
    }
}

/// Whether a type, seen through all its parentheses, continues a
/// chain: a qualified reference or query, or an indexed access.
pub open spec fn spec_type_continues(t: TsType) -> bool {
    ||| spec_unwrap_type(t) matches TsType::Ref(_, TsEntityName::Qualified(_))
    ||| spec_unwrap_type(t) matches TsType::Query(
        _,
        TsTypeQueryExpr::Name(TsEntityName::Qualified(_)),
    )
    ||| spec_unwrap_type(t) matches TsType::IndexedAccess(_, _, _)
}

/// Unwrapping never grows an expression's size.
pub proof fn lemma_unwrap_expr_size(e: Expr)
    ensures
        expr_size(spec_unwrap_expr(e)) <= expr_size(e),
    decreases e,
{
    match e {
        Expr::Wrapped(_, inner) => {
            lemma_unwrap_expr_size(*inner);
        },
        _ => {},
    }
}

/// Unwrapping never grows a type's rank.
pub proof fn lemma_unwrap_type_rank(t: TsType)
    ensures
        type_rank(spec_unwrap_type(t)) <= type_rank(t),
    decreases t,
{
    match t {
        TsType::Paren(_, inner) => {
            lemma_unwrap_type_rank(*inner);
        },
        _ => {},
    }
}

/// One step over a meta-property: the last dotted part is the current
/// segment; the parts beneath it become a synthetic chain carrying
/// the meta-property's own span.
pub open spec fn spec_meta_step(outer: Span, meta_span: Span, parts: Seq<Seq<char>>) -> (
    SegView,
    Option<CursorView>,
) {
    if parts.len() == 0 {
        (SegView::Named { span: outer, name: Seq::empty(), ctxt: None }, None)
    } else {
        (
            SegView::Named { span: outer, name: parts.last(), ctxt: None },
            if parts.len() >= 2 {
                Some(
                    CursorView::Custom {
                        span: meta_span,
                        tail: parts[parts.len() - 2],
                        rest: parts.take(parts.len() - 2),
                    },
                )
            } else {
                None
            },
        )
    }
}

/// One step over an expression node.  Transparent wrappers are
/// unwrapped at every step, however deeply nested, before the shape
/// is read; the emitted segment keeps the outermost node's span.  A
/// shape that continues no chain stays a terminal segment kept whole.
pub open spec fn spec_step_expr(e: Expr, locals: Seq<u32>) -> (SegView, Option<CursorView>) {
    match spec_unwrap_expr(e) {
        Expr::Member(m) => (
            SegView::Member { span: e.spec_span(), prop: m.prop },
            spec_member_parent(*m.obj, locals),
        ),
        Expr::SuperProp(s) => (
            SegView::SuperMember { span: e.spec_span(), prop: s.prop },
            Some(CursorView::Super(s.super_span)),
        ),
        Expr::MetaProp(mp) => spec_meta_step(
            e.spec_span(),
            mp.span,
            mp.parts@.map_values(|s: String| s@),
        ),
        _ => (SegView::Expr(e), None),
    }
}

/// One step over a type node, mirroring the expression rules: type
/// references and `typeof` queries walk their qualified names, an
/// indexed access walks its object, parentheses are unwrapped at
/// every step however deeply nested, and everything else is terminal.
pub open spec fn spec_step_type(t: TsType, locals: Seq<u32>) -> (SegView, Option<CursorView>) {
    match spec_unwrap_type(t) {
        TsType::Ref(_, TsEntityName::Qualified(q)) => (
            SegView::Named { span: t.spec_span(), name: q.right.name@, ctxt: None },
            spec_qualified_parent(*q, locals),
        ),
        TsType::Query(_, TsTypeQueryExpr::Name(TsEntityName::Qualified(q))) => (
            SegView::Named { span: t.spec_span(), name: q.right.name@, ctxt: None },
            spec_qualified_parent(*q, locals),
        ),
        TsType::IndexedAccess(_, obj, index) => (
            SegView::Indexed { span: t.spec_span(), index: *index },
            Some(CursorView::Type(*obj)),
        ),
        _ => (SegView::Type(t), None),
    }
}

/// One step of a walk: the current segment and the parent cursor.
pub open spec fn spec_step(c: CursorView, locals: Seq<u32>) -> (SegView, Option<CursorView>) {
    match c {
        CursorView::Expr(e) => spec_step_expr(e, locals),
        CursorView::Super(span) => (
            SegView::Named { span, name: "super"@, ctxt: None },
            None,
        ),
        CursorView::Custom { span, tail, rest } => (
            SegView::Named { span, name: tail, ctxt: None },
            if rest.len() >= 1 {
                Some(CursorView::Custom { span, tail: rest.last(), rest: rest.drop_last() })
            } else {
                None
            },
        ),
        CursorView::Type(t) => spec_step_type(t, locals),
        CursorView::Name(n) => (
            (match n {
                TsEntityName::Ident(id) => SegView::Named {
                    span: id.span,
                    name: id.name@,
                    ctxt: Some(id.ctxt),
                },
                TsEntityName::Qualified(q) => SegView::Named {
                    span: q.span,
                    name: q.right.name@,
                    ctxt: None,
                },
            }),
            (match n {
                TsEntityName::Ident(_) => None,
                TsEntityName::Qualified(q) => spec_qualified_parent(*q, locals),
            }),
        ),
    }
}

/// Whether a segment is a local variable: an identifier — plain, the
/// operand of a `typeof` query, or a type name — whose scope token is
/// one of the local contexts.
pub open spec fn spec_is_local(s: SegView, locals: Seq<u32>) -> bool {
    match s {
        SegView::Expr(Expr::Ident(id)) => locals.contains(id.ctxt),
        SegView::Named { ctxt: Some(c), .. } => locals.contains(c),
        SegView::Type(
            TsType::Query(_, TsTypeQueryExpr::Name(TsEntityName::Ident(id))),
        ) => locals.contains(id.ctxt),
        _ => false,
    }
}

/// The span a segment reports.
pub open spec fn spec_seg_span(s: SegView) -> Span {
    match s {
        SegView::Expr(e) => e.spec_span(),
        SegView::Member { span, .. } => span,
        SegView::SuperMember { span, .. } => span,
        SegView::Named { span, .. } => span,
        SegView::Type(t) => t.spec_span(),
        SegView::Indexed { span, .. } => span,
    }
}

/// The name of an entity name's last part.
pub open spec fn spec_entity_name(n: TsEntityName) -> Seq<char> {
    match n {
        TsEntityName::Ident(id) => id.name@,
        TsEntityName::Qualified(q) => q.right.name@,
    }
}

/// The format of a computed property: a string or number literal is
/// the key itself; a call is legal exactly when it classifies as an
/// `interpolate` request; anything else is an unsupported indexer.
pub open spec fn spec_computed_format(p: ComputedPropName, en: NameofEngine) -> Result<
    FormatView,
    ErrView,
> {
    match *p.expr {
        Expr::Lit(l) => match l.value {
            crate::ast::LitValue::Str(s) => Ok(FormatView::ComputedStr(s@)),
            crate::ast::LitValue::Num(n) => Ok(
                FormatView::ComputedNum {
                    text: n.text@,
                    value: match n.value {
                        Some(v) => Some(v as int),
                        None => None,
                    },
                },
            ),
        },
        Expr::Call(c) => if spec_classify(en, Expr::Call(c)) == Ok::<_, ErrView>(
            Some(NameofExpression::Common(CommonExpr { method: Some(NameofMethod::Interpolate) })),
        ) {
            Ok(FormatView::Interpolation(c))
        } else {
            Err(ErrView::UnsupportedIndexerProp(p))
        },
        _ => Err(ErrView::UnsupportedIndexerProp(p)),
    }
}

/// The format of a member property.
pub open spec fn spec_member_prop_format(prop: MemberProp, en: NameofEngine) -> Result<
    FormatView,
    ErrView,
> {
    match prop {
        MemberProp::Ident(id) => Ok(FormatView::Ident(id.name@)),
        MemberProp::PrivateName(id) => Ok(FormatView::Ident("#"@ + id.name@)),
        MemberProp::Computed(p) => spec_computed_format(p, en),
    }
}

/// The format of an already-unwrapped expression node, which is also
/// the node an unsupported shape is reported as.
pub open spec fn spec_format_core(u: Expr, en: NameofEngine) -> Result<FormatView, ErrView> {
    match u {
        Expr::Ident(id) => Ok(FormatView::Ident(id.name@)),
        Expr::PrivateName(id) => Ok(FormatView::Ident(id.name@)),
        Expr::This(_) => Ok(FormatView::Ident("this"@)),
        Expr::Member(m) => spec_member_prop_format(m.prop, en),
        Expr::MetaProp(mp) => if mp.parts@.len() == 0 {
            Ok(FormatView::Ident(Seq::empty()))
        } else {
            Ok(FormatView::Ident(mp.parts@.last()@))
        },
        Expr::SuperProp(s) => match s.prop {
            SuperMemberProp::Ident(id) => Ok(FormatView::Ident(id.name@)),
            SuperMemberProp::Computed(p) => spec_computed_format(p, en),
        },
        _ => Err(ErrView::UnsupportedExpr(u)),
    }
}

/// The format of an expression segment: transparent wrappers are
/// looked through all the way down before the shape is read.
pub open spec fn spec_format_expr(e: Expr, en: NameofEngine) -> Result<FormatView, ErrView> {
    spec_format_core(spec_unwrap_expr(e), en)
}

/// The format of an indexed access's key.
pub open spec fn spec_index_format(index: TsType) -> Result<FormatView, ErrView> {
    match index {
        TsType::LitType(_, TsLit::Str(s)) => Ok(FormatView::ComputedStr(s@)),
        TsType::LitType(_, TsLit::Num(n)) => Ok(
            FormatView::ComputedNum {
                text: n.text@,
                value: match n.value {
                    Some(v) => Some(v as int),
                    None => None,
                },
            },
        ),
        other => Err(ErrView::UnsupportedIndexerType(other)),
    }
}

/// The format of an already-unwrapped type node, which is also the
/// node an unsupported shape is reported as.
pub open spec fn spec_format_type_core(u: TsType, en: NameofEngine) -> Result<
    FormatView,
    ErrView,
> {
    match u {
        TsType::Ref(_, name) => Ok(FormatView::Ident(spec_entity_name(name))),
        TsType::Import(imp) => match imp.qualifier {
            Some(name) => Ok(FormatView::Ident(spec_entity_name(name))),
            None => Err(ErrView::UnsupportedType(u)),
        },
        TsType::Query(_, TsTypeQueryExpr::Name(name)) => Ok(
            FormatView::Ident(spec_entity_name(name)),
        ),
        TsType::Query(_, TsTypeQueryExpr::Import(imp)) => match imp.qualifier {
            Some(name) => Ok(FormatView::Ident(spec_entity_name(name))),
            None => Err(ErrView::UnsupportedType(u)),
        },
        TsType::IndexedAccess(_, _, index) => spec_index_format(*index),
        TsType::Keyword(_, text) => Ok(FormatView::Ident(text@)),
        TsType::This(_) => Ok(FormatView::Ident("this"@)),
        _ => Err(ErrView::UnsupportedType(u)),
    }
}

/// The format of a type segment: parentheses are looked through all
/// the way down before the shape is read.
pub open spec fn spec_format_type(t: TsType, en: NameofEngine) -> Result<FormatView, ErrView> {
    spec_format_type_core(spec_unwrap_type(t), en)
}

/// The format of a segment.
pub open spec fn spec_seg_format(s: SegView, en: NameofEngine) -> Result<FormatView, ErrView> {
    match s {
        SegView::Expr(e) => spec_format_expr(e, en),
        SegView::Member { prop, .. } => spec_member_prop_format(prop, en),
        SegView::SuperMember { prop, .. } => match prop {
            SuperMemberProp::Ident(id) => Ok(FormatView::Ident(id.name@)),
            SuperMemberProp::Computed(p) => spec_computed_format(p, en),
        },
        SegView::Named { name, .. } => Ok(FormatView::Ident(name)),
        SegView::Type(t) => spec_format_type(t, en),
        SegView::Indexed { index, .. } => spec_index_format(index),
    }
}

/// The name a segment contributes: its format's name.
pub open spec fn spec_seg_name(s: SegView, en: NameofEngine) -> Result<Seq<char>, ErrView> {
    match spec_seg_format(s, en) {
        Ok(f) => crate::serialization::spec_format_name(f),
        Err(e) => Err(e),
    }
}

/// Maps a format-or-error result onto its image.
pub open spec fn fmt_res_view(r: Result<SegmentFormat, NameofError>) -> Result<
    FormatView,
    ErrView,
> {
    match r {
        Ok(f) => Ok(fmt_view(f)),
        Err(e) => Err(err_view(e)),
    }
}

/// Whether a vector of scope tokens contains the given token.
pub fn contains_token(v: &Vec<u32>, c: u32) -> (r: bool)
    ensures
        r == v@.contains(c),
{
    let n = v.len();
    for i in 0..n
        invariant
            n == v@.len(),
            forall|j: int| 0 <= j < i ==> v@[j] != c,
        decreases n - i,
    {
        if v[i] == c {
            return true;
        }
    }
    false
}

/// The parent cursor of a member access's object.
fn member_parent(obj: Expr, locals: &Vec<u32>) -> (r: Option<NamedSegment>)
    ensures
        opt_cursor_view(r) == spec_member_parent(obj, locals@),
{
    match obj {
        Expr::Ident(id) => if contains_token(locals, id.ctxt) {
            None
        } else {
            Some(NamedSegment::Expr(NamedExpr::Expr(Box::new(Expr::Ident(id)))))
        },
        other => Some(NamedSegment::Expr(NamedExpr::Expr(Box::new(other)))),
    }
}

/// The parent cursor of a qualified name's left part.
fn qualified_parent(left: TsEntityName, locals: &Vec<u32>) -> (r: Option<NamedSegment>)
    ensures
        opt_cursor_view(r) == (match left {
            TsEntityName::Ident(id) => if locals@.contains(id.ctxt) {
                None::<CursorView>
            } else {
                Some(CursorView::Name(TsEntityName::Ident(id)))
            },
            other => Some(CursorView::Name(other)),
        }),
{
    match left {
        TsEntityName::Ident(id) => if contains_token(locals, id.ctxt) {
            None
        } else {
            Some(NamedSegment::Type(NamedType::Name(Box::new(TsEntityName::Ident(id)))))
        },
        other => Some(NamedSegment::Type(NamedType::Name(Box::new(other)))),
    }
}

/// One step over a meta-property.
fn meta_step(outer: Span, mp: MetaPropExpr) -> (r: (NodeSegment, Option<NamedSegment>))
    ensures
        seg_view(r.0) == spec_meta_step(
            outer,
            mp.span,
            mp.parts@.map_values(|s: String| s@),
        ).0,
        opt_cursor_view(r.1) == spec_meta_step(
            outer,
            mp.span,
            mp.parts@.map_values(|s: String| s@),
        ).1,
{
    let ghost parts_view = mp.parts@.map_values(|s: String| s@);
    let MetaPropExpr { span, parts } = mp;
    let mut parts = parts;
    match parts.pop() {
        None => (NodeSegment::Named { span: outer, name: String::new(), ctxt: None }, None),
        Some(last) => {
            let seg = NodeSegment::Named { span: outer, name: last, ctxt: None };
            let next = match parts.pop() {
                Some(t2) => {
                    proof {
                        assert(parts@.map_values(|s: String| s@) =~= parts_view.take(
                            parts_view.len() - 2,
                        ));
                    }
                    Some(
                        NamedSegment::Expr(
                            NamedExpr::Custom(CustomExpr { span, tail: t2, rest: parts }),
                        ),
                    )
                },
                None => None,
            };
            (seg, next)
        },
    }
}

/// The node under every transparent wrapper.
fn unwrap_expr(e: Expr) -> (r: Expr)
    ensures
        r == spec_unwrap_expr(e),
    decreases e,
{
    match e {
        Expr::Wrapped(_, inner) => unwrap_expr(*inner),
        other => other,
    }
}

/// Whether the node, seen through all its wrappers, continues a chain.
fn expr_continues(e: &Expr) -> (r: bool)
    ensures
        r == spec_expr_continues(*e),
    decreases *e,
{
    match e {
        Expr::Wrapped(_, inner) => expr_continues(inner),
        Expr::Member(_) => true,
        Expr::SuperProp(_) => true,
        Expr::MetaProp(_) => true,
        _ => false,
    }
}

/// The type under every transparent parenthesis.
fn unwrap_type(t: TsType) -> (r: TsType)
    ensures
        r == spec_unwrap_type(t),
    decreases t,
{
    match t {
        TsType::Paren(_, inner) => unwrap_type(*inner),
        other => other,
    }
}

/// Whether the type, seen through all its parentheses, continues a
/// chain.
fn type_continues(t: &TsType) -> (r: bool)
    ensures
        r == spec_type_continues(*t),
    decreases *t,
{
    match t {
        TsType::Paren(_, inner) => type_continues(inner),
        TsType::Ref(_, TsEntityName::Qualified(_)) => true,
        TsType::Query(_, TsTypeQueryExpr::Name(TsEntityName::Qualified(_))) => true,
        TsType::IndexedAccess(_, _, _) => true,
        _ => false,
    }
}

/// One step over an expression cursor.
fn step_expr(e: Expr, locals: &Vec<u32>) -> (r: (NodeSegment, Option<NamedSegment>))
    ensures
        seg_view(r.0) == spec_step_expr(e, locals@).0,
        opt_cursor_view(r.1) == spec_step_expr(e, locals@).1,
{
    if expr_continues(&e) {
        let outer_span = e.span();
        match unwrap_expr(e) {
            Expr::Member(m) => {
                let crate::ast::MemberExpr { span: _, obj, prop } = m;
                (NodeSegment::Member { span: outer_span, prop }, member_parent(*obj, locals))
            },
            Expr::SuperProp(s) => (
                NodeSegment::SuperMember { span: outer_span, prop: s.prop },
                Some(NamedSegment::Expr(NamedExpr::Super(s.super_span))),
            ),
            Expr::MetaProp(mp) => meta_step(outer_span, mp),
            _ => vstd::pervasive::unreached(),
        }
    } else {
        (NodeSegment::Expr(Box::new(e)), None)
    }
}

/// One step over a type cursor.
fn step_type(t: TsType, locals: &Vec<u32>) -> (r: (NodeSegment, Option<NamedSegment>))
    ensures
        seg_view(r.0) == spec_step_type(t, locals@).0,
        opt_cursor_view(r.1) == spec_step_type(t, locals@).1,
{
    if type_continues(&t) {
        let outer_span = t.span();
        match unwrap_type(t) {
            TsType::Ref(_, TsEntityName::Qualified(q)) => {
                let TsQualifiedName { span: _, left, right } = *q;
                (
                    NodeSegment::Named { span: outer_span, name: right.name, ctxt: None },
                    qualified_parent(*left, locals),
                )
            },
            TsType::Query(_, TsTypeQueryExpr::Name(TsEntityName::Qualified(q))) => {
                let TsQualifiedName { span: _, left, right } = *q;
                (
                    NodeSegment::Named { span: outer_span, name: right.name, ctxt: None },
                    qualified_parent(*left, locals),
                )
            },
            TsType::IndexedAccess(_, obj, index) => (
                NodeSegment::Indexed { span: outer_span, index },
                Some(NamedSegment::Type(NamedType::Type(obj))),
            ),
            _ => vstd::pervasive::unreached(),
        }
    } else {
        (NodeSegment::Type(Box::new(t)), None)
    }
}

impl NamedSegment {
    /// One step of a walk: the current segment's record and the
    /// parent cursor, or `None` at the chain's root.
    pub fn step(self, locals: &Vec<u32>) -> (r: (NodeSegment, Option<NamedSegment>))
        ensures
            seg_view(r.0) == spec_step(cursor_view(self), locals@).0,
            opt_cursor_view(r.1) == spec_step(cursor_view(self), locals@).1,
    {
        match self {
            NamedSegment::Expr(NamedExpr::Expr(e)) => step_expr(*e, locals),
            NamedSegment::Expr(NamedExpr::Super(s)) => (
                NodeSegment::Named { span: s, name: String::from_str("super"), ctxt: None },
                None,
            ),
            NamedSegment::Expr(NamedExpr::Custom(c)) => {
                let ghost rest_view = c.rest@.map_values(|s: String| s@);
                let CustomExpr { span, tail, rest } = c;
                let mut rest = rest;
                let seg = NodeSegment::Named { span, name: tail, ctxt: None };
                let next = match rest.pop() {
                    Some(t2) => {
                        proof {
                            assert(rest@.map_values(|s: String| s@) =~= rest_view.drop_last());
                        }
                        Some(
                            NamedSegment::Expr(
                                NamedExpr::Custom(CustomExpr { span, tail: t2, rest }),
                            ),
                        )
                    },
                    None => None,
                };
                (seg, next)
            },
            NamedSegment::Type(NamedType::Type(t)) => step_type(*t, locals),
            NamedSegment::Type(NamedType::Name(n)) => match *n {
                TsEntityName::Ident(id) => (
                    NodeSegment::Named { span: id.span, name: id.name, ctxt: Some(id.ctxt) },
                    None,
                ),
                TsEntityName::Qualified(q) => {
                    let TsQualifiedName { span, left, right } = *q;
                    (
                        NodeSegment::Named { span, name: right.name, ctxt: None },
                        qualified_parent(*left, locals),
                    )
                },
            },
        }
    }
}

/// The format of a computed property's key.
fn computed_format(p: ComputedPropName, en: &NameofEngine) -> (r: Result<
    SegmentFormat,
    NameofError,
>)
    ensures
        fmt_res_view(r) == spec_computed_format(p, *en),
{
    let ComputedPropName { span, expr } = p;
    match *expr {
        Expr::Lit(l) => match l.value {
            crate::ast::LitValue::Str(s) => Ok(
                SegmentFormat::ComputedProp(crate::ast::LitValue::Str(s)),
            ),
            crate::ast::LitValue::Num(n) => Ok(
                SegmentFormat::ComputedProp(crate::ast::LitValue::Num(n)),
            ),
        },
        Expr::Call(c) => {
            let interpolate = match en.classify_call(&c) {
                Ok(Some(NameofExpression::Common(CommonExpr { method: Some(m) }))) => matches!(
                    m,
                    NameofMethod::Interpolate
                ),
                _ => false,
            };
            if interpolate {
                Ok(SegmentFormat::Interpolation(c))
            } else {
                Err(
                    NameofError::UnsupportedIndexer(
                        UnsupportedIndexer::Prop(
                            ComputedPropName { span, expr: Box::new(Expr::Call(c)) },
                        ),
                    ),
                )
            }
        },
        other => Err(
            NameofError::UnsupportedIndexer(
                UnsupportedIndexer::Prop(ComputedPropName { span, expr: Box::new(other) }),
            ),
        ),
    }
}

/// The format of a member property.
fn member_prop_format(prop: MemberProp, en: &NameofEngine) -> (r: Result<
    SegmentFormat,
    NameofError,
>)
    ensures
        fmt_res_view(r) == spec_member_prop_format(prop, *en),
{
    match prop {
        MemberProp::Ident(id) => Ok(SegmentFormat::Ident(id.name)),
        MemberProp::PrivateName(id) => Ok(
            SegmentFormat::Ident(String::from_str("#").concat(id.name.as_str())),
        ),
        MemberProp::Computed(p) => computed_format(p, en),
    }
}

/// The format of an already-unwrapped expression node.
fn format_core(u: Expr, en: &NameofEngine) -> (r: Result<SegmentFormat, NameofError>)
    ensures
        fmt_res_view(r) == spec_format_core(u, *en),
{
    match u {
        Expr::Ident(id) => Ok(SegmentFormat::Ident(id.name)),
        Expr::PrivateName(id) => Ok(SegmentFormat::Ident(id.name)),
        Expr::This(_) => Ok(SegmentFormat::Ident(String::from_str("this"))),
        Expr::Member(m) => member_prop_format(m.prop, en),
        Expr::MetaProp(mp) => {
            let mut parts = mp.parts;
            match parts.pop() {
                Some(t) => Ok(SegmentFormat::Ident(t)),
                None => Ok(SegmentFormat::Ident(String::new())),
            }
        },
        Expr::SuperProp(s) => match s.prop {
            SuperMemberProp::Ident(id) => Ok(SegmentFormat::Ident(id.name)),
            SuperMemberProp::Computed(p) => computed_format(p, en),
        },
        other => Err(
            NameofError::UnsupportedNode(UnsupportedNode::Expr(Box::new(other))),
        ),
    }
}

/// The format of an expression segment.
fn format_expr(e: Expr, en: &NameofEngine) -> (r: Result<SegmentFormat, NameofError>)
    ensures
        fmt_res_view(r) == spec_format_expr(e, *en),
{
    format_core(unwrap_expr(e), en)
}

/// The last part of an entity name.
fn entity_name(n: TsEntityName) -> (r: String)
    ensures
        r@ == spec_entity_name(n),
{
    match n {
        TsEntityName::Ident(id) => id.name,
        TsEntityName::Qualified(q) => {
            let TsQualifiedName { span: _, left: _, right } = *q;
            right.name
        },
    }
}

/// The format of an indexed access's key.
fn index_format(index: TsType) -> (r: Result<SegmentFormat, NameofError>)
    ensures
        fmt_res_view(r) == spec_index_format(index),
{
    match index {
        TsType::LitType(sp, lit) => match lit {
            TsLit::Str(s) => Ok(SegmentFormat::ComputedProp(crate::ast::LitValue::Str(s))),
            TsLit::Num(n) => Ok(SegmentFormat::ComputedProp(crate::ast::LitValue::Num(n))),
            TsLit::Unsupported => Err(
                NameofError::UnsupportedIndexer(
                    UnsupportedIndexer::Type(
                        Box::new(TsType::LitType(sp, TsLit::Unsupported)),
                    ),
                ),
            ),
        },
        other => Err(
            NameofError::UnsupportedIndexer(UnsupportedIndexer::Type(Box::new(other))),
        ),
    }
}

/// The format of an already-unwrapped type node.
fn format_type_core(u: TsType, en: &NameofEngine) -> (r: Result<SegmentFormat, NameofError>)
    ensures
        fmt_res_view(r) == spec_format_type_core(u, *en),
{
    match u {
        TsType::Ref(_, name) => Ok(SegmentFormat::Ident(entity_name(name))),
        TsType::Import(imp) => match imp.qualifier {
            Some(name) => Ok(SegmentFormat::Ident(entity_name(name))),
            None => Err(
                NameofError::UnsupportedNode(
                    UnsupportedNode::Type(
                        Box::new(
                            TsType::Import(
                                crate::ast::TsImportType { span: imp.span, qualifier: None },
                            ),
                        ),
                    ),
                ),
            ),
        },
        TsType::Query(sp, qe) => match qe {
            TsTypeQueryExpr::Name(name) => Ok(SegmentFormat::Ident(entity_name(name))),
            TsTypeQueryExpr::Import(imp) => match imp.qualifier {
                Some(name) => Ok(SegmentFormat::Ident(entity_name(name))),
                None => Err(
                    NameofError::UnsupportedNode(
                        UnsupportedNode::Type(
                            Box::new(
                                TsType::Query(
                                    sp,
                                    TsTypeQueryExpr::Import(
                                        crate::ast::TsImportType {
                                            span: imp.span,
                                            qualifier: None,
                                        },
                                    ),
                                ),
                            ),
                        ),
                    ),
                ),
            },
        },
        TsType::IndexedAccess(_, _, index) => index_format(*index),
        TsType::Keyword(_, text) => Ok(SegmentFormat::Ident(text)),
        TsType::This(_) => Ok(SegmentFormat::Ident(String::from_str("this"))),
        other => Err(NameofError::UnsupportedNode(UnsupportedNode::Type(Box::new(other)))),
    }
}

/// The format of a type segment.
fn format_type(t: TsType, en: &NameofEngine) -> (r: Result<SegmentFormat, NameofError>)
    ensures
        fmt_res_view(r) == spec_format_type(t, *en),
{
    format_type_core(unwrap_type(t), en)
}

impl NodeSegment {
    /// Whether this segment is a variable introduced by a request's
    /// function-like argument.
    pub fn is_local(&self, locals: &Vec<u32>) -> (r: bool)
        ensures
            r == spec_is_local(seg_view(*self), locals@),
    {
        match self {
            NodeSegment::Expr(e) => match &**e {
                Expr::Ident(id) => contains_token(locals, id.ctxt),
                _ => false,
            },
            NodeSegment::Named { ctxt: Some(c), .. } => contains_token(locals, *c),
            NodeSegment::Type(t) => match &**t {
                TsType::Query(_, TsTypeQueryExpr::Name(TsEntityName::Ident(id))) => contains_token(
                    locals,
                    id.ctxt,
                ),
                _ => false,
            },
            _ => false,
        }
    }

    /// The span containing this segment.
    pub fn get_span(&self) -> (s: Span)
        ensures
            s == spec_seg_span(seg_view(*self)),
    {
        match self {
            NodeSegment::Expr(e) => e.span(),
            NodeSegment::Member { span, .. } => *span,
            NodeSegment::SuperMember { span, .. } => *span,
            NodeSegment::Named { span, .. } => *span,
            NodeSegment::Type(t) => t.span(),
            NodeSegment::Indexed { span, .. } => *span,
        }
    }

    /// The format of this segment.
    pub fn get_format(self, en: &NameofEngine) -> (r: Result<SegmentFormat, NameofError>)
        ensures
            fmt_res_view(r) == spec_seg_format(seg_view(self), *en),
    {
        match self {
            NodeSegment::Expr(e) => format_expr(*e, en),
            NodeSegment::Member { span: _, prop } => member_prop_format(prop, en),
            NodeSegment::SuperMember { span: _, prop } => match prop {
                SuperMemberProp::Ident(id) => Ok(SegmentFormat::Ident(id.name)),
                SuperMemberProp::Computed(p) => computed_format(p, en),
            },
            NodeSegment::Named { span: _, name, ctxt: _ } => Ok(SegmentFormat::Ident(name)),
            NodeSegment::Type(t) => format_type(*t, en),
            NodeSegment::Indexed { span: _, index } => index_format(*index),
        }
    }

    /// The name of this segment.
    pub fn get_name(self, en: &NameofEngine) -> (r: Result<String, NameofError>)
        ensures
            crate::serialization::name_res_view(r) == spec_seg_name(seg_view(self), *en),
    {
        match self.get_format(en) {
            Ok(f) => f.get_name(),
            Err(e) => Err(e),
        }
    }
}

} // verus!
