//! The shapes a recognized request can take, and the formats segments
//! resolve to on their way into the replacement literal.

use vstd::prelude::*;

use crate::ast::CallExpr;
use crate::ast::LitValue;
use crate::diagnostics::ErrView;
use crate::diagnostics::NameofError;
use crate::diagnostics::err_view;
use crate::target::NamedNode;

verus! {

/// The output shape of a collecting substitution.
#[derive(Debug, Clone, Copy, PartialEq, Eq, Structural)]
pub enum CollectOutput {
    /// An array of segment names.
    Array,
    /// A single dotted (possibly templated) name.
    Full,
}

/// A method of the `nameof` interface.
#[derive(Debug, Clone, Copy, PartialEq, Eq, Structural)]
pub enum NameofMethod {
    /// `full` or `split`: act on every part of the target's name.
    Collect(CollectOutput),
    /// `interpolate`: splice an expression into a `full` result; never
    /// valid as a request of its own.
    Interpolate,
    /// `array`: the name of each of several independent targets.
    Array,
}

/// A common (call-shaped) `nameof` request.
#[derive(Debug, Clone, Copy, PartialEq, Eq)]
pub struct CommonExpr {
    /// The requested method; `None` denotes the implicit tail request.
    pub method: Option<NameofMethod>,
}

/// The classification of a node as a `nameof` request.
#[derive(Debug, Clone, Copy, PartialEq, Eq)]
pub enum NameofExpression {
    /// A call on the recognized global, plain or with a method suffix.
    Common(CommonExpr),
    /// A property access hanging off a `typed` call; the whole member
    /// expression is the request's target.
    Typed,
}

/// The substitution a classified request resolves to.
#[derive(Debug, PartialEq)]
pub enum NameSubstitution {
    /// Replace the request with the last segment's name alone.
    Tail(NamedNode),
    /// Replace the request with a collection over the whole chain.
    Collect {
        /// The slicing start index, if one was given.
        start_index: Option<i64>,
        /// The scope tokens of the request's local variables.
        local_contexts: Vec<u32>,
        /// The requested output shape.
        output: CollectOutput,
        /// The target the walk starts at.
        node: NamedNode,
    },
    /// Replace the request with the names of several targets.
    Array { local_contexts: Vec<u32>, nodes: Vec<NamedNode> },
}

/// The resolved format of one segment of a name.
#[derive(Debug, PartialEq)]
pub enum SegmentFormat {
    /// A plain identifier-like segment.
    Ident(String),
    /// A computed property with a literal key.
    ComputedProp(LitValue),
    /// A computed property holding a nested `interpolate` request; the
    /// payload is the interpolation call itself.
    Interpolation(CallExpr),
}

/// The mathematical image of a [`SegmentFormat`].
pub enum FormatView {
    Ident(Seq<char>),
    ComputedStr(Seq<char>),
    ComputedNum { text: Seq<char>, value: Option<int> },
    Interpolation(CallExpr),
}

/// Maps a segment format onto its mathematical image.
pub open spec fn fmt_view(f: SegmentFormat) -> FormatView {
    match f {
        SegmentFormat::Ident(s) => FormatView::Ident(s@),
        SegmentFormat::ComputedProp(LitValue::Str(s)) => FormatView::ComputedStr(s@),
        SegmentFormat::ComputedProp(LitValue::Num(n)) => FormatView::ComputedNum {
            text: n.text@,
            value: match n.value {
                Some(v) => Some(v as int),
                None => None,
            },
        },
        SegmentFormat::Interpolation(call) => FormatView::Interpolation(call),
    }
}

/// The name a segment format contributes, or the error it raises.
/// An interpolation has no name of its own: outside a `full` request
/// it is rejected.
pub open spec fn spec_format_name(f: FormatView) -> Result<Seq<char>, ErrView> {
    match f {
        FormatView::Ident(s) => Ok(s),
        FormatView::ComputedStr(s) => Ok(s),
        FormatView::ComputedNum { text, .. } => Ok(text),
        FormatView::Interpolation(call) => Err(ErrView::UnsupportedInterpolation(call.span)),
    }
}

/// Maps a name-or-error result onto its mathematical image.
pub open spec fn name_res_view(r: Result<String, NameofError>) -> Result<Seq<char>, ErrView> {
    match r {
        Ok(s) => Ok(s@),
        Err(e) => Err(err_view(e)),
    }
}

impl SegmentFormat {
    /// The name this segment contributes to a collected result.
    pub fn get_name(self) -> (r: Result<String, NameofError>)
        ensures
            name_res_view(r) == spec_format_name(fmt_view(self)),
    {
        match self {
            SegmentFormat::Ident(s) => Ok(s),
            SegmentFormat::ComputedProp(LitValue::Str(s)) => Ok(s),
            SegmentFormat::ComputedProp(LitValue::Num(n)) => Ok(n.text),
            SegmentFormat::Interpolation(call) => Err(
                NameofError::UnsupportedInterpolation(call.span),
            ),
        }
    }
}

} // verus!
