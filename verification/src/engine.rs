//! The engine's configuration and the request classifier.

use vstd::prelude::*;

use crate::ast::CallExpr;
use crate::ast::Callee;
use crate::ast::Expr;
use crate::ast::Ident;
use crate::ast::IdentName;
use crate::ast::MemberProp;
use crate::diagnostics::ErrView;
use crate::diagnostics::NameofError;
use crate::diagnostics::res_view;
use crate::serialization::CollectOutput;
use crate::serialization::CommonExpr;
use crate::serialization::NameofExpression;
use crate::serialization::NameofMethod;

verus! {

/// The engine's configuration: the name of the recognized global entry
/// point and the scope token the host assigns to unresolved globals.
pub struct NameofEngine {
    pub nameof_name: String,
    pub unresolved_ctxt: u32,
}

/// Whether `id` denotes the recognized global entry point: it carries
/// the unresolved scope token and the configured name.
pub open spec fn spec_is_global(en: NameofEngine, id: Ident) -> bool {
    id.ctxt == en.unresolved_ctxt && id.name@ == en.nameof_name@
}

/// The method a method-name token resolves to, if it is one of the
/// closed vocabulary.
pub open spec fn spec_method_of(name: Seq<char>) -> Option<NameofMethod> {
    if name == "full"@ {
        Some(NameofMethod::Collect(CollectOutput::Full))
    } else if name == "interpolate"@ {
        Some(NameofMethod::Interpolate)
    } else if name == "array"@ {
        Some(NameofMethod::Array)
    } else if name == "split"@ {
        Some(NameofMethod::Collect(CollectOutput::Array))
    } else {
        None
    }
}

/// Classification of the callee of a call expression.
pub open spec fn spec_classify_callee(en: NameofEngine, callee: Expr) -> Result<
    Option<NameofExpression>,
    ErrView,
> {
    match callee {
        Expr::Ident(id) => if spec_is_global(en, id) {
            Ok(Some(NameofExpression::Common(CommonExpr { method: None })))
        } else {
            Ok(None)
        },
        Expr::Member(m) => match m.prop {
            MemberProp::Ident(prop) => match *m.obj {
                Expr::Ident(id) => if spec_is_global(en, id) {
                    match spec_method_of(prop.name@) {
                        Some(method) => Ok(
                            Some(NameofExpression::Common(CommonExpr { method: Some(method) })),
                        ),
                        None => Err(ErrView::InvalidMethod { span: prop.span, name: prop.name@ }),
                    }
                } else {
                    Ok(None)
                },
                _ => Ok(None),
            },
            _ => Ok(None),
        },
        _ => Ok(None),
    }
}

/// Classification of a node as a `nameof` request.
///
/// A call on the bare recognized global is the implicit tail request; a
/// call on `<global>.<method>` resolves the method against the closed
/// vocabulary, any other method name being `InvalidMethod`.  A member
/// access whose object classifies to `InvalidMethod` for the reserved
/// name `typed` is a typed request over the whole member expression.
/// Everything else — literals in particular — is not a request.
pub open spec fn spec_classify(en: NameofEngine, e: Expr) -> Result<
    Option<NameofExpression>,
    ErrView,
>
    decreases e,
{
    match e {
        Expr::Call(call) => match call.callee {
            Callee::Expr(callee) => spec_classify_callee(en, *callee),
            _ => Ok(None),
        },
        Expr::Member(m) => match spec_classify(en, *m.obj) {
            Err(ErrView::InvalidMethod { name, .. }) => if name == "typed"@ {
                Ok(Some(NameofExpression::Typed))
            } else {
                Ok(None)
            },
            _ => Ok(None),
        },
        _ => Ok(None),
    }
}

impl NameofEngine {
    /// Whether the specified identifier is the recognized global
    /// `nameof` object.
    pub fn is_global_nameof(&self, id: &Ident) -> (r: bool)
        ensures
            r == spec_is_global(*self, *id),
    {
        id.ctxt == self.unresolved_ctxt && id.name == self.nameof_name
    }

    /// Resolves a method-name token against the closed vocabulary, or
    /// reports it as invalid.
    fn method_of(prop: &IdentName) -> (r: Result<NameofMethod, NameofError>)
        ensures
            (match r {
                Ok(m) => spec_method_of(prop.name@) == Some(m),
                Err(e) => spec_method_of(prop.name@) == None::<NameofMethod> && e
                    == (NameofError::InvalidMethod(
                    IdentName { span: prop.span, name: prop.name },
                )),
            }),
    {
        if prop.name == String::from_str("full") {
            Ok(NameofMethod::Collect(CollectOutput::Full))
        } else if prop.name == String::from_str("interpolate") {
            Ok(NameofMethod::Interpolate)
        } else if prop.name == String::from_str("array") {
            Ok(NameofMethod::Array)
        } else if prop.name == String::from_str("split") {
            Ok(NameofMethod::Collect(CollectOutput::Array))
        } else {
            Err(NameofError::InvalidMethod(IdentName { span: prop.span, name: prop.name.clone() }))
        }
    }

    /// Classification of the callee of a call.
    fn classify_callee(&self, callee: &Expr) -> (r: Result<Option<NameofExpression>, NameofError>)
        ensures
            res_view(r) == spec_classify_callee(*self, *callee),
    {
        match callee {
            Expr::Ident(id) => if self.is_global_nameof(id) {
                Ok(Some(NameofExpression::Common(CommonExpr { method: None })))
            } else {
                Ok(None)
            },
            Expr::Member(m) => match &m.prop {
                MemberProp::Ident(prop) => match &*m.obj {
                    Expr::Ident(id) => if self.is_global_nameof(id) {
                        match Self::method_of(prop) {
                            Ok(method) => Ok(
                                Some(
                                    NameofExpression::Common(CommonExpr { method: Some(method) }),
                                ),
                            ),
                            Err(e) => Err(e),
                        }
                    } else {
                        Ok(None)
                    },
                    _ => Ok(None),
                },
                _ => Ok(None),
            },
            _ => Ok(None),
        }
    }

    /// Classifies a call expression as a `nameof` request.
    pub fn classify_call(&self, call: &CallExpr) -> (r: Result<
        Option<NameofExpression>,
        NameofError,
    >)
        ensures
            res_view(r) == spec_classify(*self, Expr::Call(*call)),
    {
        match &call.callee {
            Callee::Expr(callee) => self.classify_callee(callee),
            _ => Ok(None),
        }
    }

    /// Classifies `node` as a `nameof` request.
    ///
    /// Returns `Ok(None)` if the node is no request at all, the
    /// request's shape if it is one, and an error if it names an
    /// invalid method.  The node itself is left with the caller; a
    /// recognized request is always a call or a member expression, so
    /// the caller can recover the payload by matching again.
    pub fn get_nameof_expression(&self, node: &Expr) -> (r: Result<
        Option<NameofExpression>,
        NameofError,
    >)
        ensures
            res_view(r) == spec_classify(*self, *node),
        decreases *node,
    {
        match node {
            Expr::Call(call) => self.classify_call(call),
            Expr::Member(m) => match self.get_nameof_expression(&m.obj) {
                Err(NameofError::InvalidMethod(id)) => if id.name == String::from_str("typed") {
                    Ok(Some(NameofExpression::Typed))
                } else {
                    Ok(None)
                },
                _ => Ok(None),
            },
            _ => Ok(None),
        }
    }
}

} // verus!
