//! Request classification, argument-shape errors, `array` requests,
//! typed requests and type targets.

use nameof_engine::ast::Arg;
use nameof_engine::ast::ArrayLit;
use nameof_engine::ast::ArrowBody;
use nameof_engine::ast::ArrowExpr;
use nameof_engine::ast::CallExpr;
use nameof_engine::ast::Callee;
use nameof_engine::ast::Expr;
use nameof_engine::ast::Ident;
use nameof_engine::ast::IdentName;
use nameof_engine::ast::Lit;
use nameof_engine::ast::LitValue;
use nameof_engine::ast::MemberExpr;
use nameof_engine::ast::MemberProp;
use nameof_engine::ast::Pat;
use nameof_engine::ast::Span;
use nameof_engine::ast::Stmt;
use nameof_engine::ast::TsEntityName;
use nameof_engine::ast::TsQualifiedName;
use nameof_engine::ast::TsType;
use nameof_engine::diagnostics::NameofError;
use nameof_engine::engine::NameofEngine;
use nameof_engine::serialization::CollectOutput;
use nameof_engine::serialization::CommonExpr;
use nameof_engine::serialization::NameofExpression;
use nameof_engine::serialization::NameofMethod;

fn sp() -> Span {
    Span { lo: 0, hi: 0 }
}

fn at(lo: u32) -> Span {
    Span { lo, hi: lo + 1 }
}

fn engine() -> NameofEngine {
    NameofEngine { nameof_name: "nameof".to_string(), unresolved_ctxt: 0 }
}

fn ident(name: &str) -> Expr {
    Expr::Ident(Ident { span: sp(), name: name.to_string(), ctxt: 1 })
}

fn global() -> Expr {
    Expr::Ident(Ident { span: sp(), name: "nameof".to_string(), ctxt: 0 })
}

fn member(obj: Expr, prop: &str) -> Expr {
    Expr::Member(MemberExpr {
        span: sp(),
        obj: Box::new(obj),
        prop: MemberProp::Ident(IdentName { span: sp(), name: prop.to_string() }),
    })
}

fn member_at(obj: Expr, prop: &str, prop_span: Span) -> Expr {
    Expr::Member(MemberExpr {
        span: sp(),
        obj: Box::new(obj),
        prop: MemberProp::Ident(IdentName { span: prop_span, name: prop.to_string() }),
    })
}

fn arg(e: Expr) -> Arg {
    Arg { spread: None, expr: Box::new(e) }
}

fn call_of(callee: Expr, args: Vec<Arg>, type_args: Vec<TsType>) -> Expr {
    Expr::Call(CallExpr { span: sp(), callee: Callee::Expr(Box::new(callee)), args, type_args })
}

fn nameof_call(args: Vec<Arg>) -> Expr {
    call_of(global(), args, vec![])
}

fn nameof_method(method: &str, args: Vec<Arg>) -> Expr {
    call_of(member(global(), method), args, vec![])
}

fn out_str(s: &str) -> Expr {
    Expr::Lit(Lit { span: sp(), value: LitValue::Str(s.to_string()) })
}

fn out_array(names: Vec<&str>) -> Expr {
    Expr::Array(ArrayLit {
        span: sp(),
        elems: names.into_iter().map(|n| Some(arg(out_str(n)))).collect(),
    })
}

fn chain(names: &[&str]) -> Expr {
    let mut e = ident(names[0]);
    for n in &names[1..] {
        e = member(e, n);
    }
    e
}

fn type_ref(name: &str) -> TsType {
    TsType::Ref(sp(), TsEntityName::Ident(Ident { span: sp(), name: name.to_string(), ctxt: 1 }))
}

#[test]
fn classification_recognizes_each_method() {
    let en = engine();
    let cases: Vec<(&str, NameofMethod)> = vec![
        ("full", NameofMethod::Collect(CollectOutput::Full)),
        ("split", NameofMethod::Collect(CollectOutput::Array)),
        ("array", NameofMethod::Array),
        ("interpolate", NameofMethod::Interpolate),
    ];
    for (name, method) in cases {
        let r = en.get_nameof_expression(&nameof_method(name, vec![arg(ident("a"))]));
        assert_eq!(
            r,
            Ok(Some(NameofExpression::Common(CommonExpr { method: Some(method) }))),
        );
    }
    let bare = en.get_nameof_expression(&nameof_call(vec![arg(ident("a"))]));
    assert_eq!(bare, Ok(Some(NameofExpression::Common(CommonExpr { method: None }))));
}

#[test]
fn literals_are_not_requests() {
    let en = engine();
    assert_eq!(en.get_nameof_expression(&out_str("a.b")), Ok(None));
    assert_eq!(en.get_nameof_expression(&ident("nameof")), Ok(None));
}

#[test]
fn another_binding_named_nameof_is_not_the_global() {
    // same name, different scope token: not the recognized global
    let en = engine();
    let shadowed = Expr::Ident(Ident { span: sp(), name: "nameof".to_string(), ctxt: 5 });
    let r = en.transform_nameof(call_of(shadowed, vec![arg(ident("a"))], vec![]));
    assert_eq!(r, Ok(None));
}

#[test]
fn invalid_method_reports_the_offending_token() {
    let en = engine();
    let bogus_span = at(42);
    let callee = member_at(global(), "bogus", bogus_span);
    let r = en.transform_nameof(call_of(callee, vec![arg(ident("x"))], vec![]));
    assert_eq!(
        r,
        Err(NameofError::InvalidMethod(IdentName { span: bogus_span, name: "bogus".to_string() })),
    );
}

#[test]
fn argument_count_mismatch_reports_both_counts() {
    let en = engine();
    let r = en.transform_nameof(nameof_call(vec![arg(ident("a")), arg(ident("b"))]));
    match r {
        Err(NameofError::ArgumentError { type_arg_count, arg_count, .. }) => {
            assert_eq!(type_arg_count, 0);
            assert_eq!(arg_count, 2);
        },
        other => panic!("expected ArgumentError, got {:?}", other),
    }
}

#[test]
fn spread_argument_is_rejected() {
    let en = engine();
    let spread_span = at(5);
    let spread_arg = Arg { spread: Some(spread_span), expr: Box::new(ident("a")) };
    let r = en.transform_nameof(nameof_call(vec![spread_arg]));
    assert_eq!(r, Err(NameofError::Spread(spread_span)));
}

#[test]
fn function_body_without_return_is_rejected() {
    let en = engine();
    let arrow_span = at(11);
    let target = Expr::Arrow(ArrowExpr {
        span: arrow_span,
        params: vec![Pat::Ident(7)],
        body: ArrowBody::Block(vec![Stmt::Unsupported(sp()), Stmt::Return(sp(), None)]),
    });
    let r = en.transform_nameof(nameof_call(vec![arg(target)]));
    assert_eq!(r, Err(NameofError::NoReturnedNode(arrow_span)));
}

#[test]
fn arrow_block_resolves_its_last_returned_expression() {
    let en = engine();
    let target = Expr::Arrow(ArrowExpr {
        span: sp(),
        params: vec![],
        body: ArrowBody::Block(vec![
            Stmt::Unsupported(sp()),
            Stmt::Return(sp(), Some(Box::new(chain(&["a", "b"])))),
        ]),
    });
    let r = en.transform_nameof(nameof_call(vec![arg(target)]));
    assert_eq!(r, Ok(Some(out_str("b"))));
}

#[test]
fn array_over_an_array_literal_keeps_declaration_order() {
    let en = engine();
    let list = Expr::Array(ArrayLit {
        span: sp(),
        elems: vec![Some(arg(chain(&["a", "b"]))), None, Some(arg(chain(&["c", "d"])))],
    });
    let r = en.transform_nameof(nameof_method("array", vec![arg(list)]));
    assert_eq!(r, Ok(Some(out_array(vec!["b", "d"]))));
}

#[test]
fn array_over_several_arguments_keeps_declaration_order() {
    let en = engine();
    let r = en.transform_nameof(
        nameof_method("array", vec![arg(ident("a")), arg(chain(&["c", "d"]))]),
    );
    assert_eq!(r, Ok(Some(out_array(vec!["a", "d"]))));
}

#[test]
fn array_over_type_arguments_lists_their_names() {
    let en = engine();
    let r = en.transform_nameof(call_of(
        member(global(), "array"),
        vec![],
        vec![type_ref("T"), type_ref("U")],
    ));
    assert_eq!(r, Ok(Some(out_array(vec!["T", "U"]))));
}

#[test]
fn array_without_targets_is_empty() {
    let en = engine();
    let r = en.transform_nameof(nameof_method("array", vec![]));
    assert_eq!(r, Ok(Some(out_array(vec![]))));
}

#[test]
fn array_elements_may_be_requests_themselves() {
    let en = engine();
    let nested = nameof_method("full", vec![arg(chain(&["a", "b"]))]);
    let r = en.transform_nameof(nameof_method("array", vec![arg(nested), arg(ident("c"))]));
    assert_eq!(r, Ok(Some(out_array(vec!["a.b", "c"]))));
}

#[test]
fn typed_request_takes_the_accessed_property_name() {
    let en = engine();
    let typed_call = call_of(member(global(), "typed"), vec![arg(ident("x"))], vec![]);
    let target = member(typed_call, "y");
    let r = en.transform_nameof(target);
    assert_eq!(r, Ok(Some(out_str("y"))));
}

#[test]
fn typed_request_binds_to_the_innermost_access() {
    // a further access above the typed request is no request itself:
    // the host keeps descending and replaces the inner one
    let en = engine();
    let typed_call = call_of(member(global(), "typed"), vec![arg(ident("x"))], vec![]);
    let outer = member(member(typed_call, "y"), "z");
    assert_eq!(en.transform_nameof(outer), Ok(None));
}

#[test]
fn bare_typed_call_is_an_invalid_method() {
    let en = engine();
    let r = en.transform_nameof(call_of(member(global(), "typed"), vec![arg(ident("x"))], vec![]));
    match r {
        Err(NameofError::InvalidMethod(id)) => assert_eq!(id.name, "typed".to_string()),
        other => panic!("expected InvalidMethod, got {:?}", other),
    }
}

#[test]
fn type_argument_resolves_as_the_target() {
    let en = engine();
    let r = en.transform_nameof(call_of(global(), vec![], vec![type_ref("T")]));
    assert_eq!(r, Ok(Some(out_str("T"))));
}

#[test]
fn nested_type_parentheses_are_looked_through() {
    let en = engine();
    let a = TsEntityName::Ident(Ident { span: sp(), name: "A".to_string(), ctxt: 1 });
    let ab = TsEntityName::Qualified(Box::new(TsQualifiedName {
        span: sp(),
        left: Box::new(a),
        right: IdentName { span: sp(), name: "B".to_string() },
    }));
    let wrapped = TsType::Paren(
        sp(),
        Box::new(TsType::Paren(sp(), Box::new(TsType::Ref(sp(), ab)))),
    );
    let r = en.transform_nameof(call_of(member(global(), "full"), vec![], vec![wrapped]));
    assert_eq!(r, Ok(Some(out_str("A.B"))));
}

#[test]
fn qualified_type_name_collects_fully() {
    let en = engine();
    let a = TsEntityName::Ident(Ident { span: sp(), name: "A".to_string(), ctxt: 1 });
    let ab = TsEntityName::Qualified(Box::new(TsQualifiedName {
        span: sp(),
        left: Box::new(a),
        right: IdentName { span: sp(), name: "B".to_string() },
    }));
    let abc = TsEntityName::Qualified(Box::new(TsQualifiedName {
        span: sp(),
        left: Box::new(ab),
        right: IdentName { span: sp(), name: "C".to_string() },
    }));
    let r = en.transform_nameof(call_of(
        member(global(), "full"),
        vec![],
        vec![TsType::Ref(sp(), abc)],
    ));
    assert_eq!(r, Ok(Some(out_str("A.B.C"))));
}

#[test]
fn keyword_type_resolves_to_its_text() {
    let en = engine();
    let r = en.transform_nameof(call_of(
        global(),
        vec![],
        vec![TsType::Keyword(sp(), "string".to_string())],
    ));
    assert_eq!(r, Ok(Some(out_str("string"))));
}

#[test]
fn indexed_access_type_renders_its_key() {
    let en = engine();
    let indexed = TsType::IndexedAccess(
        sp(),
        Box::new(type_ref("T")),
        Box::new(TsType::LitType(sp(), nameof_engine::ast::TsLit::Str("k".to_string()))),
    );
    let r = en.transform_nameof(call_of(member(global(), "full"), vec![], vec![indexed]));
    assert_eq!(r, Ok(Some(out_str("T[\"k\"]"))));
}

#[test]
fn tuple_type_expands_under_array() {
    let en = engine();
    let tuple = TsType::Tuple(sp(), vec![type_ref("T"), type_ref("U")]);
    let r = en.transform_nameof(call_of(member(global(), "array"), vec![], vec![tuple]));
    assert_eq!(r, Ok(Some(out_array(vec!["T", "U"]))));
}

#[test]
fn unsupported_target_is_rejected_with_the_node() {
    let en = engine();
    let r = en.transform_nameof(nameof_call(vec![arg(out_str("just a string"))]));
    assert!(matches!(r, Err(NameofError::UnsupportedNode(_))));
}

#[test]
fn is_global_nameof_checks_name_and_scope() {
    let en = engine();
    let yes = Ident { span: sp(), name: "nameof".to_string(), ctxt: 0 };
    let wrong_name = Ident { span: sp(), name: "other".to_string(), ctxt: 0 };
    let wrong_scope = Ident { span: sp(), name: "nameof".to_string(), ctxt: 3 };
    assert!(en.is_global_nameof(&yes));
    assert!(!en.is_global_nameof(&wrong_name));
    assert!(!en.is_global_nameof(&wrong_scope));
}
