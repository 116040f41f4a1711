//! Collection behaviour: tail, split and full requests over plain
//! chains, slicing, scope-aware stopping, and interpolation.

use nameof_engine::ast::Arg;
use nameof_engine::ast::ArrayLit;
use nameof_engine::ast::ArrowBody;
use nameof_engine::ast::ArrowExpr;
use nameof_engine::ast::CallExpr;
use nameof_engine::ast::Callee;
use nameof_engine::ast::ComputedPropName;
use nameof_engine::ast::Expr;
use nameof_engine::ast::Ident;
use nameof_engine::ast::IdentName;
use nameof_engine::ast::Lit;
use nameof_engine::ast::LitValue;
use nameof_engine::ast::MemberExpr;
use nameof_engine::ast::MemberProp;
use nameof_engine::ast::MetaPropExpr;
use nameof_engine::ast::NumLit;
use nameof_engine::ast::Pat;
use nameof_engine::ast::Span;
use nameof_engine::ast::SuperMemberProp;
use nameof_engine::ast::SuperPropExpr;
use nameof_engine::ast::TplExpr;
use nameof_engine::ast::UnaryExpr;
use nameof_engine::ast::UnaryOp;
use nameof_engine::diagnostics::NameofError;
use nameof_engine::engine::NameofEngine;

pub fn sp() -> Span {
    Span { lo: 0, hi: 0 }
}

pub fn at(lo: u32) -> Span {
    Span { lo, hi: lo + 1 }
}

pub fn engine() -> NameofEngine {
    NameofEngine { nameof_name: "nameof".to_string(), unresolved_ctxt: 0 }
}

pub fn ident(name: &str) -> Expr {
    Expr::Ident(Ident { span: sp(), name: name.to_string(), ctxt: 1 })
}

pub fn ident_in(name: &str, ctxt: u32) -> Expr {
    Expr::Ident(Ident { span: sp(), name: name.to_string(), ctxt })
}

pub fn global() -> Expr {
    Expr::Ident(Ident { span: sp(), name: "nameof".to_string(), ctxt: 0 })
}

pub fn member(obj: Expr, prop: &str) -> Expr {
    Expr::Member(MemberExpr {
        span: sp(),
        obj: Box::new(obj),
        prop: MemberProp::Ident(IdentName { span: sp(), name: prop.to_string() }),
    })
}

pub fn computed(obj: Expr, key: Expr) -> Expr {
    Expr::Member(MemberExpr {
        span: sp(),
        obj: Box::new(obj),
        prop: MemberProp::Computed(ComputedPropName { span: sp(), expr: Box::new(key) }),
    })
}

pub fn arg(e: Expr) -> Arg {
    Arg { spread: None, expr: Box::new(e) }
}

pub fn plain_call(callee: Expr, args: Vec<Arg>) -> Expr {
    Expr::Call(CallExpr { span: sp(), callee: Callee::Expr(Box::new(callee)), args, type_args: vec![] })
}

/// `nameof(target)`
pub fn nameof_call(args: Vec<Arg>) -> Expr {
    plain_call(global(), args)
}

/// `nameof.<method>(target, ...)`
pub fn nameof_method(method: &str, args: Vec<Arg>) -> Expr {
    plain_call(member(global(), method), args)
}

pub fn num(i: i64) -> Expr {
    Expr::Lit(Lit { span: sp(), value: LitValue::Num(NumLit { text: i.to_string(), value: Some(i) }) })
}

pub fn str_lit_at(span: Span, s: &str) -> Expr {
    Expr::Lit(Lit { span, value: LitValue::Str(s.to_string()) })
}

pub fn out_str(s: &str) -> Expr {
    str_lit_at(sp(), s)
}

pub fn out_array(names: Vec<&str>) -> Expr {
    Expr::Array(ArrayLit {
        span: sp(),
        elems: names.into_iter().map(|n| Some(arg(out_str(n)))).collect(),
    })
}

/// `a.b.c` with default scope tokens.
pub fn chain(names: &[&str]) -> Expr {
    let mut e = ident(names[0]);
    for n in &names[1..] {
        e = member(e, n);
    }
    e
}

#[test]
fn tail_yields_last_segment() {
    let en = engine();
    let r = en.transform_nameof(nameof_call(vec![arg(chain(&["a", "b", "c"]))]));
    assert_eq!(r, Ok(Some(out_str("c"))));
}

#[test]
fn split_yields_all_segments_in_order() {
    let en = engine();
    let r = en.transform_nameof(nameof_method("split", vec![arg(chain(&["a", "b", "c"]))]));
    assert_eq!(r, Ok(Some(out_array(vec!["a", "b", "c"]))));
}

#[test]
fn full_yields_dotted_name() {
    let en = engine();
    let r = en.transform_nameof(nameof_method("full", vec![arg(chain(&["a", "b", "c"]))]));
    assert_eq!(r, Ok(Some(out_str("a.b.c"))));
}

#[test]
fn split_with_positive_start_index_drops_leaf_side() {
    let en = engine();
    let r = en.transform_nameof(
        nameof_method("split", vec![arg(chain(&["a", "b", "c"])), arg(num(1))]),
    );
    assert_eq!(r, Ok(Some(out_array(vec!["a", "b"]))));
}

#[test]
fn split_with_negative_start_index_keeps_leaf_side() {
    let en = engine();
    let minus_one = Expr::Unary(UnaryExpr { span: sp(), op: UnaryOp::Minus, arg: Box::new(num(1)) });
    let r = en.transform_nameof(
        nameof_method("split", vec![arg(chain(&["a", "b", "c"])), arg(minus_one)]),
    );
    assert_eq!(r, Ok(Some(out_array(vec!["c"]))));
}

#[test]
fn full_with_start_index_slices_dotted_name() {
    let en = engine();
    let r = en.transform_nameof(
        nameof_method("full", vec![arg(chain(&["a", "b", "c"])), arg(num(1))]),
    );
    assert_eq!(r, Ok(Some(out_str("a.b"))));
}

#[test]
fn oversized_start_index_leaves_empty_result() {
    let en = engine();
    let r = en.transform_nameof(
        nameof_method("split", vec![arg(chain(&["a", "b"])), arg(num(5))]),
    );
    assert_eq!(r, Ok(Some(out_array(vec![]))));
}

/// A local parameter's scope token.
const LOCAL: u32 = 7;

fn arrow_over_local(body: Expr) -> Expr {
    Expr::Arrow(ArrowExpr {
        span: sp(),
        params: vec![Pat::Ident(LOCAL)],
        body: ArrowBody::Expr(Box::new(body)),
    })
}

fn local_chain(names: &[&str]) -> Expr {
    let mut e = ident_in(names[0], LOCAL);
    for n in &names[1..] {
        e = member(e, n);
    }
    e
}

#[test]
fn full_stops_before_local_parameter() {
    let en = engine();
    let target = arrow_over_local(local_chain(&["x", "y", "z"]));
    let r = en.transform_nameof(nameof_method("full", vec![arg(target)]));
    assert_eq!(r, Ok(Some(out_str("y.z"))));
}

#[test]
fn split_stops_before_local_parameter() {
    let en = engine();
    let target = arrow_over_local(local_chain(&["x", "y", "z"]));
    let r = en.transform_nameof(nameof_method("split", vec![arg(target)]));
    assert_eq!(r, Ok(Some(out_array(vec!["y", "z"]))));
}

#[test]
fn collecting_a_bare_local_raises_missing_accessor() {
    let en = engine();
    let target = arrow_over_local(ident_in("x", LOCAL));
    let r = en.transform_nameof(nameof_method("full", vec![arg(target)]));
    match r {
        Err(NameofError::MissingAccessor { name, .. }) => assert_eq!(name, "x".to_string()),
        other => panic!("expected MissingAccessor, got {:?}", other),
    }
}

#[test]
fn tail_on_a_bare_local_is_permitted() {
    let en = engine();
    let target = arrow_over_local(ident_in("x", LOCAL));
    let r = en.transform_nameof(nameof_call(vec![arg(target)]));
    assert_eq!(r, Ok(Some(out_str("x"))));
}

#[test]
fn reclassifying_an_output_yields_no_request() {
    let en = engine();
    let out = en
        .transform_nameof(nameof_method("full", vec![arg(chain(&["a", "b"]))]))
        .unwrap()
        .unwrap();
    assert_eq!(en.transform_nameof(out), Ok(None));
    let out2 = en
        .transform_nameof(nameof_method("split", vec![arg(chain(&["a", "b"]))]))
        .unwrap()
        .unwrap();
    assert_eq!(en.transform_nameof(out2), Ok(None));
}

#[test]
fn computed_string_key_renders_in_brackets() {
    let en = engine();
    let target = member(computed(ident("a"), str_lit_at(at(3), "k")), "b");
    let r = en.transform_nameof(nameof_method("full", vec![arg(target)]));
    assert_eq!(r, Ok(Some(out_str("a[\"k\"].b"))));
}

#[test]
fn computed_number_key_renders_in_brackets() {
    let en = engine();
    let target = member(computed(ident("a"), num(1)), "b");
    let r = en.transform_nameof(nameof_method("full", vec![arg(target)]));
    assert_eq!(r, Ok(Some(out_str("a[1].b"))));
}

#[test]
fn computed_key_becomes_the_name_under_split() {
    let en = engine();
    let target = member(computed(ident("a"), str_lit_at(sp(), "k")), "b");
    let r = en.transform_nameof(nameof_method("split", vec![arg(target)]));
    assert_eq!(r, Ok(Some(out_array(vec!["a", "k", "b"]))));
}

#[test]
fn unsupported_computed_key_is_rejected() {
    let en = engine();
    let target = member(computed(ident("a"), ident("dynamic")), "b");
    let r = en.transform_nameof(nameof_method("split", vec![arg(target)]));
    assert!(matches!(r, Err(NameofError::UnsupportedIndexer(_))));
}

fn interpolate_call(payload: Expr) -> Expr {
    nameof_method("interpolate", vec![arg(payload)])
}

#[test]
fn interpolation_inside_full_opens_a_hole() {
    let en = engine();
    let target = member(computed(ident("a"), interpolate_call(ident("idx"))), "b");
    let r = en.transform_nameof(nameof_method("full", vec![arg(target)]));
    let expected = Expr::Tpl(TplExpr {
        span: sp(),
        quasis: vec!["a[".to_string(), ".b".to_string()],
        exprs: vec![ident("idx")],
    });
    assert_eq!(r, Ok(Some(expected)));
}

#[test]
fn interpolation_under_split_is_rejected() {
    let en = engine();
    let icall_span = at(9);
    let icall = Expr::Call(CallExpr {
        span: icall_span,
        callee: Callee::Expr(Box::new(member(global(), "interpolate"))),
        args: vec![arg(ident("idx"))],
        type_args: vec![],
    });
    let target = member(computed(ident("a"), icall), "b");
    let r = en.transform_nameof(nameof_method("split", vec![arg(target)]));
    assert_eq!(r, Err(NameofError::UnsupportedInterpolation(icall_span)));
}

#[test]
fn standalone_interpolation_is_unused() {
    let en = engine();
    let r = en.transform_nameof(interpolate_call(ident("x")));
    assert!(matches!(r, Err(NameofError::UnusedInterpolation(_))));
}

#[test]
fn this_resolves_to_its_keyword() {
    let en = engine();
    let r = en.transform_nameof(nameof_call(vec![arg(Expr::This(sp()))]));
    assert_eq!(r, Ok(Some(out_str("this"))));
}

#[test]
fn super_property_walks_to_the_super_keyword() {
    let en = engine();
    let target = Expr::SuperProp(SuperPropExpr {
        span: sp(),
        super_span: sp(),
        prop: SuperMemberProp::Ident(IdentName { span: sp(), name: "x".to_string() }),
    });
    let r = en.transform_nameof(nameof_method("full", vec![arg(target)]));
    assert_eq!(r, Ok(Some(out_str("super.x"))));
}

#[test]
fn meta_property_expands_its_dotted_parts() {
    let en = engine();
    let target = Expr::MetaProp(MetaPropExpr {
        span: sp(),
        parts: vec!["new".to_string(), "target".to_string()],
    });
    let r = en.transform_nameof(nameof_method("full", vec![arg(target)]));
    assert_eq!(r, Ok(Some(out_str("new.target"))));
}

#[test]
fn wrappers_are_looked_through() {
    let en = engine();
    let target = Expr::Wrapped(sp(), Box::new(chain(&["a", "b"])));
    let r = en.transform_nameof(nameof_method("full", vec![arg(target)]));
    assert_eq!(r, Ok(Some(out_str("a.b"))));
}

#[test]
fn nested_wrappers_are_looked_through() {
    // wrappers stay transparent however deeply they nest
    let en = engine();
    let target = Expr::Wrapped(sp(), Box::new(Expr::Wrapped(sp(), Box::new(chain(&["a", "b"])))));
    let r = en.transform_nameof(nameof_method("split", vec![arg(target)]));
    assert_eq!(r, Ok(Some(out_array(vec!["a", "b"]))));
}

#[test]
fn wrapped_member_object_continues_the_chain() {
    // a chain whose object sits under a parenthesized type assertion
    // still walks to its root
    let en = engine();
    let wrapped_obj = Expr::Wrapped(
        sp(),
        Box::new(Expr::Wrapped(sp(), Box::new(chain(&["a", "b"])))),
    );
    let target = member(wrapped_obj, "c");
    let r = en.transform_nameof(nameof_method("full", vec![arg(target)]));
    assert_eq!(r, Ok(Some(out_str("a.b.c"))));
}

#[test]
fn private_name_property_renders_with_hash() {
    let en = engine();
    let target = Expr::Member(MemberExpr {
        span: sp(),
        obj: Box::new(ident("a")),
        prop: MemberProp::PrivateName(IdentName { span: sp(), name: "p".to_string() }),
    });
    let r = en.transform_nameof(nameof_method("full", vec![arg(target)]));
    assert_eq!(r, Ok(Some(out_str("a.#p"))));
}

#[test]
fn non_integer_index_is_not_taken_as_an_index() {
    // the trailing literal denotes no integer, so it stays an
    // argument; two arguments fit no request shape
    let en = engine();
    let half = Expr::Lit(Lit {
        span: sp(),
        value: LitValue::Num(NumLit { text: "1.5".to_string(), value: None }),
    });
    let r = en.transform_nameof(nameof_method("full", vec![arg(chain(&["a", "b"])), arg(half)]));
    match r {
        Err(NameofError::ArgumentError { type_arg_count, arg_count, .. }) => {
            assert_eq!(type_arg_count, 0);
            assert_eq!(arg_count, 2);
        },
        other => panic!("expected ArgumentError, got {:?}", other),
    }
}
