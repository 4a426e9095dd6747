use ts_type_doc::ast::{
    ArrayLit, ArrowExpr, BigInt, BindingIdent, Bool, CallExpr, Callee, Expr, ExprOrSpread, FnExpr,
    Function, Ident, Lit, MemberExpr, MemberProp, NewExpr, Number, Param, Pat, Regex, Str, Tpl,
    TplElement, TsConstAssertion, TsEntityName, TsKeywordType, TsKeywordTypeKind, TsType,
    TsTypeAnn, TsTypeParam, TsTypeParamDecl, TsTypeParamInstantiation, TsTypeRef, VarDeclarator,
};
use ts_type_doc::infer::{
    arrow_expr_to_fn_def, contains_def, fn_expr_to_fn_def, infer_simple_ts_type_from_var_decl,
    infer_ts_type_from_arr_lit, infer_ts_type_from_expr,
};
use ts_type_doc::span::Span;
use ts_type_doc::ts_type::{LiteralDefKind, TsTypeDef, TsTypeDefKind};

fn sp() -> Span {
    Span::new(0, 0)
}

fn ident(name: &str) -> Ident {
    Ident { span: sp(), sym: name.to_string(), optional: false }
}

fn str_lit(value: &str) -> Expr {
    Expr::Lit(Lit::Str(Str { span: sp(), value: value.to_string() }))
}

fn num_lit(value: f64) -> Expr {
    Expr::Lit(Lit::Num(Number { span: sp(), bits: value.to_bits(), text: format!("{}", value) }))
}

fn call(name: &str) -> Expr {
    Expr::Call(CallExpr { span: sp(), callee: Callee::Expr(Box::new(Expr::Ident(ident(name)))) })
}

fn element(expr: Expr) -> Option<ExprOrSpread> {
    Some(ExprOrSpread { spread: None, expr: Box::new(expr) })
}

fn array_lit(elems: Vec<Option<ExprOrSpread>>) -> ArrayLit {
    ArrayLit { span: sp(), elems }
}

fn as_const(expr: Expr) -> Expr {
    Expr::TsConstAssertion(TsConstAssertion { span: sp(), expr: Box::new(expr) })
}

fn string_kw() -> TsType {
    TsType::TsKeywordType(TsKeywordType { span: sp(), kind: TsKeywordTypeKind::TsStringKeyword })
}

fn quasi(raw: &str) -> TplElement {
    TplElement { span: sp(), raw: raw.to_string() }
}

#[test]
fn const_array_of_equal_literals_collapses_to_one_type() {
    let expr = as_const(Expr::Array(array_lit(vec![element(str_lit("a")), element(str_lit("a"))])));
    let def = infer_ts_type_from_expr(&expr, true).unwrap();
    assert_eq!(def.kind, Some(TsTypeDefKind::Array));
    let elem = def.array.as_ref().unwrap();
    assert_eq!(elem.kind, Some(TsTypeDefKind::Literal));
    assert_eq!(elem.literal.as_ref().unwrap().kind, LiteralDefKind::String);
    assert_eq!(elem.literal.as_ref().unwrap().string, Some("a".to_string()));
    assert_eq!(def.to_string(), "\"a\"[]");
}

#[test]
fn const_array_of_two_literals_is_an_array_of_their_union() {
    let expr = as_const(Expr::Array(array_lit(vec![element(str_lit("a")), element(num_lit(1.0))])));
    let def = infer_ts_type_from_expr(&expr, false).unwrap();
    assert_eq!(def.kind, Some(TsTypeDefKind::Array));
    let union = def.array.as_ref().unwrap();
    assert_eq!(union.kind, Some(TsTypeDefKind::Union));
    let members = union.union.as_ref().unwrap();
    assert_eq!(members.len(), 2);
    assert_eq!(members[0].literal.as_ref().unwrap().string, Some("a".to_string()));
    assert_eq!(members[1].literal.as_ref().unwrap().number, Some(1.0f64.to_bits()));
    assert_eq!(def.to_string(), "(\"a\" | 1)[]");
}

#[test]
fn array_with_an_element_that_says_nothing_is_any_array() {
    let expr = as_const(Expr::Array(array_lit(vec![element(str_lit("a")), element(call("f"))])));
    let def = infer_ts_type_from_expr(&expr, true).unwrap();
    assert_eq!(def.kind, Some(TsTypeDefKind::Array));
    assert_eq!(def.repr, "any[]");
    assert_eq!(def.array.as_ref().unwrap().keyword, Some("any".to_string()));
    assert_eq!(def.to_string(), "any[]");
}

#[test]
fn array_with_a_spread_is_any_array() {
    let arr = array_lit(vec![
        element(str_lit("a")),
        Some(ExprOrSpread { spread: Some(sp()), expr: Box::new(str_lit("b")) }),
    ]);
    let def = infer_ts_type_from_arr_lit(&arr, true).unwrap();
    assert_eq!(def.repr, "any[]");
    assert_eq!(def.to_string(), "any[]");
}

#[test]
fn plain_array_literal_follows_the_flag() {
    let same = Expr::Array(array_lit(vec![element(str_lit("a")), element(str_lit("a"))]));
    let precise = infer_ts_type_from_expr(&same, true).unwrap();
    assert_eq!(precise.kind, Some(TsTypeDefKind::Array));
    let elem = precise.array.as_ref().unwrap();
    assert_eq!(elem.kind, Some(TsTypeDefKind::Literal));
    assert_eq!(elem.literal.as_ref().unwrap().string, Some("a".to_string()));
    assert_eq!(precise.to_string(), "\"a\"[]");

    let two = Expr::Array(array_lit(vec![element(str_lit("a")), element(num_lit(1.0))]));
    let union = infer_ts_type_from_expr(&two, true).unwrap();
    assert_eq!(union.array.as_ref().unwrap().kind, Some(TsTypeDefKind::Union));
    assert_eq!(union.array.as_ref().unwrap().union.as_ref().unwrap().len(), 2);
    assert_eq!(union.to_string(), "(\"a\" | 1)[]");

    let opaque = Expr::Array(array_lit(vec![element(str_lit("a")), element(call("f"))]));
    assert_eq!(infer_ts_type_from_expr(&opaque, true).unwrap().to_string(), "any[]");
}

#[test]
fn array_elements_are_widened_where_literals_lose_precision() {
    let expr = Expr::Array(array_lit(vec![element(str_lit("a")), element(str_lit("b"))]));
    let def = infer_ts_type_from_expr(&expr, false).unwrap();
    assert_eq!(def.array.as_ref().unwrap().keyword, Some("string".to_string()));
    assert_eq!(def.to_string(), "string[]");
    assert_eq!(infer_ts_type_from_expr(&expr, true).unwrap().to_string(), "(\"a\" | \"b\")[]");
    let mixed = Expr::Array(array_lit(vec![
        element(num_lit(1.0)),
        element(str_lit("b")),
        element(num_lit(2.0)),
    ]));
    assert_eq!(infer_ts_type_from_expr(&mixed, false).unwrap().to_string(), "(number | string)[]");
}

#[test]
fn empty_array_and_holes_give_nothing() {
    assert!(infer_ts_type_from_expr(&Expr::Array(array_lit(vec![])), true).is_none());
    assert!(infer_ts_type_from_arr_lit(&array_lit(vec![None, None]), true).is_none());
    let with_hole = array_lit(vec![None, element(num_lit(3.0))]);
    assert_eq!(infer_ts_type_from_arr_lit(&with_hole, true).unwrap().to_string(), "3[]");
}

#[test]
fn distinct_types_keep_the_order_in_which_they_are_seen_first() {
    let arr = array_lit(vec![
        element(str_lit("b")),
        element(str_lit("a")),
        element(str_lit("b")),
        element(num_lit(1.0)),
        element(str_lit("a")),
    ]);
    let def = infer_ts_type_from_arr_lit(&arr, true).unwrap();
    assert_eq!(def.to_string(), "(\"b\" | \"a\" | 1)[]");
}

#[test]
fn nested_arrays_under_a_const_assertion() {
    let nested = || {
        let inner = Expr::Array(array_lit(vec![element(str_lit("a"))]));
        Expr::Array(array_lit(vec![element(inner)]))
    };
    assert_eq!(infer_ts_type_from_expr(&as_const(nested()), false).unwrap().to_string(), "\"a\"[][]");
    assert_eq!(infer_ts_type_from_expr(&nested(), true).unwrap().to_string(), "\"a\"[][]");
    assert_eq!(infer_ts_type_from_expr(&nested(), false).unwrap().to_string(), "string[][]");
}

#[test]
fn literals_keep_precision_only_when_const() {
    let number = num_lit(100.0);
    let precise = infer_ts_type_from_expr(&number, true).unwrap();
    assert_eq!(precise.kind, Some(TsTypeDefKind::Literal));
    assert_eq!(precise.to_string(), "100");
    let wide = infer_ts_type_from_expr(&number, false).unwrap();
    assert_eq!(wide.kind, Some(TsTypeDefKind::Keyword));
    assert_eq!(wide.keyword, Some("number".to_string()));
    assert_eq!(wide.repr, "number");

    let string = str_lit("x");
    assert_eq!(infer_ts_type_from_expr(&string, true).unwrap().to_string(), "\"x\"");
    assert_eq!(infer_ts_type_from_expr(&string, false).unwrap().to_string(), "string");

    let boolean = Expr::Lit(Lit::Bool(Bool { span: sp(), value: false }));
    assert_eq!(infer_ts_type_from_expr(&boolean, true).unwrap().to_string(), "false");
    assert_eq!(infer_ts_type_from_expr(&boolean, false).unwrap().to_string(), "boolean");

    let bigint = Expr::Lit(Lit::BigInt(BigInt { span: sp(), value: "12".to_string() }));
    assert_eq!(infer_ts_type_from_expr(&bigint, true).unwrap().to_string(), "12");
    assert_eq!(infer_ts_type_from_expr(&bigint, false).unwrap().to_string(), "bigint");
}

#[test]
fn regular_expression_literal_is_a_regexp() {
    let regex = Expr::Lit(Lit::Regex(Regex {
        span: sp(),
        exp: "a+".to_string(),
        flags: "g".to_string(),
    }));
    for is_const in [true, false] {
        let def = infer_ts_type_from_expr(&regex, is_const).unwrap();
        assert_eq!(def.kind, Some(TsTypeDefKind::TypeRef));
        assert_eq!(def.repr, "a+");
        assert_eq!(def.type_ref.as_ref().unwrap().name, "RegExp");
        assert_eq!(def.to_string(), "RegExp");
    }
}

#[test]
fn null_and_jsx_text_give_nothing() {
    assert!(infer_ts_type_from_expr(&Expr::Lit(Lit::Null(sp())), true).is_none());
    assert!(infer_ts_type_from_expr(&Expr::Lit(Lit::JSXText(sp())), true).is_none());
}

#[test]
fn const_assertion_forces_precision() {
    let expr = as_const(str_lit("a"));
    assert_eq!(infer_ts_type_from_expr(&expr, false).unwrap().to_string(), "\"a\"");
    let nested = as_const(as_const(num_lit(2.0)));
    assert_eq!(infer_ts_type_from_expr(&nested, false).unwrap().to_string(), "2");
}

#[test]
fn known_constructor_calls() {
    let cases = vec![
        ("Symbol", "symbol"),
        ("Number", "number"),
        ("String", "string"),
        ("BigInt", "bigint"),
        ("Date", "string"),
    ];
    for (name, keyword) in cases {
        let def = infer_ts_type_from_expr(&call(name), false).unwrap();
        assert_eq!(def.kind, Some(TsTypeDefKind::Keyword));
        assert_eq!(def.keyword, Some(keyword.to_string()));
        assert_eq!(def.repr, name);
    }
    let regexp = infer_ts_type_from_expr(&call("RegExp"), false).unwrap();
    assert_eq!(regexp.kind, Some(TsTypeDefKind::TypeRef));
    assert_eq!(regexp.repr, "RegExp");
    assert_eq!(regexp.type_ref.as_ref().unwrap().name, "RegExp");
}

#[test]
fn other_calls_give_nothing() {
    assert!(infer_ts_type_from_expr(&call("foo"), true).is_none());
    assert!(infer_ts_type_from_expr(&call("number"), true).is_none());
    let on_super = Expr::Call(CallExpr { span: sp(), callee: Callee::Super(sp()) });
    assert!(infer_ts_type_from_expr(&on_super, true).is_none());
    let on_import = Expr::Call(CallExpr { span: sp(), callee: Callee::Import(sp()) });
    assert!(infer_ts_type_from_expr(&on_import, true).is_none());
    let on_member = Expr::Call(CallExpr {
        span: sp(),
        callee: Callee::Expr(Box::new(Expr::Member(MemberExpr {
            span: sp(),
            obj: Box::new(Expr::Ident(ident("Number"))),
            prop: MemberProp::Ident(ident("parseInt")),
        }))),
    });
    assert!(infer_ts_type_from_expr(&on_member, true).is_none());
}

#[test]
fn new_expression_with_identifier_callee() {
    let plain = Expr::New(NewExpr {
        span: sp(),
        callee: Box::new(Expr::Ident(ident("Date"))),
        type_args: None,
    });
    let def = infer_ts_type_from_expr(&plain, false).unwrap();
    assert_eq!(def.kind, Some(TsTypeDefKind::TypeRef));
    assert_eq!(def.repr, "Date");
    assert_eq!(def.type_ref.as_ref().unwrap().name, "Date");
    assert!(def.type_ref.as_ref().unwrap().type_params.is_none());

    let generic = Expr::New(NewExpr {
        span: sp(),
        callee: Box::new(Expr::Ident(ident("Map"))),
        type_args: Some(TsTypeParamInstantiation {
            span: sp(),
            params: vec![
                Box::new(string_kw()),
                Box::new(TsType::TsTypeRef(TsTypeRef {
                    span: sp(),
                    name: TsEntityName::Ident(ident("V")),
                    type_params: None,
                })),
            ],
        }),
    });
    let def = infer_ts_type_from_expr(&generic, false).unwrap();
    assert_eq!(def.type_ref.as_ref().unwrap().type_params.as_ref().unwrap().len(), 2);
    assert_eq!(def.to_string(), "Map<string, V>");
}

#[test]
fn new_expression_with_other_callee_gives_nothing() {
    let member = Expr::New(NewExpr {
        span: sp(),
        callee: Box::new(Expr::Member(MemberExpr {
            span: sp(),
            obj: Box::new(Expr::Ident(ident("a"))),
            prop: MemberProp::Ident(ident("B")),
        })),
        type_args: None,
    });
    assert!(infer_ts_type_from_expr(&member, true).is_none());
}

#[test]
fn template_expression() {
    let one = Expr::Tpl(Tpl { span: sp(), quasis: vec![quasi("hello")] });
    let precise = infer_ts_type_from_expr(&one, true).unwrap();
    assert_eq!(precise.kind, Some(TsTypeDefKind::Literal));
    assert_eq!(precise.literal.as_ref().unwrap().kind, LiteralDefKind::Template);
    assert_eq!(precise.repr, "hello");
    assert_eq!(precise.to_string(), "`hello`");
    let wide = infer_ts_type_from_expr(&one, false).unwrap();
    assert_eq!(wide.keyword, Some("string".to_string()));
    let two = Expr::Tpl(Tpl { span: sp(), quasis: vec![quasi("a"), quasi("b")] });
    assert_eq!(infer_ts_type_from_expr(&two, true).unwrap().to_string(), "string");
    assert_eq!(infer_ts_type_from_expr(&as_const(two), false).unwrap().to_string(), "string");
}

fn binding(name: &str, ts_type: Option<TsType>) -> Pat {
    Pat::Ident(BindingIdent {
        id: ident(name),
        type_ann: ts_type.map(|t| TsTypeAnn { span: sp(), type_ann: Box::new(t) }),
    })
}

#[test]
fn arrow_function_defaults_its_return_type_to_unknown() {
    let arrow = ArrowExpr {
        span: sp(),
        params: vec![binding("a", Some(string_kw()))],
        type_params: None,
        return_type: None,
    };
    let f = arrow_expr_to_fn_def(&arrow);
    assert!(!f.constructor);
    assert_eq!(f.ts_type.keyword, Some("unknown".to_string()));
    let def = infer_ts_type_from_expr(&Expr::Arrow(arrow), false).unwrap();
    assert_eq!(def.kind, Some(TsTypeDefKind::FnOrConstructor));
    assert_eq!(def.to_string(), "(a: string) => unknown");
}

#[test]
fn function_expression_uses_its_annotation() {
    let expr = FnExpr {
        ident: Some(ident("f")),
        function: Function {
            span: sp(),
            params: vec![Param { span: sp(), pat: binding("a", None) }],
            type_params: Some(TsTypeParamDecl {
                span: sp(),
                params: vec![TsTypeParam {
                    span: sp(),
                    name: ident("T"),
                    constraint: None,
                    default: None,
                }],
            }),
            return_type: Some(TsTypeAnn { span: sp(), type_ann: Box::new(string_kw()) }),
        },
    };
    let f = fn_expr_to_fn_def(&expr);
    assert_eq!(f.type_params.len(), 1);
    assert_eq!(f.params.len(), 1);
    let def = infer_ts_type_from_expr(&Expr::Fn(expr), true).unwrap();
    assert_eq!(def.to_string(), "(a) => string");
}

#[test]
fn other_expressions_give_nothing() {
    assert!(infer_ts_type_from_expr(&Expr::Other(sp()), true).is_none());
    assert!(infer_ts_type_from_expr(&Expr::Ident(ident("x")), true).is_none());
    let member = Expr::Member(MemberExpr {
        span: sp(),
        obj: Box::new(Expr::Ident(ident("a"))),
        prop: MemberProp::Ident(ident("b")),
    });
    assert!(infer_ts_type_from_expr(&member, false).is_none());
}

#[test]
fn declarator_without_initializer_gives_nothing() {
    let decl = VarDeclarator { span: sp(), init: None };
    assert!(infer_simple_ts_type_from_var_decl(&decl, true).is_none());
    let decl = VarDeclarator { span: sp(), init: Some(Box::new(num_lit(1.0))) };
    assert_eq!(infer_simple_ts_type_from_var_decl(&decl, true).unwrap().to_string(), "1");
    assert_eq!(infer_simple_ts_type_from_var_decl(&decl, false).unwrap().to_string(), "number");
}

#[test]
fn repeated_inference_gives_equal_results() {
    let exprs = vec![
        as_const(Expr::Array(array_lit(vec![element(str_lit("a")), element(num_lit(1.0))]))),
        call("Number"),
        call("unknown"),
        str_lit("x"),
        Expr::Other(sp()),
    ];
    for expr in &exprs {
        for is_const in [true, false] {
            let first = infer_ts_type_from_expr(expr, is_const);
            let second = infer_ts_type_from_expr(expr, is_const);
            assert!(first == second);
            match (first, second) {
                (Some(a), Some(b)) => assert!(a.equals(&b)),
                (None, None) => {}
                _ => panic!("one inference gave a type and the other none"),
            }
        }
    }
}

#[test]
fn inferred_types_are_well_formed() {
    let expr = as_const(Expr::Array(array_lit(vec![element(str_lit("a")), element(num_lit(1.0))])));
    assert!(infer_ts_type_from_expr(&expr, true).unwrap().is_well_formed());
    assert!(infer_ts_type_from_expr(&call("RegExp"), true).unwrap().is_well_formed());
}

#[test]
fn containment_is_by_structure() {
    let defs = vec![TsTypeDef::keyword("string"), TsTypeDef::keyword("number")];
    assert!(contains_def(&defs, &TsTypeDef::keyword("number")));
    assert!(!contains_def(&defs, &TsTypeDef::keyword("boolean")));
    assert!(!contains_def(&defs, &TsTypeDef::number_with_repr("Number")));
    assert!(!contains_def(&vec![], &TsTypeDef::keyword("number")));
}

#[test]
fn array_literal_inferred_with_precision() {
    let same = array_lit(vec![element(str_lit("a")), element(str_lit("a"))]);
    let def = infer_ts_type_from_arr_lit(&same, true).unwrap();
    assert_eq!(def.kind, Some(TsTypeDefKind::Array));
    assert_eq!(def.array.as_ref().unwrap().literal.as_ref().unwrap().string, Some("a".to_string()));
    assert_eq!(def.to_string(), "\"a\"[]");

    let two = array_lit(vec![element(str_lit("a")), element(num_lit(1.0))]);
    let def = infer_ts_type_from_arr_lit(&two, true).unwrap();
    assert_eq!(def.array.as_ref().unwrap().union.as_ref().unwrap().len(), 2);
    assert_eq!(def.to_string(), "(\"a\" | 1)[]");

    let opaque = array_lit(vec![element(str_lit("a")), element(call("f"))]);
    let def = infer_ts_type_from_arr_lit(&opaque, true).unwrap();
    assert_eq!(def.to_string(), "any[]");
    let opaque_first = array_lit(vec![element(call("f")), element(str_lit("a"))]);
    assert_eq!(infer_ts_type_from_arr_lit(&opaque_first, true).unwrap().repr, "any[]");
}
