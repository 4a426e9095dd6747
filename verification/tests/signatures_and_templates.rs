use ts_type_doc::ast::{
    BindingIdent, Expr, Ident, MethodKind, Str, TplElement, TsCallSignatureDecl,
    TsConstructSignatureDecl, TsEntityName, TsFnParam, TsGetterSignature, TsIndexSignature,
    TsKeywordType, TsKeywordTypeKind, TsLit, TsLitType, TsMethodSignature, TsPropertySignature,
    TsSetterSignature, TsTplLitType, TsType, TsTypeAnn, TsTypeElement, TsTypeLit, TsTypeParam,
    TsTypeParamDecl, TsTypeRef,
};
use ts_type_doc::convert::ts_type_to_def;
use ts_type_doc::signatures::ts_type_lit_to_def;
use ts_type_doc::span::Span;
use ts_type_doc::ts_type::{LiteralDefKind, TsTypeDef, TsTypeDefKind};

fn sp(lo: u32, hi: u32) -> Span {
    Span::new(lo, hi)
}

fn ident(name: &str) -> Ident {
    Ident { span: sp(0, 0), sym: name.to_string(), optional: false }
}

fn key(name: &str) -> Box<Expr> {
    Box::new(Expr::Ident(ident(name)))
}

fn keyword_at(kind: TsKeywordTypeKind, lo: u32, hi: u32) -> TsType {
    TsType::TsKeywordType(TsKeywordType { span: sp(lo, hi), kind })
}

fn string_kw() -> TsType {
    keyword_at(TsKeywordTypeKind::TsStringKeyword, 0, 0)
}

fn number_kw() -> TsType {
    keyword_at(TsKeywordTypeKind::TsNumberKeyword, 0, 0)
}

fn ann(ts_type: TsType) -> TsTypeAnn {
    TsTypeAnn { span: sp(0, 0), type_ann: Box::new(ts_type) }
}

fn param(name: &str, ts_type: TsType) -> TsFnParam {
    TsFnParam::Ident(BindingIdent { id: ident(name), type_ann: Some(ann(ts_type)) })
}

fn getter(name: &str, ts_type: TsType) -> TsTypeElement {
    TsTypeElement::TsGetterSignature(TsGetterSignature {
        span: sp(0, 0),
        readonly: false,
        key: key(name),
        computed: false,
        optional: false,
        type_ann: Some(ann(ts_type)),
    })
}

fn setter(name: &str, ts_type: TsType) -> TsTypeElement {
    TsTypeElement::TsSetterSignature(TsSetterSignature {
        span: sp(0, 0),
        readonly: false,
        key: key(name),
        computed: false,
        optional: false,
        param: param("value", ts_type),
    })
}

fn index_signature() -> TsTypeElement {
    TsTypeElement::TsIndexSignature(TsIndexSignature {
        span: sp(0, 0),
        params: vec![param("key", string_kw())],
        type_ann: Some(ann(number_kw())),
        readonly: true,
    })
}

fn type_lit(members: Vec<TsTypeElement>) -> TsTypeLit {
    TsTypeLit { span: sp(0, 0), members }
}

#[test]
fn getter_setter_and_index_signature_decompose_into_two_methods_and_one_index_signature() {
    let def = ts_type_lit_to_def(&type_lit(vec![
        getter("value", string_kw()),
        setter("value", string_kw()),
        index_signature(),
    ]));
    assert_eq!(def.kind, Some(TsTypeDefKind::TypeLiteral));
    let literal = def.type_literal.as_ref().unwrap();
    assert_eq!(literal.methods.len(), 2);
    assert_eq!(literal.methods[0].kind, MethodKind::Getter);
    assert_eq!(literal.methods[1].kind, MethodKind::Setter);
    assert_eq!(literal.methods[0].name, "value");
    assert_eq!(literal.methods[1].name, "value");
    assert_eq!(literal.index_signatures.len(), 1);
    assert_eq!(literal.properties.len(), 0);
    assert_eq!(literal.call_signatures.len(), 0);
}

#[test]
fn getter_has_no_parameter_and_setter_has_one() {
    let def = ts_type_lit_to_def(&type_lit(vec![
        getter("a", number_kw()),
        setter("a", number_kw()),
    ]));
    let methods = &def.type_literal.as_ref().unwrap().methods;
    assert!(methods[0].params.is_empty());
    assert!(methods[0].type_params.is_empty());
    assert_eq!(methods[0].return_type.as_ref().unwrap().to_string(), "number");
    assert_eq!(methods[1].params.len(), 1);
    assert_eq!(methods[1].params[0].to_string(), "value: number");
    assert!(methods[1].return_type.is_none());
    assert!(methods[1].type_params.is_empty());
    assert_eq!(def.to_string(), "{ a(): number; a(value: number); }");
}

#[test]
fn construct_signature_becomes_a_method_named_new() {
    let def = ts_type_lit_to_def(&type_lit(vec![TsTypeElement::TsConstructSignatureDecl(
        TsConstructSignatureDecl {
            span: sp(0, 0),
            params: vec![param("x", number_kw())],
            type_ann: Some(ann(TsType::TsTypeRef(TsTypeRef {
                span: sp(0, 0),
                name: TsEntityName::Ident(ident("Foo")),
                type_params: None,
            }))),
            type_params: Some(TsTypeParamDecl {
                span: sp(0, 0),
                params: vec![TsTypeParam {
                    span: sp(0, 0),
                    name: ident("T"),
                    constraint: None,
                    default: None,
                }],
            }),
        },
    )]));
    let literal = def.type_literal.as_ref().unwrap();
    assert_eq!(literal.methods.len(), 1);
    let method = &literal.methods[0];
    assert_eq!(method.name, "new");
    assert_eq!(method.kind, MethodKind::Method);
    assert!(!method.computed && !method.optional);
    assert_eq!(method.type_params.len(), 1);
    assert_eq!(method.to_string(), "new(x: number): Foo");
}

#[test]
fn every_member_goes_to_its_list_in_order() {
    let method = |name: &str, optional: bool, computed: bool| {
        TsTypeElement::TsMethodSignature(TsMethodSignature {
            span: sp(0, 0),
            readonly: false,
            key: key(name),
            computed,
            optional,
            params: vec![],
            type_ann: None,
            type_params: None,
        })
    };
    let property = |name: &str, readonly: bool| {
        TsTypeElement::TsPropertySignature(TsPropertySignature {
            span: sp(0, 0),
            readonly,
            key: key(name),
            computed: false,
            optional: true,
            params: vec![],
            type_ann: Some(ann(string_kw())),
            type_params: None,
        })
    };
    let call = TsTypeElement::TsCallSignatureDecl(TsCallSignatureDecl {
        span: sp(0, 0),
        params: vec![param("a", string_kw())],
        type_ann: Some(ann(number_kw())),
        type_params: None,
    });
    let def = ts_type_lit_to_def(&type_lit(vec![
        property("p1", true),
        method("m1", true, false),
        call,
        property("p2", false),
        index_signature(),
        method("m2", false, true),
    ]));
    let literal = def.type_literal.as_ref().unwrap();
    assert_eq!(literal.methods.len(), 2);
    assert_eq!(literal.methods[0].name, "m1");
    assert!(literal.methods[0].optional && !literal.methods[0].computed);
    assert_eq!(literal.methods[1].name, "m2");
    assert!(!literal.methods[1].optional && literal.methods[1].computed);
    assert_eq!(literal.properties.len(), 2);
    assert_eq!(literal.properties[0].name, "p1");
    assert!(literal.properties[0].readonly && literal.properties[0].optional);
    assert_eq!(literal.properties[1].name, "p2");
    assert!(!literal.properties[1].readonly);
    assert_eq!(literal.call_signatures.len(), 1);
    assert_eq!(literal.index_signatures.len(), 1);
    assert!(literal.index_signatures[0].readonly);
    assert_eq!(
        literal.methods.len()
            + literal.properties.len()
            + literal.call_signatures.len()
            + literal.index_signatures.len(),
        6
    );
    assert_eq!(
        def.to_string(),
        "{ (a: string): number; m1?(); [m2](); p1: string; p2: string; readonly [key: string]: number; }"
    );
    assert!(def == ts_type_to_def(&TsType::TsTypeLit(type_lit(vec![
        property("p1", true),
        method("m1", true, false),
        TsTypeElement::TsCallSignatureDecl(TsCallSignatureDecl {
            span: sp(0, 0),
            params: vec![param("a", string_kw())],
            type_ann: Some(ann(number_kw())),
            type_params: None,
        }),
        property("p2", false),
        index_signature(),
        method("m2", false, true),
    ]))));
}

fn quasi(raw: &str, lo: u32, hi: u32) -> TplElement {
    TplElement { span: sp(lo, hi), raw: raw.to_string() }
}

fn str_lit_type(value: &str, lo: u32, hi: u32) -> TsType {
    TsType::TsLitType(TsLitType {
        span: sp(lo, hi),
        lit: TsLit::Str(Str { span: sp(lo, hi), value: value.to_string() }),
    })
}

#[test]
fn template_parts_are_merged_by_source_position() {
    // `a${string}b${number}c`
    let types: Vec<Box<TsType>> = vec![
        Box::new(keyword_at(TsKeywordTypeKind::TsStringKeyword, 4, 10)),
        Box::new(keyword_at(TsKeywordTypeKind::TsNumberKeyword, 14, 20)),
    ];
    let quasis = vec![quasi("a", 1, 2), quasi("b", 11, 12), quasi("c", 21, 22)];
    let def = TsTypeDef::tpl_literal(&types, &quasis);
    assert_eq!(def.kind, Some(TsTypeDefKind::Literal));
    let literal = def.literal.as_ref().unwrap();
    assert_eq!(literal.kind, LiteralDefKind::Template);
    let parts = literal.ts_types.as_ref().unwrap();
    assert_eq!(parts.len(), 5);
    assert_eq!(parts[0].literal.as_ref().unwrap().string, Some("a".to_string()));
    assert_eq!(parts[1].keyword, Some("string".to_string()));
    assert_eq!(parts[2].literal.as_ref().unwrap().string, Some("b".to_string()));
    assert_eq!(parts[3].keyword, Some("number".to_string()));
    assert_eq!(parts[4].literal.as_ref().unwrap().string, Some("c".to_string()));
    assert_eq!(def.repr, "a${string}b${number}c");
    assert_eq!(def.to_string(), "`a${string}b${number}c`");
    assert_eq!(def.to_string(), format!("`{}`", def.repr));
}

#[test]
fn template_merge_does_not_depend_on_the_order_of_the_two_lists() {
    let types: Vec<Box<TsType>> = vec![
        Box::new(keyword_at(TsKeywordTypeKind::TsNumberKeyword, 14, 20)),
        Box::new(keyword_at(TsKeywordTypeKind::TsStringKeyword, 4, 10)),
    ];
    let quasis = vec![quasi("c", 21, 22), quasi("a", 1, 2), quasi("b", 11, 12)];
    let def = TsTypeDef::tpl_literal(&types, &quasis);
    assert_eq!(def.repr, "a${string}b${number}c");
    assert_eq!(def.to_string(), "`a${string}b${number}c`");
}

#[test]
fn template_with_only_text_and_empty_template() {
    let def = TsTypeDef::tpl_literal(&[], &[quasi("hello", 1, 6)]);
    assert_eq!(def.repr, "hello");
    assert_eq!(def.to_string(), "`hello`");
    assert_eq!(def.literal.as_ref().unwrap().ts_types.as_ref().unwrap().len(), 1);
    let empty = TsTypeDef::tpl_literal(&[], &[]);
    assert_eq!(empty.repr, "");
    assert_eq!(empty.to_string(), "``");
    assert!(empty.is_well_formed());
}

#[test]
fn template_parts_with_the_same_span_keep_their_order() {
    let quasis = vec![quasi("x", 5, 5), quasi("y", 5, 5), quasi("w", 1, 2)];
    let types: Vec<Box<TsType>> = vec![Box::new(keyword_at(TsKeywordTypeKind::TsAnyKeyword, 5, 5))];
    let def = TsTypeDef::tpl_literal(&types, &quasis);
    assert_eq!(def.repr, "w${any}xy");
}

#[test]
fn interpolated_string_literal_is_written_as_a_chunk() {
    let types: Vec<Box<TsType>> = vec![Box::new(str_lit_type("lit", 4, 9))];
    let quasis = vec![quasi("a", 1, 2), quasi("b", 11, 12)];
    let def = TsTypeDef::tpl_literal(&types, &quasis);
    assert_eq!(def.repr, "a${\"lit\"}b");
    assert_eq!(def.to_string(), "`alitb`");
}

#[test]
fn template_literal_type_is_converted_through_the_literal_case() {
    let ts_type = TsType::TsLitType(TsLitType {
        span: sp(0, 30),
        lit: TsLit::Tpl(TsTplLitType {
            span: sp(0, 30),
            types: vec![Box::new(keyword_at(TsKeywordTypeKind::TsStringKeyword, 4, 10))],
            quasis: vec![quasi("id-", 1, 4), quasi("", 11, 11)],
        }),
    });
    let def = ts_type_to_def(&ts_type);
    assert_eq!(def.repr, "id-${string}");
    assert_eq!(def.to_string(), "`id-${string}`");
    assert!(def.is_well_formed());
}

#[test]
fn alternating_template_keeps_its_source_text() {
    // `${A}-${B}`: chunks "", "-", "" around two references
    let reference = |name: &str, lo: u32, hi: u32| {
        Box::new(TsType::TsTypeRef(TsTypeRef {
            span: sp(lo, hi),
            name: TsEntityName::Ident(ident(name)),
            type_params: None,
        }))
    };
    let types: Vec<Box<TsType>> = vec![reference("A", 3, 4), reference("B", 8, 9)];
    let quasis = vec![quasi("", 1, 1), quasi("-", 5, 6), quasi("", 10, 10)];
    let def = TsTypeDef::tpl_literal(&types, &quasis);
    assert_eq!(def.repr, "${A}-${B}");
    assert_eq!(def.to_string(), "`${A}-${B}`");
    let parts = def.literal.as_ref().unwrap().ts_types.as_ref().unwrap();
    assert_eq!(parts.len(), 5);
    assert_eq!(parts[1].repr, "A");
    assert_eq!(parts[3].repr, "B");
    let backwards = TsTypeDef::tpl_literal(
        &[reference("B", 8, 9), reference("A", 3, 4)],
        &[quasi("", 10, 10), quasi("-", 5, 6), quasi("", 1, 1)],
    );
    assert!(backwards == def);
}
