use ts_type_doc::ast::{
    ArrayPat, AssignPat, AssignPatProp, BigInt, BindingIdent, Bool, Expr, Ident, KeyValuePatProp,
    Lit, MemberExpr, MemberProp, Number, ObjectPat, ObjectPatProp, Pat, PrivateName, PropName,
    RestPat, Str, TplElement, TruePlusMinus, TsArrayType, TsConditionalType, TsConstructorType,
    TsEntityName, TsExprWithTypeArgs, TsFnOrConstructorType, TsFnParam, TsFnType, TsImportType,
    TsIndexedAccessType, TsInferType, TsIntersectionType, TsKeywordType, TsKeywordTypeKind,
    TsLit, TsLitType, TsMappedType, TsMemberName, TsOptionalType, TsParenthesizedType,
    TsQualifiedName, TsRestType, TsThisType, TsThisTypeOrIdent, TsTplLitType, TsTupleElement,
    TsTupleType, TsType, TsTypeAliasDecl, TsTypeAnn, TsTypeLit, TsTypeOperator,
    TsTypeOperatorOp, TsTypeParam, TsTypeParamDecl, TsTypeParamInstantiation, TsTypePredicate,
    TsTypeQuery, TsTypeQueryExpr, TsTypeRef, TsUnionOrIntersectionType, TsUnionType,
};
use ts_type_doc::convert::{
    get_span_from_type, maybe_type_param_instantiation_to_type_defs,
    ts_expr_with_type_args_to_def, ts_type_ann_to_def, ts_type_to_def,
};
use ts_type_doc::names::{
    expr_to_name, prop_name_to_string, ts_entity_name_to_name, ts_member_name_to_name,
};
use ts_type_doc::params::{
    pat_to_param_def, ts_fn_param_to_param_def, ObjectPatPropDef, ParamDef, ParamPatternDef,
};
use ts_type_doc::span::Span;
use ts_type_doc::ts_type::{LiteralDefKind, ThisOrIdent, TsTypeDef, TsTypeDefKind};
use ts_type_doc::ts_type_param::maybe_type_param_decl_to_type_param_defs;
use ts_type_doc::type_alias::get_doc_for_ts_type_alias_decl;

fn sp(lo: u32, hi: u32) -> Span {
    Span::new(lo, hi)
}

fn ident(name: &str) -> Ident {
    Ident { span: sp(0, 0), sym: name.to_string(), optional: false }
}

fn keyword(kind: TsKeywordTypeKind) -> TsType {
    TsType::TsKeywordType(TsKeywordType { span: sp(0, 0), kind })
}

fn keyword_at(kind: TsKeywordTypeKind, lo: u32, hi: u32) -> TsType {
    TsType::TsKeywordType(TsKeywordType { span: sp(lo, hi), kind })
}

fn string_kw() -> TsType {
    keyword(TsKeywordTypeKind::TsStringKeyword)
}

fn number_kw() -> TsType {
    keyword(TsKeywordTypeKind::TsNumberKeyword)
}

fn reference(name: &str) -> TsType {
    TsType::TsTypeRef(TsTypeRef {
        span: sp(0, 0),
        name: TsEntityName::Ident(ident(name)),
        type_params: None,
    })
}

fn args(types: Vec<TsType>) -> TsTypeParamInstantiation {
    TsTypeParamInstantiation { span: sp(0, 0), params: types.into_iter().map(Box::new).collect() }
}

fn ann(ts_type: TsType) -> TsTypeAnn {
    TsTypeAnn { span: sp(0, 0), type_ann: Box::new(ts_type) }
}

fn param(name: &str, optional: bool, ts_type: Option<TsType>) -> BindingIdent {
    BindingIdent {
        id: Ident { span: sp(0, 0), sym: name.to_string(), optional },
        type_ann: ts_type.map(ann),
    }
}

fn type_param(name: &str, constraint: Option<TsType>, default: Option<TsType>) -> TsTypeParam {
    TsTypeParam {
        span: sp(0, 0),
        name: ident(name),
        constraint: constraint.map(Box::new),
        default: default.map(Box::new),
    }
}

fn union(types: Vec<TsType>) -> TsType {
    TsType::TsUnionOrIntersectionType(TsUnionOrIntersectionType::TsUnionType(TsUnionType {
        span: sp(0, 0),
        types: types.into_iter().map(Box::new).collect(),
    }))
}

fn array(elem: TsType) -> TsType {
    TsType::TsArrayType(TsArrayType { span: sp(0, 0), elem_type: Box::new(elem) })
}

fn quasi(raw: &str, lo: u32, hi: u32) -> TplElement {
    TplElement { span: sp(lo, hi), raw: raw.to_string() }
}

fn str_lit_type(value: &str) -> TsType {
    TsType::TsLitType(TsLitType {
        span: sp(0, 0),
        lit: TsLit::Str(Str { span: sp(0, 0), value: value.to_string() }),
    })
}

#[test]
fn keyword_type_gives_keyword_node() {
    let def = ts_type_to_def(&string_kw());
    assert_eq!(def.kind, Some(TsTypeDefKind::Keyword));
    assert_eq!(def.keyword, Some("string".to_string()));
    assert_eq!(def.repr, "string");
    assert_eq!(def.to_string(), "string");
}

#[test]
fn every_keyword_has_its_text() {
    let cases = vec![
        (TsKeywordTypeKind::TsAnyKeyword, "any"),
        (TsKeywordTypeKind::TsUnknownKeyword, "unknown"),
        (TsKeywordTypeKind::TsNumberKeyword, "number"),
        (TsKeywordTypeKind::TsObjectKeyword, "object"),
        (TsKeywordTypeKind::TsBooleanKeyword, "boolean"),
        (TsKeywordTypeKind::TsBigIntKeyword, "bigint"),
        (TsKeywordTypeKind::TsStringKeyword, "string"),
        (TsKeywordTypeKind::TsSymbolKeyword, "symbol"),
        (TsKeywordTypeKind::TsVoidKeyword, "void"),
        (TsKeywordTypeKind::TsUndefinedKeyword, "undefined"),
        (TsKeywordTypeKind::TsNullKeyword, "null"),
        (TsKeywordTypeKind::TsNeverKeyword, "never"),
        (TsKeywordTypeKind::TsIntrinsicKeyword, "intrinsic"),
    ];
    for (kind, text) in cases {
        let def = ts_type_to_def(&keyword(kind));
        assert_eq!(def.keyword, Some(text.to_string()));
        assert_eq!(def.to_string(), text);
    }
}

#[test]
fn keyword_node_populates_no_other_payload() {
    let def = ts_type_to_def(&string_kw());
    let expected = TsTypeDef {
        repr: "string".to_string(),
        kind: Some(TsTypeDefKind::Keyword),
        keyword: Some("string".to_string()),
        ..TsTypeDef::default()
    };
    assert!(def == expected);
    assert!(def.literal.is_none() && def.type_ref.is_none() && def.union.is_none());
    assert!(def.intersection.is_none() && def.array.is_none() && def.tuple.is_none());
    assert!(def.type_operator.is_none() && def.parenthesized.is_none() && def.rest.is_none());
    assert!(def.optional.is_none() && def.type_query.is_none() && def.this.is_none());
    assert!(def.fn_or_constructor.is_none() && def.conditional_type.is_none());
    assert!(def.infer.is_none() && def.indexed_access.is_none() && def.mapped_type.is_none());
    assert!(def.type_literal.is_none() && def.type_predicate.is_none());
    assert!(def.import_type.is_none());
}

#[test]
fn this_type_gives_this_node() {
    let def = ts_type_to_def(&TsType::TsThisType(TsThisType { span: sp(0, 4) }));
    assert_eq!(def.kind, Some(TsTypeDefKind::This));
    assert_eq!(def.this, Some(true));
    assert_eq!(def.repr, "this");
    assert_eq!(def.to_string(), "this");
}

#[test]
fn fn_type_gives_fn_node() {
    let ts_type = TsType::TsFnOrConstructorType(TsFnOrConstructorType::TsFnType(TsFnType {
        span: sp(0, 0),
        params: vec![
            TsFnParam::Ident(param("a", false, Some(string_kw()))),
            TsFnParam::Ident(param("b", true, Some(number_kw()))),
        ],
        type_params: Some(TsTypeParamDecl {
            span: sp(0, 0),
            params: vec![type_param("T", Some(reference("Base")), Some(string_kw()))],
        }),
        type_ann: ann(keyword(TsKeywordTypeKind::TsVoidKeyword)),
    }));
    let def = ts_type_to_def(&ts_type);
    assert_eq!(def.kind, Some(TsTypeDefKind::FnOrConstructor));
    let f = def.fn_or_constructor.as_ref().unwrap();
    assert!(!f.constructor);
    assert_eq!(f.params.len(), 2);
    assert_eq!(f.type_params.len(), 1);
    assert_eq!(f.type_params[0].to_string(), "T extends Base = string");
    assert_eq!(f.ts_type.to_string(), "void");
    assert_eq!(def.to_string(), "(a: string, b?: number) => void");
}

#[test]
fn constructor_type_gives_constructor_node() {
    let ts_type =
        TsType::TsFnOrConstructorType(TsFnOrConstructorType::TsConstructorType(TsConstructorType {
            span: sp(0, 0),
            params: vec![],
            type_params: None,
            type_ann: ann(reference("Foo")),
        }));
    let def = ts_type_to_def(&ts_type);
    assert_eq!(def.kind, Some(TsTypeDefKind::FnOrConstructor));
    assert!(def.fn_or_constructor.as_ref().unwrap().constructor);
    assert!(def.fn_or_constructor.as_ref().unwrap().type_params.is_empty());
    assert_eq!(def.to_string(), "new () => Foo");
}

#[test]
fn type_ref_keeps_absent_and_empty_arguments_apart() {
    let plain = ts_type_to_def(&reference("Foo"));
    assert_eq!(plain.kind, Some(TsTypeDefKind::TypeRef));
    assert_eq!(plain.repr, "Foo");
    assert!(plain.type_ref.as_ref().unwrap().type_params.is_none());
    assert_eq!(plain.to_string(), "Foo");

    let empty = ts_type_to_def(&TsType::TsTypeRef(TsTypeRef {
        span: sp(0, 0),
        name: TsEntityName::Ident(ident("Foo")),
        type_params: Some(args(vec![])),
    }));
    assert_eq!(empty.type_ref.as_ref().unwrap().type_params.as_ref().unwrap().len(), 0);
    assert_eq!(empty.to_string(), "Foo<>");
    assert!(!plain.equals(&empty));
}

#[test]
fn type_ref_converts_each_argument_in_order() {
    let def = ts_type_to_def(&TsType::TsTypeRef(TsTypeRef {
        span: sp(0, 0),
        name: TsEntityName::Ident(ident("Map")),
        type_params: Some(args(vec![string_kw(), number_kw()])),
    }));
    let type_ref = def.type_ref.as_ref().unwrap();
    assert_eq!(type_ref.name, "Map");
    let params = type_ref.type_params.as_ref().unwrap();
    assert_eq!(params.len(), 2);
    assert_eq!(params[0].keyword, Some("string".to_string()));
    assert_eq!(params[1].keyword, Some("number".to_string()));
    assert_eq!(def.to_string(), "Map<string, number>");
}

#[test]
fn qualified_names_are_joined_with_dots() {
    let name = TsEntityName::TsQualifiedName(Box::new(TsQualifiedName {
        left: TsEntityName::TsQualifiedName(Box::new(TsQualifiedName {
            left: TsEntityName::Ident(ident("a")),
            right: TsMemberName::Ident(ident("b")),
        })),
        right: TsMemberName::PrivateName(PrivateName { span: sp(0, 0), id: ident("c") }),
    }));
    assert_eq!(ts_entity_name_to_name(&name), "a.b.c");
    assert_eq!(ts_member_name_to_name(&TsMemberName::Ident(ident("x"))), "x");
    assert_eq!(
        ts_member_name_to_name(&TsMemberName::PrivateName(PrivateName {
            span: sp(0, 0),
            id: ident("secret")
        })),
        "secret"
    );
    let def = ts_type_to_def(&TsType::TsTypeRef(TsTypeRef {
        span: sp(0, 0),
        name,
        type_params: None,
    }));
    assert_eq!(def.repr, "a.b.c");
    assert_eq!(def.type_ref.as_ref().unwrap().name, "a.b.c");
}

#[test]
fn type_query_gives_type_query_node() {
    let def = ts_type_to_def(&TsType::TsTypeQuery(TsTypeQuery {
        span: sp(0, 0),
        expr_name: TsTypeQueryExpr::TsEntityName(TsEntityName::Ident(ident("x"))),
    }));
    assert_eq!(def.kind, Some(TsTypeDefKind::TypeQuery));
    assert_eq!(def.type_query, Some("x".to_string()));
    assert_eq!(def.repr, "x");
    assert_eq!(def.to_string(), "typeof x");

    let import = ts_type_to_def(&TsType::TsTypeQuery(TsTypeQuery {
        span: sp(0, 0),
        expr_name: TsTypeQueryExpr::Import(TsImportType {
            span: sp(0, 0),
            arg: Str { span: sp(0, 0), value: "./mod.ts".to_string() },
            qualifier: None,
            type_args: None,
        }),
    }));
    assert_eq!(import.type_query, Some("./mod.ts".to_string()));
}

#[test]
fn type_lit_gives_type_literal_node() {
    let def = ts_type_to_def(&TsType::TsTypeLit(TsTypeLit { span: sp(0, 0), members: vec![] }));
    assert_eq!(def.kind, Some(TsTypeDefKind::TypeLiteral));
    let literal = def.type_literal.as_ref().unwrap();
    assert!(literal.methods.is_empty() && literal.properties.is_empty());
    assert!(literal.call_signatures.is_empty() && literal.index_signatures.is_empty());
    assert_eq!(def.to_string(), "{ }");
}

#[test]
fn array_type_gives_array_node() {
    let def = ts_type_to_def(&array(string_kw()));
    assert_eq!(def.kind, Some(TsTypeDefKind::Array));
    assert_eq!(def.array.as_ref().unwrap().keyword, Some("string".to_string()));
    assert_eq!(def.repr, "");
    assert_eq!(def.to_string(), "string[]");
}

#[test]
fn tuple_type_keeps_order_and_markers() {
    let def = ts_type_to_def(&TsType::TsTupleType(TsTupleType {
        span: sp(0, 0),
        elem_types: vec![
            TsTupleElement { span: sp(0, 0), ty: string_kw() },
            TsTupleElement {
                span: sp(0, 0),
                ty: TsType::TsOptionalType(TsOptionalType {
                    span: sp(0, 0),
                    type_ann: Box::new(number_kw()),
                }),
            },
            TsTupleElement {
                span: sp(0, 0),
                ty: TsType::TsRestType(TsRestType {
                    span: sp(0, 0),
                    type_ann: Box::new(array(string_kw())),
                }),
            },
        ],
    }));
    assert_eq!(def.kind, Some(TsTypeDefKind::Tuple));
    let tuple = def.tuple.as_ref().unwrap();
    assert_eq!(tuple.len(), 3);
    assert_eq!(tuple[0].kind, Some(TsTypeDefKind::Keyword));
    assert_eq!(tuple[1].kind, Some(TsTypeDefKind::Optional));
    assert_eq!(tuple[2].kind, Some(TsTypeDefKind::Rest));
    assert_eq!(def.to_string(), "[string, number?, ...string[]]");
}

#[test]
fn optional_type_gives_optional_node() {
    let def = ts_type_to_def(&TsType::TsOptionalType(TsOptionalType {
        span: sp(0, 0),
        type_ann: Box::new(string_kw()),
    }));
    assert_eq!(def.kind, Some(TsTypeDefKind::Optional));
    assert!(def.optional.is_some());
    assert_eq!(def.to_string(), "string?");
}

#[test]
fn rest_type_gives_rest_node() {
    let def = ts_type_to_def(&TsType::TsRestType(TsRestType {
        span: sp(0, 0),
        type_ann: Box::new(string_kw()),
    }));
    assert_eq!(def.kind, Some(TsTypeDefKind::Rest));
    assert!(def.rest.is_some());
    assert_eq!(def.to_string(), "...string");
}

#[test]
fn union_keeps_order_and_duplicates() {
    let def = ts_type_to_def(&union(vec![string_kw(), number_kw(), string_kw()]));
    assert_eq!(def.kind, Some(TsTypeDefKind::Union));
    let members = def.union.as_ref().unwrap();
    assert_eq!(members.len(), 3);
    assert_eq!(members[0].keyword, Some("string".to_string()));
    assert_eq!(members[1].keyword, Some("number".to_string()));
    assert_eq!(members[2].keyword, Some("string".to_string()));
    assert_eq!(def.to_string(), "string | number | string");
}

#[test]
fn intersection_keeps_order() {
    let def = ts_type_to_def(&TsType::TsUnionOrIntersectionType(
        TsUnionOrIntersectionType::TsIntersectionType(TsIntersectionType {
            span: sp(0, 0),
            types: vec![Box::new(reference("B")), Box::new(reference("A"))],
        }),
    ));
    assert_eq!(def.kind, Some(TsTypeDefKind::Intersection));
    assert_eq!(def.intersection.as_ref().unwrap().len(), 2);
    assert_eq!(def.to_string(), "B & A");
}

#[test]
fn conditional_type_gives_conditional_node() {
    let def = ts_type_to_def(&TsType::TsConditionalType(TsConditionalType {
        span: sp(0, 0),
        check_type: Box::new(reference("T")),
        extends_type: Box::new(reference("U")),
        true_type: Box::new(reference("X")),
        false_type: Box::new(reference("Y")),
    }));
    assert_eq!(def.kind, Some(TsTypeDefKind::Conditional));
    assert!(def.conditional_type.is_some());
    assert_eq!(def.to_string(), "T extends U ? X : Y");
}

#[test]
fn infer_type_gives_infer_node() {
    let def = ts_type_to_def(&TsType::TsInferType(TsInferType {
        span: sp(0, 0),
        type_param: type_param("U", None, None),
    }));
    assert_eq!(def.kind, Some(TsTypeDefKind::Infer));
    assert_eq!(def.infer.as_ref().unwrap().type_param.name, "U");
    assert_eq!(def.to_string(), "infer U");
}

#[test]
fn parenthesized_type_gives_parenthesized_node() {
    let def = ts_type_to_def(&TsType::TsParenthesizedType(TsParenthesizedType {
        span: sp(0, 0),
        type_ann: Box::new(string_kw()),
    }));
    assert_eq!(def.kind, Some(TsTypeDefKind::Parenthesized));
    assert!(def.parenthesized.is_some());
    assert_eq!(def.to_string(), "(string)");
}

#[test]
fn type_operator_gives_type_operator_node() {
    let cases = vec![
        (TsTypeOperatorOp::KeyOf, "keyof T"),
        (TsTypeOperatorOp::Unique, "unique T"),
        (TsTypeOperatorOp::ReadOnly, "readonly T"),
    ];
    for (op, text) in cases {
        let def = ts_type_to_def(&TsType::TsTypeOperator(TsTypeOperator {
            span: sp(0, 0),
            op,
            type_ann: Box::new(reference("T")),
        }));
        assert_eq!(def.kind, Some(TsTypeDefKind::TypeOperator));
        assert_eq!(def.type_operator.as_ref().unwrap().operator, op.as_str());
        assert_eq!(def.to_string(), text);
    }
}

#[test]
fn indexed_access_type_gives_indexed_access_node() {
    let def = ts_type_to_def(&TsType::TsIndexedAccessType(TsIndexedAccessType {
        span: sp(0, 0),
        readonly: true,
        obj_type: Box::new(reference("T")),
        index_type: Box::new(reference("K")),
    }));
    assert_eq!(def.kind, Some(TsTypeDefKind::IndexedAccess));
    assert!(def.indexed_access.as_ref().unwrap().readonly);
    assert_eq!(def.to_string(), "T[K]");
}

fn mapped(
    readonly: Option<TruePlusMinus>,
    optional: Option<TruePlusMinus>,
    name_type: Option<TsType>,
    with_constraint: bool,
    with_type: bool,
) -> TsType {
    let key_of = TsType::TsTypeOperator(TsTypeOperator {
        span: sp(0, 0),
        op: TsTypeOperatorOp::KeyOf,
        type_ann: Box::new(reference("T")),
    });
    TsType::TsMappedType(TsMappedType {
        span: sp(0, 0),
        readonly,
        type_param: type_param("K", if with_constraint { Some(key_of) } else { None }, None),
        name_type: name_type.map(Box::new),
        optional,
        type_ann: if with_type {
            Some(Box::new(TsType::TsIndexedAccessType(TsIndexedAccessType {
                span: sp(0, 0),
                readonly: false,
                obj_type: Box::new(reference("T")),
                index_type: Box::new(reference("K")),
            })))
        } else {
            None
        },
    })
}

#[test]
fn mapped_type_gives_mapped_node() {
    let def = ts_type_to_def(&mapped(
        Some(TruePlusMinus::True),
        Some(TruePlusMinus::True),
        None,
        true,
        true,
    ));
    assert_eq!(def.kind, Some(TsTypeDefKind::Mapped));
    let mapped_type = def.mapped_type.as_ref().unwrap();
    assert_eq!(mapped_type.readonly, Some(TruePlusMinus::True));
    assert_eq!(mapped_type.optional, Some(TruePlusMinus::True));
    assert!(mapped_type.name_type.is_none());
    assert_eq!(def.to_string(), "readonly [K in keyof T]?: T[K]");
}

#[test]
fn mapped_type_modifiers_have_three_states_and_unset() {
    let plus_minus = ts_type_to_def(&mapped(
        Some(TruePlusMinus::Plus),
        Some(TruePlusMinus::Minus),
        None,
        true,
        true,
    ));
    assert_eq!(plus_minus.to_string(), "+readonly [K in keyof T]-?: T[K]");
    let minus_plus = ts_type_to_def(&mapped(
        Some(TruePlusMinus::Minus),
        Some(TruePlusMinus::Plus),
        None,
        true,
        true,
    ));
    assert_eq!(minus_plus.to_string(), "-readonly [K in keyof T]+?: T[K]");
    let unset = ts_type_to_def(&mapped(None, None, None, true, true));
    assert_eq!(unset.mapped_type.as_ref().unwrap().readonly, None);
    assert_eq!(unset.to_string(), "[K in keyof T]: T[K]");
    let renamed = ts_type_to_def(&mapped(None, None, Some(reference("N")), true, false));
    assert_eq!(renamed.to_string(), "[K in keyof T as N]");
    let bare = ts_type_to_def(&mapped(None, None, None, false, false));
    assert_eq!(bare.to_string(), "[K]");
}

#[test]
fn literal_types_give_literal_nodes() {
    let number = ts_type_to_def(&TsType::TsLitType(TsLitType {
        span: sp(0, 0),
        lit: TsLit::Number(Number { span: sp(0, 0), bits: 1.5f64.to_bits(), text: "1.5".into() }),
    }));
    assert_eq!(number.kind, Some(TsTypeDefKind::Literal));
    let literal = number.literal.as_ref().unwrap();
    assert_eq!(literal.kind, LiteralDefKind::Number);
    assert_eq!(f64::from_bits(literal.number.unwrap()), 1.5);
    assert_eq!(number.repr, "1.5");
    assert_eq!(number.to_string(), "1.5");

    let string = ts_type_to_def(&str_lit_type("a"));
    assert_eq!(string.literal.as_ref().unwrap().kind, LiteralDefKind::String);
    assert_eq!(string.literal.as_ref().unwrap().string, Some("a".to_string()));
    assert_eq!(string.repr, "a");
    assert_eq!(string.to_string(), "\"a\"");

    let boolean = ts_type_to_def(&TsType::TsLitType(TsLitType {
        span: sp(0, 0),
        lit: TsLit::Bool(Bool { span: sp(0, 0), value: true }),
    }));
    assert_eq!(boolean.literal.as_ref().unwrap().kind, LiteralDefKind::Boolean);
    assert_eq!(boolean.literal.as_ref().unwrap().boolean, Some(true));
    assert_eq!(boolean.repr, "true");
    assert_eq!(boolean.to_string(), "true");

    let bigint = ts_type_to_def(&TsType::TsLitType(TsLitType {
        span: sp(0, 0),
        lit: TsLit::BigInt(BigInt { span: sp(0, 0), value: "10".to_string() }),
    }));
    assert_eq!(bigint.literal.as_ref().unwrap().kind, LiteralDefKind::BigInt);
    assert_eq!(bigint.literal.as_ref().unwrap().string, Some("10".to_string()));
    assert_eq!(bigint.repr, "10");
    assert_eq!(bigint.to_string(), "10");
}

#[test]
fn template_literal_type_gives_literal_node() {
    let def = ts_type_to_def(&TsType::TsLitType(TsLitType {
        span: sp(0, 20),
        lit: TsLit::Tpl(TsTplLitType {
            span: sp(0, 20),
            types: vec![Box::new(keyword_at(TsKeywordTypeKind::TsNumberKeyword, 9, 15))],
            quasis: vec![quasi("hello ", 1, 7), quasi(" world", 16, 22)],
        }),
    }));
    assert_eq!(def.kind, Some(TsTypeDefKind::Literal));
    assert_eq!(def.literal.as_ref().unwrap().kind, LiteralDefKind::Template);
    assert_eq!(def.repr, "hello ${number} world");
    assert_eq!(def.to_string(), "`hello ${number} world`");
}

#[test]
fn type_predicate_gives_type_predicate_node() {
    let def = ts_type_to_def(&TsType::TsTypePredicate(TsTypePredicate {
        span: sp(0, 0),
        asserts: true,
        param_name: TsThisTypeOrIdent::Ident(ident("x")),
        type_ann: Some(ann(string_kw())),
    }));
    assert_eq!(def.kind, Some(TsTypeDefKind::TypePredicate));
    let predicate = def.type_predicate.as_ref().unwrap();
    assert!(predicate.asserts);
    assert!(predicate.param == ThisOrIdent::Identifier { name: "x".to_string() });
    assert_eq!(def.repr, "asserts x is string");
    assert_eq!(def.to_string(), "asserts x is string");

    let this = ts_type_to_def(&TsType::TsTypePredicate(TsTypePredicate {
        span: sp(0, 0),
        asserts: false,
        param_name: TsThisTypeOrIdent::TsThisType(TsThisType { span: sp(0, 0) }),
        type_ann: Some(ann(reference("Foo"))),
    }));
    assert!(this.type_predicate.as_ref().unwrap().param == ThisOrIdent::This);
    assert_eq!(this.to_string(), "this is Foo");

    let bare = ts_type_to_def(&TsType::TsTypePredicate(TsTypePredicate {
        span: sp(0, 0),
        asserts: true,
        param_name: TsThisTypeOrIdent::Ident(ident("x")),
        type_ann: None,
    }));
    assert!(bare.type_predicate.as_ref().unwrap().ty.is_none());
    assert_eq!(bare.to_string(), "asserts x");
}

#[test]
fn import_type_gives_import_type_node() {
    let def = ts_type_to_def(&TsType::TsImportType(TsImportType {
        span: sp(0, 0),
        arg: Str { span: sp(0, 0), value: "./a.ts".to_string() },
        qualifier: Some(TsEntityName::Ident(ident("B"))),
        type_args: Some(args(vec![reference("C")])),
    }));
    assert_eq!(def.kind, Some(TsTypeDefKind::ImportType));
    let import = def.import_type.as_ref().unwrap();
    assert_eq!(import.specifier, "./a.ts");
    assert_eq!(import.qualifier, Some("B".to_string()));
    assert_eq!(import.type_params.as_ref().unwrap().len(), 1);
    assert_eq!(def.to_string(), "import(\"./a.ts\").B<C>");

    let plain = ts_type_to_def(&TsType::TsImportType(TsImportType {
        span: sp(0, 0),
        arg: Str { span: sp(0, 0), value: "./a.ts".to_string() },
        qualifier: None,
        type_args: None,
    }));
    assert!(plain.import_type.as_ref().unwrap().qualifier.is_none());
    assert!(plain.import_type.as_ref().unwrap().type_params.is_none());
    assert_eq!(plain.to_string(), "import(\"./a.ts\")");
}

#[test]
fn every_converted_node_is_well_formed_and_holds_one_payload() {
    let types = vec![
        string_kw(),
        reference("A"),
        array(union(vec![reference("A"), reference("B")])),
        mapped(None, Some(TruePlusMinus::True), None, true, true),
        str_lit_type("a"),
    ];
    for t in &types {
        let def = ts_type_to_def(t);
        assert!(def.kind.is_some());
        assert!(def.is_well_formed());
        let populated = [
            def.keyword.is_some(),
            def.literal.is_some(),
            def.type_ref.is_some(),
            def.union.is_some(),
            def.intersection.is_some(),
            def.array.is_some(),
            def.tuple.is_some(),
            def.type_operator.is_some(),
            def.parenthesized.is_some(),
            def.rest.is_some(),
            def.optional.is_some(),
            def.type_query.is_some(),
            def.this.is_some(),
            def.fn_or_constructor.is_some(),
            def.conditional_type.is_some(),
            def.infer.is_some(),
            def.indexed_access.is_some(),
            def.mapped_type.is_some(),
            def.type_literal.is_some(),
            def.type_predicate.is_some(),
            def.import_type.is_some(),
        ];
        assert_eq!(populated.iter().filter(|p| **p).count(), 1);
    }
}

#[test]
fn type_annotation_is_converted_like_its_type() {
    let def = ts_type_ann_to_def(&ann(array(reference("A"))));
    assert!(def == ts_type_to_def(&array(reference("A"))));
    assert_eq!(def.to_string(), "A[]");
}

#[test]
fn type_arguments_without_a_list_are_empty() {
    assert!(maybe_type_param_instantiation_to_type_defs(None).is_empty());
    let inst = args(vec![string_kw(), reference("A")]);
    let defs = maybe_type_param_instantiation_to_type_defs(Some(&inst));
    assert_eq!(defs.len(), 2);
    assert_eq!(defs[0].to_string(), "string");
    assert_eq!(defs[1].to_string(), "A");
}

#[test]
fn type_parameters_without_a_declaration_are_empty() {
    assert!(maybe_type_param_decl_to_type_param_defs(None).is_empty());
    let decl = TsTypeParamDecl {
        span: sp(0, 0),
        params: vec![type_param("A", None, None), type_param("B", None, Some(string_kw()))],
    };
    let defs = maybe_type_param_decl_to_type_param_defs(Some(&decl));
    assert_eq!(defs.len(), 2);
    assert_eq!(defs[0].to_string(), "A");
    assert_eq!(defs[1].to_string(), "B = string");
}

#[test]
fn expression_with_type_arguments_gives_type_ref() {
    let def = ts_expr_with_type_args_to_def(&TsExprWithTypeArgs {
        span: sp(0, 0),
        expr: Box::new(Expr::Ident(ident("Base"))),
        type_args: Some(args(vec![string_kw()])),
    });
    assert_eq!(def.kind, Some(TsTypeDefKind::TypeRef));
    assert_eq!(def.repr, "Base");
    assert_eq!(def.to_string(), "Base<string>");
}

#[test]
fn span_of_a_type_follows_its_first_part_for_some_forms() {
    let inner = keyword_at(TsKeywordTypeKind::TsStringKeyword, 3, 9);
    let arr = TsType::TsArrayType(TsArrayType { span: sp(3, 11), elem_type: Box::new(inner) });
    assert_eq!(get_span_from_type(&arr), sp(3, 9));
    let cond = TsType::TsConditionalType(TsConditionalType {
        span: sp(0, 40),
        check_type: Box::new(keyword_at(TsKeywordTypeKind::TsStringKeyword, 1, 2)),
        extends_type: Box::new(reference("U")),
        true_type: Box::new(reference("X")),
        false_type: Box::new(reference("Y")),
    });
    assert_eq!(get_span_from_type(&cond), sp(1, 2));
    let access = TsType::TsIndexedAccessType(TsIndexedAccessType {
        span: sp(0, 10),
        readonly: false,
        obj_type: Box::new(reference("T")),
        index_type: Box::new(keyword_at(TsKeywordTypeKind::TsStringKeyword, 5, 6)),
    });
    assert_eq!(get_span_from_type(&access), sp(5, 6));
    assert_eq!(get_span_from_type(&keyword_at(TsKeywordTypeKind::TsAnyKeyword, 7, 8)), sp(7, 8));
}

#[test]
fn expression_names() {
    assert_eq!(expr_to_name(&Expr::Ident(ident("a"))), "a");
    let member = Expr::Member(MemberExpr {
        span: sp(0, 0),
        obj: Box::new(Expr::Ident(ident("Symbol"))),
        prop: MemberProp::Ident(ident("iterator")),
    });
    assert_eq!(expr_to_name(&member), "[Symbol.iterator]");
    let computed = Expr::Member(MemberExpr {
        span: sp(0, 0),
        obj: Box::new(Expr::Ident(ident("a"))),
        prop: MemberProp::Computed(sp(0, 0)),
    });
    assert_eq!(expr_to_name(&computed), "[a[UNSUPPORTED]]");
    assert_eq!(
        expr_to_name(&Expr::Lit(Lit::Str(Str { span: sp(0, 0), value: "key".to_string() }))),
        "key"
    );
    assert_eq!(expr_to_name(&Expr::Lit(Lit::Bool(Bool { span: sp(0, 0), value: false }))), "false");
    assert_eq!(expr_to_name(&Expr::Lit(Lit::Null(sp(0, 0)))), "null");
    assert_eq!(
        expr_to_name(&Expr::Lit(Lit::Num(Number {
            span: sp(0, 0),
            bits: 2f64.to_bits(),
            text: "2".to_string()
        }))),
        "2"
    );
    assert_eq!(expr_to_name(&Expr::Other(sp(0, 0))), "[UNSUPPORTED]");
}

#[test]
fn property_names() {
    assert_eq!(prop_name_to_string(&PropName::Ident(ident("a"))), "a");
    assert_eq!(
        prop_name_to_string(&PropName::Str(Str { span: sp(0, 0), value: "b".to_string() })),
        "b"
    );
    assert_eq!(
        prop_name_to_string(&PropName::BigInt(BigInt { span: sp(0, 0), value: "7".to_string() })),
        "7"
    );
    assert_eq!(prop_name_to_string(&PropName::Computed(sp(0, 0))), "<UNAVAILABLE>");
}

#[test]
fn parameters_of_every_pattern() {
    let id = ts_fn_param_to_param_def(&TsFnParam::Ident(param("a", true, Some(string_kw()))));
    assert!(
        id.pattern == ParamPatternDef::Identifier { name: "a".to_string(), optional: true }
    );
    assert_eq!(id.to_string(), "a?: string");

    let array_pat = Pat::Array(ArrayPat {
        span: sp(0, 0),
        elems: vec![
            Some(Pat::Ident(param("a", false, None))),
            None,
            Some(Pat::Ident(param("b", false, None))),
        ],
        optional: false,
        type_ann: Some(ann(array(string_kw()))),
    });
    let array_def = pat_to_param_def(&array_pat);
    assert_eq!(array_def.to_string(), "[a, , b]: string[]");

    let rest = Pat::Rest(RestPat {
        span: sp(0, 0),
        arg: Box::new(Pat::Ident(param("rest", false, None))),
        type_ann: Some(ann(array(number_kw()))),
    });
    assert_eq!(pat_to_param_def(&rest).to_string(), "...rest: number[]");

    let object = Pat::Object(ObjectPat {
        span: sp(0, 0),
        props: vec![
            ObjectPatProp::Assign(AssignPatProp { span: sp(0, 0), key: ident("a"), has_value: true }),
            ObjectPatProp::KeyValue(KeyValuePatProp {
                key: PropName::Ident(ident("b")),
                value: Box::new(Pat::Ident(param("c", false, None))),
            }),
            ObjectPatProp::Rest(RestPat {
                span: sp(0, 0),
                arg: Box::new(Pat::Ident(param("others", false, None))),
                type_ann: None,
            }),
        ],
        optional: true,
        type_ann: None,
    });
    let object_def = pat_to_param_def(&object);
    assert_eq!(object_def.to_string(), "{a, b, ...others}?");
    match &object_def.pattern {
        ParamPatternDef::Object { props, optional } => {
            assert!(*optional);
            assert!(
                props[0]
                    == ObjectPatPropDef::Assign {
                        key: "a".to_string(),
                        value: Some("[UNSUPPORTED]".to_string())
                    }
            );
        }
        _ => panic!("an object pattern is expected"),
    }

    let assign = Pat::Assign(AssignPat {
        span: sp(0, 0),
        left: Box::new(Pat::Ident(param("a", false, None))),
        type_ann: Some(ann(number_kw())),
    });
    let assign_def = pat_to_param_def(&assign);
    assert_eq!(assign_def.to_string(), "a: number");
    let expected = ParamDef {
        pattern: ParamPatternDef::Assign {
            left: Box::new(ParamDef {
                pattern: ParamPatternDef::Identifier { name: "a".to_string(), optional: false },
                ts_type: None,
            }),
            right: "[UNSUPPORTED]".to_string(),
        },
        ts_type: Some(TsTypeDef::keyword("number")),
    };
    assert!(assign_def == expected);
}

#[test]
fn type_alias_is_described_by_name_type_and_parameters() {
    let decl = TsTypeAliasDecl {
        span: sp(0, 0),
        id: ident("Pair"),
        type_params: Some(TsTypeParamDecl {
            span: sp(0, 0),
            params: vec![type_param("T", None, None)],
        }),
        type_ann: Box::new(TsType::TsTupleType(TsTupleType {
            span: sp(0, 0),
            elem_types: vec![
                TsTupleElement { span: sp(0, 0), ty: reference("T") },
                TsTupleElement { span: sp(0, 0), ty: reference("T") },
            ],
        })),
    };
    let (name, def) = get_doc_for_ts_type_alias_decl(&decl);
    assert_eq!(name, "Pair");
    assert_eq!(def.ts_type.to_string(), "[T, T]");
    assert_eq!(def.type_params.len(), 1);
    assert_eq!(def.type_params[0].name, "T");
    assert!(def.is_well_formed());
}
