use ts_type_doc::ast::{MethodKind, TruePlusMinus};
use ts_type_doc::display::{
    display_bool, display_computed, display_optional, display_readonly, join_strings,
};
use ts_type_doc::params::{ParamDef, ParamPatternDef};
use ts_type_doc::span::Span;
use ts_type_doc::ts_type::{
    LiteralCallSignatureDef, LiteralDef, LiteralDefKind, LiteralIndexSignatureDef,
    LiteralMethodDef, LiteralPropertyDef, ThisOrIdent, TsMappedTypeDef, TsTypeDef,
    TsTypeDefKind, TsTypeLiteralDef, TsTypePredicateDef, TsTypeRefDef,
};
use ts_type_doc::ts_type_param::TsTypeParamDef;

fn reference(name: &str) -> TsTypeDef {
    TsTypeDef {
        repr: name.to_string(),
        kind: Some(TsTypeDefKind::TypeRef),
        type_ref: Some(TsTypeRefDef { type_params: None, name: name.to_string() }),
        ..TsTypeDef::default()
    }
}

fn union(members: Vec<TsTypeDef>) -> TsTypeDef {
    TsTypeDef { kind: Some(TsTypeDefKind::Union), union: Some(members), ..TsTypeDef::default() }
}

fn intersection(members: Vec<TsTypeDef>) -> TsTypeDef {
    TsTypeDef {
        kind: Some(TsTypeDefKind::Intersection),
        intersection: Some(members),
        ..TsTypeDef::default()
    }
}

fn array(elem: TsTypeDef) -> TsTypeDef {
    TsTypeDef {
        kind: Some(TsTypeDefKind::Array),
        array: Some(Box::new(elem)),
        ..TsTypeDef::default()
    }
}

fn string_literal(value: &str) -> TsTypeDef {
    TsTypeDef {
        repr: value.to_string(),
        kind: Some(TsTypeDefKind::Literal),
        literal: Some(LiteralDef {
            kind: LiteralDefKind::String,
            number: None,
            string: Some(value.to_string()),
            ts_types: None,
            boolean: None,
        }),
        ..TsTypeDef::default()
    }
}

fn template(parts: Vec<TsTypeDef>) -> TsTypeDef {
    TsTypeDef {
        kind: Some(TsTypeDefKind::Literal),
        literal: Some(LiteralDef {
            kind: LiteralDefKind::Template,
            number: None,
            string: None,
            ts_types: Some(parts),
            boolean: None,
        }),
        ..TsTypeDef::default()
    }
}

fn param(name: &str, ts_type: Option<TsTypeDef>) -> ParamDef {
    ParamDef {
        pattern: ParamPatternDef::Identifier { name: name.to_string(), optional: false },
        ts_type,
    }
}

#[test]
fn array_of_union_is_parenthesized() {
    let def = array(union(vec![reference("A"), reference("B")]));
    assert_eq!(def.to_string(), "(A | B)[]");
}

#[test]
fn array_of_intersection_is_parenthesized() {
    let def = array(intersection(vec![reference("A"), reference("B")]));
    assert_eq!(def.to_string(), "(A & B)[]");
}

#[test]
fn array_of_reference_is_not_parenthesized() {
    assert_eq!(array(reference("A")).to_string(), "A[]");
    assert_eq!(array(array(reference("A"))).to_string(), "A[][]");
}

#[test]
fn node_without_tag_shows_the_sentinel() {
    let def = TsTypeDef { repr: "whatever".to_string(), ..TsTypeDef::default() };
    assert!(def.is_well_formed());
    assert_eq!(def.to_string(), "[UNSUPPORTED]");
    assert_eq!(TsTypeDef::default().to_string(), "[UNSUPPORTED]");
}

#[test]
fn rendering_is_repeatable() {
    let def = array(union(vec![reference("A"), string_literal("b")]));
    let first = def.to_string();
    let second = def.to_string();
    assert_eq!(first, second);
    assert_eq!(first, "(A | \"b\")[]");
}

#[test]
fn union_of_one_and_none() {
    assert_eq!(union(vec![reference("A")]).to_string(), "A");
    assert_eq!(union(vec![]).to_string(), "");
    assert_eq!(array(union(vec![])).to_string(), "()[]");
}

#[test]
fn template_chunks_are_raw_and_interpolations_are_wrapped() {
    let def = template(vec![
        string_literal("a \"quoted\" "),
        TsTypeDef::keyword("number"),
        string_literal(" b"),
    ]);
    assert_eq!(def.to_string(), "`a \"quoted\" ${number} b`");
    let nested = template(vec![template(vec![string_literal("x")])]);
    assert_eq!(nested.to_string(), "`${`x`}`");
    assert_eq!(template(vec![]).to_string(), "``");
}

#[test]
fn number_literal_shows_its_text() {
    let def = TsTypeDef {
        repr: "0.5".to_string(),
        kind: Some(TsTypeDefKind::Literal),
        literal: Some(LiteralDef {
            kind: LiteralDefKind::Number,
            number: Some(0.5f64.to_bits()),
            string: None,
            ts_types: None,
            boolean: None,
        }),
        ..TsTypeDef::default()
    };
    assert_eq!(def.to_string(), "0.5");
}

#[test]
fn type_literal_lists_call_signatures_methods_properties_index_signatures() {
    let literal = TsTypeLiteralDef {
        methods: vec![LiteralMethodDef {
            name: "m".to_string(),
            kind: MethodKind::Method,
            params: vec![param("a", Some(TsTypeDef::keyword("string")))],
            computed: false,
            optional: true,
            return_type: Some(TsTypeDef::keyword("void")),
            type_params: vec![],
        }],
        properties: vec![
            LiteralPropertyDef {
                name: "p".to_string(),
                params: vec![],
                readonly: false,
                computed: false,
                optional: false,
                ts_type: Some(TsTypeDef::keyword("number")),
                type_params: vec![],
            },
            LiteralPropertyDef {
                name: "q".to_string(),
                params: vec![],
                readonly: true,
                computed: false,
                optional: true,
                ts_type: None,
                type_params: vec![],
            },
        ],
        call_signatures: vec![LiteralCallSignatureDef {
            params: vec![],
            ts_type: Some(reference("R")),
            type_params: vec![],
        }],
        index_signatures: vec![LiteralIndexSignatureDef {
            readonly: true,
            params: vec![param("key", Some(TsTypeDef::keyword("string")))],
            ts_type: Some(TsTypeDef::keyword("any")),
        }],
    };
    let def = TsTypeDef {
        kind: Some(TsTypeDefKind::TypeLiteral),
        type_literal: Some(literal),
        ..TsTypeDef::default()
    };
    assert_eq!(
        def.to_string(),
        "{ (): R; m?(a: string): void; p: number; q; readonly [key: string]: any; }"
    );
}

#[test]
fn signature_texts() {
    let method = LiteralMethodDef {
        name: "Symbol.iterator".to_string(),
        kind: MethodKind::Method,
        params: vec![],
        computed: true,
        optional: false,
        return_type: None,
        type_params: vec![],
    };
    assert_eq!(method.to_string(), "[Symbol.iterator]()");
    let property = LiteralPropertyDef {
        name: "p".to_string(),
        params: vec![],
        readonly: false,
        computed: false,
        optional: false,
        ts_type: Some(reference("T")),
        type_params: vec![],
    };
    assert_eq!(property.to_string(), "p: T");
    let call = LiteralCallSignatureDef {
        params: vec![param("a", None), param("b", Some(reference("B")))],
        ts_type: None,
        type_params: vec![],
    };
    assert_eq!(call.to_string(), "(a, b: B)");
    let index = LiteralIndexSignatureDef {
        readonly: false,
        params: vec![param("i", Some(TsTypeDef::keyword("number")))],
        ts_type: None,
    };
    assert_eq!(index.to_string(), "[i: number]");
}

#[test]
fn type_predicate_texts() {
    let only_subject =
        TsTypePredicateDef { asserts: false, param: ThisOrIdent::This, ty: None };
    assert_eq!(only_subject.to_string(), "this");
    let full = TsTypePredicateDef {
        asserts: true,
        param: ThisOrIdent::Identifier { name: "value".to_string() },
        ty: Some(Box::new(reference("T"))),
    };
    assert_eq!(full.to_string(), "asserts value is T");
}

#[test]
fn type_parameter_texts() {
    let plain = TsTypeParamDef { name: "T".to_string(), constraint: None, default: None };
    assert_eq!(plain.to_string(), "T");
    let full = TsTypeParamDef {
        name: "T".to_string(),
        constraint: Some(reference("Base")),
        default: Some(TsTypeDef::keyword("never")),
    };
    assert_eq!(full.to_string(), "T extends Base = never");
}

#[test]
fn mapped_type_key_without_constraint_shows_the_parameter() {
    let mapped = TsMappedTypeDef {
        readonly: None,
        type_param: Box::new(TsTypeParamDef {
            name: "K".to_string(),
            constraint: None,
            default: Some(reference("D")),
        }),
        name_type: None,
        optional: Some(TruePlusMinus::True),
        ts_type: None,
    };
    let def = TsTypeDef {
        kind: Some(TsTypeDefKind::Mapped),
        mapped_type: Some(mapped),
        ..TsTypeDef::default()
    };
    assert_eq!(def.to_string(), "[K = D]?");
}

#[test]
fn joining_strings() {
    let parts = vec!["a".to_string(), "b".to_string(), "c".to_string()];
    assert_eq!(join_strings(&parts, ", ", false), "a, b, c");
    assert_eq!(join_strings(&parts, "; ", true), "a; b; c; ");
    assert_eq!(join_strings(&vec![], "; ", true), "");
    assert_eq!(join_strings(&vec!["x".to_string()], ", ", false), "x");
    assert_eq!(join_strings(&parts, "", false), "abc");
}

#[test]
fn display_helpers() {
    assert_eq!(display_optional(true), "?");
    assert_eq!(display_optional(false), "");
    assert_eq!(display_readonly(true), "readonly ");
    assert_eq!(display_readonly(false), "");
    assert_eq!(display_computed(true, "a"), "[a]");
    assert_eq!(display_computed(false, "a"), "a");
    assert_eq!(display_bool(true), "true");
    assert_eq!(display_bool(false), "false");
}

#[test]
fn constructors_of_keywords_and_references() {
    let keyword = TsTypeDef::keyword("string");
    assert_eq!(keyword.repr, "string");
    assert_eq!(keyword.keyword, Some("string".to_string()));
    assert_eq!(TsTypeDef::number_with_repr("Number").keyword, Some("number".to_string()));
    assert_eq!(TsTypeDef::number_with_repr("Number").repr, "Number");
    assert_eq!(TsTypeDef::string_with_repr("x").keyword, Some("string".to_string()));
    assert_eq!(TsTypeDef::bool_with_repr("x").keyword, Some("boolean".to_string()));
    assert_eq!(TsTypeDef::bigint_with_repr("x").keyword, Some("bigint".to_string()));
    let custom = TsTypeDef::keyword_with_repr("symbol", "Symbol");
    assert_eq!(custom.kind, Some(TsTypeDefKind::Keyword));
    assert_eq!(custom.keyword, Some("symbol".to_string()));
    assert_eq!(custom.repr, "Symbol");
    assert_eq!(custom.to_string(), "symbol");
    let regexp = TsTypeDef::regexp("a+".to_string());
    assert_eq!(regexp.kind, Some(TsTypeDefKind::TypeRef));
    assert_eq!(regexp.repr, "a+");
    assert_eq!(regexp.type_ref.as_ref().unwrap().name, "RegExp");
    assert!(regexp.type_ref.as_ref().unwrap().type_params.is_none());
    assert_eq!(regexp.to_string(), "RegExp");
}

#[test]
fn well_formedness_is_checked_at_every_level() {
    let missing = TsTypeDef { kind: Some(TsTypeDefKind::Array), ..TsTypeDef::default() };
    assert!(!missing.is_well_formed());
    let inner_missing = array(TsTypeDef {
        kind: Some(TsTypeDefKind::Union),
        ..TsTypeDef::default()
    });
    assert!(!inner_missing.is_well_formed());
    let untagged_part = template(vec![TsTypeDef::default()]);
    assert!(!untagged_part.is_well_formed());
    assert!(template(vec![string_literal("a")]).is_well_formed());
    assert!(array(union(vec![reference("A")])).is_well_formed());
    let bare_this = TsTypeDef { kind: Some(TsTypeDefKind::This), ..TsTypeDef::default() };
    assert!(!bare_this.is_well_formed());
    let this = TsTypeDef {
        repr: "this".to_string(),
        kind: Some(TsTypeDefKind::This),
        this: Some(true),
        ..TsTypeDef::default()
    };
    assert!(this.is_well_formed());
    assert_eq!(this.to_string(), "this");
    let two_payloads = TsTypeDef {
        kind: Some(TsTypeDefKind::Keyword),
        keyword: Some("string".to_string()),
        type_query: Some("x".to_string()),
        ..TsTypeDef::default()
    };
    assert!(!two_payloads.is_well_formed());
    assert!(two_payloads.no_payload_but(TsTypeDefKind::Keyword) == false);
    assert!(TsTypeDef::keyword("string").no_payload_but(TsTypeDefKind::Keyword));
    let untagged_with_payload =
        TsTypeDef { keyword: Some("string".to_string()), ..TsTypeDef::default() };
    assert!(untagged_with_payload.is_well_formed());
    assert_eq!(untagged_with_payload.to_string(), "[UNSUPPORTED]");
}

#[test]
fn equality_is_structural() {
    let a = array(union(vec![reference("A"), reference("B")]));
    let b = array(union(vec![reference("A"), reference("B")]));
    let c = array(union(vec![reference("B"), reference("A")]));
    assert!(a.equals(&b));
    assert!(a == b);
    assert!(!a.equals(&c));
    assert!(a != c);
    let mut d = array(union(vec![reference("A"), reference("B")]));
    d.repr = "x".to_string();
    assert!(!a.equals(&d));
    assert!(param("a", None) == param("a", None));
    assert!(param("a", None) != param("a", Some(reference("T"))));
}

#[test]
fn spans_are_ordered_by_start_then_end_then_context() {
    let a = Span { lo: 1, hi: 5, ctxt: 0 };
    let b = Span { lo: 2, hi: 3, ctxt: 0 };
    let c = Span { lo: 1, hi: 6, ctxt: 0 };
    let d = Span { lo: 1, hi: 5, ctxt: 1 };
    assert!(a.le(&b) && !b.le(&a));
    assert!(a.le(&c) && !c.le(&a));
    assert!(a.le(&d) && !d.le(&a));
    assert!(a.le(&a));
    assert_eq!(Span::new(3, 4), Span { lo: 3, hi: 4, ctxt: 0 });
}

#[test]
fn clone_describes_the_same_thing() {
    let def = array(union(vec![
        reference("A"),
        template(vec![string_literal("x"), TsTypeDef::keyword("number")]),
    ]));
    let copy = def.clone();
    assert!(copy == def);
    assert!(copy.equals(&def));
    assert_eq!(copy.to_string(), def.to_string());
    assert_eq!(copy.to_string(), "(A | `x${number}`)[]");
    let parameter = param("a", Some(reference("T")));
    assert!(parameter.clone() == parameter);
    let predicate = TsTypePredicateDef {
        asserts: true,
        param: ThisOrIdent::Identifier { name: "value".to_string() },
        ty: Some(Box::new(reference("T"))),
    };
    assert!(predicate.duplicate() == predicate);
}
