//! The mathematical model of descriptions: a view for each type, the shapes of
//! nodes, and what it is for a description to be well formed.

use crate::ast::{MethodKind, TruePlusMinus};
use crate::params::{ObjectPatPropDef, ParamDef, ParamPatternDef};
use crate::ts_type::{
    LiteralCallSignatureDef, LiteralDef, LiteralDefKind, LiteralIndexSignatureDef, LiteralMethodDef,
    LiteralPropertyDef, ThisOrIdent, TsConditionalDef, TsFnOrConstructorDef, TsImportTypeDef,
    TsIndexedAccessDef, TsInferDef, TsMappedTypeDef, TsTypeDef, TsTypeDefKind, TsTypeLiteralDef,
    TsTypeOperatorDef, TsTypePredicateDef, TsTypeRefDef,
};
use crate::ts_type_param::TsTypeParamDef;
use crate::type_alias::TypeAliasDef;
use vstd::prelude::*;

verus! {

#[verifier::ext_equal]
pub ghost struct TsTypeRefDefView {
    pub type_params: Option<Seq<TsTypeDefView>>,
    pub name: Seq<char>,
}

#[verifier::ext_equal]
pub ghost struct LiteralDefView {
    pub kind: LiteralDefKind,
    pub number: Option<u64>,
    pub string: Option<Seq<char>>,
    pub ts_types: Option<Seq<TsTypeDefView>>,
    pub boolean: Option<bool>,
}

#[verifier::ext_equal]
pub ghost struct TsTypeOperatorDefView {
    pub operator: Seq<char>,
    pub ts_type: TsTypeDefView,
}

#[verifier::ext_equal]
pub ghost struct TsFnOrConstructorDefView {
    pub constructor: bool,
    pub ts_type: TsTypeDefView,
    pub params: Seq<ParamDefView>,
    pub type_params: Seq<TsTypeParamDefView>,
}

#[verifier::ext_equal]
pub ghost struct TsConditionalDefView {
    pub check_type: Box<TsTypeDefView>,
    pub extends_type: Box<TsTypeDefView>,
    pub true_type: Box<TsTypeDefView>,
    pub false_type: Box<TsTypeDefView>,
}

#[verifier::ext_equal]
pub ghost struct TsInferDefView {
    pub type_param: Box<TsTypeParamDefView>,
}

#[verifier::ext_equal]
pub ghost struct TsImportTypeDefView {
    pub specifier: Seq<char>,
    pub qualifier: Option<Seq<char>>,
    pub type_params: Option<Seq<TsTypeDefView>>,
}

#[verifier::ext_equal]
pub ghost struct TsIndexedAccessDefView {
    pub readonly: bool,
    pub obj_type: Box<TsTypeDefView>,
    pub index_type: Box<TsTypeDefView>,
}

#[verifier::ext_equal]
pub ghost struct TsMappedTypeDefView {
    pub readonly: Option<TruePlusMinus>,
    pub type_param: Box<TsTypeParamDefView>,
    pub name_type: Option<Box<TsTypeDefView>>,
    pub optional: Option<TruePlusMinus>,
    pub ts_type: Option<Box<TsTypeDefView>>,
}

#[verifier::ext_equal]
pub ghost struct LiteralMethodDefView {
    pub name: Seq<char>,
    pub kind: MethodKind,
    pub params: Seq<ParamDefView>,
    pub computed: bool,
    pub optional: bool,
    pub return_type: Option<TsTypeDefView>,
    pub type_params: Seq<TsTypeParamDefView>,
}

#[verifier::ext_equal]
pub ghost struct LiteralPropertyDefView {
    pub name: Seq<char>,
    pub params: Seq<ParamDefView>,
    pub readonly: bool,
    pub computed: bool,
    pub optional: bool,
    pub ts_type: Option<TsTypeDefView>,
    pub type_params: Seq<TsTypeParamDefView>,
}

#[verifier::ext_equal]
pub ghost struct LiteralCallSignatureDefView {
    pub params: Seq<ParamDefView>,
    pub ts_type: Option<TsTypeDefView>,
    pub type_params: Seq<TsTypeParamDefView>,
}

#[verifier::ext_equal]
pub ghost struct LiteralIndexSignatureDefView {
    pub readonly: bool,
    pub params: Seq<ParamDefView>,
    pub ts_type: Option<TsTypeDefView>,
}

#[verifier::ext_equal]
pub ghost struct TsTypeLiteralDefView {
    pub methods: Seq<LiteralMethodDefView>,
    pub properties: Seq<LiteralPropertyDefView>,
    pub call_signatures: Seq<LiteralCallSignatureDefView>,
    pub index_signatures: Seq<LiteralIndexSignatureDefView>,
}

#[verifier::ext_equal]
pub ghost struct TsTypePredicateDefView {
    pub asserts: bool,
    pub param: ThisOrIdentView,
    pub ty: Option<Box<TsTypeDefView>>,
}

#[verifier::ext_equal]
pub ghost struct TsTypeDefView {
    pub repr: Seq<char>,
    pub kind: Option<TsTypeDefKind>,
    pub keyword: Option<Seq<char>>,
    pub literal: Option<LiteralDefView>,
    pub type_ref: Option<TsTypeRefDefView>,
    pub union: Option<Seq<TsTypeDefView>>,
    pub intersection: Option<Seq<TsTypeDefView>>,
    pub array: Option<Box<TsTypeDefView>>,
    pub tuple: Option<Seq<TsTypeDefView>>,
    pub type_operator: Option<Box<TsTypeOperatorDefView>>,
    pub parenthesized: Option<Box<TsTypeDefView>>,
    pub rest: Option<Box<TsTypeDefView>>,
    pub optional: Option<Box<TsTypeDefView>>,
    pub type_query: Option<Seq<char>>,
    pub this: Option<bool>,
    pub fn_or_constructor: Option<Box<TsFnOrConstructorDefView>>,
    pub conditional_type: Option<TsConditionalDefView>,
    pub infer: Option<TsInferDefView>,
    pub indexed_access: Option<TsIndexedAccessDefView>,
    pub mapped_type: Option<TsMappedTypeDefView>,
    pub type_literal: Option<TsTypeLiteralDefView>,
    pub type_predicate: Option<TsTypePredicateDefView>,
    pub import_type: Option<TsImportTypeDefView>,
}

#[verifier::ext_equal]
pub ghost struct TsTypeParamDefView {
    pub name: Seq<char>,
    pub constraint: Option<TsTypeDefView>,
    pub default: Option<TsTypeDefView>,
}

#[verifier::ext_equal]
pub ghost struct ParamDefView {
    pub pattern: ParamPatternDefView,
    pub ts_type: Option<TsTypeDefView>,
}

#[verifier::ext_equal]
pub ghost struct TypeAliasDefView {
    pub ts_type: TsTypeDefView,
    pub type_params: Seq<TsTypeParamDefView>,
}

#[verifier::ext_equal]
pub ghost enum ThisOrIdentView {
    This,
    Identifier { name: Seq<char> },
}

#[verifier::ext_equal]
pub ghost enum ParamPatternDefView {
    Array { elements: Seq<Option<ParamDefView>>, optional: bool },
    Assign { left: Box<ParamDefView>, right: Seq<char> },
    Identifier { name: Seq<char>, optional: bool },
    Object { props: Seq<ObjectPatPropDefView>, optional: bool },
    Rest { arg: Box<ParamDefView> },
}

#[allow(inconsistent_fields)]
#[verifier::ext_equal]
pub ghost enum ObjectPatPropDefView {
    Assign { key: Seq<char>, value: Option<Seq<char>> },
    KeyValue { key: Seq<char>, value: Box<ParamDefView> },
    Rest { arg: Box<ParamDefView> },
}

pub open spec fn ts_type_ref_def_view(d: TsTypeRefDef) -> TsTypeRefDefView
    decreases d,
{
    TsTypeRefDefView {
        type_params: match d.type_params {
            Some(x) => Some(ts_type_def_views(x@)),
            None => None,
        },
        name: d.name@,
    }
}

pub open spec fn literal_def_view(d: LiteralDef) -> LiteralDefView
    decreases d,
{
    LiteralDefView {
        kind: d.kind,
        number: d.number,
        string: match d.string {
            Some(x) => Some(x@),
            None => None,
        },
        ts_types: match d.ts_types {
            Some(x) => Some(ts_type_def_views(x@)),
            None => None,
        },
        boolean: d.boolean,
    }
}

pub open spec fn ts_type_operator_def_view(d: TsTypeOperatorDef) -> TsTypeOperatorDefView
    decreases d,
{
    TsTypeOperatorDefView {
        operator: d.operator@,
        ts_type: ts_type_def_view(d.ts_type),
    }
}

pub open spec fn ts_fn_or_constructor_def_view(d: TsFnOrConstructorDef) -> TsFnOrConstructorDefView
    decreases d,
{
    TsFnOrConstructorDefView {
        constructor: d.constructor,
        ts_type: ts_type_def_view(d.ts_type),
        params: param_def_views(d.params@),
        type_params: ts_type_param_def_views(d.type_params@),
    }
}

pub open spec fn ts_conditional_def_view(d: TsConditionalDef) -> TsConditionalDefView
    decreases d,
{
    TsConditionalDefView {
        check_type: Box::new(ts_type_def_view(*d.check_type)),
        extends_type: Box::new(ts_type_def_view(*d.extends_type)),
        true_type: Box::new(ts_type_def_view(*d.true_type)),
        false_type: Box::new(ts_type_def_view(*d.false_type)),
    }
}

pub open spec fn ts_infer_def_view(d: TsInferDef) -> TsInferDefView
    decreases d,
{
    TsInferDefView {
        type_param: Box::new(ts_type_param_def_view(*d.type_param)),
    }
}

pub open spec fn ts_import_type_def_view(d: TsImportTypeDef) -> TsImportTypeDefView
    decreases d,
{
    TsImportTypeDefView {
        specifier: d.specifier@,
        qualifier: match d.qualifier {
            Some(x) => Some(x@),
            None => None,
        },
        type_params: match d.type_params {
            Some(x) => Some(ts_type_def_views(x@)),
            None => None,
        },
    }
}

pub open spec fn ts_indexed_access_def_view(d: TsIndexedAccessDef) -> TsIndexedAccessDefView
    decreases d,
{
    TsIndexedAccessDefView {
        readonly: d.readonly,
        obj_type: Box::new(ts_type_def_view(*d.obj_type)),
        index_type: Box::new(ts_type_def_view(*d.index_type)),
    }
}

pub open spec fn ts_mapped_type_def_view(d: TsMappedTypeDef) -> TsMappedTypeDefView
    decreases d,
{
    TsMappedTypeDefView {
        readonly: d.readonly,
        type_param: Box::new(ts_type_param_def_view(*d.type_param)),
        name_type: match d.name_type {
            Some(x) => Some(Box::new(ts_type_def_view(*x))),
            None => None,
        },
        optional: d.optional,
        ts_type: match d.ts_type {
            Some(x) => Some(Box::new(ts_type_def_view(*x))),
            None => None,
        },
    }
}

pub open spec fn literal_method_def_view(d: LiteralMethodDef) -> LiteralMethodDefView
    decreases d,
{
    LiteralMethodDefView {
        name: d.name@,
        kind: d.kind,
        params: param_def_views(d.params@),
        computed: d.computed,
        optional: d.optional,
        return_type: match d.return_type {
            Some(x) => Some(ts_type_def_view(x)),
            None => None,
        },
        type_params: ts_type_param_def_views(d.type_params@),
    }
}

pub open spec fn literal_property_def_view(d: LiteralPropertyDef) -> LiteralPropertyDefView
    decreases d,
{
    LiteralPropertyDefView {
        name: d.name@,
        params: param_def_views(d.params@),
        readonly: d.readonly,
        computed: d.computed,
        optional: d.optional,
        ts_type: match d.ts_type {
            Some(x) => Some(ts_type_def_view(x)),
            None => None,
        },
        type_params: ts_type_param_def_views(d.type_params@),
    }
}

pub open spec fn literal_call_signature_def_view(
    d: LiteralCallSignatureDef,
) -> LiteralCallSignatureDefView
    decreases d,
{
    LiteralCallSignatureDefView {
        params: param_def_views(d.params@),
        ts_type: match d.ts_type {
            Some(x) => Some(ts_type_def_view(x)),
            None => None,
        },
        type_params: ts_type_param_def_views(d.type_params@),
    }
}

pub open spec fn literal_index_signature_def_view(
    d: LiteralIndexSignatureDef,
) -> LiteralIndexSignatureDefView
    decreases d,
{
    LiteralIndexSignatureDefView {
        readonly: d.readonly,
        params: param_def_views(d.params@),
        ts_type: match d.ts_type {
            Some(x) => Some(ts_type_def_view(x)),
            None => None,
        },
    }
}

pub open spec fn ts_type_literal_def_view(d: TsTypeLiteralDef) -> TsTypeLiteralDefView
    decreases d,
{
    TsTypeLiteralDefView {
        methods: literal_method_def_views(d.methods@),
        properties: literal_property_def_views(d.properties@),
        call_signatures: literal_call_signature_def_views(d.call_signatures@),
        index_signatures: literal_index_signature_def_views(d.index_signatures@),
    }
}

pub open spec fn ts_type_predicate_def_view(d: TsTypePredicateDef) -> TsTypePredicateDefView
    decreases d,
{
    TsTypePredicateDefView {
        asserts: d.asserts,
        param: this_or_ident_view(d.param),
        ty: match d.ty {
            Some(x) => Some(Box::new(ts_type_def_view(*x))),
            None => None,
        },
    }
}

pub open spec fn ts_type_def_view(d: TsTypeDef) -> TsTypeDefView
    decreases d,
{
    TsTypeDefView {
        repr: d.repr@,
        kind: d.kind,
        keyword: match d.keyword {
            Some(x) => Some(x@),
            None => None,
        },
        literal: match d.literal {
            Some(x) => Some(literal_def_view(x)),
            None => None,
        },
        type_ref: match d.type_ref {
            Some(x) => Some(ts_type_ref_def_view(x)),
            None => None,
        },
        union: match d.union {
            Some(x) => Some(ts_type_def_views(x@)),
            None => None,
        },
        intersection: match d.intersection {
            Some(x) => Some(ts_type_def_views(x@)),
            None => None,
        },
        array: match d.array {
            Some(x) => Some(Box::new(ts_type_def_view(*x))),
            None => None,
        },
        tuple: match d.tuple {
            Some(x) => Some(ts_type_def_views(x@)),
            None => None,
        },
        type_operator: match d.type_operator {
            Some(x) => Some(Box::new(ts_type_operator_def_view(*x))),
            None => None,
        },
        parenthesized: match d.parenthesized {
            Some(x) => Some(Box::new(ts_type_def_view(*x))),
            None => None,
        },
        rest: match d.rest {
            Some(x) => Some(Box::new(ts_type_def_view(*x))),
            None => None,
        },
        optional: match d.optional {
            Some(x) => Some(Box::new(ts_type_def_view(*x))),
            None => None,
        },
        type_query: match d.type_query {
            Some(x) => Some(x@),
            None => None,
        },
        this: d.this,
        fn_or_constructor: match d.fn_or_constructor {
            Some(x) => Some(Box::new(ts_fn_or_constructor_def_view(*x))),
            None => None,
        },
        conditional_type: match d.conditional_type {
            Some(x) => Some(ts_conditional_def_view(x)),
            None => None,
        },
        infer: match d.infer {
            Some(x) => Some(ts_infer_def_view(x)),
            None => None,
        },
        indexed_access: match d.indexed_access {
            Some(x) => Some(ts_indexed_access_def_view(x)),
            None => None,
        },
        mapped_type: match d.mapped_type {
            Some(x) => Some(ts_mapped_type_def_view(x)),
            None => None,
        },
        type_literal: match d.type_literal {
            Some(x) => Some(ts_type_literal_def_view(x)),
            None => None,
        },
        type_predicate: match d.type_predicate {
            Some(x) => Some(ts_type_predicate_def_view(x)),
            None => None,
        },
        import_type: match d.import_type {
            Some(x) => Some(ts_import_type_def_view(x)),
            None => None,
        },
    }
}

pub open spec fn ts_type_param_def_view(d: TsTypeParamDef) -> TsTypeParamDefView
    decreases d,
{
    TsTypeParamDefView {
        name: d.name@,
        constraint: match d.constraint {
            Some(x) => Some(ts_type_def_view(x)),
            None => None,
        },
        default: match d.default {
            Some(x) => Some(ts_type_def_view(x)),
            None => None,
        },
    }
}

pub open spec fn param_def_view(d: ParamDef) -> ParamDefView
    decreases d,
{
    ParamDefView {
        pattern: param_pattern_def_view(d.pattern),
        ts_type: match d.ts_type {
            Some(x) => Some(ts_type_def_view(x)),
            None => None,
        },
    }
}

pub open spec fn type_alias_def_view(d: TypeAliasDef) -> TypeAliasDefView
    decreases d,
{
    TypeAliasDefView {
        ts_type: ts_type_def_view(d.ts_type),
        type_params: ts_type_param_def_views(d.type_params@),
    }
}

pub open spec fn this_or_ident_view(d: ThisOrIdent) -> ThisOrIdentView
    decreases d,
{
    match d {
        ThisOrIdent::This => ThisOrIdentView::This,
        ThisOrIdent::Identifier { name } => ThisOrIdentView::Identifier {
            name: name@,
        },
    }
}

pub open spec fn param_pattern_def_view(d: ParamPatternDef) -> ParamPatternDefView
    decreases d,
{
    match d {
        ParamPatternDef::Array { elements, optional } => ParamPatternDefView::Array {
            elements: optional_param_def_views(elements@),
            optional,
        },
        ParamPatternDef::Assign { left, right } => ParamPatternDefView::Assign {
            left: Box::new(param_def_view(*left)),
            right: right@,
        },
        ParamPatternDef::Identifier { name, optional } => ParamPatternDefView::Identifier {
            name: name@,
            optional,
        },
        ParamPatternDef::Object { props, optional } => ParamPatternDefView::Object {
            props: object_pat_prop_def_views(props@),
            optional,
        },
        ParamPatternDef::Rest { arg } => ParamPatternDefView::Rest {
            arg: Box::new(param_def_view(*arg)),
        },
    }
}

pub open spec fn object_pat_prop_def_view(d: ObjectPatPropDef) -> ObjectPatPropDefView
    decreases d,
{
    match d {
        ObjectPatPropDef::Assign { key, value } => ObjectPatPropDefView::Assign {
            key: key@,
            value: match value {
                Some(x) => Some(x@),
                None => None,
            },
        },
        ObjectPatPropDef::KeyValue { key, value } => ObjectPatPropDefView::KeyValue {
            key: key@,
            value: Box::new(param_def_view(*value)),
        },
        ObjectPatPropDef::Rest { arg } => ObjectPatPropDefView::Rest {
            arg: Box::new(param_def_view(*arg)),
        },
    }
}

pub open spec fn ts_type_def_views(s: Seq<TsTypeDef>) -> Seq<TsTypeDefView>
    decreases s,
{
    Seq::new(
        s.len(),
        |i: int|
            if 0 <= i < s.len() {
                ts_type_def_view(s[i])
            } else {
                arbitrary()
            },
    )
}

pub open spec fn param_def_views(s: Seq<ParamDef>) -> Seq<ParamDefView>
    decreases s,
{
    Seq::new(
        s.len(),
        |i: int|
            if 0 <= i < s.len() {
                param_def_view(s[i])
            } else {
                arbitrary()
            },
    )
}

pub open spec fn ts_type_param_def_views(s: Seq<TsTypeParamDef>) -> Seq<TsTypeParamDefView>
    decreases s,
{
    Seq::new(
        s.len(),
        |i: int|
            if 0 <= i < s.len() {
                ts_type_param_def_view(s[i])
            } else {
                arbitrary()
            },
    )
}

pub open spec fn literal_method_def_views(s: Seq<LiteralMethodDef>) -> Seq<LiteralMethodDefView>
    decreases s,
{
    Seq::new(
        s.len(),
        |i: int|
            if 0 <= i < s.len() {
                literal_method_def_view(s[i])
            } else {
                arbitrary()
            },
    )
}

pub open spec fn literal_property_def_views(
    s: Seq<LiteralPropertyDef>,
) -> Seq<LiteralPropertyDefView>
    decreases s,
{
    Seq::new(
        s.len(),
        |i: int|
            if 0 <= i < s.len() {
                literal_property_def_view(s[i])
            } else {
                arbitrary()
            },
    )
}

pub open spec fn literal_call_signature_def_views(
    s: Seq<LiteralCallSignatureDef>,
) -> Seq<LiteralCallSignatureDefView>
    decreases s,
{
    Seq::new(
        s.len(),
        |i: int|
            if 0 <= i < s.len() {
                literal_call_signature_def_view(s[i])
            } else {
                arbitrary()
            },
    )
}

pub open spec fn literal_index_signature_def_views(
    s: Seq<LiteralIndexSignatureDef>,
) -> Seq<LiteralIndexSignatureDefView>
    decreases s,
{
    Seq::new(
        s.len(),
        |i: int|
            if 0 <= i < s.len() {
                literal_index_signature_def_view(s[i])
            } else {
                arbitrary()
            },
    )
}

pub open spec fn optional_param_def_views(s: Seq<Option<ParamDef>>) -> Seq<Option<ParamDefView>>
    decreases s,
{
    Seq::new(
        s.len(),
        |i: int|
            if 0 <= i < s.len() {
                match s[i] {
                    Some(x) => Some(param_def_view(x)),
                    None => None,
                }
            } else {
                arbitrary()
            },
    )
}

pub open spec fn object_pat_prop_def_views(s: Seq<ObjectPatPropDef>) -> Seq<ObjectPatPropDefView>
    decreases s,
{
    Seq::new(
        s.len(),
        |i: int|
            if 0 <= i < s.len() {
                object_pat_prop_def_view(s[i])
            } else {
                arbitrary()
            },
    )
}

impl View for TsTypeRefDef {
    type V = TsTypeRefDefView;

    open spec fn view(&self) -> TsTypeRefDefView {
        ts_type_ref_def_view(*self)
    }
}

impl View for LiteralDef {
    type V = LiteralDefView;

    open spec fn view(&self) -> LiteralDefView {
        literal_def_view(*self)
    }
}

impl View for TsTypeOperatorDef {
    type V = TsTypeOperatorDefView;

    open spec fn view(&self) -> TsTypeOperatorDefView {
        ts_type_operator_def_view(*self)
    }
}

impl View for TsFnOrConstructorDef {
    type V = TsFnOrConstructorDefView;

    open spec fn view(&self) -> TsFnOrConstructorDefView {
        ts_fn_or_constructor_def_view(*self)
    }
}

impl View for TsConditionalDef {
    type V = TsConditionalDefView;

    open spec fn view(&self) -> TsConditionalDefView {
        ts_conditional_def_view(*self)
    }
}

impl View for TsInferDef {
    type V = TsInferDefView;

    open spec fn view(&self) -> TsInferDefView {
        ts_infer_def_view(*self)
    }
}

impl View for TsImportTypeDef {
    type V = TsImportTypeDefView;

    open spec fn view(&self) -> TsImportTypeDefView {
        ts_import_type_def_view(*self)
    }
}

impl View for TsIndexedAccessDef {
    type V = TsIndexedAccessDefView;

    open spec fn view(&self) -> TsIndexedAccessDefView {
        ts_indexed_access_def_view(*self)
    }
}

impl View for TsMappedTypeDef {
    type V = TsMappedTypeDefView;

    open spec fn view(&self) -> TsMappedTypeDefView {
        ts_mapped_type_def_view(*self)
    }
}

impl View for LiteralMethodDef {
    type V = LiteralMethodDefView;

    open spec fn view(&self) -> LiteralMethodDefView {
        literal_method_def_view(*self)
    }
}

impl View for LiteralPropertyDef {
    type V = LiteralPropertyDefView;

    open spec fn view(&self) -> LiteralPropertyDefView {
        literal_property_def_view(*self)
    }
}

impl View for LiteralCallSignatureDef {
    type V = LiteralCallSignatureDefView;

    open spec fn view(&self) -> LiteralCallSignatureDefView {
        literal_call_signature_def_view(*self)
    }
}

impl View for LiteralIndexSignatureDef {
    type V = LiteralIndexSignatureDefView;

    open spec fn view(&self) -> LiteralIndexSignatureDefView {
        literal_index_signature_def_view(*self)
    }
}

impl View for TsTypeLiteralDef {
    type V = TsTypeLiteralDefView;

    open spec fn view(&self) -> TsTypeLiteralDefView {
        ts_type_literal_def_view(*self)
    }
}

impl View for TsTypePredicateDef {
    type V = TsTypePredicateDefView;

    open spec fn view(&self) -> TsTypePredicateDefView {
        ts_type_predicate_def_view(*self)
    }
}

impl View for TsTypeDef {
    type V = TsTypeDefView;

    open spec fn view(&self) -> TsTypeDefView {
        ts_type_def_view(*self)
    }
}

impl View for TsTypeParamDef {
    type V = TsTypeParamDefView;

    open spec fn view(&self) -> TsTypeParamDefView {
        ts_type_param_def_view(*self)
    }
}

impl View for ParamDef {
    type V = ParamDefView;

    open spec fn view(&self) -> ParamDefView {
        param_def_view(*self)
    }
}

impl View for TypeAliasDef {
    type V = TypeAliasDefView;

    open spec fn view(&self) -> TypeAliasDefView {
        type_alias_def_view(*self)
    }
}

impl View for ThisOrIdent {
    type V = ThisOrIdentView;

    open spec fn view(&self) -> ThisOrIdentView {
        this_or_ident_view(*self)
    }
}

impl View for ParamPatternDef {
    type V = ParamPatternDefView;

    open spec fn view(&self) -> ParamPatternDefView {
        param_pattern_def_view(*self)
    }
}

impl View for ObjectPatPropDef {
    type V = ObjectPatPropDefView;

    open spec fn view(&self) -> ObjectPatPropDefView {
        object_pat_prop_def_view(*self)
    }
}

/// The node with no tag, no text and no payload.
pub open spec fn empty_def() -> TsTypeDefView {
    TsTypeDefView {
        repr: Seq::empty(),
        kind: None,
        keyword: None,
        literal: None,
        type_ref: None,
        union: None,
        intersection: None,
        array: None,
        tuple: None,
        type_operator: None,
        parenthesized: None,
        rest: None,
        optional: None,
        type_query: None,
        this: None,
        fn_or_constructor: None,
        conditional_type: None,
        infer: None,
        indexed_access: None,
        mapped_type: None,
        type_literal: None,
        type_predicate: None,
        import_type: None,
    }
}

/// The keyword `keyword`, with `repr` as its text.
pub open spec fn keyword_def(keyword: Seq<char>, repr: Seq<char>) -> TsTypeDefView {
    TsTypeDefView {
        repr,
        kind: Some(TsTypeDefKind::Keyword),
        keyword: Some(keyword),
        ..empty_def()
    }
}

/// The literal `literal`, with `repr` as its text.
pub open spec fn literal_node(repr: Seq<char>, literal: LiteralDefView) -> TsTypeDefView {
    TsTypeDefView {
        repr,
        kind: Some(TsTypeDefKind::Literal),
        literal: Some(literal),
        ..empty_def()
    }
}

/// A reference to a named type, with `repr` as its text.
pub open spec fn type_ref_def(repr: Seq<char>, type_ref: TsTypeRefDefView) -> TsTypeDefView {
    TsTypeDefView {
        repr,
        kind: Some(TsTypeDefKind::TypeRef),
        type_ref: Some(type_ref),
        ..empty_def()
    }
}

/// `typeof name`
pub open spec fn type_query_def(name: Seq<char>) -> TsTypeDefView {
    TsTypeDefView {
        repr: name,
        kind: Some(TsTypeDefKind::TypeQuery),
        type_query: Some(name),
        ..empty_def()
    }
}

/// `this`
pub open spec fn this_def() -> TsTypeDefView {
    TsTypeDefView {
        repr: "this"@,
        kind: Some(TsTypeDefKind::This),
        this: Some(true),
        ..empty_def()
    }
}

/// A type predicate, with `repr` as its text.
pub open spec fn type_predicate_node(
    repr: Seq<char>,
    predicate: TsTypePredicateDefView,
) -> TsTypeDefView {
    TsTypeDefView {
        repr,
        kind: Some(TsTypeDefKind::TypePredicate),
        type_predicate: Some(predicate),
        ..empty_def()
    }
}

/// The union of `types`, in that order.
pub open spec fn union_def(types: Seq<TsTypeDefView>) -> TsTypeDefView {
    TsTypeDefView { kind: Some(TsTypeDefKind::Union), union: Some(types), ..empty_def() }
}

/// The intersection of `types`, in that order.
pub open spec fn intersection_def(types: Seq<TsTypeDefView>) -> TsTypeDefView {
    TsTypeDefView {
        kind: Some(TsTypeDefKind::Intersection),
        intersection: Some(types),
        ..empty_def()
    }
}

/// An array of `elem`.
pub open spec fn array_def(elem: TsTypeDefView) -> TsTypeDefView {
    TsTypeDefView {
        kind: Some(TsTypeDefKind::Array),
        array: Some(Box::new(elem)),
        ..empty_def()
    }
}

/// The tuple of `types`, in that order.
pub open spec fn tuple_def(types: Seq<TsTypeDefView>) -> TsTypeDefView {
    TsTypeDefView { kind: Some(TsTypeDefKind::Tuple), tuple: Some(types), ..empty_def() }
}

/// A type under an operator.
pub open spec fn type_operator_def(operator: TsTypeOperatorDefView) -> TsTypeDefView {
    TsTypeDefView {
        kind: Some(TsTypeDefKind::TypeOperator),
        type_operator: Some(Box::new(operator)),
        ..empty_def()
    }
}

/// `inner` in parentheses.
pub open spec fn parenthesized_def(inner: TsTypeDefView) -> TsTypeDefView {
    TsTypeDefView {
        kind: Some(TsTypeDefKind::Parenthesized),
        parenthesized: Some(Box::new(inner)),
        ..empty_def()
    }
}

/// `...inner`
pub open spec fn rest_def(inner: TsTypeDefView) -> TsTypeDefView {
    TsTypeDefView {
        kind: Some(TsTypeDefKind::Rest),
        rest: Some(Box::new(inner)),
        ..empty_def()
    }
}

/// `inner?`
pub open spec fn optional_def(inner: TsTypeDefView) -> TsTypeDefView {
    TsTypeDefView {
        kind: Some(TsTypeDefKind::Optional),
        optional: Some(Box::new(inner)),
        ..empty_def()
    }
}

/// A function or constructor type.
pub open spec fn fn_or_constructor_def(f: TsFnOrConstructorDefView) -> TsTypeDefView {
    TsTypeDefView {
        kind: Some(TsTypeDefKind::FnOrConstructor),
        fn_or_constructor: Some(Box::new(f)),
        ..empty_def()
    }
}

/// A conditional type.
pub open spec fn conditional_def(conditional: TsConditionalDefView) -> TsTypeDefView {
    TsTypeDefView {
        kind: Some(TsTypeDefKind::Conditional),
        conditional_type: Some(conditional),
        ..empty_def()
    }
}

/// `infer U`
pub open spec fn infer_def(infer: TsInferDefView) -> TsTypeDefView {
    TsTypeDefView { kind: Some(TsTypeDefKind::Infer), infer: Some(infer), ..empty_def() }
}

/// `Obj[Index]`
pub open spec fn indexed_access_def(access: TsIndexedAccessDefView) -> TsTypeDefView {
    TsTypeDefView {
        kind: Some(TsTypeDefKind::IndexedAccess),
        indexed_access: Some(access),
        ..empty_def()
    }
}

/// A mapped type.
pub open spec fn mapped_def(mapped: TsMappedTypeDefView) -> TsTypeDefView {
    TsTypeDefView {
        kind: Some(TsTypeDefKind::Mapped),
        mapped_type: Some(mapped),
        ..empty_def()
    }
}

/// A type literal.
pub open spec fn type_literal_def(literal: TsTypeLiteralDefView) -> TsTypeDefView {
    TsTypeDefView {
        kind: Some(TsTypeDefKind::TypeLiteral),
        type_literal: Some(literal),
        ..empty_def()
    }
}

/// An import type.
pub open spec fn import_type_def(import: TsImportTypeDefView) -> TsTypeDefView {
    TsTypeDefView {
        kind: Some(TsTypeDefKind::ImportType),
        import_type: Some(import),
        ..empty_def()
    }
}

/// A literal of kind `kind` with no scalar and no parts.
pub open spec fn literal_of_kind(kind: LiteralDefKind) -> LiteralDefView {
    LiteralDefView { kind, number: None, string: None, ts_types: None, boolean: None }
}

/// One for a populated field, zero for an empty one.
pub open spec fn populated(field_is_some: bool) -> nat {
    if field_is_some {
        1
    } else {
        0
    }
}

/// The number of payload fields of `d` that are populated.
pub open spec fn payload_count(d: TsTypeDefView) -> nat {
    populated(d.keyword is Some) + populated(d.literal is Some) + populated(d.type_ref is Some)
        + populated(d.union is Some) + populated(d.intersection is Some) + populated(
        d.array is Some,
    ) + populated(d.tuple is Some) + populated(d.type_operator is Some) + populated(
        d.parenthesized is Some,
    ) + populated(d.rest is Some) + populated(d.optional is Some) + populated(
        d.type_query is Some,
    ) + populated(d.this is Some) + populated(d.fn_or_constructor is Some) + populated(
        d.conditional_type is Some,
    ) + populated(d.infer is Some) + populated(d.indexed_access is Some) + populated(
        d.mapped_type is Some,
    ) + populated(d.type_literal is Some) + populated(d.type_predicate is Some) + populated(
        d.import_type is Some,
    )
}

/// Whether a literal carries the scalar, or the parts, that its kind names.
pub open spec fn literal_has_payload(d: LiteralDefView) -> bool {
    match d.kind {
        LiteralDefKind::Number => d.number is Some,
        LiteralDefKind::String => d.string is Some,
        LiteralDefKind::Template => d.ts_types is Some,
        LiteralDefKind::Boolean => d.boolean is Some,
        LiteralDefKind::BigInt => d.string is Some,
    }
}

/// A literal carries what its kind names; the parts of a template are tagged,
/// well-formed nodes.
pub open spec fn literal_def_wf(d: LiteralDefView) -> bool
    decreases d,
{
    literal_has_payload(d) && (d.kind == LiteralDefKind::Template ==> template_parts_wf(
        d.ts_types.unwrap(),
    ))
}

pub open spec fn template_parts_wf(s: Seq<TsTypeDefView>) -> bool
    decreases s,
{
    forall|i: int| 0 <= i < s.len() ==> (#[trigger] s[i]).kind is Some && ts_type_def_wf(s[i])
}

/// Whether a node holds the payload that its tag names. A node without a tag
/// does: it names none.
pub open spec fn has_payload(d: TsTypeDefView) -> bool {
    match d.kind {
        None => true,
        Some(TsTypeDefKind::Keyword) => d.keyword is Some,
        Some(TsTypeDefKind::Literal) => d.literal is Some,
        Some(TsTypeDefKind::TypeRef) => d.type_ref is Some,
        Some(TsTypeDefKind::Union) => d.union is Some,
        Some(TsTypeDefKind::Intersection) => d.intersection is Some,
        Some(TsTypeDefKind::Array) => d.array is Some,
        Some(TsTypeDefKind::Tuple) => d.tuple is Some,
        Some(TsTypeDefKind::TypeOperator) => d.type_operator is Some,
        Some(TsTypeDefKind::Parenthesized) => d.parenthesized is Some,
        Some(TsTypeDefKind::Rest) => d.rest is Some,
        Some(TsTypeDefKind::Optional) => d.optional is Some,
        Some(TsTypeDefKind::TypeQuery) => d.type_query is Some,
        Some(TsTypeDefKind::This) => d.this is Some,
        Some(TsTypeDefKind::FnOrConstructor) => d.fn_or_constructor is Some,
        Some(TsTypeDefKind::Conditional) => d.conditional_type is Some,
        Some(TsTypeDefKind::Infer) => d.infer is Some,
        Some(TsTypeDefKind::IndexedAccess) => d.indexed_access is Some,
        Some(TsTypeDefKind::Mapped) => d.mapped_type is Some,
        Some(TsTypeDefKind::TypeLiteral) => d.type_literal is Some,
        Some(TsTypeDefKind::TypePredicate) => d.type_predicate is Some,
        Some(TsTypeDefKind::ImportType) => d.import_type is Some,
    }
}

/// Whether every payload of `d` that is populated is the one that `kind` names.
pub open spec fn no_payload_but(d: TsTypeDefView, kind: TsTypeDefKind) -> bool {
    &&& d.keyword is Some ==> kind == TsTypeDefKind::Keyword
    &&& d.literal is Some ==> kind == TsTypeDefKind::Literal
    &&& d.type_ref is Some ==> kind == TsTypeDefKind::TypeRef
    &&& d.union is Some ==> kind == TsTypeDefKind::Union
    &&& d.intersection is Some ==> kind == TsTypeDefKind::Intersection
    &&& d.array is Some ==> kind == TsTypeDefKind::Array
    &&& d.tuple is Some ==> kind == TsTypeDefKind::Tuple
    &&& d.type_operator is Some ==> kind == TsTypeDefKind::TypeOperator
    &&& d.parenthesized is Some ==> kind == TsTypeDefKind::Parenthesized
    &&& d.rest is Some ==> kind == TsTypeDefKind::Rest
    &&& d.optional is Some ==> kind == TsTypeDefKind::Optional
    &&& d.type_query is Some ==> kind == TsTypeDefKind::TypeQuery
    &&& d.this is Some ==> kind == TsTypeDefKind::This
    &&& d.fn_or_constructor is Some ==> kind == TsTypeDefKind::FnOrConstructor
    &&& d.conditional_type is Some ==> kind == TsTypeDefKind::Conditional
    &&& d.infer is Some ==> kind == TsTypeDefKind::Infer
    &&& d.indexed_access is Some ==> kind == TsTypeDefKind::IndexedAccess
    &&& d.mapped_type is Some ==> kind == TsTypeDefKind::Mapped
    &&& d.type_literal is Some ==> kind == TsTypeDefKind::TypeLiteral
    &&& d.type_predicate is Some ==> kind == TsTypeDefKind::TypePredicate
    &&& d.import_type is Some ==> kind == TsTypeDefKind::ImportType
}

/// Whether a tagged node holds the payload that its tag names and no other.
pub open spec fn holds_one_payload(d: TsTypeDefView) -> bool {
    has_payload(d) && (d.kind matches Some(kind) ==> no_payload_but(d, kind))
}

/// A tagged node holds exactly one payload, the one that its tag names, and
/// everything below that payload is well formed in turn. A node without a tag
/// is well formed whatever it holds.
pub open spec fn ts_type_def_wf(d: TsTypeDefView) -> bool
    decreases d,
{
    has_payload(d) && (match d.kind {
        Some(TsTypeDefKind::Literal) => literal_def_wf(d.literal.unwrap()),
        Some(TsTypeDefKind::TypeRef) => ts_type_ref_def_wf(d.type_ref.unwrap()),
        Some(TsTypeDefKind::Union) => ts_type_def_all_wf(d.union.unwrap()),
        Some(TsTypeDefKind::Intersection) => ts_type_def_all_wf(d.intersection.unwrap()),
        Some(TsTypeDefKind::Array) => ts_type_def_wf(*d.array.unwrap()),
        Some(TsTypeDefKind::Tuple) => ts_type_def_all_wf(d.tuple.unwrap()),
        Some(TsTypeDefKind::TypeOperator) => ts_type_operator_def_wf(*d.type_operator.unwrap()),
        Some(TsTypeDefKind::Parenthesized) => ts_type_def_wf(*d.parenthesized.unwrap()),
        Some(TsTypeDefKind::Rest) => ts_type_def_wf(*d.rest.unwrap()),
        Some(TsTypeDefKind::Optional) => ts_type_def_wf(*d.optional.unwrap()),
        Some(TsTypeDefKind::FnOrConstructor) => ts_fn_or_constructor_def_wf(
            *d.fn_or_constructor.unwrap(),
        ),
        Some(TsTypeDefKind::Conditional) => ts_conditional_def_wf(d.conditional_type.unwrap()),
        Some(TsTypeDefKind::Infer) => ts_infer_def_wf(d.infer.unwrap()),
        Some(TsTypeDefKind::IndexedAccess) => ts_indexed_access_def_wf(d.indexed_access.unwrap()),
        Some(TsTypeDefKind::Mapped) => ts_mapped_type_def_wf(d.mapped_type.unwrap()),
        Some(TsTypeDefKind::TypeLiteral) => ts_type_literal_def_wf(d.type_literal.unwrap()),
        Some(TsTypeDefKind::TypePredicate) => ts_type_predicate_def_wf(d.type_predicate.unwrap()),
        Some(TsTypeDefKind::ImportType) => ts_import_type_def_wf(d.import_type.unwrap()),
        _ => true,
    }) && holds_one_payload(d)
}

pub open spec fn ts_type_ref_def_wf(d: TsTypeRefDefView) -> bool
    decreases d,
{
    &&& match d.type_params {
            Some(x) => ts_type_def_all_wf(x),
            None => true,
        }
}

pub open spec fn ts_type_operator_def_wf(d: TsTypeOperatorDefView) -> bool
    decreases d,
{
    &&& ts_type_def_wf(d.ts_type)
}

pub open spec fn ts_fn_or_constructor_def_wf(d: TsFnOrConstructorDefView) -> bool
    decreases d,
{
    &&& ts_type_def_wf(d.ts_type)
    &&& param_def_all_wf(d.params)
    &&& ts_type_param_def_all_wf(d.type_params)
}

pub open spec fn ts_conditional_def_wf(d: TsConditionalDefView) -> bool
    decreases d,
{
    &&& ts_type_def_wf(*d.check_type)
    &&& ts_type_def_wf(*d.extends_type)
    &&& ts_type_def_wf(*d.true_type)
    &&& ts_type_def_wf(*d.false_type)
}

pub open spec fn ts_infer_def_wf(d: TsInferDefView) -> bool
    decreases d,
{
    &&& ts_type_param_def_wf(*d.type_param)
}

pub open spec fn ts_import_type_def_wf(d: TsImportTypeDefView) -> bool
    decreases d,
{
    &&& match d.type_params {
            Some(x) => ts_type_def_all_wf(x),
            None => true,
        }
}

pub open spec fn ts_indexed_access_def_wf(d: TsIndexedAccessDefView) -> bool
    decreases d,
{
    &&& ts_type_def_wf(*d.obj_type)
    &&& ts_type_def_wf(*d.index_type)
}

pub open spec fn ts_mapped_type_def_wf(d: TsMappedTypeDefView) -> bool
    decreases d,
{
    &&& ts_type_param_def_wf(*d.type_param)
    &&& match d.name_type {
            Some(x) => ts_type_def_wf(*x),
            None => true,
        }
    &&& match d.ts_type {
            Some(x) => ts_type_def_wf(*x),
            None => true,
        }
}

pub open spec fn literal_method_def_wf(d: LiteralMethodDefView) -> bool
    decreases d,
{
    &&& param_def_all_wf(d.params)
    &&& match d.return_type {
            Some(x) => ts_type_def_wf(x),
            None => true,
        }
    &&& ts_type_param_def_all_wf(d.type_params)
}

pub open spec fn literal_property_def_wf(d: LiteralPropertyDefView) -> bool
    decreases d,
{
    &&& param_def_all_wf(d.params)
    &&& match d.ts_type {
            Some(x) => ts_type_def_wf(x),
            None => true,
        }
    &&& ts_type_param_def_all_wf(d.type_params)
}

pub open spec fn literal_call_signature_def_wf(d: LiteralCallSignatureDefView) -> bool
    decreases d,
{
    &&& param_def_all_wf(d.params)
    &&& match d.ts_type {
            Some(x) => ts_type_def_wf(x),
            None => true,
        }
    &&& ts_type_param_def_all_wf(d.type_params)
}

pub open spec fn literal_index_signature_def_wf(d: LiteralIndexSignatureDefView) -> bool
    decreases d,
{
    &&& param_def_all_wf(d.params)
    &&& match d.ts_type {
            Some(x) => ts_type_def_wf(x),
            None => true,
        }
}

pub open spec fn ts_type_literal_def_wf(d: TsTypeLiteralDefView) -> bool
    decreases d,
{
    &&& literal_method_def_all_wf(d.methods)
    &&& literal_property_def_all_wf(d.properties)
    &&& literal_call_signature_def_all_wf(d.call_signatures)
    &&& literal_index_signature_def_all_wf(d.index_signatures)
}

pub open spec fn ts_type_predicate_def_wf(d: TsTypePredicateDefView) -> bool
    decreases d,
{
    &&& match d.ty {
            Some(x) => ts_type_def_wf(*x),
            None => true,
        }
}

pub open spec fn ts_type_param_def_wf(d: TsTypeParamDefView) -> bool
    decreases d,
{
    &&& match d.constraint {
            Some(x) => ts_type_def_wf(x),
            None => true,
        }
    &&& match d.default {
            Some(x) => ts_type_def_wf(x),
            None => true,
        }
}

pub open spec fn param_def_wf(d: ParamDefView) -> bool
    decreases d,
{
    &&& param_pattern_def_wf(d.pattern)
    &&& match d.ts_type {
            Some(x) => ts_type_def_wf(x),
            None => true,
        }
}

pub open spec fn type_alias_def_wf(d: TypeAliasDefView) -> bool
    decreases d,
{
    &&& ts_type_def_wf(d.ts_type)
    &&& ts_type_param_def_all_wf(d.type_params)
}

pub open spec fn param_pattern_def_wf(d: ParamPatternDefView) -> bool
    decreases d,
{
    match d {
        ParamPatternDefView::Array { elements, .. } => optional_param_def_all_wf(elements),
        ParamPatternDefView::Assign { left, .. } => param_def_wf(*left),
        ParamPatternDefView::Identifier { .. } => true,
        ParamPatternDefView::Object { props, .. } => object_pat_prop_def_all_wf(props),
        ParamPatternDefView::Rest { arg } => param_def_wf(*arg),
    }
}

pub open spec fn object_pat_prop_def_wf(d: ObjectPatPropDefView) -> bool
    decreases d,
{
    match d {
        ObjectPatPropDefView::Assign { .. } => true,
        ObjectPatPropDefView::KeyValue { value, .. } => param_def_wf(*value),
        ObjectPatPropDefView::Rest { arg } => param_def_wf(*arg),
    }
}

pub open spec fn ts_type_def_all_wf(s: Seq<TsTypeDefView>) -> bool
    decreases s,
{
    forall|i: int| 0 <= i < s.len() ==> ts_type_def_wf((#[trigger] s[i]))
}

pub open spec fn param_def_all_wf(s: Seq<ParamDefView>) -> bool
    decreases s,
{
    forall|i: int| 0 <= i < s.len() ==> param_def_wf((#[trigger] s[i]))
}

pub open spec fn ts_type_param_def_all_wf(s: Seq<TsTypeParamDefView>) -> bool
    decreases s,
{
    forall|i: int| 0 <= i < s.len() ==> ts_type_param_def_wf((#[trigger] s[i]))
}

pub open spec fn literal_method_def_all_wf(s: Seq<LiteralMethodDefView>) -> bool
    decreases s,
{
    forall|i: int| 0 <= i < s.len() ==> literal_method_def_wf((#[trigger] s[i]))
}

pub open spec fn literal_property_def_all_wf(s: Seq<LiteralPropertyDefView>) -> bool
    decreases s,
{
    forall|i: int| 0 <= i < s.len() ==> literal_property_def_wf((#[trigger] s[i]))
}

pub open spec fn literal_call_signature_def_all_wf(s: Seq<LiteralCallSignatureDefView>) -> bool
    decreases s,
{
    forall|i: int| 0 <= i < s.len() ==> literal_call_signature_def_wf((#[trigger] s[i]))
}

pub open spec fn literal_index_signature_def_all_wf(s: Seq<LiteralIndexSignatureDefView>) -> bool
    decreases s,
{
    forall|i: int| 0 <= i < s.len() ==> literal_index_signature_def_wf((#[trigger] s[i]))
}

pub open spec fn optional_param_def_all_wf(s: Seq<Option<ParamDefView>>) -> bool
    decreases s,
{
    forall|i: int| 0 <= i < s.len() ==> match (#[trigger] s[i]) {
            Some(x) => param_def_wf(x),
            None => true,
        }
}

pub open spec fn object_pat_prop_def_all_wf(s: Seq<ObjectPatPropDefView>) -> bool
    decreases s,
{
    forall|i: int| 0 <= i < s.len() ==> object_pat_prop_def_wf((#[trigger] s[i]))
}

/// Whether a literal is tagged throughout: it carries what its kind names, and
/// the parts of a template are tagged throughout.
pub open spec fn literal_def_tagged(d: LiteralDefView) -> bool
    decreases d,
{
    literal_has_payload(d) && (d.kind == LiteralDefKind::Template ==> ts_type_def_all_tagged(
        d.ts_types.unwrap(),
    ))
}

/// Whether a node is tagged throughout: it has a tag and holds exactly the
/// payload of its tag, and the same holds of every node below it.
///
/// As no payload but the one under the tag is populated, the nodes under that
/// payload are all the nodes below.
pub open spec fn ts_type_def_tagged(d: TsTypeDefView) -> bool
    decreases d,
{
    d.kind is Some && has_payload(d) && (match d.kind {
        Some(TsTypeDefKind::Literal) => literal_def_tagged(d.literal.unwrap()),
        Some(TsTypeDefKind::TypeRef) => ts_type_ref_def_tagged(d.type_ref.unwrap()),
        Some(TsTypeDefKind::Union) => ts_type_def_all_tagged(d.union.unwrap()),
        Some(TsTypeDefKind::Intersection) => ts_type_def_all_tagged(d.intersection.unwrap()),
        Some(TsTypeDefKind::Array) => ts_type_def_tagged(*d.array.unwrap()),
        Some(TsTypeDefKind::Tuple) => ts_type_def_all_tagged(d.tuple.unwrap()),
        Some(TsTypeDefKind::TypeOperator) => ts_type_operator_def_tagged(*d.type_operator.unwrap()),
        Some(TsTypeDefKind::Parenthesized) => ts_type_def_tagged(*d.parenthesized.unwrap()),
        Some(TsTypeDefKind::Rest) => ts_type_def_tagged(*d.rest.unwrap()),
        Some(TsTypeDefKind::Optional) => ts_type_def_tagged(*d.optional.unwrap()),
        Some(TsTypeDefKind::FnOrConstructor) => ts_fn_or_constructor_def_tagged(
            *d.fn_or_constructor.unwrap(),
        ),
        Some(TsTypeDefKind::Conditional) => ts_conditional_def_tagged(d.conditional_type.unwrap()),
        Some(TsTypeDefKind::Infer) => ts_infer_def_tagged(d.infer.unwrap()),
        Some(TsTypeDefKind::IndexedAccess) => ts_indexed_access_def_tagged(
            d.indexed_access.unwrap(),
        ),
        Some(TsTypeDefKind::Mapped) => ts_mapped_type_def_tagged(d.mapped_type.unwrap()),
        Some(TsTypeDefKind::TypeLiteral) => ts_type_literal_def_tagged(d.type_literal.unwrap()),
        Some(TsTypeDefKind::TypePredicate) => ts_type_predicate_def_tagged(
            d.type_predicate.unwrap(),
        ),
        Some(TsTypeDefKind::ImportType) => ts_import_type_def_tagged(d.import_type.unwrap()),
        _ => true,
    }) && holds_one_payload(d)
}

pub open spec fn ts_type_ref_def_tagged(d: TsTypeRefDefView) -> bool
    decreases d,
{
    &&& match d.type_params {
            Some(x) => ts_type_def_all_tagged(x),
            None => true,
        }
}

pub open spec fn ts_type_operator_def_tagged(d: TsTypeOperatorDefView) -> bool
    decreases d,
{
    &&& ts_type_def_tagged(d.ts_type)
}

pub open spec fn ts_fn_or_constructor_def_tagged(d: TsFnOrConstructorDefView) -> bool
    decreases d,
{
    &&& ts_type_def_tagged(d.ts_type)
    &&& param_def_all_tagged(d.params)
    &&& ts_type_param_def_all_tagged(d.type_params)
}

pub open spec fn ts_conditional_def_tagged(d: TsConditionalDefView) -> bool
    decreases d,
{
    &&& ts_type_def_tagged(*d.check_type)
    &&& ts_type_def_tagged(*d.extends_type)
    &&& ts_type_def_tagged(*d.true_type)
    &&& ts_type_def_tagged(*d.false_type)
}

pub open spec fn ts_infer_def_tagged(d: TsInferDefView) -> bool
    decreases d,
{
    &&& ts_type_param_def_tagged(*d.type_param)
}

pub open spec fn ts_import_type_def_tagged(d: TsImportTypeDefView) -> bool
    decreases d,
{
    &&& match d.type_params {
            Some(x) => ts_type_def_all_tagged(x),
            None => true,
        }
}

pub open spec fn ts_indexed_access_def_tagged(d: TsIndexedAccessDefView) -> bool
    decreases d,
{
    &&& ts_type_def_tagged(*d.obj_type)
    &&& ts_type_def_tagged(*d.index_type)
}

pub open spec fn ts_mapped_type_def_tagged(d: TsMappedTypeDefView) -> bool
    decreases d,
{
    &&& ts_type_param_def_tagged(*d.type_param)
    &&& match d.name_type {
            Some(x) => ts_type_def_tagged(*x),
            None => true,
        }
    &&& match d.ts_type {
            Some(x) => ts_type_def_tagged(*x),
            None => true,
        }
}

pub open spec fn literal_method_def_tagged(d: LiteralMethodDefView) -> bool
    decreases d,
{
    &&& param_def_all_tagged(d.params)
    &&& match d.return_type {
            Some(x) => ts_type_def_tagged(x),
            None => true,
        }
    &&& ts_type_param_def_all_tagged(d.type_params)
}

pub open spec fn literal_property_def_tagged(d: LiteralPropertyDefView) -> bool
    decreases d,
{
    &&& param_def_all_tagged(d.params)
    &&& match d.ts_type {
            Some(x) => ts_type_def_tagged(x),
            None => true,
        }
    &&& ts_type_param_def_all_tagged(d.type_params)
}

pub open spec fn literal_call_signature_def_tagged(d: LiteralCallSignatureDefView) -> bool
    decreases d,
{
    &&& param_def_all_tagged(d.params)
    &&& match d.ts_type {
            Some(x) => ts_type_def_tagged(x),
            None => true,
        }
    &&& ts_type_param_def_all_tagged(d.type_params)
}

pub open spec fn literal_index_signature_def_tagged(d: LiteralIndexSignatureDefView) -> bool
    decreases d,
{
    &&& param_def_all_tagged(d.params)
    &&& match d.ts_type {
            Some(x) => ts_type_def_tagged(x),
            None => true,
        }
}

pub open spec fn ts_type_literal_def_tagged(d: TsTypeLiteralDefView) -> bool
    decreases d,
{
    &&& literal_method_def_all_tagged(d.methods)
    &&& literal_property_def_all_tagged(d.properties)
    &&& literal_call_signature_def_all_tagged(d.call_signatures)
    &&& literal_index_signature_def_all_tagged(d.index_signatures)
}

pub open spec fn ts_type_predicate_def_tagged(d: TsTypePredicateDefView) -> bool
    decreases d,
{
    &&& match d.ty {
            Some(x) => ts_type_def_tagged(*x),
            None => true,
        }
}

pub open spec fn ts_type_param_def_tagged(d: TsTypeParamDefView) -> bool
    decreases d,
{
    &&& match d.constraint {
            Some(x) => ts_type_def_tagged(x),
            None => true,
        }
    &&& match d.default {
            Some(x) => ts_type_def_tagged(x),
            None => true,
        }
}

pub open spec fn param_def_tagged(d: ParamDefView) -> bool
    decreases d,
{
    &&& param_pattern_def_tagged(d.pattern)
    &&& match d.ts_type {
            Some(x) => ts_type_def_tagged(x),
            None => true,
        }
}

pub open spec fn type_alias_def_tagged(d: TypeAliasDefView) -> bool
    decreases d,
{
    &&& ts_type_def_tagged(d.ts_type)
    &&& ts_type_param_def_all_tagged(d.type_params)
}

pub open spec fn param_pattern_def_tagged(d: ParamPatternDefView) -> bool
    decreases d,
{
    match d {
        ParamPatternDefView::Array { elements, .. } => optional_param_def_all_tagged(elements),
        ParamPatternDefView::Assign { left, .. } => param_def_tagged(*left),
        ParamPatternDefView::Identifier { .. } => true,
        ParamPatternDefView::Object { props, .. } => object_pat_prop_def_all_tagged(props),
        ParamPatternDefView::Rest { arg } => param_def_tagged(*arg),
    }
}

pub open spec fn object_pat_prop_def_tagged(d: ObjectPatPropDefView) -> bool
    decreases d,
{
    match d {
        ObjectPatPropDefView::Assign { .. } => true,
        ObjectPatPropDefView::KeyValue { value, .. } => param_def_tagged(*value),
        ObjectPatPropDefView::Rest { arg } => param_def_tagged(*arg),
    }
}

pub open spec fn ts_type_def_all_tagged(s: Seq<TsTypeDefView>) -> bool
    decreases s,
{
    forall|i: int| 0 <= i < s.len() ==> ts_type_def_tagged((#[trigger] s[i]))
}

pub open spec fn param_def_all_tagged(s: Seq<ParamDefView>) -> bool
    decreases s,
{
    forall|i: int| 0 <= i < s.len() ==> param_def_tagged((#[trigger] s[i]))
}

pub open spec fn ts_type_param_def_all_tagged(s: Seq<TsTypeParamDefView>) -> bool
    decreases s,
{
    forall|i: int| 0 <= i < s.len() ==> ts_type_param_def_tagged((#[trigger] s[i]))
}

pub open spec fn literal_method_def_all_tagged(s: Seq<LiteralMethodDefView>) -> bool
    decreases s,
{
    forall|i: int| 0 <= i < s.len() ==> literal_method_def_tagged((#[trigger] s[i]))
}

pub open spec fn literal_property_def_all_tagged(s: Seq<LiteralPropertyDefView>) -> bool
    decreases s,
{
    forall|i: int| 0 <= i < s.len() ==> literal_property_def_tagged((#[trigger] s[i]))
}

pub open spec fn literal_call_signature_def_all_tagged(s: Seq<LiteralCallSignatureDefView>) -> bool
    decreases s,
{
    forall|i: int| 0 <= i < s.len() ==> literal_call_signature_def_tagged((#[trigger] s[i]))
}

pub open spec fn literal_index_signature_def_all_tagged(
    s: Seq<LiteralIndexSignatureDefView>,
) -> bool
    decreases s,
{
    forall|i: int| 0 <= i < s.len() ==> literal_index_signature_def_tagged((#[trigger] s[i]))
}

pub open spec fn optional_param_def_all_tagged(s: Seq<Option<ParamDefView>>) -> bool
    decreases s,
{
    forall|i: int| 0 <= i < s.len() ==> match (#[trigger] s[i]) {
            Some(x) => param_def_tagged(x),
            None => true,
        }
}

pub open spec fn object_pat_prop_def_all_tagged(s: Seq<ObjectPatPropDefView>) -> bool
    decreases s,
{
    forall|i: int| 0 <= i < s.len() ==> object_pat_prop_def_tagged((#[trigger] s[i]))
}


} // verus!
