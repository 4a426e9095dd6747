//! A description that is tagged throughout is well formed.

use crate::model::{
    literal_call_signature_def_all_tagged, literal_call_signature_def_all_wf,
    literal_call_signature_def_tagged, literal_call_signature_def_wf, literal_def_tagged,
    literal_def_wf, literal_index_signature_def_all_tagged, literal_index_signature_def_all_wf,
    literal_index_signature_def_tagged, literal_index_signature_def_wf,
    literal_method_def_all_tagged, literal_method_def_all_wf, literal_method_def_tagged,
    literal_method_def_wf, literal_property_def_all_tagged, literal_property_def_all_wf,
    literal_property_def_tagged, literal_property_def_wf, object_pat_prop_def_all_tagged,
    object_pat_prop_def_all_wf, object_pat_prop_def_tagged, object_pat_prop_def_wf,
    optional_param_def_all_tagged, optional_param_def_all_wf, param_def_all_tagged,
    param_def_all_wf, param_def_tagged, param_def_wf, param_pattern_def_tagged,
    param_pattern_def_wf, ts_conditional_def_tagged, ts_conditional_def_wf,
    ts_fn_or_constructor_def_tagged, ts_fn_or_constructor_def_wf, ts_import_type_def_tagged,
    ts_import_type_def_wf, ts_indexed_access_def_tagged, ts_indexed_access_def_wf,
    ts_infer_def_tagged, ts_infer_def_wf, ts_mapped_type_def_tagged, ts_mapped_type_def_wf,
    ts_type_def_all_tagged, ts_type_def_all_wf, ts_type_def_tagged, ts_type_def_wf,
    ts_type_literal_def_tagged, ts_type_literal_def_wf, ts_type_operator_def_tagged,
    ts_type_operator_def_wf, ts_type_param_def_all_tagged, ts_type_param_def_all_wf,
    ts_type_param_def_tagged, ts_type_param_def_wf, ts_type_predicate_def_tagged,
    ts_type_predicate_def_wf, ts_type_ref_def_tagged, ts_type_ref_def_wf, type_alias_def_tagged,
    type_alias_def_wf, LiteralCallSignatureDefView, LiteralDefView, LiteralIndexSignatureDefView,
    LiteralMethodDefView, LiteralPropertyDefView, ObjectPatPropDefView, ParamDefView,
    ParamPatternDefView, TsConditionalDefView, TsFnOrConstructorDefView, TsImportTypeDefView,
    TsIndexedAccessDefView, TsInferDefView, TsMappedTypeDefView, TsTypeDefView,
    TsTypeLiteralDefView, TsTypeOperatorDefView, TsTypeParamDefView, TsTypePredicateDefView,
    TsTypeRefDefView, TypeAliasDefView,
};
use crate::ts_type::{LiteralDefKind, TsTypeDefKind};
use vstd::prelude::*;

verus! {

/// A literal that is tagged throughout is well formed.
pub proof fn lemma_literal_def_tagged_is_well_formed(d: LiteralDefView)
    requires
        literal_def_tagged(d),
    ensures
        literal_def_wf(d),
    decreases d,
{
    if d.kind == LiteralDefKind::Template {
        let parts = d.ts_types.unwrap();
        assert forall|i: int| 0 <= i < parts.len() implies (#[trigger] parts[i]).kind is Some
            && ts_type_def_wf(parts[i]) by {
            lemma_ts_type_def_tagged_is_well_formed(parts[i]);
        }
    }
}

/// A node that is tagged throughout is well formed.
pub proof fn lemma_ts_type_def_tagged_is_well_formed(d: TsTypeDefView)
    requires
        ts_type_def_tagged(d),
    ensures
        ts_type_def_wf(d),
        d.kind is Some,
    decreases d,
{
    match d.kind {
        Some(TsTypeDefKind::Literal) => {
            lemma_literal_def_tagged_is_well_formed(d.literal.unwrap());
        },
        Some(TsTypeDefKind::TypeRef) => {
            lemma_ts_type_ref_def_tagged_is_well_formed(d.type_ref.unwrap());
        },
        Some(TsTypeDefKind::Union) => {
            lemma_ts_type_def_all_tagged_are_well_formed(d.union.unwrap());
        },
        Some(TsTypeDefKind::Intersection) => {
            lemma_ts_type_def_all_tagged_are_well_formed(d.intersection.unwrap());
        },
        Some(TsTypeDefKind::Array) => {
            lemma_ts_type_def_tagged_is_well_formed(*d.array.unwrap());
        },
        Some(TsTypeDefKind::Tuple) => {
            lemma_ts_type_def_all_tagged_are_well_formed(d.tuple.unwrap());
        },
        Some(TsTypeDefKind::TypeOperator) => {
            lemma_ts_type_operator_def_tagged_is_well_formed(*d.type_operator.unwrap());
        },
        Some(TsTypeDefKind::Parenthesized) => {
            lemma_ts_type_def_tagged_is_well_formed(*d.parenthesized.unwrap());
        },
        Some(TsTypeDefKind::Rest) => {
            lemma_ts_type_def_tagged_is_well_formed(*d.rest.unwrap());
        },
        Some(TsTypeDefKind::Optional) => {
            lemma_ts_type_def_tagged_is_well_formed(*d.optional.unwrap());
        },
        Some(TsTypeDefKind::FnOrConstructor) => {
            lemma_ts_fn_or_constructor_def_tagged_is_well_formed(*d.fn_or_constructor.unwrap());
        },
        Some(TsTypeDefKind::Conditional) => {
            lemma_ts_conditional_def_tagged_is_well_formed(d.conditional_type.unwrap());
        },
        Some(TsTypeDefKind::Infer) => {
            lemma_ts_infer_def_tagged_is_well_formed(d.infer.unwrap());
        },
        Some(TsTypeDefKind::IndexedAccess) => {
            lemma_ts_indexed_access_def_tagged_is_well_formed(d.indexed_access.unwrap());
        },
        Some(TsTypeDefKind::Mapped) => {
            lemma_ts_mapped_type_def_tagged_is_well_formed(d.mapped_type.unwrap());
        },
        Some(TsTypeDefKind::TypeLiteral) => {
            lemma_ts_type_literal_def_tagged_is_well_formed(d.type_literal.unwrap());
        },
        Some(TsTypeDefKind::TypePredicate) => {
            lemma_ts_type_predicate_def_tagged_is_well_formed(d.type_predicate.unwrap());
        },
        Some(TsTypeDefKind::ImportType) => {
            lemma_ts_import_type_def_tagged_is_well_formed(d.import_type.unwrap());
        },
        _ => {},
    }
}

/// What is tagged throughout is well formed.
pub proof fn lemma_ts_type_ref_def_tagged_is_well_formed(d: TsTypeRefDefView)
    requires
        ts_type_ref_def_tagged(d),
    ensures
        ts_type_ref_def_wf(d),
    decreases d,
{
    if let Some(x) = d.type_params {
        lemma_ts_type_def_all_tagged_are_well_formed(x);
    }
}

/// What is tagged throughout is well formed.
pub proof fn lemma_ts_type_operator_def_tagged_is_well_formed(d: TsTypeOperatorDefView)
    requires
        ts_type_operator_def_tagged(d),
    ensures
        ts_type_operator_def_wf(d),
    decreases d,
{
    lemma_ts_type_def_tagged_is_well_formed(d.ts_type);
}

/// What is tagged throughout is well formed.
pub proof fn lemma_ts_fn_or_constructor_def_tagged_is_well_formed(d: TsFnOrConstructorDefView)
    requires
        ts_fn_or_constructor_def_tagged(d),
    ensures
        ts_fn_or_constructor_def_wf(d),
    decreases d,
{
    lemma_ts_type_def_tagged_is_well_formed(d.ts_type);
    lemma_param_def_all_tagged_are_well_formed(d.params);
    lemma_ts_type_param_def_all_tagged_are_well_formed(d.type_params);
}

/// What is tagged throughout is well formed.
pub proof fn lemma_ts_conditional_def_tagged_is_well_formed(d: TsConditionalDefView)
    requires
        ts_conditional_def_tagged(d),
    ensures
        ts_conditional_def_wf(d),
    decreases d,
{
    lemma_ts_type_def_tagged_is_well_formed(*d.check_type);
    lemma_ts_type_def_tagged_is_well_formed(*d.extends_type);
    lemma_ts_type_def_tagged_is_well_formed(*d.true_type);
    lemma_ts_type_def_tagged_is_well_formed(*d.false_type);
}

/// What is tagged throughout is well formed.
pub proof fn lemma_ts_infer_def_tagged_is_well_formed(d: TsInferDefView)
    requires
        ts_infer_def_tagged(d),
    ensures
        ts_infer_def_wf(d),
    decreases d,
{
    lemma_ts_type_param_def_tagged_is_well_formed(*d.type_param);
}

/// What is tagged throughout is well formed.
pub proof fn lemma_ts_import_type_def_tagged_is_well_formed(d: TsImportTypeDefView)
    requires
        ts_import_type_def_tagged(d),
    ensures
        ts_import_type_def_wf(d),
    decreases d,
{
    if let Some(x) = d.type_params {
        lemma_ts_type_def_all_tagged_are_well_formed(x);
    }
}

/// What is tagged throughout is well formed.
pub proof fn lemma_ts_indexed_access_def_tagged_is_well_formed(d: TsIndexedAccessDefView)
    requires
        ts_indexed_access_def_tagged(d),
    ensures
        ts_indexed_access_def_wf(d),
    decreases d,
{
    lemma_ts_type_def_tagged_is_well_formed(*d.obj_type);
    lemma_ts_type_def_tagged_is_well_formed(*d.index_type);
}

/// What is tagged throughout is well formed.
pub proof fn lemma_ts_mapped_type_def_tagged_is_well_formed(d: TsMappedTypeDefView)
    requires
        ts_mapped_type_def_tagged(d),
    ensures
        ts_mapped_type_def_wf(d),
    decreases d,
{
    lemma_ts_type_param_def_tagged_is_well_formed(*d.type_param);
    if let Some(x) = d.name_type {
        lemma_ts_type_def_tagged_is_well_formed(*x);
    }
    if let Some(x) = d.ts_type {
        lemma_ts_type_def_tagged_is_well_formed(*x);
    }
}

/// What is tagged throughout is well formed.
pub proof fn lemma_literal_method_def_tagged_is_well_formed(d: LiteralMethodDefView)
    requires
        literal_method_def_tagged(d),
    ensures
        literal_method_def_wf(d),
    decreases d,
{
    lemma_param_def_all_tagged_are_well_formed(d.params);
    if let Some(x) = d.return_type {
        lemma_ts_type_def_tagged_is_well_formed(x);
    }
    lemma_ts_type_param_def_all_tagged_are_well_formed(d.type_params);
}

/// What is tagged throughout is well formed.
pub proof fn lemma_literal_property_def_tagged_is_well_formed(d: LiteralPropertyDefView)
    requires
        literal_property_def_tagged(d),
    ensures
        literal_property_def_wf(d),
    decreases d,
{
    lemma_param_def_all_tagged_are_well_formed(d.params);
    if let Some(x) = d.ts_type {
        lemma_ts_type_def_tagged_is_well_formed(x);
    }
    lemma_ts_type_param_def_all_tagged_are_well_formed(d.type_params);
}

/// What is tagged throughout is well formed.
pub proof fn lemma_literal_call_signature_def_tagged_is_well_formed(d: LiteralCallSignatureDefView)
    requires
        literal_call_signature_def_tagged(d),
    ensures
        literal_call_signature_def_wf(d),
    decreases d,
{
    lemma_param_def_all_tagged_are_well_formed(d.params);
    if let Some(x) = d.ts_type {
        lemma_ts_type_def_tagged_is_well_formed(x);
    }
    lemma_ts_type_param_def_all_tagged_are_well_formed(d.type_params);
}

/// What is tagged throughout is well formed.
pub proof fn lemma_literal_index_signature_def_tagged_is_well_formed(
    d: LiteralIndexSignatureDefView,
)
    requires
        literal_index_signature_def_tagged(d),
    ensures
        literal_index_signature_def_wf(d),
    decreases d,
{
    lemma_param_def_all_tagged_are_well_formed(d.params);
    if let Some(x) = d.ts_type {
        lemma_ts_type_def_tagged_is_well_formed(x);
    }
}

/// What is tagged throughout is well formed.
pub proof fn lemma_ts_type_literal_def_tagged_is_well_formed(d: TsTypeLiteralDefView)
    requires
        ts_type_literal_def_tagged(d),
    ensures
        ts_type_literal_def_wf(d),
    decreases d,
{
    lemma_literal_method_def_all_tagged_are_well_formed(d.methods);
    lemma_literal_property_def_all_tagged_are_well_formed(d.properties);
    lemma_literal_call_signature_def_all_tagged_are_well_formed(d.call_signatures);
    lemma_literal_index_signature_def_all_tagged_are_well_formed(d.index_signatures);
}

/// What is tagged throughout is well formed.
pub proof fn lemma_ts_type_predicate_def_tagged_is_well_formed(d: TsTypePredicateDefView)
    requires
        ts_type_predicate_def_tagged(d),
    ensures
        ts_type_predicate_def_wf(d),
    decreases d,
{
    if let Some(x) = d.ty {
        lemma_ts_type_def_tagged_is_well_formed(*x);
    }
}

/// What is tagged throughout is well formed.
pub proof fn lemma_ts_type_param_def_tagged_is_well_formed(d: TsTypeParamDefView)
    requires
        ts_type_param_def_tagged(d),
    ensures
        ts_type_param_def_wf(d),
    decreases d,
{
    if let Some(x) = d.constraint {
        lemma_ts_type_def_tagged_is_well_formed(x);
    }
    if let Some(x) = d.default {
        lemma_ts_type_def_tagged_is_well_formed(x);
    }
}

/// What is tagged throughout is well formed.
pub proof fn lemma_param_def_tagged_is_well_formed(d: ParamDefView)
    requires
        param_def_tagged(d),
    ensures
        param_def_wf(d),
    decreases d,
{
    lemma_param_pattern_def_tagged_is_well_formed(d.pattern);
    if let Some(x) = d.ts_type {
        lemma_ts_type_def_tagged_is_well_formed(x);
    }
}

/// What is tagged throughout is well formed.
pub proof fn lemma_type_alias_def_tagged_is_well_formed(d: TypeAliasDefView)
    requires
        type_alias_def_tagged(d),
    ensures
        type_alias_def_wf(d),
    decreases d,
{
    lemma_ts_type_def_tagged_is_well_formed(d.ts_type);
    lemma_ts_type_param_def_all_tagged_are_well_formed(d.type_params);
}

/// What is tagged throughout is well formed.
pub proof fn lemma_param_pattern_def_tagged_is_well_formed(d: ParamPatternDefView)
    requires
        param_pattern_def_tagged(d),
    ensures
        param_pattern_def_wf(d),
    decreases d,
{
    match d {
        ParamPatternDefView::Array { elements, .. } => {
            lemma_optional_param_def_all_tagged_are_well_formed(elements);
        },
        ParamPatternDefView::Assign { left, .. } => {
            lemma_param_def_tagged_is_well_formed(*left);
        },
        ParamPatternDefView::Identifier { .. } => {},
        ParamPatternDefView::Object { props, .. } => {
            lemma_object_pat_prop_def_all_tagged_are_well_formed(props);
        },
        ParamPatternDefView::Rest { arg } => {
            lemma_param_def_tagged_is_well_formed(*arg);
        },
    }
}

/// What is tagged throughout is well formed.
pub proof fn lemma_object_pat_prop_def_tagged_is_well_formed(d: ObjectPatPropDefView)
    requires
        object_pat_prop_def_tagged(d),
    ensures
        object_pat_prop_def_wf(d),
    decreases d,
{
    match d {
        ObjectPatPropDefView::Assign { .. } => {},
        ObjectPatPropDefView::KeyValue { value, .. } => {
            lemma_param_def_tagged_is_well_formed(*value);
        },
        ObjectPatPropDefView::Rest { arg } => {
            lemma_param_def_tagged_is_well_formed(*arg);
        },
    }
}

/// Where every entry is tagged throughout, every entry is well formed.
pub proof fn lemma_ts_type_def_all_tagged_are_well_formed(s: Seq<TsTypeDefView>)
    requires
        ts_type_def_all_tagged(s),
    ensures
        ts_type_def_all_wf(s),
    decreases s,
{
    assert forall|i: int| 0 <= i < s.len() implies ts_type_def_wf((#[trigger] s[i])) by {
        lemma_ts_type_def_tagged_is_well_formed(s[i]);
    }
}

/// Where every entry is tagged throughout, every entry is well formed.
pub proof fn lemma_param_def_all_tagged_are_well_formed(s: Seq<ParamDefView>)
    requires
        param_def_all_tagged(s),
    ensures
        param_def_all_wf(s),
    decreases s,
{
    assert forall|i: int| 0 <= i < s.len() implies param_def_wf((#[trigger] s[i])) by {
        lemma_param_def_tagged_is_well_formed(s[i]);
    }
}

/// Where every entry is tagged throughout, every entry is well formed.
pub proof fn lemma_ts_type_param_def_all_tagged_are_well_formed(s: Seq<TsTypeParamDefView>)
    requires
        ts_type_param_def_all_tagged(s),
    ensures
        ts_type_param_def_all_wf(s),
    decreases s,
{
    assert forall|i: int| 0 <= i < s.len() implies ts_type_param_def_wf((#[trigger] s[i])) by {
        lemma_ts_type_param_def_tagged_is_well_formed(s[i]);
    }
}

/// Where every entry is tagged throughout, every entry is well formed.
pub proof fn lemma_literal_method_def_all_tagged_are_well_formed(s: Seq<LiteralMethodDefView>)
    requires
        literal_method_def_all_tagged(s),
    ensures
        literal_method_def_all_wf(s),
    decreases s,
{
    assert forall|i: int| 0 <= i < s.len() implies literal_method_def_wf((#[trigger] s[i])) by {
        lemma_literal_method_def_tagged_is_well_formed(s[i]);
    }
}

/// Where every entry is tagged throughout, every entry is well formed.
pub proof fn lemma_literal_property_def_all_tagged_are_well_formed(s: Seq<LiteralPropertyDefView>)
    requires
        literal_property_def_all_tagged(s),
    ensures
        literal_property_def_all_wf(s),
    decreases s,
{
    assert forall|i: int| 0 <= i < s.len() implies literal_property_def_wf((#[trigger] s[i])) by {
        lemma_literal_property_def_tagged_is_well_formed(s[i]);
    }
}

/// Where every entry is tagged throughout, every entry is well formed.
pub proof fn lemma_literal_call_signature_def_all_tagged_are_well_formed(
    s: Seq<LiteralCallSignatureDefView>,
)
    requires
        literal_call_signature_def_all_tagged(s),
    ensures
        literal_call_signature_def_all_wf(s),
    decreases s,
{
    assert forall|i: int| 0 <= i < s.len() implies
        literal_call_signature_def_wf((#[trigger] s[i])) by {
        lemma_literal_call_signature_def_tagged_is_well_formed(s[i]);
    }
}

/// Where every entry is tagged throughout, every entry is well formed.
pub proof fn lemma_literal_index_signature_def_all_tagged_are_well_formed(
    s: Seq<LiteralIndexSignatureDefView>,
)
    requires
        literal_index_signature_def_all_tagged(s),
    ensures
        literal_index_signature_def_all_wf(s),
    decreases s,
{
    assert forall|i: int| 0 <= i < s.len() implies
        literal_index_signature_def_wf((#[trigger] s[i])) by {
        lemma_literal_index_signature_def_tagged_is_well_formed(s[i]);
    }
}

/// Where every entry is tagged throughout, every entry is well formed.
pub proof fn lemma_optional_param_def_all_tagged_are_well_formed(s: Seq<Option<ParamDefView>>)
    requires
        optional_param_def_all_tagged(s),
    ensures
        optional_param_def_all_wf(s),
    decreases s,
{
    assert forall|i: int| 0 <= i < s.len() implies match (#[trigger] s[i]) {
            Some(x) => param_def_wf(x),
            None => true,
        } by {
        if let Some(x) = s[i] {
            lemma_param_def_tagged_is_well_formed(x);
        }
    }
}

/// Where every entry is tagged throughout, every entry is well formed.
pub proof fn lemma_object_pat_prop_def_all_tagged_are_well_formed(s: Seq<ObjectPatPropDefView>)
    requires
        object_pat_prop_def_all_tagged(s),
    ensures
        object_pat_prop_def_all_wf(s),
    decreases s,
{
    assert forall|i: int| 0 <= i < s.len() implies object_pat_prop_def_wf((#[trigger] s[i])) by {
        lemma_object_pat_prop_def_tagged_is_well_formed(s[i]);
    }
}


} // verus!
