//! Equality of descriptions, field by field, and `==` for them.

use crate::model::{
    literal_call_signature_def_views, literal_def_view, literal_index_signature_def_views,
    literal_method_def_views, literal_property_def_views, object_pat_prop_def_views,
    optional_param_def_views, param_def_view, param_def_views, ts_conditional_def_view,
    ts_fn_or_constructor_def_view, ts_import_type_def_view, ts_indexed_access_def_view,
    ts_infer_def_view, ts_mapped_type_def_view, ts_type_def_view, ts_type_def_views,
    ts_type_literal_def_view, ts_type_operator_def_view, ts_type_param_def_views,
    ts_type_predicate_def_view, ts_type_ref_def_view,
};
use crate::params::{ObjectPatPropDef, ParamDef, ParamPatternDef};
use crate::ts_type::{
    LiteralCallSignatureDef, LiteralDef, LiteralIndexSignatureDef, LiteralMethodDef,
    LiteralPropertyDef, ThisOrIdent, TsConditionalDef, TsFnOrConstructorDef, TsImportTypeDef,
    TsIndexedAccessDef, TsInferDef, TsMappedTypeDef, TsTypeDef, TsTypeLiteralDef, TsTypeOperatorDef,
    TsTypePredicateDef, TsTypeRefDef,
};
use crate::ts_type_param::TsTypeParamDef;
use crate::type_alias::TypeAliasDef;
use vstd::prelude::*;
use vstd::std_specs::cmp::PartialEqSpecImpl;

verus! {

pub(crate) fn optional_ts_type_def_list_equals(
    a: &Option<Vec<TsTypeDef>>,
    b: &Option<Vec<TsTypeDef>>,
) -> (r: bool)
    ensures
        r == (match *a {
            Some(x) => Some(ts_type_def_views(x@)),
            None => None,
        } == match *b {
            Some(x) => Some(ts_type_def_views(x@)),
            None => None,
        }),
    decreases a, 0int,
{
    match (a, b) {
        (Some(x), Some(y)) => ts_type_def_list_equals(x, y),
        (None, None) => true,
        _ => false,
    }
}

pub(crate) fn optional_text_equals(a: &Option<String>, b: &Option<String>) -> (r: bool)
    ensures
        r == (match *a {
            Some(x) => Some(x@),
            None => None,
        } == match *b {
            Some(x) => Some(x@),
            None => None,
        }),
    decreases a, 0int,
{
    match (a, b) {
        (Some(x), Some(y)) => *x == *y,
        (None, None) => true,
        _ => false,
    }
}

pub(crate) fn optional_boxed_ts_type_def_equals(
    a: &Option<Box<TsTypeDef>>,
    b: &Option<Box<TsTypeDef>>,
) -> (r: bool)
    ensures
        r == (match *a {
            Some(x) => Some(Box::new(ts_type_def_view(*x))),
            None => None,
        } == match *b {
            Some(x) => Some(Box::new(ts_type_def_view(*x))),
            None => None,
        }),
    decreases a, 0int,
{
    match (a, b) {
        (Some(x), Some(y)) => x.equals(y),
        (None, None) => true,
        _ => false,
    }
}

pub(crate) fn optional_ts_type_def_equals(a: &Option<TsTypeDef>, b: &Option<TsTypeDef>) -> (r: bool)
    ensures
        r == (match *a {
            Some(x) => Some(ts_type_def_view(x)),
            None => None,
        } == match *b {
            Some(x) => Some(ts_type_def_view(x)),
            None => None,
        }),
    decreases a, 0int,
{
    match (a, b) {
        (Some(x), Some(y)) => x.equals(y),
        (None, None) => true,
        _ => false,
    }
}

pub(crate) fn optional_literal_def_equals(
    a: &Option<LiteralDef>,
    b: &Option<LiteralDef>,
) -> (r: bool)
    ensures
        r == (match *a {
            Some(x) => Some(literal_def_view(x)),
            None => None,
        } == match *b {
            Some(x) => Some(literal_def_view(x)),
            None => None,
        }),
    decreases a, 0int,
{
    match (a, b) {
        (Some(x), Some(y)) => x.equals(y),
        (None, None) => true,
        _ => false,
    }
}

pub(crate) fn optional_ts_type_ref_def_equals(
    a: &Option<TsTypeRefDef>,
    b: &Option<TsTypeRefDef>,
) -> (r: bool)
    ensures
        r == (match *a {
            Some(x) => Some(ts_type_ref_def_view(x)),
            None => None,
        } == match *b {
            Some(x) => Some(ts_type_ref_def_view(x)),
            None => None,
        }),
    decreases a, 0int,
{
    match (a, b) {
        (Some(x), Some(y)) => x.equals(y),
        (None, None) => true,
        _ => false,
    }
}

pub(crate) fn optional_boxed_ts_type_operator_def_equals(
    a: &Option<Box<TsTypeOperatorDef>>,
    b: &Option<Box<TsTypeOperatorDef>>,
) -> (r: bool)
    ensures
        r == (match *a {
            Some(x) => Some(Box::new(ts_type_operator_def_view(*x))),
            None => None,
        } == match *b {
            Some(x) => Some(Box::new(ts_type_operator_def_view(*x))),
            None => None,
        }),
    decreases a, 0int,
{
    match (a, b) {
        (Some(x), Some(y)) => x.equals(y),
        (None, None) => true,
        _ => false,
    }
}

pub(crate) fn optional_boxed_ts_fn_or_constructor_def_equals(
    a: &Option<Box<TsFnOrConstructorDef>>,
    b: &Option<Box<TsFnOrConstructorDef>>,
) -> (r: bool)
    ensures
        r == (match *a {
            Some(x) => Some(Box::new(ts_fn_or_constructor_def_view(*x))),
            None => None,
        } == match *b {
            Some(x) => Some(Box::new(ts_fn_or_constructor_def_view(*x))),
            None => None,
        }),
    decreases a, 0int,
{
    match (a, b) {
        (Some(x), Some(y)) => x.equals(y),
        (None, None) => true,
        _ => false,
    }
}

pub(crate) fn optional_ts_conditional_def_equals(
    a: &Option<TsConditionalDef>,
    b: &Option<TsConditionalDef>,
) -> (r: bool)
    ensures
        r == (match *a {
            Some(x) => Some(ts_conditional_def_view(x)),
            None => None,
        } == match *b {
            Some(x) => Some(ts_conditional_def_view(x)),
            None => None,
        }),
    decreases a, 0int,
{
    match (a, b) {
        (Some(x), Some(y)) => x.equals(y),
        (None, None) => true,
        _ => false,
    }
}

pub(crate) fn optional_ts_infer_def_equals(
    a: &Option<TsInferDef>,
    b: &Option<TsInferDef>,
) -> (r: bool)
    ensures
        r == (match *a {
            Some(x) => Some(ts_infer_def_view(x)),
            None => None,
        } == match *b {
            Some(x) => Some(ts_infer_def_view(x)),
            None => None,
        }),
    decreases a, 0int,
{
    match (a, b) {
        (Some(x), Some(y)) => x.equals(y),
        (None, None) => true,
        _ => false,
    }
}

pub(crate) fn optional_ts_indexed_access_def_equals(
    a: &Option<TsIndexedAccessDef>,
    b: &Option<TsIndexedAccessDef>,
) -> (r: bool)
    ensures
        r == (match *a {
            Some(x) => Some(ts_indexed_access_def_view(x)),
            None => None,
        } == match *b {
            Some(x) => Some(ts_indexed_access_def_view(x)),
            None => None,
        }),
    decreases a, 0int,
{
    match (a, b) {
        (Some(x), Some(y)) => x.equals(y),
        (None, None) => true,
        _ => false,
    }
}

pub(crate) fn optional_ts_mapped_type_def_equals(
    a: &Option<TsMappedTypeDef>,
    b: &Option<TsMappedTypeDef>,
) -> (r: bool)
    ensures
        r == (match *a {
            Some(x) => Some(ts_mapped_type_def_view(x)),
            None => None,
        } == match *b {
            Some(x) => Some(ts_mapped_type_def_view(x)),
            None => None,
        }),
    decreases a, 0int,
{
    match (a, b) {
        (Some(x), Some(y)) => x.equals(y),
        (None, None) => true,
        _ => false,
    }
}

pub(crate) fn optional_ts_type_literal_def_equals(
    a: &Option<TsTypeLiteralDef>,
    b: &Option<TsTypeLiteralDef>,
) -> (r: bool)
    ensures
        r == (match *a {
            Some(x) => Some(ts_type_literal_def_view(x)),
            None => None,
        } == match *b {
            Some(x) => Some(ts_type_literal_def_view(x)),
            None => None,
        }),
    decreases a, 0int,
{
    match (a, b) {
        (Some(x), Some(y)) => x.equals(y),
        (None, None) => true,
        _ => false,
    }
}

pub(crate) fn optional_ts_type_predicate_def_equals(
    a: &Option<TsTypePredicateDef>,
    b: &Option<TsTypePredicateDef>,
) -> (r: bool)
    ensures
        r == (match *a {
            Some(x) => Some(ts_type_predicate_def_view(x)),
            None => None,
        } == match *b {
            Some(x) => Some(ts_type_predicate_def_view(x)),
            None => None,
        }),
    decreases a, 0int,
{
    match (a, b) {
        (Some(x), Some(y)) => x.equals(y),
        (None, None) => true,
        _ => false,
    }
}

pub(crate) fn optional_ts_import_type_def_equals(
    a: &Option<TsImportTypeDef>,
    b: &Option<TsImportTypeDef>,
) -> (r: bool)
    ensures
        r == (match *a {
            Some(x) => Some(ts_import_type_def_view(x)),
            None => None,
        } == match *b {
            Some(x) => Some(ts_import_type_def_view(x)),
            None => None,
        }),
    decreases a, 0int,
{
    match (a, b) {
        (Some(x), Some(y)) => x.equals(y),
        (None, None) => true,
        _ => false,
    }
}

pub(crate) fn optional_param_def_equals(a: &Option<ParamDef>, b: &Option<ParamDef>) -> (r: bool)
    ensures
        r == (match *a {
            Some(x) => Some(param_def_view(x)),
            None => None,
        } == match *b {
            Some(x) => Some(param_def_view(x)),
            None => None,
        }),
    decreases a, 0int,
{
    match (a, b) {
        (Some(x), Some(y)) => x.equals(y),
        (None, None) => true,
        _ => false,
    }
}

impl TsTypeRefDef {
    /// Whether `self` and `other` describe the same thing, field by field.
    pub fn equals(&self, other: &TsTypeRefDef) -> (r: bool)
        ensures
            r == (self@ == other@),
        decreases self, 0int,
    {
        let same_type_params = optional_ts_type_def_list_equals(
            &self.type_params,
            &other.type_params,
        );
        let same_name = self.name == other.name;
        same_type_params && same_name
    }
}

impl LiteralDef {
    /// Whether `self` and `other` describe the same thing, field by field.
    pub fn equals(&self, other: &LiteralDef) -> (r: bool)
        ensures
            r == (self@ == other@),
        decreases self, 0int,
    {
        let same_kind = self.kind == other.kind;
        let same_number = self.number == other.number;
        let same_string = optional_text_equals(&self.string, &other.string);
        let same_ts_types = optional_ts_type_def_list_equals(&self.ts_types, &other.ts_types);
        let same_boolean = self.boolean == other.boolean;
        same_kind && same_number && same_string && same_ts_types && same_boolean
    }
}

impl TsTypeOperatorDef {
    /// Whether `self` and `other` describe the same thing, field by field.
    pub fn equals(&self, other: &TsTypeOperatorDef) -> (r: bool)
        ensures
            r == (self@ == other@),
        decreases self, 0int,
    {
        let same_operator = self.operator == other.operator;
        let same_ts_type = self.ts_type.equals(&other.ts_type);
        same_operator && same_ts_type
    }
}

impl TsFnOrConstructorDef {
    /// Whether `self` and `other` describe the same thing, field by field.
    pub fn equals(&self, other: &TsFnOrConstructorDef) -> (r: bool)
        ensures
            r == (self@ == other@),
        decreases self, 0int,
    {
        let same_constructor = self.constructor == other.constructor;
        let same_ts_type = self.ts_type.equals(&other.ts_type);
        let same_params = param_def_list_equals(&self.params, &other.params);
        let same_type_params = ts_type_param_def_list_equals(&self.type_params, &other.type_params);
        same_constructor && same_ts_type && same_params && same_type_params
    }
}

impl TsConditionalDef {
    /// Whether `self` and `other` describe the same thing, field by field.
    pub fn equals(&self, other: &TsConditionalDef) -> (r: bool)
        ensures
            r == (self@ == other@),
        decreases self, 0int,
    {
        let same_check_type = self.check_type.equals(&other.check_type);
        let same_extends_type = self.extends_type.equals(&other.extends_type);
        let same_true_type = self.true_type.equals(&other.true_type);
        let same_false_type = self.false_type.equals(&other.false_type);
        same_check_type && same_extends_type && same_true_type && same_false_type
    }
}

impl TsInferDef {
    /// Whether `self` and `other` describe the same thing, field by field.
    pub fn equals(&self, other: &TsInferDef) -> (r: bool)
        ensures
            r == (self@ == other@),
        decreases self, 0int,
    {
        let same_type_param = self.type_param.equals(&other.type_param);
        same_type_param
    }
}

impl TsImportTypeDef {
    /// Whether `self` and `other` describe the same thing, field by field.
    pub fn equals(&self, other: &TsImportTypeDef) -> (r: bool)
        ensures
            r == (self@ == other@),
        decreases self, 0int,
    {
        let same_specifier = self.specifier == other.specifier;
        let same_qualifier = optional_text_equals(&self.qualifier, &other.qualifier);
        let same_type_params = optional_ts_type_def_list_equals(
            &self.type_params,
            &other.type_params,
        );
        same_specifier && same_qualifier && same_type_params
    }
}

impl TsIndexedAccessDef {
    /// Whether `self` and `other` describe the same thing, field by field.
    pub fn equals(&self, other: &TsIndexedAccessDef) -> (r: bool)
        ensures
            r == (self@ == other@),
        decreases self, 0int,
    {
        let same_readonly = self.readonly == other.readonly;
        let same_obj_type = self.obj_type.equals(&other.obj_type);
        let same_index_type = self.index_type.equals(&other.index_type);
        same_readonly && same_obj_type && same_index_type
    }
}

impl TsMappedTypeDef {
    /// Whether `self` and `other` describe the same thing, field by field.
    pub fn equals(&self, other: &TsMappedTypeDef) -> (r: bool)
        ensures
            r == (self@ == other@),
        decreases self, 0int,
    {
        let same_readonly = self.readonly == other.readonly;
        let same_type_param = self.type_param.equals(&other.type_param);
        let same_name_type = optional_boxed_ts_type_def_equals(&self.name_type, &other.name_type);
        let same_optional = self.optional == other.optional;
        let same_ts_type = optional_boxed_ts_type_def_equals(&self.ts_type, &other.ts_type);
        same_readonly && same_type_param && same_name_type && same_optional && same_ts_type
    }
}

impl LiteralMethodDef {
    /// Whether `self` and `other` describe the same thing, field by field.
    pub fn equals(&self, other: &LiteralMethodDef) -> (r: bool)
        ensures
            r == (self@ == other@),
        decreases self, 0int,
    {
        let same_name = self.name == other.name;
        let same_kind = self.kind == other.kind;
        let same_params = param_def_list_equals(&self.params, &other.params);
        let same_computed = self.computed == other.computed;
        let same_optional = self.optional == other.optional;
        let same_return_type = optional_ts_type_def_equals(&self.return_type, &other.return_type);
        let same_type_params = ts_type_param_def_list_equals(&self.type_params, &other.type_params);
        same_name
            && same_kind
            && same_params
            && same_computed
            && same_optional
            && same_return_type
            && same_type_params
    }
}

impl LiteralPropertyDef {
    /// Whether `self` and `other` describe the same thing, field by field.
    pub fn equals(&self, other: &LiteralPropertyDef) -> (r: bool)
        ensures
            r == (self@ == other@),
        decreases self, 0int,
    {
        let same_name = self.name == other.name;
        let same_params = param_def_list_equals(&self.params, &other.params);
        let same_readonly = self.readonly == other.readonly;
        let same_computed = self.computed == other.computed;
        let same_optional = self.optional == other.optional;
        let same_ts_type = optional_ts_type_def_equals(&self.ts_type, &other.ts_type);
        let same_type_params = ts_type_param_def_list_equals(&self.type_params, &other.type_params);
        same_name
            && same_params
            && same_readonly
            && same_computed
            && same_optional
            && same_ts_type
            && same_type_params
    }
}

impl LiteralCallSignatureDef {
    /// Whether `self` and `other` describe the same thing, field by field.
    pub fn equals(&self, other: &LiteralCallSignatureDef) -> (r: bool)
        ensures
            r == (self@ == other@),
        decreases self, 0int,
    {
        let same_params = param_def_list_equals(&self.params, &other.params);
        let same_ts_type = optional_ts_type_def_equals(&self.ts_type, &other.ts_type);
        let same_type_params = ts_type_param_def_list_equals(&self.type_params, &other.type_params);
        same_params && same_ts_type && same_type_params
    }
}

impl LiteralIndexSignatureDef {
    /// Whether `self` and `other` describe the same thing, field by field.
    pub fn equals(&self, other: &LiteralIndexSignatureDef) -> (r: bool)
        ensures
            r == (self@ == other@),
        decreases self, 0int,
    {
        let same_readonly = self.readonly == other.readonly;
        let same_params = param_def_list_equals(&self.params, &other.params);
        let same_ts_type = optional_ts_type_def_equals(&self.ts_type, &other.ts_type);
        same_readonly && same_params && same_ts_type
    }
}

impl TsTypeLiteralDef {
    /// Whether `self` and `other` describe the same thing, field by field.
    pub fn equals(&self, other: &TsTypeLiteralDef) -> (r: bool)
        ensures
            r == (self@ == other@),
        decreases self, 0int,
    {
        let same_methods = literal_method_def_list_equals(&self.methods, &other.methods);
        let same_properties = literal_property_def_list_equals(&self.properties, &other.properties);
        let same_call_signatures = literal_call_signature_def_list_equals(
            &self.call_signatures,
            &other.call_signatures,
        );
        let same_index_signatures = literal_index_signature_def_list_equals(
            &self.index_signatures,
            &other.index_signatures,
        );
        same_methods && same_properties && same_call_signatures && same_index_signatures
    }
}

impl TsTypePredicateDef {
    /// Whether `self` and `other` describe the same thing, field by field.
    pub fn equals(&self, other: &TsTypePredicateDef) -> (r: bool)
        ensures
            r == (self@ == other@),
        decreases self, 0int,
    {
        let same_asserts = self.asserts == other.asserts;
        let same_param = self.param.equals(&other.param);
        let same_ty = optional_boxed_ts_type_def_equals(&self.ty, &other.ty);
        same_asserts && same_param && same_ty
    }
}

impl TsTypeDef {
    /// The text, the tag and the payloads without children agree.
    fn same_leaf(&self, other: &TsTypeDef) -> (r: bool)
        ensures
            r == (self@.repr == other@.repr
            && self@.kind == other@.kind
            && self@.keyword == other@.keyword
            && self@.type_query == other@.type_query
            && self@.this == other@.this),
        decreases self, 0int,
    {
        let same_repr = self.repr == other.repr;
        let same_kind = self.kind == other.kind;
        let same_keyword = optional_text_equals(&self.keyword, &other.keyword);
        let same_type_query = optional_text_equals(&self.type_query, &other.type_query);
        let same_this = self.this == other.this;
        same_repr && same_kind && same_keyword && same_type_query && same_this
    }

    /// The payloads that are lists of types agree.
    fn same_lists(&self, other: &TsTypeDef) -> (r: bool)
        ensures
            r == (self@.union == other@.union
            && self@.intersection == other@.intersection
            && self@.tuple == other@.tuple),
        decreases self, 0int,
    {
        let same_union = optional_ts_type_def_list_equals(&self.union, &other.union);
        let same_intersection = optional_ts_type_def_list_equals(
            &self.intersection,
            &other.intersection,
        );
        let same_tuple = optional_ts_type_def_list_equals(&self.tuple, &other.tuple);
        same_union && same_intersection && same_tuple
    }

    /// The payloads that wrap one type agree.
    fn same_wrapped(&self, other: &TsTypeDef) -> (r: bool)
        ensures
            r == (self@.array == other@.array
            && self@.parenthesized == other@.parenthesized
            && self@.rest == other@.rest
            && self@.optional == other@.optional
            && self@.type_operator == other@.type_operator),
        decreases self, 0int,
    {
        let same_array = optional_boxed_ts_type_def_equals(&self.array, &other.array);
        let same_parenthesized = optional_boxed_ts_type_def_equals(
            &self.parenthesized,
            &other.parenthesized,
        );
        let same_rest = optional_boxed_ts_type_def_equals(&self.rest, &other.rest);
        let same_optional = optional_boxed_ts_type_def_equals(&self.optional, &other.optional);
        let same_type_operator = optional_boxed_ts_type_operator_def_equals(
            &self.type_operator,
            &other.type_operator,
        );
        same_array && same_parenthesized && same_rest && same_optional && same_type_operator
    }

    /// The payloads with several named parts agree.
    fn same_composite(&self, other: &TsTypeDef) -> (r: bool)
        ensures
            r == (self@.literal == other@.literal
            && self@.type_ref == other@.type_ref
            && self@.fn_or_constructor == other@.fn_or_constructor
            && self@.conditional_type == other@.conditional_type
            && self@.infer == other@.infer
            && self@.indexed_access == other@.indexed_access),
        decreases self, 0int,
    {
        let same_literal = optional_literal_def_equals(&self.literal, &other.literal);
        let same_type_ref = optional_ts_type_ref_def_equals(&self.type_ref, &other.type_ref);
        let same_fn_or_constructor = optional_boxed_ts_fn_or_constructor_def_equals(
            &self.fn_or_constructor,
            &other.fn_or_constructor,
        );
        let same_conditional_type = optional_ts_conditional_def_equals(
            &self.conditional_type,
            &other.conditional_type,
        );
        let same_infer = optional_ts_infer_def_equals(&self.infer, &other.infer);
        let same_indexed_access = optional_ts_indexed_access_def_equals(
            &self.indexed_access,
            &other.indexed_access,
        );
        same_literal
            && same_type_ref
            && same_fn_or_constructor
            && same_conditional_type
            && same_infer
            && same_indexed_access
    }

    /// The remaining payloads agree.
    fn same_structural(&self, other: &TsTypeDef) -> (r: bool)
        ensures
            r == (self@.mapped_type == other@.mapped_type
            && self@.type_literal == other@.type_literal
            && self@.type_predicate == other@.type_predicate
            && self@.import_type == other@.import_type),
        decreases self, 0int,
    {
        let same_mapped_type = optional_ts_mapped_type_def_equals(
            &self.mapped_type,
            &other.mapped_type,
        );
        let same_type_literal = optional_ts_type_literal_def_equals(
            &self.type_literal,
            &other.type_literal,
        );
        let same_type_predicate = optional_ts_type_predicate_def_equals(
            &self.type_predicate,
            &other.type_predicate,
        );
        let same_import_type = optional_ts_import_type_def_equals(
            &self.import_type,
            &other.import_type,
        );
        same_mapped_type && same_type_literal && same_type_predicate && same_import_type
    }

    /// Whether `self` and `other` describe the same thing, field by field.
    pub fn equals(&self, other: &TsTypeDef) -> (r: bool)
        ensures
            r == (self@ == other@),
        decreases self, 1int,
    {
        self.same_leaf(other)
            && self.same_lists(other)
            && self.same_wrapped(other)
            && self.same_composite(other)
            && self.same_structural(other)
    }
}

impl TsTypeParamDef {
    /// Whether `self` and `other` describe the same thing, field by field.
    pub fn equals(&self, other: &TsTypeParamDef) -> (r: bool)
        ensures
            r == (self@ == other@),
        decreases self, 0int,
    {
        let same_name = self.name == other.name;
        let same_constraint = optional_ts_type_def_equals(&self.constraint, &other.constraint);
        let same_default = optional_ts_type_def_equals(&self.default, &other.default);
        same_name && same_constraint && same_default
    }
}

impl ParamDef {
    /// Whether `self` and `other` describe the same thing, field by field.
    pub fn equals(&self, other: &ParamDef) -> (r: bool)
        ensures
            r == (self@ == other@),
        decreases self, 0int,
    {
        let same_pattern = self.pattern.equals(&other.pattern);
        let same_ts_type = optional_ts_type_def_equals(&self.ts_type, &other.ts_type);
        same_pattern && same_ts_type
    }
}

impl TypeAliasDef {
    /// Whether `self` and `other` describe the same thing, field by field.
    pub fn equals(&self, other: &TypeAliasDef) -> (r: bool)
        ensures
            r == (self@ == other@),
        decreases self, 0int,
    {
        let same_ts_type = self.ts_type.equals(&other.ts_type);
        let same_type_params = ts_type_param_def_list_equals(&self.type_params, &other.type_params);
        same_ts_type && same_type_params
    }
}

impl ThisOrIdent {
    /// Whether `self` and `other` describe the same thing, field by field.
    pub fn equals(&self, other: &ThisOrIdent) -> (r: bool)
        ensures
            r == (self@ == other@),
        decreases self, 0int,
    {
        match (self, other) {
            (ThisOrIdent::This, ThisOrIdent::This) => true,
            (
                ThisOrIdent::Identifier { name: name_a },
                ThisOrIdent::Identifier { name: name_b },
            ) => {
                *name_a == *name_b
            },
            _ => false,
        }
    }
}

impl ParamPatternDef {
    /// Whether `self` and `other` describe the same thing, field by field.
    pub fn equals(&self, other: &ParamPatternDef) -> (r: bool)
        ensures
            r == (self@ == other@),
        decreases self, 0int,
    {
        match (self, other) {
            (
                ParamPatternDef::Array { elements: elements_a, optional: optional_a },
                ParamPatternDef::Array { elements: elements_b, optional: optional_b },
            ) => {
                if !(optional_param_def_list_equals(elements_a, elements_b)) {
                    return false;
                }
                *optional_a == *optional_b
            },
            (
                ParamPatternDef::Assign { left: left_a, right: right_a },
                ParamPatternDef::Assign { left: left_b, right: right_b },
            ) => {
                if !(left_a.equals(left_b)) {
                    return false;
                }
                *right_a == *right_b
            },
            (
                ParamPatternDef::Identifier { name: name_a, optional: optional_a },
                ParamPatternDef::Identifier { name: name_b, optional: optional_b },
            ) => {
                if !(*name_a == *name_b) {
                    return false;
                }
                *optional_a == *optional_b
            },
            (
                ParamPatternDef::Object { props: props_a, optional: optional_a },
                ParamPatternDef::Object { props: props_b, optional: optional_b },
            ) => {
                if !(object_pat_prop_def_list_equals(props_a, props_b)) {
                    return false;
                }
                *optional_a == *optional_b
            },
            (ParamPatternDef::Rest { arg: arg_a }, ParamPatternDef::Rest { arg: arg_b }) => {
                arg_a.equals(arg_b)
            },
            _ => false,
        }
    }
}

impl ObjectPatPropDef {
    /// Whether `self` and `other` describe the same thing, field by field.
    pub fn equals(&self, other: &ObjectPatPropDef) -> (r: bool)
        ensures
            r == (self@ == other@),
        decreases self, 0int,
    {
        match (self, other) {
            (
                ObjectPatPropDef::Assign { key: key_a, value: value_a },
                ObjectPatPropDef::Assign { key: key_b, value: value_b },
            ) => {
                if !(*key_a == *key_b) {
                    return false;
                }
                optional_text_equals(value_a, value_b)
            },
            (
                ObjectPatPropDef::KeyValue { key: key_a, value: value_a },
                ObjectPatPropDef::KeyValue { key: key_b, value: value_b },
            ) => {
                if !(*key_a == *key_b) {
                    return false;
                }
                value_a.equals(value_b)
            },
            (ObjectPatPropDef::Rest { arg: arg_a }, ObjectPatPropDef::Rest { arg: arg_b }) => {
                arg_a.equals(arg_b)
            },
            _ => false,
        }
    }
}

pub(crate) fn ts_type_def_list_equals(a: &Vec<TsTypeDef>, b: &Vec<TsTypeDef>) -> (r: bool)
    ensures
        r == (ts_type_def_views(a@) == ts_type_def_views(b@)),
    decreases a, 0int,
{
    if a.len() != b.len() {
        assert(ts_type_def_views(a@).len() != ts_type_def_views(b@).len());
        return false;
    }
    let mut i: usize = 0;
    while i < a.len()
        invariant
            i <= a.len(),
            a.len() == b.len(),
            forall|k: int| 0 <= k < i ==> ts_type_def_views(a@)[k] == ts_type_def_views(b@)[k],
        decreases a.len() - i,
    {
        let same = a[i].equals(&b[i]);
        if !same {
            assert(ts_type_def_views(a@)[i as int] != ts_type_def_views(b@)[i as int]);
            return false;
        }
        i += 1;
    }
    assert(ts_type_def_views(a@) =~= ts_type_def_views(b@));
    true
}

pub(crate) fn param_def_list_equals(a: &Vec<ParamDef>, b: &Vec<ParamDef>) -> (r: bool)
    ensures
        r == (param_def_views(a@) == param_def_views(b@)),
    decreases a, 0int,
{
    if a.len() != b.len() {
        assert(param_def_views(a@).len() != param_def_views(b@).len());
        return false;
    }
    let mut i: usize = 0;
    while i < a.len()
        invariant
            i <= a.len(),
            a.len() == b.len(),
            forall|k: int| 0 <= k < i ==> param_def_views(a@)[k] == param_def_views(b@)[k],
        decreases a.len() - i,
    {
        let same = a[i].equals(&b[i]);
        if !same {
            assert(param_def_views(a@)[i as int] != param_def_views(b@)[i as int]);
            return false;
        }
        i += 1;
    }
    assert(param_def_views(a@) =~= param_def_views(b@));
    true
}

pub(crate) fn ts_type_param_def_list_equals(
    a: &Vec<TsTypeParamDef>,
    b: &Vec<TsTypeParamDef>,
) -> (r: bool)
    ensures
        r == (ts_type_param_def_views(a@) == ts_type_param_def_views(b@)),
    decreases a, 0int,
{
    if a.len() != b.len() {
        assert(ts_type_param_def_views(a@).len() != ts_type_param_def_views(b@).len());
        return false;
    }
    let mut i: usize = 0;
    while i < a.len()
        invariant
            i <= a.len(),
            a.len() == b.len(),
            forall|k: int|
                0 <= k < i ==> ts_type_param_def_views(a@)[k]
                    == ts_type_param_def_views(b@)[k],
        decreases a.len() - i,
    {
        let same = a[i].equals(&b[i]);
        if !same {
            assert(ts_type_param_def_views(a@)[i as int] != ts_type_param_def_views(b@)[i as int]);
            return false;
        }
        i += 1;
    }
    assert(ts_type_param_def_views(a@) =~= ts_type_param_def_views(b@));
    true
}

pub(crate) fn literal_method_def_list_equals(
    a: &Vec<LiteralMethodDef>,
    b: &Vec<LiteralMethodDef>,
) -> (r: bool)
    ensures
        r == (literal_method_def_views(a@) == literal_method_def_views(b@)),
    decreases a, 0int,
{
    if a.len() != b.len() {
        assert(literal_method_def_views(a@).len() != literal_method_def_views(b@).len());
        return false;
    }
    let mut i: usize = 0;
    while i < a.len()
        invariant
            i <= a.len(),
            a.len() == b.len(),
            forall|k: int|
                0 <= k < i ==> literal_method_def_views(a@)[k]
                    == literal_method_def_views(b@)[k],
        decreases a.len() - i,
    {
        let same = a[i].equals(&b[i]);
        if !same {
            assert(literal_method_def_views(a@)[i as int]
                != literal_method_def_views(b@)[i as int]);
            return false;
        }
        i += 1;
    }
    assert(literal_method_def_views(a@) =~= literal_method_def_views(b@));
    true
}

pub(crate) fn literal_property_def_list_equals(
    a: &Vec<LiteralPropertyDef>,
    b: &Vec<LiteralPropertyDef>,
) -> (r: bool)
    ensures
        r == (literal_property_def_views(a@) == literal_property_def_views(b@)),
    decreases a, 0int,
{
    if a.len() != b.len() {
        assert(literal_property_def_views(a@).len() != literal_property_def_views(b@).len());
        return false;
    }
    let mut i: usize = 0;
    while i < a.len()
        invariant
            i <= a.len(),
            a.len() == b.len(),
            forall|k: int|
                0 <= k < i ==> literal_property_def_views(a@)[k]
                    == literal_property_def_views(b@)[k],
        decreases a.len() - i,
    {
        let same = a[i].equals(&b[i]);
        if !same {
            assert(literal_property_def_views(a@)[i as int]
                != literal_property_def_views(b@)[i as int]);
            return false;
        }
        i += 1;
    }
    assert(literal_property_def_views(a@) =~= literal_property_def_views(b@));
    true
}

pub(crate) fn literal_call_signature_def_list_equals(
    a: &Vec<LiteralCallSignatureDef>,
    b: &Vec<LiteralCallSignatureDef>,
) -> (r: bool)
    ensures
        r == (literal_call_signature_def_views(a@) == literal_call_signature_def_views(b@)),
    decreases a, 0int,
{
    if a.len() != b.len() {
        assert(literal_call_signature_def_views(a@).len()
            != literal_call_signature_def_views(b@).len());
        return false;
    }
    let mut i: usize = 0;
    while i < a.len()
        invariant
            i <= a.len(),
            a.len() == b.len(),
            forall|k: int|
                0 <= k < i ==> literal_call_signature_def_views(a@)[k]
                    == literal_call_signature_def_views(b@)[k],
        decreases a.len() - i,
    {
        let same = a[i].equals(&b[i]);
        if !same {
            assert(literal_call_signature_def_views(a@)[i as int]
                != literal_call_signature_def_views(b@)[i as int]);
            return false;
        }
        i += 1;
    }
    assert(literal_call_signature_def_views(a@) =~= literal_call_signature_def_views(b@));
    true
}

pub(crate) fn literal_index_signature_def_list_equals(
    a: &Vec<LiteralIndexSignatureDef>,
    b: &Vec<LiteralIndexSignatureDef>,
) -> (r: bool)
    ensures
        r == (literal_index_signature_def_views(a@) == literal_index_signature_def_views(b@)),
    decreases a, 0int,
{
    if a.len() != b.len() {
        assert(literal_index_signature_def_views(a@).len()
            != literal_index_signature_def_views(b@).len());
        return false;
    }
    let mut i: usize = 0;
    while i < a.len()
        invariant
            i <= a.len(),
            a.len() == b.len(),
            forall|k: int|
                0 <= k < i ==> literal_index_signature_def_views(a@)[k]
                    == literal_index_signature_def_views(b@)[k],
        decreases a.len() - i,
    {
        let same = a[i].equals(&b[i]);
        if !same {
            assert(literal_index_signature_def_views(a@)[i as int]
                != literal_index_signature_def_views(b@)[i as int]);
            return false;
        }
        i += 1;
    }
    assert(literal_index_signature_def_views(a@) =~= literal_index_signature_def_views(b@));
    true
}

pub(crate) fn optional_param_def_list_equals(
    a: &Vec<Option<ParamDef>>,
    b: &Vec<Option<ParamDef>>,
) -> (r: bool)
    ensures
        r == (optional_param_def_views(a@) == optional_param_def_views(b@)),
    decreases a, 0int,
{
    if a.len() != b.len() {
        assert(optional_param_def_views(a@).len() != optional_param_def_views(b@).len());
        return false;
    }
    let mut i: usize = 0;
    while i < a.len()
        invariant
            i <= a.len(),
            a.len() == b.len(),
            forall|k: int|
                0 <= k < i ==> optional_param_def_views(a@)[k]
                    == optional_param_def_views(b@)[k],
        decreases a.len() - i,
    {
        let same = optional_param_def_equals(&a[i], &b[i]);
        if !same {
            assert(optional_param_def_views(a@)[i as int]
                != optional_param_def_views(b@)[i as int]);
            return false;
        }
        i += 1;
    }
    assert(optional_param_def_views(a@) =~= optional_param_def_views(b@));
    true
}

pub(crate) fn object_pat_prop_def_list_equals(
    a: &Vec<ObjectPatPropDef>,
    b: &Vec<ObjectPatPropDef>,
) -> (r: bool)
    ensures
        r == (object_pat_prop_def_views(a@) == object_pat_prop_def_views(b@)),
    decreases a, 0int,
{
    if a.len() != b.len() {
        assert(object_pat_prop_def_views(a@).len() != object_pat_prop_def_views(b@).len());
        return false;
    }
    let mut i: usize = 0;
    while i < a.len()
        invariant
            i <= a.len(),
            a.len() == b.len(),
            forall|k: int|
                0 <= k < i ==> object_pat_prop_def_views(a@)[k]
                    == object_pat_prop_def_views(b@)[k],
        decreases a.len() - i,
    {
        let same = a[i].equals(&b[i]);
        if !same {
            assert(object_pat_prop_def_views(a@)[i as int]
                != object_pat_prop_def_views(b@)[i as int]);
            return false;
        }
        i += 1;
    }
    assert(object_pat_prop_def_views(a@) =~= object_pat_prop_def_views(b@));
    true
}

impl PartialEq for TsTypeRefDef {
    fn eq(&self, other: &TsTypeRefDef) -> (r: bool) {
        self.equals(other)
    }
}

impl PartialEqSpecImpl for TsTypeRefDef {
    open spec fn obeys_eq_spec() -> bool {
        true
    }

    open spec fn eq_spec(&self, other: &TsTypeRefDef) -> bool {
        self@ == other@
    }
}

impl PartialEq for LiteralDef {
    fn eq(&self, other: &LiteralDef) -> (r: bool) {
        self.equals(other)
    }
}

impl PartialEqSpecImpl for LiteralDef {
    open spec fn obeys_eq_spec() -> bool {
        true
    }

    open spec fn eq_spec(&self, other: &LiteralDef) -> bool {
        self@ == other@
    }
}

impl PartialEq for TsTypeOperatorDef {
    fn eq(&self, other: &TsTypeOperatorDef) -> (r: bool) {
        self.equals(other)
    }
}

impl PartialEqSpecImpl for TsTypeOperatorDef {
    open spec fn obeys_eq_spec() -> bool {
        true
    }

    open spec fn eq_spec(&self, other: &TsTypeOperatorDef) -> bool {
        self@ == other@
    }
}

impl PartialEq for TsFnOrConstructorDef {
    fn eq(&self, other: &TsFnOrConstructorDef) -> (r: bool) {
        self.equals(other)
    }
}

impl PartialEqSpecImpl for TsFnOrConstructorDef {
    open spec fn obeys_eq_spec() -> bool {
        true
    }

    open spec fn eq_spec(&self, other: &TsFnOrConstructorDef) -> bool {
        self@ == other@
    }
}

impl PartialEq for TsConditionalDef {
    fn eq(&self, other: &TsConditionalDef) -> (r: bool) {
        self.equals(other)
    }
}

impl PartialEqSpecImpl for TsConditionalDef {
    open spec fn obeys_eq_spec() -> bool {
        true
    }

    open spec fn eq_spec(&self, other: &TsConditionalDef) -> bool {
        self@ == other@
    }
}

impl PartialEq for TsInferDef {
    fn eq(&self, other: &TsInferDef) -> (r: bool) {
        self.equals(other)
    }
}

impl PartialEqSpecImpl for TsInferDef {
    open spec fn obeys_eq_spec() -> bool {
        true
    }

    open spec fn eq_spec(&self, other: &TsInferDef) -> bool {
        self@ == other@
    }
}

impl PartialEq for TsImportTypeDef {
    fn eq(&self, other: &TsImportTypeDef) -> (r: bool) {
        self.equals(other)
    }
}

impl PartialEqSpecImpl for TsImportTypeDef {
    open spec fn obeys_eq_spec() -> bool {
        true
    }

    open spec fn eq_spec(&self, other: &TsImportTypeDef) -> bool {
        self@ == other@
    }
}

impl PartialEq for TsIndexedAccessDef {
    fn eq(&self, other: &TsIndexedAccessDef) -> (r: bool) {
        self.equals(other)
    }
}

impl PartialEqSpecImpl for TsIndexedAccessDef {
    open spec fn obeys_eq_spec() -> bool {
        true
    }

    open spec fn eq_spec(&self, other: &TsIndexedAccessDef) -> bool {
        self@ == other@
    }
}

impl PartialEq for TsMappedTypeDef {
    fn eq(&self, other: &TsMappedTypeDef) -> (r: bool) {
        self.equals(other)
    }
}

impl PartialEqSpecImpl for TsMappedTypeDef {
    open spec fn obeys_eq_spec() -> bool {
        true
    }

    open spec fn eq_spec(&self, other: &TsMappedTypeDef) -> bool {
        self@ == other@
    }
}

impl PartialEq for LiteralMethodDef {
    fn eq(&self, other: &LiteralMethodDef) -> (r: bool) {
        self.equals(other)
    }
}

impl PartialEqSpecImpl for LiteralMethodDef {
    open spec fn obeys_eq_spec() -> bool {
        true
    }

    open spec fn eq_spec(&self, other: &LiteralMethodDef) -> bool {
        self@ == other@
    }
}

impl PartialEq for LiteralPropertyDef {
    fn eq(&self, other: &LiteralPropertyDef) -> (r: bool) {
        self.equals(other)
    }
}

impl PartialEqSpecImpl for LiteralPropertyDef {
    open spec fn obeys_eq_spec() -> bool {
        true
    }

    open spec fn eq_spec(&self, other: &LiteralPropertyDef) -> bool {
        self@ == other@
    }
}

impl PartialEq for LiteralCallSignatureDef {
    fn eq(&self, other: &LiteralCallSignatureDef) -> (r: bool) {
        self.equals(other)
    }
}

impl PartialEqSpecImpl for LiteralCallSignatureDef {
    open spec fn obeys_eq_spec() -> bool {
        true
    }

    open spec fn eq_spec(&self, other: &LiteralCallSignatureDef) -> bool {
        self@ == other@
    }
}

impl PartialEq for LiteralIndexSignatureDef {
    fn eq(&self, other: &LiteralIndexSignatureDef) -> (r: bool) {
        self.equals(other)
    }
}

impl PartialEqSpecImpl for LiteralIndexSignatureDef {
    open spec fn obeys_eq_spec() -> bool {
        true
    }

    open spec fn eq_spec(&self, other: &LiteralIndexSignatureDef) -> bool {
        self@ == other@
    }
}

impl PartialEq for TsTypeLiteralDef {
    fn eq(&self, other: &TsTypeLiteralDef) -> (r: bool) {
        self.equals(other)
    }
}

impl PartialEqSpecImpl for TsTypeLiteralDef {
    open spec fn obeys_eq_spec() -> bool {
        true
    }

    open spec fn eq_spec(&self, other: &TsTypeLiteralDef) -> bool {
        self@ == other@
    }
}

impl PartialEq for TsTypePredicateDef {
    fn eq(&self, other: &TsTypePredicateDef) -> (r: bool) {
        self.equals(other)
    }
}

impl PartialEqSpecImpl for TsTypePredicateDef {
    open spec fn obeys_eq_spec() -> bool {
        true
    }

    open spec fn eq_spec(&self, other: &TsTypePredicateDef) -> bool {
        self@ == other@
    }
}

impl PartialEq for TsTypeDef {
    fn eq(&self, other: &TsTypeDef) -> (r: bool) {
        self.equals(other)
    }
}

impl PartialEqSpecImpl for TsTypeDef {
    open spec fn obeys_eq_spec() -> bool {
        true
    }

    open spec fn eq_spec(&self, other: &TsTypeDef) -> bool {
        self@ == other@
    }
}

impl PartialEq for TsTypeParamDef {
    fn eq(&self, other: &TsTypeParamDef) -> (r: bool) {
        self.equals(other)
    }
}

impl PartialEqSpecImpl for TsTypeParamDef {
    open spec fn obeys_eq_spec() -> bool {
        true
    }

    open spec fn eq_spec(&self, other: &TsTypeParamDef) -> bool {
        self@ == other@
    }
}

impl PartialEq for ParamDef {
    fn eq(&self, other: &ParamDef) -> (r: bool) {
        self.equals(other)
    }
}

impl PartialEqSpecImpl for ParamDef {
    open spec fn obeys_eq_spec() -> bool {
        true
    }

    open spec fn eq_spec(&self, other: &ParamDef) -> bool {
        self@ == other@
    }
}

impl PartialEq for TypeAliasDef {
    fn eq(&self, other: &TypeAliasDef) -> (r: bool) {
        self.equals(other)
    }
}

impl PartialEqSpecImpl for TypeAliasDef {
    open spec fn obeys_eq_spec() -> bool {
        true
    }

    open spec fn eq_spec(&self, other: &TypeAliasDef) -> bool {
        self@ == other@
    }
}

impl PartialEq for ThisOrIdent {
    fn eq(&self, other: &ThisOrIdent) -> (r: bool) {
        self.equals(other)
    }
}

impl PartialEqSpecImpl for ThisOrIdent {
    open spec fn obeys_eq_spec() -> bool {
        true
    }

    open spec fn eq_spec(&self, other: &ThisOrIdent) -> bool {
        self@ == other@
    }
}

impl PartialEq for ParamPatternDef {
    fn eq(&self, other: &ParamPatternDef) -> (r: bool) {
        self.equals(other)
    }
}

impl PartialEqSpecImpl for ParamPatternDef {
    open spec fn obeys_eq_spec() -> bool {
        true
    }

    open spec fn eq_spec(&self, other: &ParamPatternDef) -> bool {
        self@ == other@
    }
}

impl PartialEq for ObjectPatPropDef {
    fn eq(&self, other: &ObjectPatPropDef) -> (r: bool) {
        self.equals(other)
    }
}

impl PartialEqSpecImpl for ObjectPatPropDef {
    open spec fn obeys_eq_spec() -> bool {
        true
    }

    open spec fn eq_spec(&self, other: &ObjectPatPropDef) -> bool {
        self@ == other@
    }
}


} // verus!
