//! Checking at run time that a description is well formed.

use crate::model::{
    has_payload, literal_call_signature_def_all_wf, literal_call_signature_def_views,
    literal_call_signature_def_wf, literal_def_wf, literal_index_signature_def_all_wf,
    literal_index_signature_def_views, literal_index_signature_def_wf, literal_method_def_all_wf,
    literal_method_def_views, literal_method_def_wf, literal_property_def_all_wf,
    literal_property_def_views, literal_property_def_wf, no_payload_but, object_pat_prop_def_all_wf,
    object_pat_prop_def_views, object_pat_prop_def_wf, optional_param_def_all_wf,
    optional_param_def_views, param_def_all_wf, param_def_views, param_def_wf, param_pattern_def_wf,
    template_parts_wf, ts_conditional_def_wf, ts_fn_or_constructor_def_wf, ts_import_type_def_wf,
    ts_indexed_access_def_wf, ts_infer_def_wf, ts_mapped_type_def_wf, ts_type_def_all_wf,
    ts_type_def_views, ts_type_def_wf, ts_type_literal_def_wf, ts_type_operator_def_wf,
    ts_type_param_def_all_wf, ts_type_param_def_views, ts_type_param_def_wf,
    ts_type_predicate_def_wf, ts_type_ref_def_wf, type_alias_def_wf,
};
use crate::params::{ObjectPatPropDef, ParamDef, ParamPatternDef};
use crate::ts_type::{
    LiteralCallSignatureDef, LiteralDef, LiteralDefKind, LiteralIndexSignatureDef, LiteralMethodDef,
    LiteralPropertyDef, TsConditionalDef, TsFnOrConstructorDef, TsImportTypeDef, TsIndexedAccessDef,
    TsInferDef, TsMappedTypeDef, TsTypeDef, TsTypeDefKind, TsTypeLiteralDef, TsTypeOperatorDef,
    TsTypePredicateDef, TsTypeRefDef,
};
use crate::ts_type_param::TsTypeParamDef;
use crate::type_alias::TypeAliasDef;
use vstd::prelude::*;

verus! {

impl LiteralDef {
    /// Whether the literal carries what its kind names and, for a template, all
    /// its parts are tagged and well formed.
    pub fn is_well_formed(&self) -> (r: bool)
        ensures
            r == literal_def_wf(self@),
        decreases self, 0int,
    {
        match self.kind {
            LiteralDefKind::Number => self.number.is_some(),
            LiteralDefKind::String => self.string.is_some(),
            LiteralDefKind::Template => match &self.ts_types {
                Some(parts) => template_parts_well_formed(parts),
                None => false,
            },
            LiteralDefKind::Boolean => self.boolean.is_some(),
            LiteralDefKind::BigInt => self.string.is_some(),
        }
    }
}

pub(crate) fn template_parts_well_formed(parts: &Vec<TsTypeDef>) -> (r: bool)
    ensures
        r == template_parts_wf(ts_type_def_views(parts@)),
    decreases parts, 0int,
{
    let mut i: usize = 0;
    while i < parts.len()
        invariant
            i <= parts.len(),
            forall|k: int|
                0 <= k < i ==> (#[trigger] ts_type_def_views(parts@)[k]).kind is Some
                    && ts_type_def_wf(ts_type_def_views(parts@)[k]),
        decreases parts.len() - i,
    {
        let ok = parts[i].kind.is_some() && parts[i].is_well_formed();
        if !ok {
            assert(!(ts_type_def_views(parts@)[i as int].kind is Some && ts_type_def_wf(
                ts_type_def_views(parts@)[i as int],
            )));
            return false;
        }
        i += 1;
    }
    true
}

impl TsTypeDef {
    fn no_leaf_payload_but(&self, kind: TsTypeDefKind) -> (r: bool)
        ensures
            r == ((self@.keyword is Some ==> kind == TsTypeDefKind::Keyword)
                && (self@.type_query is Some ==> kind == TsTypeDefKind::TypeQuery)
                && (self@.this is Some ==> kind == TsTypeDefKind::This)
                && (self@.literal is Some ==> kind == TsTypeDefKind::Literal)
                && (self@.type_ref is Some ==> kind == TsTypeDefKind::TypeRef)),
    {
        (self.keyword.is_none() || kind == TsTypeDefKind::Keyword)
            && (self.type_query.is_none() || kind == TsTypeDefKind::TypeQuery)
            && (self.this.is_none() || kind == TsTypeDefKind::This)
            && (self.literal.is_none() || kind == TsTypeDefKind::Literal)
            && (self.type_ref.is_none() || kind == TsTypeDefKind::TypeRef)
    }

    fn no_list_payload_but(&self, kind: TsTypeDefKind) -> (r: bool)
        ensures
            r == ((self@.union is Some ==> kind == TsTypeDefKind::Union)
                && (self@.intersection is Some ==> kind == TsTypeDefKind::Intersection)
                && (self@.tuple is Some ==> kind == TsTypeDefKind::Tuple)),
    {
        (self.union.is_none() || kind == TsTypeDefKind::Union)
            && (self.intersection.is_none() || kind == TsTypeDefKind::Intersection)
            && (self.tuple.is_none() || kind == TsTypeDefKind::Tuple)
    }

    fn no_wrapping_payload_but(&self, kind: TsTypeDefKind) -> (r: bool)
        ensures
            r == ((self@.array is Some ==> kind == TsTypeDefKind::Array)
                && (self@.type_operator is Some ==> kind == TsTypeDefKind::TypeOperator)
                && (self@.parenthesized is Some ==> kind == TsTypeDefKind::Parenthesized)
                && (self@.rest is Some ==> kind == TsTypeDefKind::Rest)
                && (self@.optional is Some ==> kind == TsTypeDefKind::Optional)),
    {
        (self.array.is_none() || kind == TsTypeDefKind::Array)
            && (self.type_operator.is_none() || kind == TsTypeDefKind::TypeOperator)
            && (self.parenthesized.is_none() || kind == TsTypeDefKind::Parenthesized)
            && (self.rest.is_none() || kind == TsTypeDefKind::Rest)
            && (self.optional.is_none() || kind == TsTypeDefKind::Optional)
    }

    fn no_composite_payload_but(&self, kind: TsTypeDefKind) -> (r: bool)
        ensures
            r == ((self@.fn_or_constructor is Some ==> kind == TsTypeDefKind::FnOrConstructor)
                && (self@.conditional_type is Some ==> kind == TsTypeDefKind::Conditional)
                && (self@.infer is Some ==> kind == TsTypeDefKind::Infer)
                && (self@.indexed_access is Some ==> kind == TsTypeDefKind::IndexedAccess)),
    {
        (self.fn_or_constructor.is_none() || kind == TsTypeDefKind::FnOrConstructor)
            && (self.conditional_type.is_none() || kind == TsTypeDefKind::Conditional)
            && (self.infer.is_none() || kind == TsTypeDefKind::Infer)
            && (self.indexed_access.is_none() || kind == TsTypeDefKind::IndexedAccess)
    }

    fn no_structural_payload_but(&self, kind: TsTypeDefKind) -> (r: bool)
        ensures
            r == ((self@.mapped_type is Some ==> kind == TsTypeDefKind::Mapped)
                && (self@.type_literal is Some ==> kind == TsTypeDefKind::TypeLiteral)
                && (self@.type_predicate is Some ==> kind == TsTypeDefKind::TypePredicate)
                && (self@.import_type is Some ==> kind == TsTypeDefKind::ImportType)),
    {
        (self.mapped_type.is_none() || kind == TsTypeDefKind::Mapped)
            && (self.type_literal.is_none() || kind == TsTypeDefKind::TypeLiteral)
            && (self.type_predicate.is_none() || kind == TsTypeDefKind::TypePredicate)
            && (self.import_type.is_none() || kind == TsTypeDefKind::ImportType)
    }

    /// Whether every payload that is populated is the one that `kind` names.
    pub fn no_payload_but(&self, kind: TsTypeDefKind) -> (r: bool)
        ensures
            r == no_payload_but(self@, kind),
    {
        self.no_leaf_payload_but(kind) && self.no_list_payload_but(kind)
            && self.no_wrapping_payload_but(kind) && self.no_composite_payload_but(kind)
            && self.no_structural_payload_but(kind)
    }

    /// Whether the payload that the tag names is populated and well formed.
    fn payload_is_well_formed(&self) -> (r: bool)
        ensures
            r == (has_payload(self@) && match self@.kind {
                Some(TsTypeDefKind::Literal) => literal_def_wf(self@.literal.unwrap()),
                Some(TsTypeDefKind::TypeRef) => ts_type_ref_def_wf(self@.type_ref.unwrap()),
                Some(TsTypeDefKind::Union) => ts_type_def_all_wf(self@.union.unwrap()),
                Some(TsTypeDefKind::Intersection) => ts_type_def_all_wf(
                    self@.intersection.unwrap(),
                ),
                Some(TsTypeDefKind::Array) => ts_type_def_wf(*self@.array.unwrap()),
                Some(TsTypeDefKind::Tuple) => ts_type_def_all_wf(self@.tuple.unwrap()),
                Some(TsTypeDefKind::TypeOperator) => ts_type_operator_def_wf(
                    *self@.type_operator.unwrap(),
                ),
                Some(TsTypeDefKind::Parenthesized) => ts_type_def_wf(*self@.parenthesized.unwrap()),
                Some(TsTypeDefKind::Rest) => ts_type_def_wf(*self@.rest.unwrap()),
                Some(TsTypeDefKind::Optional) => ts_type_def_wf(*self@.optional.unwrap()),
                Some(TsTypeDefKind::FnOrConstructor) => ts_fn_or_constructor_def_wf(
                    *self@.fn_or_constructor.unwrap(),
                ),
                Some(TsTypeDefKind::Conditional) => ts_conditional_def_wf(
                    self@.conditional_type.unwrap(),
                ),
                Some(TsTypeDefKind::Infer) => ts_infer_def_wf(self@.infer.unwrap()),
                Some(TsTypeDefKind::IndexedAccess) => ts_indexed_access_def_wf(
                    self@.indexed_access.unwrap(),
                ),
                Some(TsTypeDefKind::Mapped) => ts_mapped_type_def_wf(self@.mapped_type.unwrap()),
                Some(TsTypeDefKind::TypeLiteral) => ts_type_literal_def_wf(
                    self@.type_literal.unwrap(),
                ),
                Some(TsTypeDefKind::TypePredicate) => ts_type_predicate_def_wf(
                    self@.type_predicate.unwrap(),
                ),
                Some(TsTypeDefKind::ImportType) => ts_import_type_def_wf(
                    self@.import_type.unwrap(),
                ),
                _ => true,
            }),
        decreases self, 0int,
    {
        match self.kind {
            None => true,
            Some(TsTypeDefKind::Keyword) => self.keyword.is_some(),
            Some(TsTypeDefKind::Literal) => match &self.literal {
                Some(x) => x.is_well_formed(),
                None => false,
            },
            Some(TsTypeDefKind::TypeRef) => match &self.type_ref {
                Some(x) => x.is_well_formed(),
                None => false,
            },
            Some(TsTypeDefKind::Union) => match &self.union {
                Some(x) => ts_type_def_all_well_formed(x),
                None => false,
            },
            Some(TsTypeDefKind::Intersection) => match &self.intersection {
                Some(x) => ts_type_def_all_well_formed(x),
                None => false,
            },
            Some(TsTypeDefKind::Array) => match &self.array {
                Some(x) => x.is_well_formed(),
                None => false,
            },
            Some(TsTypeDefKind::Tuple) => match &self.tuple {
                Some(x) => ts_type_def_all_well_formed(x),
                None => false,
            },
            Some(TsTypeDefKind::TypeOperator) => match &self.type_operator {
                Some(x) => x.is_well_formed(),
                None => false,
            },
            Some(TsTypeDefKind::Parenthesized) => match &self.parenthesized {
                Some(x) => x.is_well_formed(),
                None => false,
            },
            Some(TsTypeDefKind::Rest) => match &self.rest {
                Some(x) => x.is_well_formed(),
                None => false,
            },
            Some(TsTypeDefKind::Optional) => match &self.optional {
                Some(x) => x.is_well_formed(),
                None => false,
            },
            Some(TsTypeDefKind::TypeQuery) => self.type_query.is_some(),
            Some(TsTypeDefKind::This) => self.this.is_some(),
            Some(TsTypeDefKind::FnOrConstructor) => match &self.fn_or_constructor {
                Some(x) => x.is_well_formed(),
                None => false,
            },
            Some(TsTypeDefKind::Conditional) => match &self.conditional_type {
                Some(x) => x.is_well_formed(),
                None => false,
            },
            Some(TsTypeDefKind::Infer) => match &self.infer {
                Some(x) => x.is_well_formed(),
                None => false,
            },
            Some(TsTypeDefKind::IndexedAccess) => match &self.indexed_access {
                Some(x) => x.is_well_formed(),
                None => false,
            },
            Some(TsTypeDefKind::Mapped) => match &self.mapped_type {
                Some(x) => x.is_well_formed(),
                None => false,
            },
            Some(TsTypeDefKind::TypeLiteral) => match &self.type_literal {
                Some(x) => x.is_well_formed(),
                None => false,
            },
            Some(TsTypeDefKind::TypePredicate) => match &self.type_predicate {
                Some(x) => x.is_well_formed(),
                None => false,
            },
            Some(TsTypeDefKind::ImportType) => match &self.import_type {
                Some(x) => x.is_well_formed(),
                None => false,
            },
        }
    }

    /// Whether the node, if it has a tag, holds exactly one payload, the one that
    /// its tag names, and everything below that payload does so in turn. This is
    /// what writing the node out asks for.
    pub fn is_well_formed(&self) -> (r: bool)
        ensures
            r == ts_type_def_wf(self@),
        decreases self, 1int,
    {
        self.payload_is_well_formed() && match self.kind {
            Some(kind) => self.no_payload_but(kind),
            None => true,
        }
    }
}

impl TsTypeRefDef {
    /// Whether every type node in `self` holds the payload that its tag names.
    pub fn is_well_formed(&self) -> (r: bool)
        ensures
            r == ts_type_ref_def_wf(self@),
        decreases self, 0int,
    {
        match &self.type_params {
            Some(x) => ts_type_def_all_well_formed(x),
            None => true,
        }
    }
}

impl TsTypeOperatorDef {
    /// Whether every type node in `self` holds the payload that its tag names.
    pub fn is_well_formed(&self) -> (r: bool)
        ensures
            r == ts_type_operator_def_wf(self@),
        decreases self, 0int,
    {
        self.ts_type.is_well_formed()
    }
}

impl TsFnOrConstructorDef {
    /// Whether every type node in `self` holds the payload that its tag names.
    pub fn is_well_formed(&self) -> (r: bool)
        ensures
            r == ts_fn_or_constructor_def_wf(self@),
        decreases self, 0int,
    {
        let ts_type = self.ts_type.is_well_formed();
        let params = param_def_all_well_formed(&self.params);
        let type_params = ts_type_param_def_all_well_formed(&self.type_params);
        ts_type && params && type_params
    }
}

impl TsConditionalDef {
    /// Whether every type node in `self` holds the payload that its tag names.
    pub fn is_well_formed(&self) -> (r: bool)
        ensures
            r == ts_conditional_def_wf(self@),
        decreases self, 0int,
    {
        let check_type = self.check_type.is_well_formed();
        let extends_type = self.extends_type.is_well_formed();
        let true_type = self.true_type.is_well_formed();
        let false_type = self.false_type.is_well_formed();
        check_type && extends_type && true_type && false_type
    }
}

impl TsInferDef {
    /// Whether every type node in `self` holds the payload that its tag names.
    pub fn is_well_formed(&self) -> (r: bool)
        ensures
            r == ts_infer_def_wf(self@),
        decreases self, 0int,
    {
        self.type_param.is_well_formed()
    }
}

impl TsImportTypeDef {
    /// Whether every type node in `self` holds the payload that its tag names.
    pub fn is_well_formed(&self) -> (r: bool)
        ensures
            r == ts_import_type_def_wf(self@),
        decreases self, 0int,
    {
        match &self.type_params {
            Some(x) => ts_type_def_all_well_formed(x),
            None => true,
        }
    }
}

impl TsIndexedAccessDef {
    /// Whether every type node in `self` holds the payload that its tag names.
    pub fn is_well_formed(&self) -> (r: bool)
        ensures
            r == ts_indexed_access_def_wf(self@),
        decreases self, 0int,
    {
        let obj_type = self.obj_type.is_well_formed();
        let index_type = self.index_type.is_well_formed();
        obj_type && index_type
    }
}

impl TsMappedTypeDef {
    /// Whether every type node in `self` holds the payload that its tag names.
    pub fn is_well_formed(&self) -> (r: bool)
        ensures
            r == ts_mapped_type_def_wf(self@),
        decreases self, 0int,
    {
        let type_param = self.type_param.is_well_formed();
        let name_type = match &self.name_type {
            Some(x) => x.is_well_formed(),
            None => true,
        };
        let ts_type = match &self.ts_type {
            Some(x) => x.is_well_formed(),
            None => true,
        };
        type_param && name_type && ts_type
    }
}

impl LiteralMethodDef {
    /// Whether every type node in `self` holds the payload that its tag names.
    pub fn is_well_formed(&self) -> (r: bool)
        ensures
            r == literal_method_def_wf(self@),
        decreases self, 0int,
    {
        let params = param_def_all_well_formed(&self.params);
        let return_type = match &self.return_type {
            Some(x) => x.is_well_formed(),
            None => true,
        };
        let type_params = ts_type_param_def_all_well_formed(&self.type_params);
        params && return_type && type_params
    }
}

impl LiteralPropertyDef {
    /// Whether every type node in `self` holds the payload that its tag names.
    pub fn is_well_formed(&self) -> (r: bool)
        ensures
            r == literal_property_def_wf(self@),
        decreases self, 0int,
    {
        let params = param_def_all_well_formed(&self.params);
        let ts_type = match &self.ts_type {
            Some(x) => x.is_well_formed(),
            None => true,
        };
        let type_params = ts_type_param_def_all_well_formed(&self.type_params);
        params && ts_type && type_params
    }
}

impl LiteralCallSignatureDef {
    /// Whether every type node in `self` holds the payload that its tag names.
    pub fn is_well_formed(&self) -> (r: bool)
        ensures
            r == literal_call_signature_def_wf(self@),
        decreases self, 0int,
    {
        let params = param_def_all_well_formed(&self.params);
        let ts_type = match &self.ts_type {
            Some(x) => x.is_well_formed(),
            None => true,
        };
        let type_params = ts_type_param_def_all_well_formed(&self.type_params);
        params && ts_type && type_params
    }
}

impl LiteralIndexSignatureDef {
    /// Whether every type node in `self` holds the payload that its tag names.
    pub fn is_well_formed(&self) -> (r: bool)
        ensures
            r == literal_index_signature_def_wf(self@),
        decreases self, 0int,
    {
        let params = param_def_all_well_formed(&self.params);
        let ts_type = match &self.ts_type {
            Some(x) => x.is_well_formed(),
            None => true,
        };
        params && ts_type
    }
}

impl TsTypeLiteralDef {
    /// Whether every type node in `self` holds the payload that its tag names.
    pub fn is_well_formed(&self) -> (r: bool)
        ensures
            r == ts_type_literal_def_wf(self@),
        decreases self, 0int,
    {
        let methods = literal_method_def_all_well_formed(&self.methods);
        let properties = literal_property_def_all_well_formed(&self.properties);
        let call_signatures = literal_call_signature_def_all_well_formed(&self.call_signatures);
        let index_signatures = literal_index_signature_def_all_well_formed(&self.index_signatures);
        methods && properties && call_signatures && index_signatures
    }
}

impl TsTypePredicateDef {
    /// Whether every type node in `self` holds the payload that its tag names.
    pub fn is_well_formed(&self) -> (r: bool)
        ensures
            r == ts_type_predicate_def_wf(self@),
        decreases self, 0int,
    {
        match &self.ty {
            Some(x) => x.is_well_formed(),
            None => true,
        }
    }
}

impl TsTypeParamDef {
    /// Whether every type node in `self` holds the payload that its tag names.
    pub fn is_well_formed(&self) -> (r: bool)
        ensures
            r == ts_type_param_def_wf(self@),
        decreases self, 0int,
    {
        let constraint = match &self.constraint {
            Some(x) => x.is_well_formed(),
            None => true,
        };
        let default = match &self.default {
            Some(x) => x.is_well_formed(),
            None => true,
        };
        constraint && default
    }
}

impl ParamDef {
    /// Whether every type node in `self` holds the payload that its tag names.
    pub fn is_well_formed(&self) -> (r: bool)
        ensures
            r == param_def_wf(self@),
        decreases self, 0int,
    {
        let pattern = self.pattern.is_well_formed();
        let ts_type = match &self.ts_type {
            Some(x) => x.is_well_formed(),
            None => true,
        };
        pattern && ts_type
    }
}

impl TypeAliasDef {
    /// Whether every type node in `self` holds the payload that its tag names.
    pub fn is_well_formed(&self) -> (r: bool)
        ensures
            r == type_alias_def_wf(self@),
        decreases self, 0int,
    {
        let ts_type = self.ts_type.is_well_formed();
        let type_params = ts_type_param_def_all_well_formed(&self.type_params);
        ts_type && type_params
    }
}

impl ParamPatternDef {
    /// Whether every type node in `self` holds the payload that its tag names.
    pub fn is_well_formed(&self) -> (r: bool)
        ensures
            r == param_pattern_def_wf(self@),
        decreases self, 0int,
    {
        match self {
            ParamPatternDef::Array { elements, .. } => optional_param_def_all_well_formed(elements),
            ParamPatternDef::Assign { left, .. } => left.is_well_formed(),
            ParamPatternDef::Identifier { .. } => true,
            ParamPatternDef::Object { props, .. } => object_pat_prop_def_all_well_formed(props),
            ParamPatternDef::Rest { arg } => arg.is_well_formed(),
        }
    }
}

impl ObjectPatPropDef {
    /// Whether every type node in `self` holds the payload that its tag names.
    pub fn is_well_formed(&self) -> (r: bool)
        ensures
            r == object_pat_prop_def_wf(self@),
        decreases self, 0int,
    {
        match self {
            ObjectPatPropDef::Assign { .. } => true,
            ObjectPatPropDef::KeyValue { value, .. } => value.is_well_formed(),
            ObjectPatPropDef::Rest { arg } => arg.is_well_formed(),
        }
    }
}

pub(crate) fn ts_type_def_all_well_formed(items: &Vec<TsTypeDef>) -> (r: bool)
    ensures
        r == ts_type_def_all_wf(ts_type_def_views(items@)),
    decreases items, 0int,
{
    let mut i: usize = 0;
    while i < items.len()
        invariant
            i <= items.len(),
            forall|k: int| 0 <= k < i ==> ts_type_def_wf((#[trigger] ts_type_def_views(items@)[k])),
        decreases items.len() - i,
    {
        let ok = items[i].is_well_formed();
        if !ok {
            assert(!(ts_type_def_wf(ts_type_def_views(items@)[i as int])));
            return false;
        }
        i += 1;
    }
    true
}

pub(crate) fn param_def_all_well_formed(items: &Vec<ParamDef>) -> (r: bool)
    ensures
        r == param_def_all_wf(param_def_views(items@)),
    decreases items, 0int,
{
    let mut i: usize = 0;
    while i < items.len()
        invariant
            i <= items.len(),
            forall|k: int| 0 <= k < i ==> param_def_wf((#[trigger] param_def_views(items@)[k])),
        decreases items.len() - i,
    {
        let ok = items[i].is_well_formed();
        if !ok {
            assert(!(param_def_wf(param_def_views(items@)[i as int])));
            return false;
        }
        i += 1;
    }
    true
}

pub(crate) fn ts_type_param_def_all_well_formed(items: &Vec<TsTypeParamDef>) -> (r: bool)
    ensures
        r == ts_type_param_def_all_wf(ts_type_param_def_views(items@)),
    decreases items, 0int,
{
    let mut i: usize = 0;
    while i < items.len()
        invariant
            i <= items.len(),
            forall|k: int|
                0 <= k < i ==> ts_type_param_def_wf(
                    (#[trigger] ts_type_param_def_views(items@)[k]),
                ),
        decreases items.len() - i,
    {
        let ok = items[i].is_well_formed();
        if !ok {
            assert(!(ts_type_param_def_wf(ts_type_param_def_views(items@)[i as int])));
            return false;
        }
        i += 1;
    }
    true
}

pub(crate) fn literal_method_def_all_well_formed(items: &Vec<LiteralMethodDef>) -> (r: bool)
    ensures
        r == literal_method_def_all_wf(literal_method_def_views(items@)),
    decreases items, 0int,
{
    let mut i: usize = 0;
    while i < items.len()
        invariant
            i <= items.len(),
            forall|k: int|
                0 <= k < i ==> literal_method_def_wf(
                    (#[trigger] literal_method_def_views(items@)[k]),
                ),
        decreases items.len() - i,
    {
        let ok = items[i].is_well_formed();
        if !ok {
            assert(!(literal_method_def_wf(literal_method_def_views(items@)[i as int])));
            return false;
        }
        i += 1;
    }
    true
}

pub(crate) fn literal_property_def_all_well_formed(items: &Vec<LiteralPropertyDef>) -> (r: bool)
    ensures
        r == literal_property_def_all_wf(literal_property_def_views(items@)),
    decreases items, 0int,
{
    let mut i: usize = 0;
    while i < items.len()
        invariant
            i <= items.len(),
            forall|k: int|
                0 <= k < i ==> literal_property_def_wf(
                    (#[trigger] literal_property_def_views(items@)[k]),
                ),
        decreases items.len() - i,
    {
        let ok = items[i].is_well_formed();
        if !ok {
            assert(!(literal_property_def_wf(literal_property_def_views(items@)[i as int])));
            return false;
        }
        i += 1;
    }
    true
}

pub(crate) fn literal_call_signature_def_all_well_formed(
    items: &Vec<LiteralCallSignatureDef>,
) -> (r: bool)
    ensures
        r == literal_call_signature_def_all_wf(literal_call_signature_def_views(items@)),
    decreases items, 0int,
{
    let mut i: usize = 0;
    while i < items.len()
        invariant
            i <= items.len(),
            forall|k: int|
                0 <= k < i ==> literal_call_signature_def_wf(
                    (#[trigger] literal_call_signature_def_views(items@)[k]),
                ),
        decreases items.len() - i,
    {
        let ok = items[i].is_well_formed();
        if !ok {
            assert(!(literal_call_signature_def_wf(
                literal_call_signature_def_views(items@)[i as int],
            )));
            return false;
        }
        i += 1;
    }
    true
}

pub(crate) fn literal_index_signature_def_all_well_formed(
    items: &Vec<LiteralIndexSignatureDef>,
) -> (r: bool)
    ensures
        r == literal_index_signature_def_all_wf(literal_index_signature_def_views(items@)),
    decreases items, 0int,
{
    let mut i: usize = 0;
    while i < items.len()
        invariant
            i <= items.len(),
            forall|k: int|
                0 <= k < i ==> literal_index_signature_def_wf(
                    (#[trigger] literal_index_signature_def_views(items@)[k]),
                ),
        decreases items.len() - i,
    {
        let ok = items[i].is_well_formed();
        if !ok {
            assert(!(literal_index_signature_def_wf(
                literal_index_signature_def_views(items@)[i as int],
            )));
            return false;
        }
        i += 1;
    }
    true
}

pub(crate) fn optional_param_def_all_well_formed(items: &Vec<Option<ParamDef>>) -> (r: bool)
    ensures
        r == optional_param_def_all_wf(optional_param_def_views(items@)),
    decreases items, 0int,
{
    let mut i: usize = 0;
    while i < items.len()
        invariant
            i <= items.len(),
            forall|k: int| 0 <= k < i ==> match (#[trigger] optional_param_def_views(items@)[k]) {
                    Some(x) => param_def_wf(x),
                    None => true,
                },
        decreases items.len() - i,
    {
        let ok = match &items[i] {
            Some(x) => x.is_well_formed(),
            None => true,
        };
        if !ok {
            assert(!(match optional_param_def_views(items@)[i as int] {
                Some(x) => param_def_wf(x),
                None => true,
            }));
            return false;
        }
        i += 1;
    }
    true
}

pub(crate) fn object_pat_prop_def_all_well_formed(items: &Vec<ObjectPatPropDef>) -> (r: bool)
    ensures
        r == object_pat_prop_def_all_wf(object_pat_prop_def_views(items@)),
    decreases items, 0int,
{
    let mut i: usize = 0;
    while i < items.len()
        invariant
            i <= items.len(),
            forall|k: int|
                0 <= k < i ==> object_pat_prop_def_wf(
                    (#[trigger] object_pat_prop_def_views(items@)[k]),
                ),
        decreases items.len() - i,
    {
        let ok = items[i].is_well_formed();
        if !ok {
            assert(!(object_pat_prop_def_wf(object_pat_prop_def_views(items@)[i as int])));
            return false;
        }
        i += 1;
    }
    true
}


} // verus!
