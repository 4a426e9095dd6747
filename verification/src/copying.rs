//! Copies of descriptions, and `Clone` for them.

use crate::model::{
    literal_call_signature_def_views, literal_def_view, literal_index_signature_def_views,
    literal_method_def_views, literal_property_def_views, object_pat_prop_def_views,
    optional_param_def_views, param_def_view, param_def_views, ts_conditional_def_view,
    ts_fn_or_constructor_def_view, ts_import_type_def_view, ts_indexed_access_def_view,
    ts_infer_def_view, ts_mapped_type_def_view, ts_type_def_view, ts_type_def_views,
    ts_type_literal_def_view, ts_type_operator_def_view, ts_type_param_def_views,
    ts_type_predicate_def_view, ts_type_ref_def_view,
};
use crate::params::{ObjectPatPropDef, ParamDef, ParamPatternDef};
use crate::ts_type::{
    LiteralCallSignatureDef, LiteralDef, LiteralIndexSignatureDef, LiteralMethodDef,
    LiteralPropertyDef, ThisOrIdent, TsConditionalDef, TsFnOrConstructorDef, TsImportTypeDef,
    TsIndexedAccessDef, TsInferDef, TsMappedTypeDef, TsTypeDef, TsTypeLiteralDef, TsTypeOperatorDef,
    TsTypePredicateDef, TsTypeRefDef,
};
use crate::ts_type_param::TsTypeParamDef;
use crate::type_alias::TypeAliasDef;
use vstd::prelude::*;

verus! {

pub(crate) fn optional_ts_type_def_list_duplicate(
    item: &Option<Vec<TsTypeDef>>,
) -> (r: Option<Vec<TsTypeDef>>)
    ensures
        match r {
            Some(x) => Some(ts_type_def_views(x@)),
            None => None,
        } == match *item {
            Some(x) => Some(ts_type_def_views(x@)),
            None => None,
        },
    decreases item, 0int,
{
    match item {
        Some(x) => Some(ts_type_def_list_duplicate(x)),
        None => None,
    }
}

pub(crate) fn optional_text_duplicate(item: &Option<String>) -> (r: Option<String>)
    ensures
        match r {
            Some(x) => Some(x@),
            None => None,
        } == match *item {
            Some(x) => Some(x@),
            None => None,
        },
    decreases item, 0int,
{
    match item {
        Some(x) => Some(x.clone()),
        None => None,
    }
}

pub(crate) fn optional_boxed_ts_type_def_duplicate(
    item: &Option<Box<TsTypeDef>>,
) -> (r: Option<Box<TsTypeDef>>)
    ensures
        match r {
            Some(x) => Some(Box::new(ts_type_def_view(*x))),
            None => None,
        } == match *item {
            Some(x) => Some(Box::new(ts_type_def_view(*x))),
            None => None,
        },
    decreases item, 0int,
{
    match item {
        Some(x) => Some(Box::new(x.duplicate())),
        None => None,
    }
}

pub(crate) fn optional_ts_type_def_duplicate(item: &Option<TsTypeDef>) -> (r: Option<TsTypeDef>)
    ensures
        match r {
            Some(x) => Some(ts_type_def_view(x)),
            None => None,
        } == match *item {
            Some(x) => Some(ts_type_def_view(x)),
            None => None,
        },
    decreases item, 0int,
{
    match item {
        Some(x) => Some(x.duplicate()),
        None => None,
    }
}

pub(crate) fn optional_literal_def_duplicate(item: &Option<LiteralDef>) -> (r: Option<LiteralDef>)
    ensures
        match r {
            Some(x) => Some(literal_def_view(x)),
            None => None,
        } == match *item {
            Some(x) => Some(literal_def_view(x)),
            None => None,
        },
    decreases item, 0int,
{
    match item {
        Some(x) => Some(x.duplicate()),
        None => None,
    }
}

pub(crate) fn optional_ts_type_ref_def_duplicate(
    item: &Option<TsTypeRefDef>,
) -> (r: Option<TsTypeRefDef>)
    ensures
        match r {
            Some(x) => Some(ts_type_ref_def_view(x)),
            None => None,
        } == match *item {
            Some(x) => Some(ts_type_ref_def_view(x)),
            None => None,
        },
    decreases item, 0int,
{
    match item {
        Some(x) => Some(x.duplicate()),
        None => None,
    }
}

pub(crate) fn optional_boxed_ts_type_operator_def_duplicate(
    item: &Option<Box<TsTypeOperatorDef>>,
) -> (r: Option<Box<TsTypeOperatorDef>>)
    ensures
        match r {
            Some(x) => Some(Box::new(ts_type_operator_def_view(*x))),
            None => None,
        } == match *item {
            Some(x) => Some(Box::new(ts_type_operator_def_view(*x))),
            None => None,
        },
    decreases item, 0int,
{
    match item {
        Some(x) => Some(Box::new(x.duplicate())),
        None => None,
    }
}

pub(crate) fn optional_boxed_ts_fn_or_constructor_def_duplicate(
    item: &Option<Box<TsFnOrConstructorDef>>,
) -> (r: Option<Box<TsFnOrConstructorDef>>)
    ensures
        match r {
            Some(x) => Some(Box::new(ts_fn_or_constructor_def_view(*x))),
            None => None,
        } == match *item {
            Some(x) => Some(Box::new(ts_fn_or_constructor_def_view(*x))),
            None => None,
        },
    decreases item, 0int,
{
    match item {
        Some(x) => Some(Box::new(x.duplicate())),
        None => None,
    }
}

pub(crate) fn optional_ts_conditional_def_duplicate(
    item: &Option<TsConditionalDef>,
) -> (r: Option<TsConditionalDef>)
    ensures
        match r {
            Some(x) => Some(ts_conditional_def_view(x)),
            None => None,
        } == match *item {
            Some(x) => Some(ts_conditional_def_view(x)),
            None => None,
        },
    decreases item, 0int,
{
    match item {
        Some(x) => Some(x.duplicate()),
        None => None,
    }
}

pub(crate) fn optional_ts_infer_def_duplicate(item: &Option<TsInferDef>) -> (r: Option<TsInferDef>)
    ensures
        match r {
            Some(x) => Some(ts_infer_def_view(x)),
            None => None,
        } == match *item {
            Some(x) => Some(ts_infer_def_view(x)),
            None => None,
        },
    decreases item, 0int,
{
    match item {
        Some(x) => Some(x.duplicate()),
        None => None,
    }
}

pub(crate) fn optional_ts_indexed_access_def_duplicate(
    item: &Option<TsIndexedAccessDef>,
) -> (r: Option<TsIndexedAccessDef>)
    ensures
        match r {
            Some(x) => Some(ts_indexed_access_def_view(x)),
            None => None,
        } == match *item {
            Some(x) => Some(ts_indexed_access_def_view(x)),
            None => None,
        },
    decreases item, 0int,
{
    match item {
        Some(x) => Some(x.duplicate()),
        None => None,
    }
}

pub(crate) fn optional_ts_mapped_type_def_duplicate(
    item: &Option<TsMappedTypeDef>,
) -> (r: Option<TsMappedTypeDef>)
    ensures
        match r {
            Some(x) => Some(ts_mapped_type_def_view(x)),
            None => None,
        } == match *item {
            Some(x) => Some(ts_mapped_type_def_view(x)),
            None => None,
        },
    decreases item, 0int,
{
    match item {
        Some(x) => Some(x.duplicate()),
        None => None,
    }
}

pub(crate) fn optional_ts_type_literal_def_duplicate(
    item: &Option<TsTypeLiteralDef>,
) -> (r: Option<TsTypeLiteralDef>)
    ensures
        match r {
            Some(x) => Some(ts_type_literal_def_view(x)),
            None => None,
        } == match *item {
            Some(x) => Some(ts_type_literal_def_view(x)),
            None => None,
        },
    decreases item, 0int,
{
    match item {
        Some(x) => Some(x.duplicate()),
        None => None,
    }
}

pub(crate) fn optional_ts_type_predicate_def_duplicate(
    item: &Option<TsTypePredicateDef>,
) -> (r: Option<TsTypePredicateDef>)
    ensures
        match r {
            Some(x) => Some(ts_type_predicate_def_view(x)),
            None => None,
        } == match *item {
            Some(x) => Some(ts_type_predicate_def_view(x)),
            None => None,
        },
    decreases item, 0int,
{
    match item {
        Some(x) => Some(x.duplicate()),
        None => None,
    }
}

pub(crate) fn optional_ts_import_type_def_duplicate(
    item: &Option<TsImportTypeDef>,
) -> (r: Option<TsImportTypeDef>)
    ensures
        match r {
            Some(x) => Some(ts_import_type_def_view(x)),
            None => None,
        } == match *item {
            Some(x) => Some(ts_import_type_def_view(x)),
            None => None,
        },
    decreases item, 0int,
{
    match item {
        Some(x) => Some(x.duplicate()),
        None => None,
    }
}

pub(crate) fn optional_param_def_duplicate(item: &Option<ParamDef>) -> (r: Option<ParamDef>)
    ensures
        match r {
            Some(x) => Some(param_def_view(x)),
            None => None,
        } == match *item {
            Some(x) => Some(param_def_view(x)),
            None => None,
        },
    decreases item, 0int,
{
    match item {
        Some(x) => Some(x.duplicate()),
        None => None,
    }
}

pub(crate) fn ts_type_def_list_duplicate(items: &Vec<TsTypeDef>) -> (r: Vec<TsTypeDef>)
    ensures
        ts_type_def_views(r@) == ts_type_def_views(items@),
    decreases items, 0int,
{
    let mut out: Vec<TsTypeDef> = Vec::new();
    let mut i: usize = 0;
    while i < items.len()
        invariant
            i <= items.len(),
            out.len() == i,
            forall|k: int|
                0 <= k < i ==> ts_type_def_views(out@)[k]
                    == ts_type_def_views(items@)[k],
        decreases items.len() - i,
    {
        let ghost before = out@;
        let item = items[i].duplicate();
        out.push(item);
        proof {
            assert forall|k: int| 0 <= k < i + 1 implies ts_type_def_views(out@)[k]
                == ts_type_def_views(
                items@,
            )[k] by {
                if k < i {
                    assert(out@[k] == before[k]);
                    assert(ts_type_def_views(before)[k] == ts_type_def_views(items@)[k]);
                }
            }
        }
        i += 1;
    }
    assert(ts_type_def_views(out@) =~= ts_type_def_views(items@));
    out
}

pub(crate) fn param_def_list_duplicate(items: &Vec<ParamDef>) -> (r: Vec<ParamDef>)
    ensures
        param_def_views(r@) == param_def_views(items@),
    decreases items, 0int,
{
    let mut out: Vec<ParamDef> = Vec::new();
    let mut i: usize = 0;
    while i < items.len()
        invariant
            i <= items.len(),
            out.len() == i,
            forall|k: int| 0 <= k < i ==> param_def_views(out@)[k] == param_def_views(items@)[k],
        decreases items.len() - i,
    {
        let ghost before = out@;
        let item = items[i].duplicate();
        out.push(item);
        proof {
            assert forall|k: int| 0 <= k < i + 1 implies param_def_views(out@)[k]
                == param_def_views(
                items@,
            )[k] by {
                if k < i {
                    assert(out@[k] == before[k]);
                    assert(param_def_views(before)[k] == param_def_views(items@)[k]);
                }
            }
        }
        i += 1;
    }
    assert(param_def_views(out@) =~= param_def_views(items@));
    out
}

pub(crate) fn ts_type_param_def_list_duplicate(
    items: &Vec<TsTypeParamDef>,
) -> (r: Vec<TsTypeParamDef>)
    ensures
        ts_type_param_def_views(r@) == ts_type_param_def_views(items@),
    decreases items, 0int,
{
    let mut out: Vec<TsTypeParamDef> = Vec::new();
    let mut i: usize = 0;
    while i < items.len()
        invariant
            i <= items.len(),
            out.len() == i,
            forall|k: int|
                0 <= k < i ==> ts_type_param_def_views(out@)[k]
                    == ts_type_param_def_views(items@)[k],
        decreases items.len() - i,
    {
        let ghost before = out@;
        let item = items[i].duplicate();
        out.push(item);
        proof {
            assert forall|k: int| 0 <= k < i + 1 implies ts_type_param_def_views(out@)[k]
                == ts_type_param_def_views(
                items@,
            )[k] by {
                if k < i {
                    assert(out@[k] == before[k]);
                    assert(ts_type_param_def_views(before)[k]
                        == ts_type_param_def_views(items@)[k]);
                }
            }
        }
        i += 1;
    }
    assert(ts_type_param_def_views(out@) =~= ts_type_param_def_views(items@));
    out
}

pub(crate) fn literal_method_def_list_duplicate(
    items: &Vec<LiteralMethodDef>,
) -> (r: Vec<LiteralMethodDef>)
    ensures
        literal_method_def_views(r@) == literal_method_def_views(items@),
    decreases items, 0int,
{
    let mut out: Vec<LiteralMethodDef> = Vec::new();
    let mut i: usize = 0;
    while i < items.len()
        invariant
            i <= items.len(),
            out.len() == i,
            forall|k: int|
                0 <= k < i ==> literal_method_def_views(out@)[k]
                    == literal_method_def_views(items@)[k],
        decreases items.len() - i,
    {
        let ghost before = out@;
        let item = items[i].duplicate();
        out.push(item);
        proof {
            assert forall|k: int| 0 <= k < i + 1 implies literal_method_def_views(out@)[k]
                == literal_method_def_views(
                items@,
            )[k] by {
                if k < i {
                    assert(out@[k] == before[k]);
                    assert(literal_method_def_views(before)[k]
                        == literal_method_def_views(items@)[k]);
                }
            }
        }
        i += 1;
    }
    assert(literal_method_def_views(out@) =~= literal_method_def_views(items@));
    out
}

pub(crate) fn literal_property_def_list_duplicate(
    items: &Vec<LiteralPropertyDef>,
) -> (r: Vec<LiteralPropertyDef>)
    ensures
        literal_property_def_views(r@) == literal_property_def_views(items@),
    decreases items, 0int,
{
    let mut out: Vec<LiteralPropertyDef> = Vec::new();
    let mut i: usize = 0;
    while i < items.len()
        invariant
            i <= items.len(),
            out.len() == i,
            forall|k: int|
                0 <= k < i ==> literal_property_def_views(out@)[k]
                    == literal_property_def_views(items@)[k],
        decreases items.len() - i,
    {
        let ghost before = out@;
        let item = items[i].duplicate();
        out.push(item);
        proof {
            assert forall|k: int| 0 <= k < i + 1 implies literal_property_def_views(out@)[k]
                == literal_property_def_views(
                items@,
            )[k] by {
                if k < i {
                    assert(out@[k] == before[k]);
                    assert(literal_property_def_views(before)[k]
                        == literal_property_def_views(items@)[k]);
                }
            }
        }
        i += 1;
    }
    assert(literal_property_def_views(out@) =~= literal_property_def_views(items@));
    out
}

pub(crate) fn literal_call_signature_def_list_duplicate(
    items: &Vec<LiteralCallSignatureDef>,
) -> (r: Vec<LiteralCallSignatureDef>)
    ensures
        literal_call_signature_def_views(r@) == literal_call_signature_def_views(items@),
    decreases items, 0int,
{
    let mut out: Vec<LiteralCallSignatureDef> = Vec::new();
    let mut i: usize = 0;
    while i < items.len()
        invariant
            i <= items.len(),
            out.len() == i,
            forall|k: int|
                0 <= k < i ==> literal_call_signature_def_views(out@)[k]
                    == literal_call_signature_def_views(items@)[k],
        decreases items.len() - i,
    {
        let ghost before = out@;
        let item = items[i].duplicate();
        out.push(item);
        proof {
            assert forall|k: int| 0 <= k < i + 1 implies literal_call_signature_def_views(out@)[k]
                == literal_call_signature_def_views(
                items@,
            )[k] by {
                if k < i {
                    assert(out@[k] == before[k]);
                    assert(literal_call_signature_def_views(before)[k]
                        == literal_call_signature_def_views(items@)[k]);
                }
            }
        }
        i += 1;
    }
    assert(literal_call_signature_def_views(out@) =~= literal_call_signature_def_views(items@));
    out
}

pub(crate) fn literal_index_signature_def_list_duplicate(
    items: &Vec<LiteralIndexSignatureDef>,
) -> (r: Vec<LiteralIndexSignatureDef>)
    ensures
        literal_index_signature_def_views(r@) == literal_index_signature_def_views(items@),
    decreases items, 0int,
{
    let mut out: Vec<LiteralIndexSignatureDef> = Vec::new();
    let mut i: usize = 0;
    while i < items.len()
        invariant
            i <= items.len(),
            out.len() == i,
            forall|k: int|
                0 <= k < i ==> literal_index_signature_def_views(out@)[k]
                    == literal_index_signature_def_views(items@)[k],
        decreases items.len() - i,
    {
        let ghost before = out@;
        let item = items[i].duplicate();
        out.push(item);
        proof {
            assert forall|k: int| 0 <= k < i + 1 implies literal_index_signature_def_views(out@)[k]
                == literal_index_signature_def_views(
                items@,
            )[k] by {
                if k < i {
                    assert(out@[k] == before[k]);
                    assert(literal_index_signature_def_views(before)[k]
                        == literal_index_signature_def_views(items@)[k]);
                }
            }
        }
        i += 1;
    }
    assert(literal_index_signature_def_views(out@) =~= literal_index_signature_def_views(items@));
    out
}

pub(crate) fn optional_param_def_list_duplicate(
    items: &Vec<Option<ParamDef>>,
) -> (r: Vec<Option<ParamDef>>)
    ensures
        optional_param_def_views(r@) == optional_param_def_views(items@),
    decreases items, 0int,
{
    let mut out: Vec<Option<ParamDef>> = Vec::new();
    let mut i: usize = 0;
    while i < items.len()
        invariant
            i <= items.len(),
            out.len() == i,
            forall|k: int|
                0 <= k < i ==> optional_param_def_views(out@)[k]
                    == optional_param_def_views(items@)[k],
        decreases items.len() - i,
    {
        let ghost before = out@;
        let item = optional_param_def_duplicate(&items[i]);
        out.push(item);
        proof {
            assert forall|k: int| 0 <= k < i + 1 implies optional_param_def_views(out@)[k]
                == optional_param_def_views(
                items@,
            )[k] by {
                if k < i {
                    assert(out@[k] == before[k]);
                    assert(optional_param_def_views(before)[k]
                        == optional_param_def_views(items@)[k]);
                }
            }
        }
        i += 1;
    }
    assert(optional_param_def_views(out@) =~= optional_param_def_views(items@));
    out
}

pub(crate) fn object_pat_prop_def_list_duplicate(
    items: &Vec<ObjectPatPropDef>,
) -> (r: Vec<ObjectPatPropDef>)
    ensures
        object_pat_prop_def_views(r@) == object_pat_prop_def_views(items@),
    decreases items, 0int,
{
    let mut out: Vec<ObjectPatPropDef> = Vec::new();
    let mut i: usize = 0;
    while i < items.len()
        invariant
            i <= items.len(),
            out.len() == i,
            forall|k: int|
                0 <= k < i ==> object_pat_prop_def_views(out@)[k]
                    == object_pat_prop_def_views(items@)[k],
        decreases items.len() - i,
    {
        let ghost before = out@;
        let item = items[i].duplicate();
        out.push(item);
        proof {
            assert forall|k: int| 0 <= k < i + 1 implies object_pat_prop_def_views(out@)[k]
                == object_pat_prop_def_views(
                items@,
            )[k] by {
                if k < i {
                    assert(out@[k] == before[k]);
                    assert(object_pat_prop_def_views(before)[k]
                        == object_pat_prop_def_views(items@)[k]);
                }
            }
        }
        i += 1;
    }
    assert(object_pat_prop_def_views(out@) =~= object_pat_prop_def_views(items@));
    out
}

impl TsTypeRefDef {
    /// A copy of `self` that describes the same thing.
    pub fn duplicate(&self) -> (r: TsTypeRefDef)
        ensures
            r@ == self@,
        decreases self, 0int,
    {
        TsTypeRefDef {
            type_params: optional_ts_type_def_list_duplicate(&self.type_params),
            name: self.name.clone(),
        }
    }
}

impl LiteralDef {
    /// A copy of `self` that describes the same thing.
    pub fn duplicate(&self) -> (r: LiteralDef)
        ensures
            r@ == self@,
        decreases self, 0int,
    {
        LiteralDef {
            kind: self.kind,
            number: self.number,
            string: optional_text_duplicate(&self.string),
            ts_types: optional_ts_type_def_list_duplicate(&self.ts_types),
            boolean: self.boolean,
        }
    }
}

impl TsTypeOperatorDef {
    /// A copy of `self` that describes the same thing.
    pub fn duplicate(&self) -> (r: TsTypeOperatorDef)
        ensures
            r@ == self@,
        decreases self, 0int,
    {
        TsTypeOperatorDef {
            operator: self.operator.clone(),
            ts_type: self.ts_type.duplicate(),
        }
    }
}

impl TsFnOrConstructorDef {
    /// A copy of `self` that describes the same thing.
    pub fn duplicate(&self) -> (r: TsFnOrConstructorDef)
        ensures
            r@ == self@,
        decreases self, 0int,
    {
        TsFnOrConstructorDef {
            constructor: self.constructor,
            ts_type: self.ts_type.duplicate(),
            params: param_def_list_duplicate(&self.params),
            type_params: ts_type_param_def_list_duplicate(&self.type_params),
        }
    }
}

impl TsConditionalDef {
    /// A copy of `self` that describes the same thing.
    pub fn duplicate(&self) -> (r: TsConditionalDef)
        ensures
            r@ == self@,
        decreases self, 0int,
    {
        TsConditionalDef {
            check_type: Box::new(self.check_type.duplicate()),
            extends_type: Box::new(self.extends_type.duplicate()),
            true_type: Box::new(self.true_type.duplicate()),
            false_type: Box::new(self.false_type.duplicate()),
        }
    }
}

impl TsInferDef {
    /// A copy of `self` that describes the same thing.
    pub fn duplicate(&self) -> (r: TsInferDef)
        ensures
            r@ == self@,
        decreases self, 0int,
    {
        TsInferDef {
            type_param: Box::new(self.type_param.duplicate()),
        }
    }
}

impl TsImportTypeDef {
    /// A copy of `self` that describes the same thing.
    pub fn duplicate(&self) -> (r: TsImportTypeDef)
        ensures
            r@ == self@,
        decreases self, 0int,
    {
        TsImportTypeDef {
            specifier: self.specifier.clone(),
            qualifier: optional_text_duplicate(&self.qualifier),
            type_params: optional_ts_type_def_list_duplicate(&self.type_params),
        }
    }
}

impl TsIndexedAccessDef {
    /// A copy of `self` that describes the same thing.
    pub fn duplicate(&self) -> (r: TsIndexedAccessDef)
        ensures
            r@ == self@,
        decreases self, 0int,
    {
        TsIndexedAccessDef {
            readonly: self.readonly,
            obj_type: Box::new(self.obj_type.duplicate()),
            index_type: Box::new(self.index_type.duplicate()),
        }
    }
}

impl TsMappedTypeDef {
    /// A copy of `self` that describes the same thing.
    pub fn duplicate(&self) -> (r: TsMappedTypeDef)
        ensures
            r@ == self@,
        decreases self, 0int,
    {
        TsMappedTypeDef {
            readonly: self.readonly,
            type_param: Box::new(self.type_param.duplicate()),
            name_type: optional_boxed_ts_type_def_duplicate(&self.name_type),
            optional: self.optional,
            ts_type: optional_boxed_ts_type_def_duplicate(&self.ts_type),
        }
    }
}

impl LiteralMethodDef {
    /// A copy of `self` that describes the same thing.
    pub fn duplicate(&self) -> (r: LiteralMethodDef)
        ensures
            r@ == self@,
        decreases self, 0int,
    {
        LiteralMethodDef {
            name: self.name.clone(),
            kind: self.kind,
            params: param_def_list_duplicate(&self.params),
            computed: self.computed,
            optional: self.optional,
            return_type: optional_ts_type_def_duplicate(&self.return_type),
            type_params: ts_type_param_def_list_duplicate(&self.type_params),
        }
    }
}

impl LiteralPropertyDef {
    /// A copy of `self` that describes the same thing.
    pub fn duplicate(&self) -> (r: LiteralPropertyDef)
        ensures
            r@ == self@,
        decreases self, 0int,
    {
        LiteralPropertyDef {
            name: self.name.clone(),
            params: param_def_list_duplicate(&self.params),
            readonly: self.readonly,
            computed: self.computed,
            optional: self.optional,
            ts_type: optional_ts_type_def_duplicate(&self.ts_type),
            type_params: ts_type_param_def_list_duplicate(&self.type_params),
        }
    }
}

impl LiteralCallSignatureDef {
    /// A copy of `self` that describes the same thing.
    pub fn duplicate(&self) -> (r: LiteralCallSignatureDef)
        ensures
            r@ == self@,
        decreases self, 0int,
    {
        LiteralCallSignatureDef {
            params: param_def_list_duplicate(&self.params),
            ts_type: optional_ts_type_def_duplicate(&self.ts_type),
            type_params: ts_type_param_def_list_duplicate(&self.type_params),
        }
    }
}

impl LiteralIndexSignatureDef {
    /// A copy of `self` that describes the same thing.
    pub fn duplicate(&self) -> (r: LiteralIndexSignatureDef)
        ensures
            r@ == self@,
        decreases self, 0int,
    {
        LiteralIndexSignatureDef {
            readonly: self.readonly,
            params: param_def_list_duplicate(&self.params),
            ts_type: optional_ts_type_def_duplicate(&self.ts_type),
        }
    }
}

impl TsTypeLiteralDef {
    /// A copy of `self` that describes the same thing.
    pub fn duplicate(&self) -> (r: TsTypeLiteralDef)
        ensures
            r@ == self@,
        decreases self, 0int,
    {
        TsTypeLiteralDef {
            methods: literal_method_def_list_duplicate(&self.methods),
            properties: literal_property_def_list_duplicate(&self.properties),
            call_signatures: literal_call_signature_def_list_duplicate(&self.call_signatures),
            index_signatures: literal_index_signature_def_list_duplicate(&self.index_signatures),
        }
    }
}

impl TsTypePredicateDef {
    /// A copy of `self` that describes the same thing.
    pub fn duplicate(&self) -> (r: TsTypePredicateDef)
        ensures
            r@ == self@,
        decreases self, 0int,
    {
        TsTypePredicateDef {
            asserts: self.asserts,
            param: self.param.duplicate(),
            ty: optional_boxed_ts_type_def_duplicate(&self.ty),
        }
    }
}

impl TsTypeDef {
    /// A copy of `self` that describes the same thing.
    pub fn duplicate(&self) -> (r: TsTypeDef)
        ensures
            r@ == self@,
        decreases self, 0int,
    {
        let r = TsTypeDef {
            repr: self.repr.clone(),
            kind: self.kind,
            keyword: optional_text_duplicate(&self.keyword),
            literal: optional_literal_def_duplicate(&self.literal),
            type_ref: optional_ts_type_ref_def_duplicate(&self.type_ref),
            union: optional_ts_type_def_list_duplicate(&self.union),
            intersection: optional_ts_type_def_list_duplicate(&self.intersection),
            array: optional_boxed_ts_type_def_duplicate(&self.array),
            tuple: optional_ts_type_def_list_duplicate(&self.tuple),
            type_operator: optional_boxed_ts_type_operator_def_duplicate(&self.type_operator),
            parenthesized: optional_boxed_ts_type_def_duplicate(&self.parenthesized),
            rest: optional_boxed_ts_type_def_duplicate(&self.rest),
            optional: optional_boxed_ts_type_def_duplicate(&self.optional),
            type_query: optional_text_duplicate(&self.type_query),
            this: self.this,
            fn_or_constructor: optional_boxed_ts_fn_or_constructor_def_duplicate(
                &self.fn_or_constructor,
            ),
            conditional_type: optional_ts_conditional_def_duplicate(&self.conditional_type),
            infer: optional_ts_infer_def_duplicate(&self.infer),
            indexed_access: optional_ts_indexed_access_def_duplicate(&self.indexed_access),
            mapped_type: optional_ts_mapped_type_def_duplicate(&self.mapped_type),
            type_literal: optional_ts_type_literal_def_duplicate(&self.type_literal),
            type_predicate: optional_ts_type_predicate_def_duplicate(&self.type_predicate),
            import_type: optional_ts_import_type_def_duplicate(&self.import_type),
        };
        proof {
            assert(r@.repr == self@.repr
                && r@.kind == self@.kind
                && r@.keyword == self@.keyword
                && r@.type_query == self@.type_query
                && r@.this == self@.this);
            assert(r@.union == self@.union
                && r@.intersection == self@.intersection
                && r@.tuple == self@.tuple);
            assert(r@.array == self@.array
                && r@.parenthesized == self@.parenthesized
                && r@.rest == self@.rest
                && r@.optional == self@.optional
                && r@.type_operator == self@.type_operator);
            assert(r@.literal == self@.literal
                && r@.type_ref == self@.type_ref
                && r@.fn_or_constructor == self@.fn_or_constructor
                && r@.conditional_type == self@.conditional_type
                && r@.infer == self@.infer
                && r@.indexed_access == self@.indexed_access);
            assert(r@.mapped_type == self@.mapped_type
                && r@.type_literal == self@.type_literal
                && r@.type_predicate == self@.type_predicate
                && r@.import_type == self@.import_type);
        }
        r
    }
}

impl TsTypeParamDef {
    /// A copy of `self` that describes the same thing.
    pub fn duplicate(&self) -> (r: TsTypeParamDef)
        ensures
            r@ == self@,
        decreases self, 0int,
    {
        TsTypeParamDef {
            name: self.name.clone(),
            constraint: optional_ts_type_def_duplicate(&self.constraint),
            default: optional_ts_type_def_duplicate(&self.default),
        }
    }
}

impl ParamDef {
    /// A copy of `self` that describes the same thing.
    pub fn duplicate(&self) -> (r: ParamDef)
        ensures
            r@ == self@,
        decreases self, 0int,
    {
        ParamDef {
            pattern: self.pattern.duplicate(),
            ts_type: optional_ts_type_def_duplicate(&self.ts_type),
        }
    }
}

impl TypeAliasDef {
    /// A copy of `self` that describes the same thing.
    pub fn duplicate(&self) -> (r: TypeAliasDef)
        ensures
            r@ == self@,
        decreases self, 0int,
    {
        TypeAliasDef {
            ts_type: self.ts_type.duplicate(),
            type_params: ts_type_param_def_list_duplicate(&self.type_params),
        }
    }
}

impl ThisOrIdent {
    /// A copy of `self` that describes the same thing.
    pub fn duplicate(&self) -> (r: ThisOrIdent)
        ensures
            r@ == self@,
        decreases self, 0int,
    {
        match self {
            ThisOrIdent::This => ThisOrIdent::This,
            ThisOrIdent::Identifier { name } => ThisOrIdent::Identifier {
                name: name.clone(),
            },
        }
    }
}

impl ParamPatternDef {
    /// A copy of `self` that describes the same thing.
    pub fn duplicate(&self) -> (r: ParamPatternDef)
        ensures
            r@ == self@,
        decreases self, 0int,
    {
        match self {
            ParamPatternDef::Array { elements, optional } => ParamPatternDef::Array {
                elements: optional_param_def_list_duplicate(elements),
                optional: *optional,
            },
            ParamPatternDef::Assign { left, right } => ParamPatternDef::Assign {
                left: Box::new(left.duplicate()),
                right: right.clone(),
            },
            ParamPatternDef::Identifier { name, optional } => ParamPatternDef::Identifier {
                name: name.clone(),
                optional: *optional,
            },
            ParamPatternDef::Object { props, optional } => ParamPatternDef::Object {
                props: object_pat_prop_def_list_duplicate(props),
                optional: *optional,
            },
            ParamPatternDef::Rest { arg } => ParamPatternDef::Rest {
                arg: Box::new(arg.duplicate()),
            },
        }
    }
}

impl ObjectPatPropDef {
    /// A copy of `self` that describes the same thing.
    pub fn duplicate(&self) -> (r: ObjectPatPropDef)
        ensures
            r@ == self@,
        decreases self, 0int,
    {
        match self {
            ObjectPatPropDef::Assign { key, value } => ObjectPatPropDef::Assign {
                key: key.clone(),
                value: optional_text_duplicate(value),
            },
            ObjectPatPropDef::KeyValue { key, value } => ObjectPatPropDef::KeyValue {
                key: key.clone(),
                value: Box::new(value.duplicate()),
            },
            ObjectPatPropDef::Rest { arg } => ObjectPatPropDef::Rest {
                arg: Box::new(arg.duplicate()),
            },
        }
    }
}

impl Clone for TsTypeRefDef {
    fn clone(&self) -> (r: TsTypeRefDef)
        ensures
            r@ == self@,
    {
        self.duplicate()
    }
}

impl Clone for LiteralDef {
    fn clone(&self) -> (r: LiteralDef)
        ensures
            r@ == self@,
    {
        self.duplicate()
    }
}

impl Clone for TsTypeOperatorDef {
    fn clone(&self) -> (r: TsTypeOperatorDef)
        ensures
            r@ == self@,
    {
        self.duplicate()
    }
}

impl Clone for TsFnOrConstructorDef {
    fn clone(&self) -> (r: TsFnOrConstructorDef)
        ensures
            r@ == self@,
    {
        self.duplicate()
    }
}

impl Clone for TsConditionalDef {
    fn clone(&self) -> (r: TsConditionalDef)
        ensures
            r@ == self@,
    {
        self.duplicate()
    }
}

impl Clone for TsInferDef {
    fn clone(&self) -> (r: TsInferDef)
        ensures
            r@ == self@,
    {
        self.duplicate()
    }
}

impl Clone for TsImportTypeDef {
    fn clone(&self) -> (r: TsImportTypeDef)
        ensures
            r@ == self@,
    {
        self.duplicate()
    }
}

impl Clone for TsIndexedAccessDef {
    fn clone(&self) -> (r: TsIndexedAccessDef)
        ensures
            r@ == self@,
    {
        self.duplicate()
    }
}

impl Clone for TsMappedTypeDef {
    fn clone(&self) -> (r: TsMappedTypeDef)
        ensures
            r@ == self@,
    {
        self.duplicate()
    }
}

impl Clone for LiteralMethodDef {
    fn clone(&self) -> (r: LiteralMethodDef)
        ensures
            r@ == self@,
    {
        self.duplicate()
    }
}

impl Clone for LiteralPropertyDef {
    fn clone(&self) -> (r: LiteralPropertyDef)
        ensures
            r@ == self@,
    {
        self.duplicate()
    }
}

impl Clone for LiteralCallSignatureDef {
    fn clone(&self) -> (r: LiteralCallSignatureDef)
        ensures
            r@ == self@,
    {
        self.duplicate()
    }
}

impl Clone for LiteralIndexSignatureDef {
    fn clone(&self) -> (r: LiteralIndexSignatureDef)
        ensures
            r@ == self@,
    {
        self.duplicate()
    }
}

impl Clone for TsTypeLiteralDef {
    fn clone(&self) -> (r: TsTypeLiteralDef)
        ensures
            r@ == self@,
    {
        self.duplicate()
    }
}

impl Clone for TsTypePredicateDef {
    fn clone(&self) -> (r: TsTypePredicateDef)
        ensures
            r@ == self@,
    {
        self.duplicate()
    }
}

impl Clone for TsTypeDef {
    fn clone(&self) -> (r: TsTypeDef)
        ensures
            r@ == self@,
    {
        self.duplicate()
    }
}

impl Clone for TsTypeParamDef {
    fn clone(&self) -> (r: TsTypeParamDef)
        ensures
            r@ == self@,
    {
        self.duplicate()
    }
}

impl Clone for ParamDef {
    fn clone(&self) -> (r: ParamDef)
        ensures
            r@ == self@,
    {
        self.duplicate()
    }
}

impl Clone for TypeAliasDef {
    fn clone(&self) -> (r: TypeAliasDef)
        ensures
            r@ == self@,
    {
        self.duplicate()
    }
}

impl Clone for ThisOrIdent {
    fn clone(&self) -> (r: ThisOrIdent)
        ensures
            r@ == self@,
    {
        self.duplicate()
    }
}

impl Clone for ParamPatternDef {
    fn clone(&self) -> (r: ParamPatternDef)
        ensures
            r@ == self@,
    {
        self.duplicate()
    }
}

impl Clone for ObjectPatPropDef {
    fn clone(&self) -> (r: ObjectPatPropDef)
        ensures
            r@ == self@,
    {
        self.duplicate()
    }
}


} // verus!
