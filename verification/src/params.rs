//! Descriptions of parameters.

use crate::ast::{
    ArrayPat, AssignPat, BindingIdent, ObjectPat, ObjectPatProp, Param, Pat, RestPat, TsFnParam,
    TsTypeAnn,
};
use crate::convert::ts_type_ann_to_def;
use crate::described::{
    annotation_def, array_pat_param_def, assign_pat_param_def, fn_param_def, fn_param_defs,
    function_param_defs, ident_param_def, object_pat_param_def, object_pat_prop_def_of,
    object_pat_prop_defs, pat_element_defs, pat_param_def, pat_param_defs, rest_pat_param_def,
};
use crate::model::{
    object_pat_prop_def_all_wf, object_pat_prop_def_views, object_pat_prop_def_wf,
    optional_param_def_all_wf, optional_param_def_views, param_def_all_wf, param_def_views,
    param_def_wf, ts_type_def_view, ts_type_def_wf,
};
use crate::names::prop_name_to_string;
use crate::ts_type::TsTypeDef;
use vstd::prelude::*;

verus! {

/// A parameter: its pattern and its annotation.
#[derive(Debug)]
pub struct ParamDef {
    pub pattern: ParamPatternDef,
    pub ts_type: Option<TsTypeDef>,
}

/// The pattern of a parameter. The default value in `Assign` is not described;
/// `right` holds a placeholder.
#[derive(Debug)]
pub enum ParamPatternDef {
    Array { elements: Vec<Option<ParamDef>>, optional: bool },
    Assign { left: Box<ParamDef>, right: String },
    Identifier { name: String, optional: bool },
    Object { props: Vec<ObjectPatPropDef>, optional: bool },
    Rest { arg: Box<ParamDef> },
}

/// A property of an object pattern.
#[allow(inconsistent_fields)]
#[derive(Debug)]
pub enum ObjectPatPropDef {
    Assign { key: String, value: Option<String> },
    KeyValue { key: String, value: Box<ParamDef> },
    Rest { arg: Box<ParamDef> },
}

/// The description of an annotation, where there is one.
pub(crate) fn maybe_type_ann_to_def(type_ann: &Option<TsTypeAnn>) -> (r: Option<TsTypeDef>)
    ensures
        match r {
            Some(x) => Some(ts_type_def_view(x)),
            None => None,
        } == annotation_def(*type_ann),
        r matches Some(t) ==> ts_type_def_wf(t@),
    decreases type_ann,
{
    match type_ann {
        Some(ann) => Some(ts_type_ann_to_def(ann)),
        None => None,
    }
}

pub fn ident_to_param_def(ident: &BindingIdent) -> (r: ParamDef)
    ensures
        r@ == ident_param_def(*ident),
        param_def_wf(r@),
    decreases ident,
{
    let ts_type = maybe_type_ann_to_def(&ident.type_ann);
    ParamDef {
        pattern: ParamPatternDef::Identifier {
            name: ident.id.sym.clone(),
            optional: ident.id.optional,
        },
        ts_type,
    }
}

pub fn rest_pat_to_param_def(rest_pat: &RestPat) -> (r: ParamDef)
    ensures
        r@ == rest_pat_param_def(*rest_pat),
        param_def_wf(r@),
    decreases rest_pat,
{
    let ts_type = maybe_type_ann_to_def(&rest_pat.type_ann);
    let arg = pat_to_param_def(&rest_pat.arg);
    ParamDef { pattern: ParamPatternDef::Rest { arg: Box::new(arg) }, ts_type }
}

pub fn object_pat_prop_to_def(object_pat_prop: &ObjectPatProp) -> (r: ObjectPatPropDef)
    ensures
        r@ == object_pat_prop_def_of(*object_pat_prop),
        object_pat_prop_def_wf(r@),
    decreases object_pat_prop,
{
    match object_pat_prop {
        ObjectPatProp::Assign(assign) => ObjectPatPropDef::Assign {
            key: assign.key.sym.clone(),
            value: if assign.has_value {
                Some(String::from_str("[UNSUPPORTED]"))
            } else {
                None
            },
        },
        ObjectPatProp::KeyValue(keyvalue) => ObjectPatPropDef::KeyValue {
            key: prop_name_to_string(&keyvalue.key),
            value: Box::new(pat_to_param_def(&keyvalue.value)),
        },
        ObjectPatProp::Rest(rest) => ObjectPatPropDef::Rest {
            arg: Box::new(pat_to_param_def(&rest.arg)),
        },
    }
}

pub(crate) fn object_pat_props_to_defs(props: &Vec<ObjectPatProp>) -> (r: Vec<ObjectPatPropDef>)
    ensures
        object_pat_prop_def_views(r@) == object_pat_prop_defs(props@),
        object_pat_prop_def_all_wf(object_pat_prop_def_views(r@)),
    decreases props,
{
    let mut out: Vec<ObjectPatPropDef> = Vec::new();
    let mut i: usize = 0;
    while i < props.len()
        invariant
            i <= props.len(),
            out.len() == i,
            forall|k: int|
                0 <= k < i ==> (#[trigger] out@[k])@ == object_pat_prop_def_of(props@[k])
                    && object_pat_prop_def_wf(out@[k]@),
        decreases props.len() - i,
    {
        let prop = object_pat_prop_to_def(&props[i]);
        out.push(prop);
        i += 1;
    }
    assert(object_pat_prop_def_views(out@) =~= object_pat_prop_defs(props@));
    out
}

pub fn object_pat_to_param_def(object_pat: &ObjectPat) -> (r: ParamDef)
    ensures
        r@ == object_pat_param_def(*object_pat),
        param_def_wf(r@),
    decreases object_pat,
{
    let props = object_pat_props_to_defs(&object_pat.props);
    let ts_type = maybe_type_ann_to_def(&object_pat.type_ann);
    ParamDef { pattern: ParamPatternDef::Object { props, optional: object_pat.optional }, ts_type }
}

pub(crate) fn pat_elements_to_defs(elems: &Vec<Option<Pat>>) -> (r: Vec<Option<ParamDef>>)
    ensures
        optional_param_def_views(r@) == pat_element_defs(elems@),
        optional_param_def_all_wf(optional_param_def_views(r@)),
    decreases elems,
{
    let mut out: Vec<Option<ParamDef>> = Vec::new();
    let mut i: usize = 0;
    while i < elems.len()
        invariant
            i <= elems.len(),
            out.len() == i,
            forall|k: int|
                0 <= k < i ==> optional_param_def_views(out@)[k] == pat_element_defs(elems@)[k],
            forall|k: int|
                0 <= k < i ==> ((#[trigger] out@[k]) matches Some(x) ==> param_def_wf(x@)),
        decreases elems.len() - i,
    {
        let ghost before = out@;
        let element = match &elems[i] {
            Some(elem) => Some(pat_to_param_def(elem)),
            None => None,
        };
        out.push(element);
        proof {
            assert forall|k: int| 0 <= k < i + 1 implies optional_param_def_views(out@)[k]
                == pat_element_defs(elems@)[k] by {
                if k < i {
                    assert(out@[k] == before[k]);
                    assert(optional_param_def_views(before)[k] == pat_element_defs(elems@)[k]);
                }
            }
        }
        i += 1;
    }
    assert(optional_param_def_views(out@) =~= pat_element_defs(elems@));
    out
}

pub fn array_pat_to_param_def(array_pat: &ArrayPat) -> (r: ParamDef)
    ensures
        r@ == array_pat_param_def(*array_pat),
        param_def_wf(r@),
    decreases array_pat,
{
    let elements = pat_elements_to_defs(&array_pat.elems);
    let ts_type = maybe_type_ann_to_def(&array_pat.type_ann);
    ParamDef {
        pattern: ParamPatternDef::Array { elements, optional: array_pat.optional },
        ts_type,
    }
}

pub fn assign_pat_to_param_def(assign_pat: &AssignPat) -> (r: ParamDef)
    ensures
        r@ == assign_pat_param_def(*assign_pat),
        param_def_wf(r@),
    decreases assign_pat,
{
    let ts_type = maybe_type_ann_to_def(&assign_pat.type_ann);
    let left = pat_to_param_def(&assign_pat.left);
    ParamDef {
        pattern: ParamPatternDef::Assign {
            left: Box::new(left),
            right: String::from_str("[UNSUPPORTED]"),
        },
        ts_type,
    }
}

/// The description of a parameter of a function expression.
pub fn pat_to_param_def(pat: &Pat) -> (r: ParamDef)
    ensures
        r@ == pat_param_def(*pat),
        param_def_wf(r@),
    decreases pat,
{
    match pat {
        Pat::Ident(ident) => ident_to_param_def(ident),
        Pat::Array(array_pat) => array_pat_to_param_def(array_pat),
        Pat::Rest(rest_pat) => rest_pat_to_param_def(rest_pat),
        Pat::Object(object_pat) => object_pat_to_param_def(object_pat),
        Pat::Assign(assign_pat) => assign_pat_to_param_def(assign_pat),
    }
}

/// The description of a parameter of a function type or of a signature.
pub fn ts_fn_param_to_param_def(ts_fn_param: &TsFnParam) -> (r: ParamDef)
    ensures
        r@ == fn_param_def(*ts_fn_param),
        param_def_wf(r@),
    decreases ts_fn_param,
{
    match ts_fn_param {
        TsFnParam::Ident(ident) => ident_to_param_def(ident),
        TsFnParam::Array(array_pat) => array_pat_to_param_def(array_pat),
        TsFnParam::Rest(rest_pat) => rest_pat_to_param_def(rest_pat),
        TsFnParam::Object(object_pat) => object_pat_to_param_def(object_pat),
    }
}

/// The descriptions of the parameters of a function type or of a signature.
pub(crate) fn ts_fn_params_to_param_defs(params: &Vec<TsFnParam>) -> (r: Vec<ParamDef>)
    ensures
        param_def_views(r@) == fn_param_defs(params@),
        param_def_all_wf(param_def_views(r@)),
    decreases params,
{
    let mut out: Vec<ParamDef> = Vec::new();
    let mut i: usize = 0;
    while i < params.len()
        invariant
            i <= params.len(),
            out.len() == i,
            forall|k: int|
                0 <= k < i ==> (#[trigger] out@[k])@ == fn_param_def(params@[k]) && param_def_wf(
                    out@[k]@,
                ),
        decreases params.len() - i,
    {
        let param = ts_fn_param_to_param_def(&params[i]);
        out.push(param);
        i += 1;
    }
    assert(param_def_views(out@) =~= fn_param_defs(params@));
    out
}

/// The descriptions of the parameters of an arrow function.
pub(crate) fn pats_to_param_defs(params: &Vec<Pat>) -> (r: Vec<ParamDef>)
    ensures
        param_def_views(r@) == pat_param_defs(params@),
        param_def_all_wf(param_def_views(r@)),
    decreases params,
{
    let mut out: Vec<ParamDef> = Vec::new();
    let mut i: usize = 0;
    while i < params.len()
        invariant
            i <= params.len(),
            out.len() == i,
            forall|k: int|
                0 <= k < i ==> (#[trigger] out@[k])@ == pat_param_def(params@[k]) && param_def_wf(
                    out@[k]@,
                ),
        decreases params.len() - i,
    {
        let param = pat_to_param_def(&params[i]);
        out.push(param);
        i += 1;
    }
    assert(param_def_views(out@) =~= pat_param_defs(params@));
    out
}

/// The descriptions of the parameters of a function expression.
pub(crate) fn function_params_to_param_defs(params: &Vec<Param>) -> (r: Vec<ParamDef>)
    ensures
        param_def_views(r@) == function_param_defs(params@),
        param_def_all_wf(param_def_views(r@)),
    decreases params,
{
    let mut out: Vec<ParamDef> = Vec::new();
    let mut i: usize = 0;
    while i < params.len()
        invariant
            i <= params.len(),
            out.len() == i,
            forall|k: int|
                0 <= k < i ==> (#[trigger] out@[k])@ == pat_param_def(params@[k].pat)
                    && param_def_wf(out@[k]@),
        decreases params.len() - i,
    {
        let param = pat_to_param_def(&params[i].pat);
        out.push(param);
        i += 1;
    }
    assert(param_def_views(out@) =~= function_param_defs(params@));
    out
}

} // verus!
