//! Descriptions of generic parameters.

use crate::ast::{TsType, TsTypeParam, TsTypeParamDecl};
use crate::convert::ts_type_to_def;
use crate::described::{boxed_type_def, type_param_def_of, type_param_defs_of};
use crate::model::{
    ts_type_def_view, ts_type_def_wf, ts_type_param_def_all_wf, ts_type_param_def_views,
    ts_type_param_def_wf,
};
use crate::ts_type::TsTypeDef;
use vstd::prelude::*;

verus! {

/// A declared generic parameter: `name extends constraint = default`.
#[derive(Debug)]
pub struct TsTypeParamDef {
    pub name: String,
    pub constraint: Option<TsTypeDef>,
    pub default: Option<TsTypeDef>,
}

/// The description of a type behind an optional box.
pub(crate) fn maybe_boxed_type_to_def(ts_type: &Option<Box<TsType>>) -> (r: Option<TsTypeDef>)
    ensures
        match r {
            Some(x) => Some(ts_type_def_view(x)),
            None => None,
        } == boxed_type_def(*ts_type),
        r matches Some(t) ==> ts_type_def_wf(t@),
    decreases ts_type,
{
    match ts_type {
        Some(t) => Some(ts_type_to_def(t)),
        None => None,
    }
}

/// The description of one declared generic parameter.
pub fn ts_type_param_to_def(param: &TsTypeParam) -> (r: TsTypeParamDef)
    ensures
        r@ == type_param_def_of(*param),
        ts_type_param_def_wf(r@),
    decreases param,
{
    let constraint = maybe_boxed_type_to_def(&param.constraint);
    let default = maybe_boxed_type_to_def(&param.default);
    TsTypeParamDef { name: param.name.sym.clone(), constraint, default }
}

fn type_param_decl_to_type_param_defs(decl: &TsTypeParamDecl) -> (r: Vec<TsTypeParamDef>)
    ensures
        ts_type_param_def_views(r@) == type_param_defs_of(Some(*decl)),
        ts_type_param_def_all_wf(ts_type_param_def_views(r@)),
    decreases decl,
{
    let mut out: Vec<TsTypeParamDef> = Vec::new();
    let mut i: usize = 0;
    while i < decl.params.len()
        invariant
            i <= decl.params.len(),
            out.len() == i,
            forall|k: int|
                0 <= k < i ==> (#[trigger] out@[k])@ == type_param_def_of(decl.params@[k])
                    && ts_type_param_def_wf(out@[k]@),
        decreases decl.params.len() - i,
    {
        let param = ts_type_param_to_def(&decl.params[i]);
        out.push(param);
        i += 1;
    }
    assert(ts_type_param_def_views(out@) =~= type_param_defs_of(Some(*decl)));
    out
}

/// The descriptions of the declared generic parameters, in order; none where
/// there is no declaration.
pub fn maybe_type_param_decl_to_type_param_defs(
    maybe_type_param_decl: Option<&TsTypeParamDecl>,
) -> (r: Vec<TsTypeParamDef>)
    ensures
        ts_type_param_def_views(r@) == type_param_defs_of(
            match maybe_type_param_decl {
                Some(decl) => Some(*decl),
                None => None,
            },
        ),
        ts_type_param_def_all_wf(ts_type_param_def_views(r@)),
    decreases maybe_type_param_decl,
{
    match maybe_type_param_decl {
        Some(decl) => type_param_decl_to_type_param_defs(decl),
        None => {
            let out: Vec<TsTypeParamDef> = Vec::new();
            assert(ts_type_param_def_views(out@) =~= type_param_defs_of(None));
            out
        },
    }
}

} // verus!
