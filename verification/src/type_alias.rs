//! Descriptions of type aliases.

use crate::ast::TsTypeAliasDecl;
use crate::convert::ts_type_to_def;
use crate::described::{ts_type_def_of, type_param_defs_of};
use crate::model::{type_alias_def_wf, TypeAliasDefView};
use crate::ts_type::TsTypeDef;
use crate::ts_type_param::{maybe_type_param_decl_to_type_param_defs, TsTypeParamDef};
use vstd::prelude::*;

verus! {

/// What a type alias stands for, with the generic parameters of the alias.
#[derive(Debug)]
pub struct TypeAliasDef {
    pub ts_type: TsTypeDef,
    pub type_params: Vec<TsTypeParamDef>,
}

/// What a type alias declaration describes.
pub open spec fn type_alias_def_of(decl: TsTypeAliasDecl) -> TypeAliasDefView {
    TypeAliasDefView {
        ts_type: ts_type_def_of(*decl.type_ann),
        type_params: type_param_defs_of(decl.type_params),
    }
}

/// The name of a type alias and the description of what it stands for: the
/// aliased type and the generic parameters of the declaration.
pub fn get_doc_for_ts_type_alias_decl(type_alias_decl: &TsTypeAliasDecl) -> (r: (
    String,
    TypeAliasDef,
))
    ensures
        r.0@ == type_alias_decl.id.sym@,
        r.1@ == type_alias_def_of(*type_alias_decl),
        type_alias_def_wf(r.1@),
{
    let alias_name = type_alias_decl.id.sym.clone();
    let ts_type = ts_type_to_def(&type_alias_decl.type_ann);
    let type_params = maybe_type_param_decl_to_type_param_defs(
        type_alias_decl.type_params.as_ref(),
    );
    let type_alias_def = TypeAliasDef { ts_type, type_params };
    (alias_name, type_alias_def)
}

} // verus!
