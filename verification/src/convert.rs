//! From a type expression to its description, one function for each syntactic
//! form.

use crate::ast::{
    TsArrayType, TsConditionalType, TsConstructorType, TsExprWithTypeArgs, TsFnOrConstructorType,
    TsFnType, TsImportType, TsIndexedAccessType, TsInferType, TsKeywordType, TsLit, TsLitType,
    TsMappedType, TsOptionalType, TsParenthesizedType, TsRestType, TsThisType, TsThisTypeOrIdent,
    TsTupleType, TsType, TsTypeAnn, TsTypeOperator, TsTypeParamInstantiation, TsTypePredicate,
    TsTypeQuery, TsTypeQueryExpr, TsTypeRef, TsUnionOrIntersectionType,
};
use crate::described::{
    expr_with_type_args_def, kind_of, predicate_param_of, span_of_type, ts_type_def_of,
    tuple_element_defs, type_arg_defs, type_args_of, type_defs_of,
};
use crate::model::{
    template_parts_wf, ts_type_def_all_wf, ts_type_def_view, ts_type_def_views, ts_type_def_wf,
};
use crate::names::{expr_to_name, keyword_str, ts_entity_name_to_name};
use crate::params::ts_fn_params_to_param_defs;
use crate::signatures::ts_type_lit_to_def;
use crate::span::Span;
use crate::ts_type::{
    ThisOrIdent, TsConditionalDef, TsFnOrConstructorDef, TsImportTypeDef, TsIndexedAccessDef,
    TsInferDef, TsMappedTypeDef, TsTypeDef, TsTypeOperatorDef, TsTypePredicateDef, TsTypeRefDef,
};
use crate::ts_type_param::{maybe_type_param_decl_to_type_param_defs, ts_type_param_to_def};
use vstd::prelude::*;

verus! {

/// The span by which a type is placed among the parts of a template.
pub fn get_span_from_type(ts_type: &TsType) -> (span: Span)
    ensures
        span == span_of_type(*ts_type),
    decreases ts_type,
{
    match ts_type {
        TsType::TsArrayType(t) => get_span_from_type(&t.elem_type),
        TsType::TsConditionalType(t) => get_span_from_type(&t.check_type),
        TsType::TsFnOrConstructorType(t) => match t {
            TsFnOrConstructorType::TsFnType(t) => t.span,
            TsFnOrConstructorType::TsConstructorType(t) => t.span,
        },
        TsType::TsImportType(t) => t.span,
        TsType::TsIndexedAccessType(t) => get_span_from_type(&t.index_type),
        TsType::TsInferType(t) => t.span,
        TsType::TsKeywordType(t) => t.span,
        TsType::TsLitType(t) => t.span,
        TsType::TsMappedType(t) => t.span,
        TsType::TsOptionalType(t) => t.span,
        TsType::TsParenthesizedType(t) => t.span,
        TsType::TsRestType(t) => t.span,
        TsType::TsThisType(t) => t.span,
        TsType::TsTupleType(t) => t.span,
        TsType::TsTypeLit(t) => t.span,
        TsType::TsTypeOperator(t) => t.span,
        TsType::TsTypePredicate(t) => t.span,
        TsType::TsTypeQuery(t) => t.span,
        TsType::TsTypeRef(t) => t.span,
        TsType::TsUnionOrIntersectionType(t) => match t {
            TsUnionOrIntersectionType::TsUnionType(t) => t.span,
            TsUnionOrIntersectionType::TsIntersectionType(t) => t.span,
        },
    }
}

/// The descriptions of a list of types, in order.
pub(crate) fn ts_types_to_defs(types: &Vec<Box<TsType>>) -> (r: Vec<TsTypeDef>)
    ensures
        ts_type_def_views(r@) == type_defs_of(types@),
        template_parts_wf(ts_type_def_views(r@)),
        ts_type_def_all_wf(ts_type_def_views(r@)),
    decreases types,
{
    let mut out: Vec<TsTypeDef> = Vec::new();
    let mut i: usize = 0;
    while i < types.len()
        invariant
            i <= types.len(),
            out.len() == i,
            forall|k: int|
                0 <= k < i ==> (#[trigger] out@[k])@ == ts_type_def_of(*types@[k])
                    && ts_type_def_wf(out@[k]@) && out@[k]@.kind is Some,
        decreases types.len() - i,
    {
        let def = ts_type_to_def(&types[i]);
        out.push(def);
        i += 1;
    }
    assert(ts_type_def_views(out@) =~= type_defs_of(types@));
    out
}

/// The descriptions of the type arguments of a use. No argument list and an
/// empty one are told apart.
pub(crate) fn maybe_type_args_to_defs(args: &Option<TsTypeParamInstantiation>) -> (r: Option<
    Vec<TsTypeDef>,
>)
    ensures
        match r {
            Some(x) => Some(ts_type_def_views(x@)),
            None => None,
        } == type_args_of(*args),
        r matches Some(types) ==> ts_type_def_all_wf(ts_type_def_views(types@)),
    decreases args,
{
    match args {
        Some(inst) => Some(ts_types_to_defs(&inst.params)),
        None => None,
    }
}

/// The descriptions of the type arguments of a use, in order; none where there
/// is no argument list.
pub fn maybe_type_param_instantiation_to_type_defs(
    maybe_type_param_instantiation: Option<&TsTypeParamInstantiation>,
) -> (r: Vec<TsTypeDef>)
    ensures
        ts_type_def_views(r@) == type_arg_defs(
            match maybe_type_param_instantiation {
                Some(inst) => Some(*inst),
                None => None,
            },
        ),
        ts_type_def_all_wf(ts_type_def_views(r@)),
    decreases maybe_type_param_instantiation,
{
    match maybe_type_param_instantiation {
        Some(type_param_instantiation) => ts_types_to_defs(&type_param_instantiation.params),
        None => {
            let out: Vec<TsTypeDef> = Vec::new();
            assert(ts_type_def_views(out@) =~= Seq::empty());
            out
        },
    }
}

pub fn ts_lit_type_to_def(other: &TsLitType) -> (r: TsTypeDef)
    ensures
        r@ == ts_type_def_of(TsType::TsLitType(*other)),
        ts_type_def_wf(r@),
        r@.kind == Some(kind_of(TsType::TsLitType(*other))),
    decreases other,
{
    assert(ts_type_def_of(TsType::TsLitType(*other)) == crate::described::lit_type_def(other.lit));
    match &other.lit {
        TsLit::Number(num) => TsTypeDef::number_literal(num),
        TsLit::Str(str_) => TsTypeDef::string_literal(str_),
        TsLit::Tpl(tpl) => TsTypeDef::tpl_literal(tpl.types.as_slice(), tpl.quasis.as_slice()),
        TsLit::Bool(bool_) => TsTypeDef::bool_literal(bool_),
        TsLit::BigInt(bigint_) => TsTypeDef::bigint_literal(bigint_),
    }
}

pub fn ts_array_type_to_def(other: &TsArrayType) -> (r: TsTypeDef)
    ensures
        r@ == ts_type_def_of(TsType::TsArrayType(*other)),
        ts_type_def_wf(r@),
        r@.kind == Some(kind_of(TsType::TsArrayType(*other))),
    decreases other,
{
    let ts_type_def = ts_type_to_def(&other.elem_type);
    TsTypeDef::of_array(ts_type_def)
}

pub(crate) fn ts_tuple_elements_to_defs(
    elems: &Vec<crate::ast::TsTupleElement>,
) -> (r: Vec<TsTypeDef>)
    ensures
        ts_type_def_views(r@) == tuple_element_defs(elems@),
        ts_type_def_all_wf(ts_type_def_views(r@)),
    decreases elems,
{
    let mut type_defs: Vec<TsTypeDef> = Vec::new();
    let mut i: usize = 0;
    while i < elems.len()
        invariant
            i <= elems.len(),
            type_defs.len() == i,
            forall|k: int|
                0 <= k < i ==> (#[trigger] type_defs@[k])@ == ts_type_def_of(elems@[k].ty)
                    && ts_type_def_wf(type_defs@[k]@),
        decreases elems.len() - i,
    {
        let def = ts_type_to_def(&elems[i].ty);
        type_defs.push(def);
        i += 1;
    }
    assert(ts_type_def_views(type_defs@) =~= tuple_element_defs(elems@));
    type_defs
}

pub fn ts_tuple_type_to_def(other: &TsTupleType) -> (r: TsTypeDef)
    ensures
        r@ == ts_type_def_of(TsType::TsTupleType(*other)),
        ts_type_def_wf(r@),
        r@.kind == Some(kind_of(TsType::TsTupleType(*other))),
    decreases other,
{
    let type_defs = ts_tuple_elements_to_defs(&other.elem_types);
    TsTypeDef::of_tuple(type_defs)
}

pub fn ts_union_or_intersection_type_to_def(other: &TsUnionOrIntersectionType) -> (r: TsTypeDef)
    ensures
        r@ == ts_type_def_of(TsType::TsUnionOrIntersectionType(*other)),
        ts_type_def_wf(r@),
        r@.kind == Some(kind_of(TsType::TsUnionOrIntersectionType(*other))),
    decreases other,
{
    match other {
        TsUnionOrIntersectionType::TsUnionType(union_type) => {
            let types_union = ts_types_to_defs(&union_type.types);
            TsTypeDef::of_union(types_union)
        },
        TsUnionOrIntersectionType::TsIntersectionType(intersection_type) => {
            let types_intersection = ts_types_to_defs(&intersection_type.types);
            TsTypeDef::of_intersection(types_intersection)
        },
    }
}

pub fn ts_keyword_type_to_def(other: &TsKeywordType) -> (r: TsTypeDef)
    ensures
        r@ == ts_type_def_of(TsType::TsKeywordType(*other)),
        ts_type_def_wf(r@),
        r@.kind == Some(kind_of(TsType::TsKeywordType(*other))),
{
    TsTypeDef::keyword(keyword_str(other.kind))
}

pub fn ts_type_operator_to_def(other: &TsTypeOperator) -> (r: TsTypeDef)
    ensures
        r@ == ts_type_def_of(TsType::TsTypeOperator(*other)),
        ts_type_def_wf(r@),
        r@.kind == Some(kind_of(TsType::TsTypeOperator(*other))),
    decreases other,
{
    let ts_type = ts_type_to_def(&other.type_ann);
    let type_operator_def = TsTypeOperatorDef {
        operator: String::from_str(other.op.as_str()),
        ts_type,
    };
    TsTypeDef::of_type_operator(type_operator_def)
}

pub fn ts_parenthesized_type_to_def(other: &TsParenthesizedType) -> (r: TsTypeDef)
    ensures
        r@ == ts_type_def_of(TsType::TsParenthesizedType(*other)),
        ts_type_def_wf(r@),
        r@.kind == Some(kind_of(TsType::TsParenthesizedType(*other))),
    decreases other,
{
    let ts_type = ts_type_to_def(&other.type_ann);
    TsTypeDef::of_parenthesized(ts_type)
}

pub fn ts_rest_type_to_def(other: &TsRestType) -> (r: TsTypeDef)
    ensures
        r@ == ts_type_def_of(TsType::TsRestType(*other)),
        ts_type_def_wf(r@),
        r@.kind == Some(kind_of(TsType::TsRestType(*other))),
    decreases other,
{
    let ts_type = ts_type_to_def(&other.type_ann);
    TsTypeDef::of_rest(ts_type)
}

pub fn ts_optional_type_to_def(other: &TsOptionalType) -> (r: TsTypeDef)
    ensures
        r@ == ts_type_def_of(TsType::TsOptionalType(*other)),
        ts_type_def_wf(r@),
        r@.kind == Some(kind_of(TsType::TsOptionalType(*other))),
    decreases other,
{
    let ts_type = ts_type_to_def(&other.type_ann);
    TsTypeDef::of_optional(ts_type)
}

pub fn ts_this_type_to_def(other: &TsThisType) -> (r: TsTypeDef)
    ensures
        r@ == ts_type_def_of(TsType::TsThisType(*other)),
        ts_type_def_wf(r@),
        r@.kind == Some(kind_of(TsType::TsThisType(*other))),
{
    TsTypeDef::of_this()
}

/// The subject of a type predicate.
pub fn ts_this_type_or_ident_to_def(other: &TsThisTypeOrIdent) -> (r: ThisOrIdent)
    ensures
        r@ == predicate_param_of(*other),
{
    match other {
        TsThisTypeOrIdent::TsThisType(_) => ThisOrIdent::This,
        TsThisTypeOrIdent::Ident(ident) => ThisOrIdent::Identifier { name: ident.sym.clone() },
    }
}

pub fn ts_type_predicate_to_def(other: &TsTypePredicate) -> (r: TsTypeDef)
    ensures
        r@ == ts_type_def_of(TsType::TsTypePredicate(*other)),
        ts_type_def_wf(r@),
        r@.kind == Some(kind_of(TsType::TsTypePredicate(*other))),
    decreases other,
{
    let ty = match &other.type_ann {
        Some(t) => Some(Box::new(ts_type_ann_to_def(t))),
        None => None,
    };
    let pred = TsTypePredicateDef {
        asserts: other.asserts,
        param: ts_this_type_or_ident_to_def(&other.param_name),
        ty,
    };
    assert(pred@ == crate::described::type_predicate_def_of(*other));
    let repr = pred.to_string();
    TsTypeDef::of_type_predicate(repr, pred)
}

pub fn ts_type_query_to_def(other: &TsTypeQuery) -> (r: TsTypeDef)
    ensures
        r@ == ts_type_def_of(TsType::TsTypeQuery(*other)),
        ts_type_def_wf(r@),
        r@.kind == Some(kind_of(TsType::TsTypeQuery(*other))),
{
    let name = match &other.expr_name {
        TsTypeQueryExpr::TsEntityName(entity_name) => ts_entity_name_to_name(entity_name),
        TsTypeQueryExpr::Import(import_type) => import_type.arg.value.clone(),
    };
    TsTypeDef::of_type_query(name)
}

pub fn ts_type_ref_to_def(other: &TsTypeRef) -> (r: TsTypeDef)
    ensures
        r@ == ts_type_def_of(TsType::TsTypeRef(*other)),
        ts_type_def_wf(r@),
        r@.kind == Some(kind_of(TsType::TsTypeRef(*other))),
    decreases other,
{
    let name = ts_entity_name_to_name(&other.name);
    let type_params = maybe_type_args_to_defs(&other.type_params);
    let repr = name.clone();
    let r = TsTypeDef::of_type_ref(repr, TsTypeRefDef { type_params, name });
    assert(r@ == crate::described::type_ref_def_of(*other));
    r
}

/// The reference that an expression with type arguments describes, as in an
/// `extends` clause.
pub fn ts_expr_with_type_args_to_def(other: &TsExprWithTypeArgs) -> (r: TsTypeDef)
    ensures
        r@ == expr_with_type_args_def(*other),
        ts_type_def_wf(r@),
{
    let name = expr_to_name(&other.expr);
    let type_params = maybe_type_args_to_defs(&other.type_args);
    let repr = name.clone();
    TsTypeDef::of_type_ref(repr, TsTypeRefDef { type_params, name })
}

pub fn ts_indexed_access_type_to_def(other: &TsIndexedAccessType) -> (r: TsTypeDef)
    ensures
        r@ == ts_type_def_of(TsType::TsIndexedAccessType(*other)),
        ts_type_def_wf(r@),
        r@.kind == Some(kind_of(TsType::TsIndexedAccessType(*other))),
    decreases other,
{
    let indexed_access_def = TsIndexedAccessDef {
        readonly: other.readonly,
        obj_type: Box::new(ts_type_to_def(&other.obj_type)),
        index_type: Box::new(ts_type_to_def(&other.index_type)),
    };
    assert(indexed_access_def@ == crate::described::indexed_access_type_def(*other));
    TsTypeDef::of_indexed_access(indexed_access_def)
}

pub fn ts_mapped_type_to_def(other: &TsMappedType) -> (r: TsTypeDef)
    ensures
        r@ == ts_type_def_of(TsType::TsMappedType(*other)),
        ts_type_def_wf(r@),
        r@.kind == Some(kind_of(TsType::TsMappedType(*other))),
    decreases other,
{
    let name_type = match &other.name_type {
        Some(nt) => Some(Box::new(ts_type_to_def(nt))),
        None => None,
    };
    let ts_type = match &other.type_ann {
        Some(a) => Some(Box::new(ts_type_to_def(a))),
        None => None,
    };
    let mapped_type_def = TsMappedTypeDef {
        readonly: other.readonly,
        type_param: Box::new(ts_type_param_to_def(&other.type_param)),
        name_type,
        optional: other.optional,
        ts_type,
    };
    assert(mapped_type_def@ == crate::described::mapped_type_def(*other));
    TsTypeDef::of_mapped(mapped_type_def)
}

pub fn ts_conditional_type_to_def(other: &TsConditionalType) -> (r: TsTypeDef)
    ensures
        r@ == ts_type_def_of(TsType::TsConditionalType(*other)),
        ts_type_def_wf(r@),
        r@.kind == Some(kind_of(TsType::TsConditionalType(*other))),
    decreases other,
{
    let conditional_type_def = TsConditionalDef {
        check_type: Box::new(ts_type_to_def(&other.check_type)),
        extends_type: Box::new(ts_type_to_def(&other.extends_type)),
        true_type: Box::new(ts_type_to_def(&other.true_type)),
        false_type: Box::new(ts_type_to_def(&other.false_type)),
    };
    assert(conditional_type_def@ == crate::described::conditional_type_def(*other));
    TsTypeDef::of_conditional(conditional_type_def)
}

pub fn ts_infer_type_to_def(other: &TsInferType) -> (r: TsTypeDef)
    ensures
        r@ == ts_type_def_of(TsType::TsInferType(*other)),
        ts_type_def_wf(r@),
        r@.kind == Some(kind_of(TsType::TsInferType(*other))),
    decreases other,
{
    let infer = TsInferDef { type_param: Box::new(ts_type_param_to_def(&other.type_param)) };
    TsTypeDef::of_infer(infer)
}

pub fn ts_import_type_to_def(other: &TsImportType) -> (r: TsTypeDef)
    ensures
        r@ == ts_type_def_of(TsType::TsImportType(*other)),
        ts_type_def_wf(r@),
        r@.kind == Some(kind_of(TsType::TsImportType(*other))),
    decreases other,
{
    let type_params = maybe_type_args_to_defs(&other.type_args);
    let qualifier = match &other.qualifier {
        Some(name) => Some(ts_entity_name_to_name(name)),
        None => None,
    };
    let import_type_def = TsImportTypeDef {
        specifier: other.arg.value.clone(),
        qualifier,
        type_params,
    };
    assert(import_type_def@ == crate::described::import_type_def_of(*other));
    TsTypeDef::of_import_type(import_type_def)
}

/// The description of `(params) => T`.
pub fn ts_fn_type_to_fn_def(ts_fn_type: &TsFnType) -> (r: TsFnOrConstructorDef)
    ensures
        r@ == crate::described::fn_type_def(*ts_fn_type),
        crate::model::ts_fn_or_constructor_def_wf(r@),
    decreases ts_fn_type,
{
    let params = ts_fn_params_to_param_defs(&ts_fn_type.params);
    let type_params = maybe_type_param_decl_to_type_param_defs(ts_fn_type.type_params.as_ref());
    TsFnOrConstructorDef {
        constructor: false,
        ts_type: ts_type_ann_to_def(&ts_fn_type.type_ann),
        params,
        type_params,
    }
}

/// The description of `new (params) => T`.
pub fn ts_constructor_type_to_fn_def(ctor_type: &TsConstructorType) -> (r: TsFnOrConstructorDef)
    ensures
        r@ == crate::described::constructor_type_def(*ctor_type),
        crate::model::ts_fn_or_constructor_def_wf(r@),
    decreases ctor_type,
{
    let params = ts_fn_params_to_param_defs(&ctor_type.params);
    let type_params = maybe_type_param_decl_to_type_param_defs(ctor_type.type_params.as_ref());
    TsFnOrConstructorDef {
        constructor: true,
        ts_type: ts_type_ann_to_def(&ctor_type.type_ann),
        params,
        type_params,
    }
}

pub fn ts_fn_or_constructor_type_to_def(other: &TsFnOrConstructorType) -> (r: TsTypeDef)
    ensures
        r@ == ts_type_def_of(TsType::TsFnOrConstructorType(*other)),
        ts_type_def_wf(r@),
        r@.kind == Some(kind_of(TsType::TsFnOrConstructorType(*other))),
    decreases other,
{
    let fn_def = match other {
        TsFnOrConstructorType::TsFnType(ts_fn_type) => ts_fn_type_to_fn_def(ts_fn_type),
        TsFnOrConstructorType::TsConstructorType(ctor_type) => ts_constructor_type_to_fn_def(
            ctor_type,
        ),
    };
    TsTypeDef::of_fn_or_constructor(fn_def)
}

/// Describes a type expression. There is one case for each syntactic form, and
/// the node that comes back carries the tag of that form.
pub fn ts_type_to_def(other: &TsType) -> (r: TsTypeDef)
    ensures
        r@ == ts_type_def_of(*other),
        ts_type_def_wf(r@),
        r@.kind == Some(kind_of(*other)),
    decreases other,
{
    match other {
        TsType::TsKeywordType(keyword_type) => ts_keyword_type_to_def(keyword_type),
        TsType::TsThisType(this_type) => ts_this_type_to_def(this_type),
        TsType::TsFnOrConstructorType(fn_or_con_type) => ts_fn_or_constructor_type_to_def(
            fn_or_con_type,
        ),
        TsType::TsTypeRef(type_ref) => ts_type_ref_to_def(type_ref),
        TsType::TsTypeQuery(type_query) => ts_type_query_to_def(type_query),
        TsType::TsTypeLit(type_literal) => ts_type_lit_to_def(type_literal),
        TsType::TsArrayType(array_type) => ts_array_type_to_def(array_type),
        TsType::TsTupleType(tuple_type) => ts_tuple_type_to_def(tuple_type),
        TsType::TsOptionalType(optional_type) => ts_optional_type_to_def(optional_type),
        TsType::TsRestType(rest_type) => ts_rest_type_to_def(rest_type),
        TsType::TsUnionOrIntersectionType(union_or_inter) => ts_union_or_intersection_type_to_def(
            union_or_inter,
        ),
        TsType::TsConditionalType(conditional_type) => ts_conditional_type_to_def(conditional_type),
        TsType::TsInferType(infer_type) => ts_infer_type_to_def(infer_type),
        TsType::TsParenthesizedType(paren_type) => ts_parenthesized_type_to_def(paren_type),
        TsType::TsTypeOperator(type_op_type) => ts_type_operator_to_def(type_op_type),
        TsType::TsIndexedAccessType(indexed_access_type) => ts_indexed_access_type_to_def(
            indexed_access_type,
        ),
        TsType::TsMappedType(mapped_type) => ts_mapped_type_to_def(mapped_type),
        TsType::TsLitType(lit_type) => ts_lit_type_to_def(lit_type),
        TsType::TsTypePredicate(type_predicate_type) => ts_type_predicate_to_def(
            type_predicate_type,
        ),
        TsType::TsImportType(import_type) => ts_import_type_to_def(import_type),
    }
}

/// Describes the type of an annotation.
pub fn ts_type_ann_to_def(type_ann: &TsTypeAnn) -> (r: TsTypeDef)
    ensures
        r@ == ts_type_def_of(*type_ann.type_ann),
        ts_type_def_wf(r@),
        r@.kind == Some(kind_of(*type_ann.type_ann)),
    decreases type_ann,
{
    ts_type_to_def(&type_ann.type_ann)
}

} // verus!
