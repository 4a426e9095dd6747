//! Every description that comes from syntax or from inference is tagged throughout.

use crate::ast::{
    ArrayPat, ArrowExpr, AssignPat, BindingIdent, Expr, ExprOrSpread, FnExpr, Lit, ObjectPat,
    ObjectPatProp, Param, Pat, RestPat, TplElement, TsCallSignatureDecl, TsConditionalType,
    TsConstructSignatureDecl, TsFnOrConstructorType, TsFnParam, TsGetterSignature, TsImportType,
    TsIndexSignature, TsIndexedAccessType, TsLit, TsLitType, TsMappedType, TsMethodSignature,
    TsPropertySignature, TsSetterSignature, TsTupleElement, TsType, TsTypeAnn, TsTypeElement,
    TsTypeLit, TsTypeParam, TsTypeParamDecl, TsTypeParamInstantiation, TsTypePredicate, TsTypeRef,
    TsUnionOrIntersectionType,
};
use crate::described::{
    annotation_def, array_pat_param_def, arrow_fn_def, assign_pat_param_def, boxed_type_def,
    call_signature_of_member, conditional_type_def, constructor_type_def, fn_expr_def, fn_param_def,
    fn_param_defs, fn_type_def, function_param_defs, ident_param_def, import_type_def_of,
    index_signature_of_member, indexed_access_type_def, lit_type_def, mapped_type_def,
    member_call_signatures, member_index_signatures, member_methods, member_properties,
    merged_template, method_of_member, object_pat_param_def, object_pat_prop_def_of,
    object_pat_prop_defs, pat_element_defs, pat_param_def, pat_param_defs, piece_defs, present,
    property_of_member, quasi_pieces, rest_pat_param_def, return_type_def, sorted_by_span,
    string_literal_def, template_def, ts_type_def_of, tuple_element_defs, type_args_of,
    type_defs_of, type_literal_of, type_param_def_of, type_param_defs_of, type_pieces,
    type_predicate_def_of, type_ref_def_of, TemplatePiece,
};
use crate::infer::{
    any_array_def, array_type_from, collected, element_inferences, has_opaque, inferred,
    inferred_from_call, inferred_from_lit, inferred_from_new,
};
use crate::model::{
    array_def, keyword_def, literal_call_signature_def_all_tagged,
    literal_call_signature_def_tagged, literal_def_tagged, literal_index_signature_def_all_tagged,
    literal_index_signature_def_tagged, literal_method_def_all_tagged, literal_method_def_tagged,
    literal_property_def_all_tagged, literal_property_def_tagged, object_pat_prop_def_all_tagged,
    object_pat_prop_def_tagged, optional_def, optional_param_def_all_tagged, param_def_all_tagged,
    param_def_tagged, parenthesized_def, rest_def, ts_conditional_def_tagged,
    ts_fn_or_constructor_def_tagged, ts_import_type_def_tagged, ts_indexed_access_def_tagged,
    ts_infer_def_tagged, ts_mapped_type_def_tagged, ts_type_def_all_tagged, ts_type_def_tagged,
    ts_type_def_wf, ts_type_literal_def_tagged, ts_type_operator_def_tagged,
    ts_type_param_def_all_tagged, ts_type_param_def_tagged, ts_type_predicate_def_tagged,
    ts_type_ref_def_tagged, tuple_def, type_literal_def, union_def, TsTypeDefView,
};
use crate::tagged::lemma_ts_type_def_tagged_is_well_formed;
use crate::template::lemma_sorted_keeps;
use crate::ts_type::TsTypeDefKind;
use vstd::prelude::*;

verus! {

/// What holds of every entry that is there holds of every value that `present`
/// keeps.
pub proof fn lemma_present_keeps<T>(s: Seq<Option<T>>, holds: spec_fn(T) -> bool)
    requires
        forall|i: int| 0 <= i < s.len() && (#[trigger] s[i]) is Some ==> holds(s[i].unwrap()),
    ensures
        forall|i: int| 0 <= i < present(s).len() ==> holds(#[trigger] present(s)[i]),
    decreases s.len(),
{
    if s.len() > 0 {
        let front = s.drop_last();
        assert forall|i: int| 0 <= i < front.len() && (#[trigger] front[i]) is Some implies holds(
            front[i].unwrap(),
        ) by {
            assert(front[i] == s[i]);
        }
        lemma_present_keeps(front, holds);
        let kept = present(front);
        assert forall|i: int| 0 <= i < present(s).len() implies holds(#[trigger] present(s)[i]) by {
            if i < kept.len() {
                assert(present(s)[i] == kept[i]);
            } else {
                assert(s[s.len() - 1] is Some);
                assert(present(s)[i] == s[s.len() - 1].unwrap());
            }
        }
    }
}

/// The description of an annotation is tagged throughout.
pub proof fn lemma_annotation_tagged(type_ann: Option<TsTypeAnn>)
    ensures
        annotation_def(type_ann) matches Some(d) ==> ts_type_def_tagged(d),
    decreases type_ann, 0int,
{
    if let Some(ann) = type_ann {
        lemma_description_tagged(*ann.type_ann);
    }
}

/// The description of a type behind an optional box is tagged throughout.
pub proof fn lemma_boxed_type_tagged(ts_type: Option<Box<TsType>>)
    ensures
        boxed_type_def(ts_type) matches Some(d) ==> ts_type_def_tagged(d),
    decreases ts_type, 0int,
{
    if let Some(t) = ts_type {
        lemma_description_tagged(*t);
    }
}

/// The descriptions of a list of types are tagged and well formed.
pub proof fn lemma_types_tagged(types: Seq<Box<TsType>>)
    ensures
        ts_type_def_all_tagged(type_defs_of(types)),
    decreases types, 0int,
{
    assert forall|i: int| 0 <= i < types.len() implies
        ts_type_def_tagged(#[trigger] type_defs_of(types)[i]) by {
        lemma_description_tagged(*types[i]);
    }
}

/// The descriptions of type arguments are tagged throughout.
pub proof fn lemma_type_args_tagged(args: Option<TsTypeParamInstantiation>)
    ensures
        type_args_of(args) matches Some(types) ==> ts_type_def_all_tagged(types),
    decreases args, 0int,
{
    if let Some(inst) = args {
        lemma_types_tagged(inst.params@);
    }
}

/// The descriptions of the elements of a tuple are tagged throughout.
pub proof fn lemma_tuple_elements_tagged(elems: Seq<TsTupleElement>)
    ensures
        ts_type_def_all_tagged(tuple_element_defs(elems)),
    decreases elems, 0int,
{
    assert forall|i: int| 0 <= i < elems.len() implies ts_type_def_tagged(
        #[trigger] tuple_element_defs(elems)[i],
    ) by {
        lemma_description_tagged(elems[i].ty);
    }
}

/// The description of a generic parameter is tagged throughout.
pub proof fn lemma_type_param_tagged(param: TsTypeParam)
    ensures
        ts_type_param_def_tagged(type_param_def_of(param)),
    decreases param, 0int,
{
    lemma_boxed_type_tagged(param.constraint);
    lemma_boxed_type_tagged(param.default);
}

/// The descriptions of declared generic parameters are tagged throughout.
pub proof fn lemma_type_params_tagged(decl: Option<TsTypeParamDecl>)
    ensures
        ts_type_param_def_all_tagged(type_param_defs_of(decl)),
    decreases decl, 0int,
{
    if let Some(d) = decl {
        assert forall|i: int| 0 <= i < d.params@.len() implies ts_type_param_def_tagged(
            #[trigger] type_param_defs_of(decl)[i],
        ) by {
            lemma_type_param_tagged(d.params@[i]);
        }
    }
}

/// The description of a parameter that is an identifier is tagged throughout.
pub proof fn lemma_ident_param_tagged(ident: BindingIdent)
    ensures
        param_def_tagged(ident_param_def(ident)),
    decreases ident, 0int,
{
    lemma_annotation_tagged(ident.type_ann);
}

/// The description of an array pattern is tagged throughout.
pub proof fn lemma_array_pat_tagged(pat: ArrayPat)
    ensures
        param_def_tagged(array_pat_param_def(pat)),
    decreases pat, 0int,
{
    lemma_annotation_tagged(pat.type_ann);
    let elems = pat.elems@;
    assert forall|i: int| 0 <= i < elems.len() implies match #[trigger] pat_element_defs(elems)[i] {
        Some(p) => param_def_tagged(p),
        None => true,
    } by {
        if let Some(elem) = elems[i] {
            lemma_pat_tagged(elem);
        }
    }
    assert(optional_param_def_all_tagged(pat_element_defs(elems)));
}

/// The description of a rest pattern is tagged throughout.
pub proof fn lemma_rest_pat_tagged(pat: RestPat)
    ensures
        param_def_tagged(rest_pat_param_def(pat)),
    decreases pat, 0int,
{
    lemma_annotation_tagged(pat.type_ann);
    lemma_pat_tagged(*pat.arg);
}

/// The description of a property of an object pattern is tagged throughout.
pub proof fn lemma_object_pat_prop_tagged(prop: ObjectPatProp)
    ensures
        object_pat_prop_def_tagged(object_pat_prop_def_of(prop)),
    decreases prop, 0int,
{
    match prop {
        ObjectPatProp::Assign(_) => {},
        ObjectPatProp::KeyValue(key_value) => {
            lemma_pat_tagged(*key_value.value);
        },
        ObjectPatProp::Rest(rest) => {
            lemma_pat_tagged(*rest.arg);
        },
    }
}

/// The description of an object pattern is tagged throughout.
pub proof fn lemma_object_pat_tagged(pat: ObjectPat)
    ensures
        param_def_tagged(object_pat_param_def(pat)),
    decreases pat, 0int,
{
    lemma_annotation_tagged(pat.type_ann);
    let props = pat.props@;
    assert forall|i: int| 0 <= i < props.len() implies object_pat_prop_def_tagged(
        #[trigger] object_pat_prop_defs(props)[i],
    ) by {
        lemma_object_pat_prop_tagged(props[i]);
    }
    assert(object_pat_prop_def_all_tagged(object_pat_prop_defs(props)));
}

/// The description of a pattern with a default value is tagged throughout.
pub proof fn lemma_assign_pat_tagged(pat: AssignPat)
    ensures
        param_def_tagged(assign_pat_param_def(pat)),
    decreases pat, 0int,
{
    lemma_annotation_tagged(pat.type_ann);
    lemma_pat_tagged(*pat.left);
}

/// The description of a parameter of a function expression is tagged throughout.
pub proof fn lemma_pat_tagged(pat: Pat)
    ensures
        param_def_tagged(pat_param_def(pat)),
    decreases pat, 0int,
{
    match pat {
        Pat::Ident(ident) => lemma_ident_param_tagged(ident),
        Pat::Array(array) => lemma_array_pat_tagged(array),
        Pat::Rest(rest) => lemma_rest_pat_tagged(rest),
        Pat::Object(object) => lemma_object_pat_tagged(object),
        Pat::Assign(assign) => lemma_assign_pat_tagged(assign),
    }
}

/// The description of a parameter of a function type is tagged throughout.
pub proof fn lemma_fn_param_tagged(param: TsFnParam)
    ensures
        param_def_tagged(fn_param_def(param)),
    decreases param, 0int,
{
    match param {
        TsFnParam::Ident(ident) => lemma_ident_param_tagged(ident),
        TsFnParam::Array(array) => lemma_array_pat_tagged(array),
        TsFnParam::Rest(rest) => lemma_rest_pat_tagged(rest),
        TsFnParam::Object(object) => lemma_object_pat_tagged(object),
    }
}

/// The descriptions of the parameters of a function type are tagged throughout.
pub proof fn lemma_fn_params_tagged(params: Seq<TsFnParam>)
    ensures
        param_def_all_tagged(fn_param_defs(params)),
    decreases params, 0int,
{
    assert forall|i: int| 0 <= i < params.len() implies param_def_tagged(
        #[trigger] fn_param_defs(params)[i],
    ) by {
        lemma_fn_param_tagged(params[i]);
    }
}

/// The descriptions of the parameters of an arrow function are tagged throughout.
pub proof fn lemma_pat_params_tagged(params: Seq<Pat>)
    ensures
        param_def_all_tagged(pat_param_defs(params)),
    decreases params, 0int,
{
    assert forall|i: int| 0 <= i < params.len() implies param_def_tagged(
        #[trigger] pat_param_defs(params)[i],
    ) by {
        lemma_pat_tagged(params[i]);
    }
}

/// The descriptions of the parameters of a function expression are tagged
/// throughout.
pub proof fn lemma_function_params_tagged(params: Seq<Param>)
    ensures
        param_def_all_tagged(function_param_defs(params)),
    decreases params, 0int,
{
    assert forall|i: int| 0 <= i < params.len() implies param_def_tagged(
        #[trigger] function_param_defs(params)[i],
    ) by {
        lemma_pat_tagged(params[i].pat);
    }
}

/// Whether whatever a member of a type literal gives to one of the four lists
/// is tagged throughout.
pub open spec fn member_entries_tagged(member: TsTypeElement) -> bool {
    &&& method_of_member(member) matches Some(m) ==> literal_method_def_tagged(m)
    &&& property_of_member(member) matches Some(p) ==> literal_property_def_tagged(p)
    &&& call_signature_of_member(member) matches Some(c) ==> literal_call_signature_def_tagged(c)
    &&& index_signature_of_member(member) matches Some(x) ==> literal_index_signature_def_tagged(x)
}

/// What a method signature gives to the four lists is tagged throughout.
pub proof fn lemma_ts_method_signature_tagged(m: TsMethodSignature)
    ensures
        member_entries_tagged(TsTypeElement::TsMethodSignature(m)),
    decreases m, 0int,
{
    lemma_fn_params_tagged(m.params@);
    lemma_annotation_tagged(m.type_ann);
    lemma_type_params_tagged(m.type_params);
}

/// What a getter gives to the four lists is tagged throughout.
pub proof fn lemma_ts_getter_signature_tagged(g: TsGetterSignature)
    ensures
        member_entries_tagged(TsTypeElement::TsGetterSignature(g)),
    decreases g, 0int,
{
    lemma_annotation_tagged(g.type_ann);
}

/// What a setter gives to the four lists is tagged throughout.
pub proof fn lemma_ts_setter_signature_tagged(s: TsSetterSignature)
    ensures
        member_entries_tagged(TsTypeElement::TsSetterSignature(s)),
    decreases s, 0int,
{
    lemma_fn_param_tagged(s.param);
    assert(param_def_all_tagged(seq![fn_param_def(s.param)]));
}

/// What a construct signature gives to the four lists is tagged throughout.
pub proof fn lemma_ts_construct_signature_decl_tagged(c: TsConstructSignatureDecl)
    ensures
        member_entries_tagged(TsTypeElement::TsConstructSignatureDecl(c)),
    decreases c, 0int,
{
    lemma_fn_params_tagged(c.params@);
    lemma_annotation_tagged(c.type_ann);
    lemma_type_params_tagged(c.type_params);
}

/// What a property signature gives to the four lists is tagged throughout.
pub proof fn lemma_ts_property_signature_tagged(p: TsPropertySignature)
    ensures
        member_entries_tagged(TsTypeElement::TsPropertySignature(p)),
    decreases p, 0int,
{
    lemma_fn_params_tagged(p.params@);
    lemma_annotation_tagged(p.type_ann);
    lemma_type_params_tagged(p.type_params);
}

/// What a call signature gives to the four lists is tagged throughout.
pub proof fn lemma_ts_call_signature_decl_tagged(c: TsCallSignatureDecl)
    ensures
        member_entries_tagged(TsTypeElement::TsCallSignatureDecl(c)),
    decreases c, 0int,
{
    lemma_fn_params_tagged(c.params@);
    lemma_annotation_tagged(c.type_ann);
    lemma_type_params_tagged(c.type_params);
}

/// What an index signature gives to the four lists is tagged throughout.
pub proof fn lemma_ts_index_signature_tagged(x: TsIndexSignature)
    ensures
        member_entries_tagged(TsTypeElement::TsIndexSignature(x)),
    decreases x, 0int,
{
    lemma_fn_params_tagged(x.params@);
    lemma_annotation_tagged(x.type_ann);
}

/// Whatever a member of a type literal gives to one of the four lists is tagged
/// throughout.
pub proof fn lemma_member_tagged(member: TsTypeElement)
    ensures
        member_entries_tagged(member),
    decreases member, 1int,
{
    match member {
        TsTypeElement::TsMethodSignature(m) => lemma_ts_method_signature_tagged(m),
        TsTypeElement::TsGetterSignature(g) => lemma_ts_getter_signature_tagged(g),
        TsTypeElement::TsSetterSignature(s) => lemma_ts_setter_signature_tagged(s),
        TsTypeElement::TsConstructSignatureDecl(c) => lemma_ts_construct_signature_decl_tagged(c),
        TsTypeElement::TsPropertySignature(p) => lemma_ts_property_signature_tagged(p),
        TsTypeElement::TsCallSignatureDecl(c) => lemma_ts_call_signature_decl_tagged(c),
        TsTypeElement::TsIndexSignature(x) => lemma_ts_index_signature_tagged(x),
    }
}

/// The four lists of a type literal are tagged throughout.
pub proof fn lemma_members_tagged(members: Seq<TsTypeElement>)
    ensures
        ts_type_literal_def_tagged(type_literal_of(members)),
    decreases members, 0int,
{
    assert forall|i: int| 0 <= i < members.len() implies member_entries_tagged(
        #[trigger] members[i],
    ) by {
        lemma_member_tagged(members[i]);
    }
    let methods = member_methods(members);
    assert forall|i: int| 0 <= i < methods.len() && (#[trigger] methods[i]) is Some implies
        literal_method_def_tagged(methods[i].unwrap()) by {
        assert(member_entries_tagged(members[i]));
    }
    lemma_present_keeps(methods, |m| literal_method_def_tagged(m));
    let properties = member_properties(members);
    assert forall|i: int| 0 <= i < properties.len() && (#[trigger] properties[i]) is Some implies
        literal_property_def_tagged(properties[i].unwrap()) by {
        assert(member_entries_tagged(members[i]));
    }
    lemma_present_keeps(properties, |p| literal_property_def_tagged(p));
    let calls = member_call_signatures(members);
    assert forall|i: int| 0 <= i < calls.len() && (#[trigger] calls[i]) is Some implies
        literal_call_signature_def_tagged(calls[i].unwrap()) by {
        assert(member_entries_tagged(members[i]));
    }
    lemma_present_keeps(calls, |c| literal_call_signature_def_tagged(c));
    let indexes = member_index_signatures(members);
    assert forall|i: int| 0 <= i < indexes.len() && (#[trigger] indexes[i]) is Some implies
        literal_index_signature_def_tagged(indexes[i].unwrap()) by {
        assert(member_entries_tagged(members[i]));
    }
    lemma_present_keeps(indexes, |x| literal_index_signature_def_tagged(x));
    let literal = type_literal_of(members);
    assert(literal_method_def_all_tagged(literal.methods));
    assert(literal_property_def_all_tagged(literal.properties));
    assert(literal_call_signature_def_all_tagged(literal.call_signatures));
    assert(literal_index_signature_def_all_tagged(literal.index_signatures));
}

/// The literal type of a string is a tagged, well-formed node.
pub proof fn lemma_string_literal_tagged(value: Seq<char>)
    ensures
        ts_type_def_tagged(string_literal_def(value)),
{
    let node = string_literal_def(value);
    assert(literal_def_tagged(node.literal.unwrap()));
}

/// A template made of tagged, well-formed pieces is tagged throughout.
pub proof fn lemma_merged_template_tagged(pieces: Seq<TemplatePiece>)
    requires
        forall|i: int| 0 <= i < pieces.len() ==> ts_type_def_tagged((#[trigger] pieces[i]).def),
    ensures
        ts_type_def_tagged(merged_template(pieces)),
{
    let holds = |p: TemplatePiece| ts_type_def_tagged(p.def);
    lemma_sorted_keeps(pieces, holds);
    let sorted = sorted_by_span(pieces);
    assert forall|i: int| 0 <= i < sorted.len() implies ts_type_def_tagged(
        #[trigger] piece_defs(sorted)[i],
    ) by {
        assert(holds(sorted[i]));
    }
    assert(ts_type_def_all_tagged(piece_defs(sorted)));
    let node = merged_template(pieces);
    let literal = node.literal.unwrap();
    assert(literal.ts_types == Some(piece_defs(sorted)));
    assert(literal_def_tagged(literal));
}

/// The template of some chunks and interpolated types is tagged throughout.
pub proof fn lemma_template_tagged(types: Seq<Box<TsType>>, quasis: Seq<TplElement>)
    ensures
        ts_type_def_tagged(template_def(types, quasis)),
    decreases types, 0int,
{
    let pieces = type_pieces(types) + quasi_pieces(quasis);
    assert forall|i: int| 0 <= i < pieces.len() implies
        ts_type_def_tagged((#[trigger] pieces[i]).def) by {
        if i < types.len() {
            assert(pieces[i] == type_pieces(types)[i]);
            lemma_description_tagged(*types[i]);
            assert(pieces[i].def == ts_type_def_of(*types[i]));
        } else {
            let j = i - types.len();
            assert(pieces[i] == quasi_pieces(quasis)[j]);
            lemma_string_literal_tagged(quasis[j].raw@);
        }
    }
    lemma_merged_template_tagged(pieces);
}

/// The description of a function or constructor type is tagged throughout.
pub proof fn lemma_fn_type_tagged(f: TsFnOrConstructorType)
    ensures
        ts_type_def_tagged(ts_type_def_of(TsType::TsFnOrConstructorType(f))),
    decreases f, 0int,
{
    match f {
        TsFnOrConstructorType::TsFnType(f) => {
            lemma_description_tagged(*f.type_ann.type_ann);
            lemma_fn_params_tagged(f.params@);
            lemma_type_params_tagged(f.type_params);
            assert(ts_fn_or_constructor_def_tagged(fn_type_def(f)));
        },
        TsFnOrConstructorType::TsConstructorType(c) => {
            lemma_description_tagged(*c.type_ann.type_ann);
            lemma_fn_params_tagged(c.params@);
            lemma_type_params_tagged(c.type_params);
            assert(ts_fn_or_constructor_def_tagged(constructor_type_def(c)));
        },
    }
}

/// The description of a type reference is tagged throughout.
pub proof fn lemma_type_ref_tagged(r: TsTypeRef)
    ensures
        ts_type_def_tagged(ts_type_def_of(TsType::TsTypeRef(r))),
    decreases r, 0int,
{
    lemma_type_args_tagged(r.type_params);
    assert(ts_type_def_of(TsType::TsTypeRef(r)) == type_ref_def_of(r));
    assert(ts_type_ref_def_tagged(type_ref_def_of(r).type_ref.unwrap()));
}

/// The description of a type literal is tagged throughout.
pub proof fn lemma_type_lit_tagged(l: TsTypeLit)
    ensures
        ts_type_def_tagged(ts_type_def_of(TsType::TsTypeLit(l))),
    decreases l, 0int,
{
    lemma_members_tagged(l.members@);
    assert(ts_type_literal_def_tagged(type_literal_of(l.members@)));
    assert(ts_type_def_of(TsType::TsTypeLit(l)) == type_literal_def(type_literal_of(l.members@)));
}

/// The description of a union or of an intersection is tagged throughout.
pub proof fn lemma_union_or_intersection_tagged(u: TsUnionOrIntersectionType)
    ensures
        ts_type_def_tagged(ts_type_def_of(TsType::TsUnionOrIntersectionType(u))),
    decreases u, 0int,
{
    match u {
        TsUnionOrIntersectionType::TsUnionType(u) => {
            lemma_types_tagged(u.types@);
        },
        TsUnionOrIntersectionType::TsIntersectionType(i) => {
            lemma_types_tagged(i.types@);
        },
    }
}

/// The description of a conditional type is tagged throughout.
pub proof fn lemma_conditional_tagged(c: TsConditionalType)
    ensures
        ts_type_def_tagged(ts_type_def_of(TsType::TsConditionalType(c))),
    decreases c, 0int,
{
    lemma_description_tagged(*c.check_type);
    lemma_description_tagged(*c.extends_type);
    lemma_description_tagged(*c.true_type);
    lemma_description_tagged(*c.false_type);
    assert(ts_conditional_def_tagged(conditional_type_def(c)));
}

/// The description of an indexed access is tagged throughout.
pub proof fn lemma_indexed_access_tagged(a: TsIndexedAccessType)
    ensures
        ts_type_def_tagged(ts_type_def_of(TsType::TsIndexedAccessType(a))),
    decreases a, 0int,
{
    lemma_description_tagged(*a.obj_type);
    lemma_description_tagged(*a.index_type);
    assert(ts_indexed_access_def_tagged(indexed_access_type_def(a)));
}

/// The description of a mapped type is tagged throughout.
pub proof fn lemma_mapped_type_tagged(m: TsMappedType)
    ensures
        ts_type_def_tagged(ts_type_def_of(TsType::TsMappedType(m))),
    decreases m, 0int,
{
    lemma_type_param_tagged(m.type_param);
    if let Some(n) = m.name_type {
        lemma_description_tagged(*n);
    }
    if let Some(a) = m.type_ann {
        lemma_description_tagged(*a);
    }
    assert(ts_mapped_type_def_tagged(mapped_type_def(m)));
}

/// The description of a literal type is tagged throughout.
pub proof fn lemma_lit_type_tagged(l: TsLitType)
    ensures
        ts_type_def_tagged(ts_type_def_of(TsType::TsLitType(l))),
    decreases l, 0int,
{
    let node = ts_type_def_of(TsType::TsLitType(l));
    assert(node == lit_type_def(l.lit));
    match l.lit {
        TsLit::Tpl(tpl) => {
            lemma_template_tagged(tpl.types@, tpl.quasis@);
            assert(lit_type_def(l.lit) == template_def(tpl.types@, tpl.quasis@));
        },
        TsLit::Str(s) => {
            lemma_string_literal_tagged(s.value@);
        },
        _ => {
            assert(literal_def_tagged(node.literal.unwrap()));
        },
    }
}

/// The description of a type predicate is tagged throughout.
pub proof fn lemma_type_predicate_tagged(p: TsTypePredicate)
    ensures
        ts_type_def_tagged(ts_type_def_of(TsType::TsTypePredicate(p))),
    decreases p, 0int,
{
    if let Some(ann) = p.type_ann {
        lemma_description_tagged(*ann.type_ann);
    }
    assert(ts_type_predicate_def_tagged(type_predicate_def_of(p)));
}

/// The description of an import type is tagged throughout.
pub proof fn lemma_import_type_tagged(i: TsImportType)
    ensures
        ts_type_def_tagged(ts_type_def_of(TsType::TsImportType(i))),
    decreases i, 0int,
{
    lemma_type_args_tagged(i.type_args);
    assert(ts_import_type_def_tagged(import_type_def_of(i)));
}

/// The description of a type that wraps other types in one step (an array, a
/// tuple, an optional, rest or parenthesized type, a type operator, `infer`)
/// is tagged throughout.
pub proof fn lemma_wrapping_type_tagged(t: TsType)
    requires
        t is TsArrayType || t is TsOptionalType || t is TsRestType || t is TsParenthesizedType
            || t is TsTypeOperator || t is TsTupleType || t is TsInferType,
    ensures
        ts_type_def_tagged(ts_type_def_of(t)),
    decreases t, 0int,
{
    let d = ts_type_def_of(t);
    match t {
        TsType::TsArrayType(a) => {
            lemma_description_tagged(*a.elem_type);
            assert(d == array_def(ts_type_def_of(*a.elem_type)));
        },
        TsType::TsOptionalType(o) => {
            lemma_description_tagged(*o.type_ann);
            assert(d == optional_def(ts_type_def_of(*o.type_ann)));
        },
        TsType::TsRestType(r) => {
            lemma_description_tagged(*r.type_ann);
            assert(d == rest_def(ts_type_def_of(*r.type_ann)));
        },
        TsType::TsParenthesizedType(p) => {
            lemma_description_tagged(*p.type_ann);
            assert(d == parenthesized_def(ts_type_def_of(*p.type_ann)));
        },
        TsType::TsTypeOperator(o) => {
            lemma_description_tagged(*o.type_ann);
            assert(ts_type_operator_def_tagged(*d.type_operator.unwrap()));
        },
        TsType::TsTupleType(tuple) => {
            lemma_tuple_elements_tagged(tuple.elem_types@);
            assert(d == tuple_def(tuple_element_defs(tuple.elem_types@)));
        },
        TsType::TsInferType(i) => {
            lemma_type_param_tagged(i.type_param);
            assert(ts_infer_def_tagged(d.infer.unwrap()));
        },
        _ => {},
    }
}

/// Every description of a type expression is a tagged node that holds exactly
/// the payload of its tag, and so is every node below it.
pub proof fn lemma_description_tagged(t: TsType)
    ensures
        ts_type_def_tagged(ts_type_def_of(t)),
    decreases t, 1int,
{
    match t {
        TsType::TsKeywordType(_) => {},
        TsType::TsThisType(_) => {},
        TsType::TsTypeQuery(_) => {},
        TsType::TsFnOrConstructorType(f) => lemma_fn_type_tagged(f),
        TsType::TsTypeRef(r) => lemma_type_ref_tagged(r),
        TsType::TsTypeLit(l) => lemma_type_lit_tagged(l),
        TsType::TsUnionOrIntersectionType(u) => lemma_union_or_intersection_tagged(u),
        TsType::TsConditionalType(c) => lemma_conditional_tagged(c),
        TsType::TsIndexedAccessType(a) => lemma_indexed_access_tagged(a),
        TsType::TsMappedType(m) => lemma_mapped_type_tagged(m),
        TsType::TsLitType(l) => lemma_lit_type_tagged(l),
        TsType::TsTypePredicate(p) => lemma_type_predicate_tagged(p),
        TsType::TsImportType(i) => lemma_import_type_tagged(i),
        _ => lemma_wrapping_type_tagged(t),
    }
}

/// The function type of an arrow function is tagged throughout.
pub proof fn lemma_arrow_fn_tagged(expr: ArrowExpr)
    ensures
        ts_fn_or_constructor_def_tagged(arrow_fn_def(expr)),
{
    lemma_annotation_tagged(expr.return_type);
    assert(ts_type_def_tagged(return_type_def(expr.return_type)));
    lemma_pat_params_tagged(expr.params@);
    lemma_type_params_tagged(expr.type_params);
}

/// The function type of a function expression is tagged throughout.
pub proof fn lemma_fn_expr_tagged(expr: FnExpr)
    ensures
        ts_fn_or_constructor_def_tagged(fn_expr_def(expr)),
{
    lemma_annotation_tagged(expr.function.return_type);
    assert(ts_type_def_tagged(return_type_def(expr.function.return_type)));
    lemma_function_params_tagged(expr.function.params@);
    lemma_type_params_tagged(expr.function.type_params);
}

/// What holds of the type of every element holds of every collected type.
pub proof fn lemma_collected_keeps(
    items: Seq<Option<Option<TsTypeDefView>>>,
    holds: spec_fn(TsTypeDefView) -> bool,
)
    requires
        forall|i: int|
            0 <= i < items.len() ==> ((#[trigger] items[i]) matches Some(Some(t)) ==> holds(t)),
    ensures
        forall|i: int| 0 <= i < collected(items).len() ==> holds(#[trigger] collected(items)[i]),
    decreases items.len(),
{
    if items.len() > 0 {
        let front = items.drop_last();
        assert forall|i: int| 0 <= i < front.len() implies ((#[trigger] front[i]) matches Some(
            Some(t),
        ) ==> holds(t)) by {
            assert(front[i] == items[i]);
        }
        lemma_collected_keeps(front, holds);
        let before = collected(front);
        assert(items[items.len() - 1] == items.last());
        assert forall|i: int| 0 <= i < collected(items).len() implies holds(
            #[trigger] collected(items)[i],
        ) by {
            if i < before.len() {
                assert(collected(items)[i] == before[i]);
            }
        }
    }
}

/// The type of an array literal is tagged throughout where the types of its
/// elements are.
pub proof fn lemma_array_type_tagged(items: Seq<Option<Option<TsTypeDefView>>>)
    requires
        forall|i: int|
            0 <= i < items.len() ==> ((#[trigger] items[i]) matches Some(Some(t))
                ==> ts_type_def_tagged(t)),
    ensures
        array_type_from(items) matches Some(d) ==> ts_type_def_tagged(d),
{
    lemma_collected_keeps(items, |t: TsTypeDefView| ts_type_def_tagged(t));
    let types = collected(items);
    if has_opaque(items) {
        assert(ts_type_def_tagged(keyword_def("any"@, "any"@)));
        assert(ts_type_def_tagged(any_array_def()));
    } else if types.len() == 1 {
        assert(ts_type_def_tagged(types[0]));
        assert(ts_type_def_tagged(array_def(types[0])));
    } else if types.len() > 1 {
        assert(ts_type_def_all_tagged(types));
        assert(ts_type_def_tagged(union_def(types)));
        assert(ts_type_def_tagged(array_def(union_def(types))));
    }
}

/// The types that the elements of an array literal give are tagged throughout.
pub proof fn lemma_elements_tagged(elems: Seq<Option<ExprOrSpread>>, is_const: bool)
    ensures
        forall|i: int|
            0 <= i < elems.len() ==> ((#[trigger] element_inferences(
                elems,
                is_const,
            )[i]) matches Some(Some(t)) ==> ts_type_def_tagged(t)),
    decreases elems, 0int,
{
    assert forall|i: int| 0 <= i < elems.len() implies ((#[trigger] element_inferences(
        elems,
        is_const,
    )[i]) matches Some(Some(t)) ==> ts_type_def_tagged(t)) by {
        if let Some(elem) = elems[i] {
            if elem.spread is None {
                lemma_inferred_tagged(*elem.expr, is_const);
            }
        }
    }
}

/// The type read off a literal is tagged throughout.
pub proof fn lemma_inferred_from_lit_tagged(lit: Lit, is_const: bool)
    ensures
        inferred_from_lit(lit, is_const) matches Some(d) ==> ts_type_def_tagged(d),
{
    if let Some(d) = inferred_from_lit(lit, is_const) {
        match lit {
            Lit::Str(s) => {
                lemma_string_literal_tagged(s.value@);
            },
            Lit::Regex(_) => {
                assert(ts_type_ref_def_tagged(d.type_ref.unwrap()));
            },
            _ => {
                if is_const {
                    assert(literal_def_tagged(d.literal.unwrap()));
                }
            },
        }
    }
}

/// Whatever is inferred from an initializer is a tagged, well-formed node.
pub proof fn lemma_inferred_tagged(expr: Expr, is_const: bool)
    ensures
        inferred(expr, is_const) matches Some(d) ==> ts_type_def_tagged(d),
    decreases expr, 1int,
{
    match expr {
        Expr::Array(arr_lit) => {
            lemma_elements_tagged(arr_lit.elems@, is_const);
            lemma_array_type_tagged(element_inferences(arr_lit.elems@, is_const));
        },
        Expr::Arrow(arrow) => {
            lemma_arrow_fn_tagged(arrow);
        },
        Expr::Fn(function) => {
            lemma_fn_expr_tagged(function);
        },
        Expr::Lit(lit) => {
            lemma_inferred_from_lit_tagged(lit, is_const);
        },
        Expr::New(new_expr) => {
            lemma_type_args_tagged(new_expr.type_args);
            if let Some(d) = inferred_from_new(new_expr) {
                assert(ts_type_ref_def_tagged(d.type_ref.unwrap()));
            }
        },
        Expr::Tpl(tpl) => {
            lemma_template_tagged(Seq::<Box<TsType>>::empty(), tpl.quasis@);
        },
        Expr::TsConstAssertion(assertion) => {
            lemma_inferred_tagged(*assertion.expr, true);
        },
        Expr::Call(call) => {
            if let Some(d) = inferred_from_call(call) {
                if d.kind == Some(TsTypeDefKind::TypeRef) {
                    assert(ts_type_ref_def_tagged(d.type_ref.unwrap()));
                }
            }
        },
        _ => {},
    }
}

/// Every description of a type expression is a tagged, well-formed node.
pub proof fn lemma_description_well_formed(t: TsType)
    ensures
        ts_type_def_of(t).kind is Some,
        ts_type_def_wf(ts_type_def_of(t)),
{
    lemma_description_tagged(t);
    lemma_ts_type_def_tagged_is_well_formed(ts_type_def_of(t));
}

/// Whatever is inferred from an initializer is a tagged, well-formed node.
pub proof fn lemma_inferred_well_formed(expr: Expr, is_const: bool)
    ensures
        inferred(expr, is_const) matches Some(d) ==> d.kind is Some && ts_type_def_wf(d),
{
    lemma_inferred_tagged(expr, is_const);
    if let Some(d) = inferred(expr, is_const) {
        lemma_ts_type_def_tagged_is_well_formed(d);
    }
}

} // verus!
