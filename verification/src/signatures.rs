//! The members of a type literal, sorted into methods, properties, call
//! signatures and index signatures.

use crate::ast::{
    MethodKind, TsCallSignatureDecl, TsConstructSignatureDecl, TsGetterSignature, TsIndexSignature,
    TsMethodSignature, TsPropertySignature, TsSetterSignature, TsType, TsTypeElement, TsTypeLit,
};
use crate::described::{
    call_signature_of_member, index_signature_of_member, kind_of, member_call_signatures,
    member_index_signatures, member_methods, member_properties, method_of_member, present,
    property_of_member, ts_type_def_of, type_literal_of,
};
use crate::model::{
    literal_call_signature_def_all_wf, literal_call_signature_def_views,
    literal_call_signature_def_wf, literal_index_signature_def_all_wf,
    literal_index_signature_def_views, literal_index_signature_def_wf, literal_method_def_all_wf,
    literal_method_def_views, literal_method_def_wf, literal_property_def_all_wf,
    literal_property_def_views, literal_property_def_wf, ts_type_def_wf,
};
use crate::names::expr_to_name;
use crate::params::{maybe_type_ann_to_def, ts_fn_param_to_param_def, ts_fn_params_to_param_defs};
use crate::ts_type::{
    LiteralCallSignatureDef, LiteralIndexSignatureDef, LiteralMethodDef, LiteralPropertyDef,
    TsTypeDef, TsTypeLiteralDef,
};
use crate::ts_type_param::maybe_type_param_decl_to_type_param_defs;
use vstd::prelude::*;

verus! {

/// Taking one more entry into account adds its value, if it has one, at the end.
pub proof fn lemma_present_push<T>(s: Seq<Option<T>>, entry: Option<T>)
    ensures
        present(s.push(entry)) == if entry is Some {
            present(s).push(entry.unwrap())
        } else {
            present(s)
        },
{
    assert(s.push(entry).drop_last() =~= s);
}

pub(crate) fn ts_method_signature_to_def(ts_method_sig: &TsMethodSignature) -> (r: LiteralMethodDef)
    ensures
        Some(r@) == method_of_member(TsTypeElement::TsMethodSignature(*ts_method_sig)),
        literal_method_def_wf(r@),
    decreases ts_method_sig,
{
    let params = ts_fn_params_to_param_defs(&ts_method_sig.params);
    let maybe_return_type = maybe_type_ann_to_def(&ts_method_sig.type_ann);
    let type_params = maybe_type_param_decl_to_type_param_defs(ts_method_sig.type_params.as_ref());
    let name = expr_to_name(&ts_method_sig.key);
    LiteralMethodDef {
        name,
        kind: MethodKind::Method,
        params,
        computed: ts_method_sig.computed,
        optional: ts_method_sig.optional,
        return_type: maybe_return_type,
        type_params,
    }
}

pub(crate) fn ts_getter_signature_to_def(ts_getter_sig: &TsGetterSignature) -> (r: LiteralMethodDef)
    ensures
        Some(r@) == method_of_member(TsTypeElement::TsGetterSignature(*ts_getter_sig)),
        literal_method_def_wf(r@),
    decreases ts_getter_sig,
{
    let maybe_return_type = maybe_type_ann_to_def(&ts_getter_sig.type_ann);
    let name = expr_to_name(&ts_getter_sig.key);
    let r = LiteralMethodDef {
        name,
        kind: MethodKind::Getter,
        params: Vec::new(),
        computed: ts_getter_sig.computed,
        optional: ts_getter_sig.optional,
        return_type: maybe_return_type,
        type_params: Vec::new(),
    };
    proof {
        assert(r@.params =~= Seq::empty());
        assert(r@.type_params =~= Seq::empty());
    }
    r
}

pub(crate) fn ts_setter_signature_to_def(ts_setter_sig: &TsSetterSignature) -> (r: LiteralMethodDef)
    ensures
        Some(r@) == method_of_member(TsTypeElement::TsSetterSignature(*ts_setter_sig)),
        literal_method_def_wf(r@),
    decreases ts_setter_sig,
{
    let name = expr_to_name(&ts_setter_sig.key);
    let param = ts_fn_param_to_param_def(&ts_setter_sig.param);
    let ghost param_view = param@;
    let mut params = Vec::new();
    params.push(param);
    let r = LiteralMethodDef {
        name,
        kind: MethodKind::Setter,
        params,
        computed: ts_setter_sig.computed,
        optional: ts_setter_sig.optional,
        return_type: None,
        type_params: Vec::new(),
    };
    proof {
        assert(r@.params =~= seq![param_view]);
        assert(r@.type_params =~= Seq::empty());
    }
    r
}

pub(crate) fn ts_property_signature_to_def(
    ts_prop_sig: &TsPropertySignature,
) -> (r: LiteralPropertyDef)
    ensures
        Some(r@) == property_of_member(TsTypeElement::TsPropertySignature(*ts_prop_sig)),
        literal_property_def_wf(r@),
    decreases ts_prop_sig,
{
    let name = expr_to_name(&ts_prop_sig.key);
    let params = ts_fn_params_to_param_defs(&ts_prop_sig.params);
    let ts_type = maybe_type_ann_to_def(&ts_prop_sig.type_ann);
    let type_params = maybe_type_param_decl_to_type_param_defs(ts_prop_sig.type_params.as_ref());
    LiteralPropertyDef {
        name,
        params,
        ts_type,
        readonly: ts_prop_sig.readonly,
        computed: ts_prop_sig.computed,
        optional: ts_prop_sig.optional,
        type_params,
    }
}

pub(crate) fn ts_call_signature_to_def(
    ts_call_sig: &TsCallSignatureDecl,
) -> (r: LiteralCallSignatureDef)
    ensures
        Some(r@) == call_signature_of_member(TsTypeElement::TsCallSignatureDecl(*ts_call_sig)),
        literal_call_signature_def_wf(r@),
    decreases ts_call_sig,
{
    let params = ts_fn_params_to_param_defs(&ts_call_sig.params);
    let ts_type = maybe_type_ann_to_def(&ts_call_sig.type_ann);
    let type_params = maybe_type_param_decl_to_type_param_defs(ts_call_sig.type_params.as_ref());
    LiteralCallSignatureDef { params, ts_type, type_params }
}

pub(crate) fn ts_index_signature_to_def(
    ts_index_sig: &TsIndexSignature,
) -> (r: LiteralIndexSignatureDef)
    ensures
        Some(r@) == index_signature_of_member(TsTypeElement::TsIndexSignature(*ts_index_sig)),
        literal_index_signature_def_wf(r@),
    decreases ts_index_sig,
{
    let params = ts_fn_params_to_param_defs(&ts_index_sig.params);
    let ts_type = maybe_type_ann_to_def(&ts_index_sig.type_ann);
    LiteralIndexSignatureDef { readonly: ts_index_sig.readonly, params, ts_type }
}

pub(crate) fn ts_construct_signature_to_def(
    ts_construct_sig: &TsConstructSignatureDecl,
) -> (r: LiteralMethodDef)
    ensures
        Some(r@) == method_of_member(TsTypeElement::TsConstructSignatureDecl(*ts_construct_sig)),
        literal_method_def_wf(r@),
    decreases ts_construct_sig,
{
    let params = ts_fn_params_to_param_defs(&ts_construct_sig.params);
    let type_params = maybe_type_param_decl_to_type_param_defs(
        ts_construct_sig.type_params.as_ref(),
    );
    let maybe_return_type = maybe_type_ann_to_def(&ts_construct_sig.type_ann);
    LiteralMethodDef {
        name: String::from_str("new"),
        kind: MethodKind::Method,
        computed: false,
        optional: false,
        params,
        return_type: maybe_return_type,
        type_params,
    }
}

/// Taking the entry at `n` into account adds its value, if it has one, at the
/// end of what the entries before it give.
pub proof fn lemma_present_step<T>(s: Seq<Option<T>>, n: int)
    requires
        0 <= n < s.len(),
    ensures
        present(s.take(n + 1)) == if s[n] is Some {
            present(s.take(n)).push(s[n].unwrap())
        } else {
            present(s.take(n))
        },
{
    assert(s.take(n + 1) =~= s.take(n).push(s[n]));
    lemma_present_push(s.take(n), s[n]);
}

pub(crate) fn push_method(methods: &mut Vec<LiteralMethodDef>, method: LiteralMethodDef)
    ensures
        literal_method_def_views(final(methods)@) == literal_method_def_views(old(methods)@).push(
            method@,
        ),
        literal_method_def_all_wf(literal_method_def_views(old(methods)@))
            && literal_method_def_wf(method@) ==> literal_method_def_all_wf(
            literal_method_def_views(final(methods)@),
        ),
{
    let ghost before = literal_method_def_views(methods@);
    let ghost view = method@;
    methods.push(method);
    proof {
        let now = literal_method_def_views(methods@);
        assert(now =~= before.push(view));
        if literal_method_def_all_wf(before) && literal_method_def_wf(view) {
            assert forall|i: int| 0 <= i < now.len() implies literal_method_def_wf(
                #[trigger] now[i],
            ) by {
                if i < before.len() {
                    assert(now[i] == before[i]);
                }
            }
        }
    }
}

pub(crate) fn push_property(properties: &mut Vec<LiteralPropertyDef>, property: LiteralPropertyDef)
    ensures
        literal_property_def_views(final(properties)@) == literal_property_def_views(
            old(properties)@,
        ).push(property@),
        literal_property_def_all_wf(literal_property_def_views(old(properties)@))
            && literal_property_def_wf(property@) ==> literal_property_def_all_wf(
            literal_property_def_views(final(properties)@),
        ),
{
    let ghost before = literal_property_def_views(properties@);
    let ghost view = property@;
    properties.push(property);
    proof {
        let now = literal_property_def_views(properties@);
        assert(now =~= before.push(view));
        if literal_property_def_all_wf(before) && literal_property_def_wf(view) {
            assert forall|i: int| 0 <= i < now.len() implies literal_property_def_wf(
                #[trigger] now[i],
            ) by {
                if i < before.len() {
                    assert(now[i] == before[i]);
                }
            }
        }
    }
}

pub(crate) fn push_call_signature(
    signatures: &mut Vec<LiteralCallSignatureDef>,
    signature: LiteralCallSignatureDef,
)
    ensures
        literal_call_signature_def_views(final(signatures)@) == literal_call_signature_def_views(
            old(signatures)@,
        ).push(signature@),
        literal_call_signature_def_all_wf(literal_call_signature_def_views(old(signatures)@))
            && literal_call_signature_def_wf(signature@) ==> literal_call_signature_def_all_wf(
            literal_call_signature_def_views(final(signatures)@),
        ),
{
    let ghost before = literal_call_signature_def_views(signatures@);
    let ghost view = signature@;
    signatures.push(signature);
    proof {
        let now = literal_call_signature_def_views(signatures@);
        assert(now =~= before.push(view));
        if literal_call_signature_def_all_wf(before) && literal_call_signature_def_wf(view) {
            assert forall|i: int| 0 <= i < now.len() implies literal_call_signature_def_wf(
                #[trigger] now[i],
            ) by {
                if i < before.len() {
                    assert(now[i] == before[i]);
                }
            }
        }
    }
}

pub(crate) fn push_index_signature(
    signatures: &mut Vec<LiteralIndexSignatureDef>,
    signature: LiteralIndexSignatureDef,
)
    ensures
        literal_index_signature_def_views(final(signatures)@)
            == literal_index_signature_def_views(old(signatures)@).push(signature@),
        literal_index_signature_def_all_wf(literal_index_signature_def_views(old(signatures)@))
            && literal_index_signature_def_wf(signature@) ==> literal_index_signature_def_all_wf(
            literal_index_signature_def_views(final(signatures)@),
        ),
{
    let ghost before = literal_index_signature_def_views(signatures@);
    let ghost view = signature@;
    signatures.push(signature);
    proof {
        let now = literal_index_signature_def_views(signatures@);
        assert(now =~= before.push(view));
        if literal_index_signature_def_all_wf(before) && literal_index_signature_def_wf(view) {
            assert forall|i: int| 0 <= i < now.len() implies literal_index_signature_def_wf(
                #[trigger] now[i],
            ) by {
                if i < before.len() {
                    assert(now[i] == before[i]);
                }
            }
        }
    }
}

/// Sorts the members of a type literal into methods, properties, call
/// signatures and index signatures. Getters, setters and construct signatures
/// go with the methods, a construct signature under the name `new`.
pub fn ts_type_lit_to_def(other: &TsTypeLit) -> (r: TsTypeDef)
    ensures
        r@ == ts_type_def_of(TsType::TsTypeLit(*other)),
        ts_type_def_wf(r@),
        r@.kind == Some(kind_of(TsType::TsTypeLit(*other))),
    decreases other,
{
    let type_literal = ts_type_lit_to_literal_def(&other.members);
    TsTypeDef::of_type_literal(type_literal)
}

pub(crate) fn ts_type_lit_to_literal_def(members: &Vec<TsTypeElement>) -> (r: TsTypeLiteralDef)
    ensures
        r@ == type_literal_of(members@),
        crate::model::ts_type_literal_def_wf(r@),
    decreases members,
{
    let mut methods: Vec<LiteralMethodDef> = Vec::new();
    let mut properties: Vec<LiteralPropertyDef> = Vec::new();
    let mut call_signatures: Vec<LiteralCallSignatureDef> = Vec::new();
    let mut index_signatures: Vec<LiteralIndexSignatureDef> = Vec::new();
    let ghost from_methods = member_methods(members@);
    let ghost from_properties = member_properties(members@);
    let ghost from_call_signatures = member_call_signatures(members@);
    let ghost from_index_signatures = member_index_signatures(members@);
    proof {
        assert(literal_method_def_views(methods@) =~= present(from_methods.take(0)));
        assert(literal_property_def_views(properties@) =~= present(from_properties.take(0)));
        assert(literal_call_signature_def_views(call_signatures@) =~= present(
            from_call_signatures.take(0),
        ));
        assert(literal_index_signature_def_views(index_signatures@) =~= present(
            from_index_signatures.take(0),
        ));
    }
    let mut i: usize = 0;
    while i < members.len()
        invariant
            i <= members.len(),
            from_methods == member_methods(members@),
            from_properties == member_properties(members@),
            from_call_signatures == member_call_signatures(members@),
            from_index_signatures == member_index_signatures(members@),
            literal_method_def_views(methods@) == present(from_methods.take(i as int)),
            literal_property_def_views(properties@) == present(from_properties.take(i as int)),
            literal_call_signature_def_views(call_signatures@) == present(
                from_call_signatures.take(i as int),
            ),
            literal_index_signature_def_views(index_signatures@) == present(
                from_index_signatures.take(i as int),
            ),
            literal_method_def_all_wf(literal_method_def_views(methods@)),
            literal_property_def_all_wf(literal_property_def_views(properties@)),
            literal_call_signature_def_all_wf(literal_call_signature_def_views(call_signatures@)),
            literal_index_signature_def_all_wf(
                literal_index_signature_def_views(index_signatures@),
            ),
        decreases members.len() - i,
    {
        proof {
            lemma_present_step(from_methods, i as int);
            lemma_present_step(from_properties, i as int);
            lemma_present_step(from_call_signatures, i as int);
            lemma_present_step(from_index_signatures, i as int);
        }
        match &members[i] {
            TsTypeElement::TsMethodSignature(ts_method_sig) => {
                let method_def = ts_method_signature_to_def(ts_method_sig);
                push_method(&mut methods, method_def);
            },
            TsTypeElement::TsGetterSignature(ts_getter_sig) => {
                let method_def = ts_getter_signature_to_def(ts_getter_sig);
                push_method(&mut methods, method_def);
            },
            TsTypeElement::TsSetterSignature(ts_setter_sig) => {
                let method_def = ts_setter_signature_to_def(ts_setter_sig);
                push_method(&mut methods, method_def);
            },
            TsTypeElement::TsPropertySignature(ts_prop_sig) => {
                let prop_def = ts_property_signature_to_def(ts_prop_sig);
                push_property(&mut properties, prop_def);
            },
            TsTypeElement::TsCallSignatureDecl(ts_call_sig) => {
                let call_sig_def = ts_call_signature_to_def(ts_call_sig);
                push_call_signature(&mut call_signatures, call_sig_def);
            },
            TsTypeElement::TsIndexSignature(ts_index_sig) => {
                let index_sig_def = ts_index_signature_to_def(ts_index_sig);
                push_index_signature(&mut index_signatures, index_sig_def);
            },
            TsTypeElement::TsConstructSignatureDecl(ts_construct_sig) => {
                let construct_sig_def = ts_construct_signature_to_def(ts_construct_sig);
                push_method(&mut methods, construct_sig_def);
            },
        }
        i += 1;
    }
    proof {
        assert(from_methods.take(members.len() as int) =~= from_methods);
        assert(from_properties.take(members.len() as int) =~= from_properties);
        assert(from_call_signatures.take(members.len() as int) =~= from_call_signatures);
        assert(from_index_signatures.take(members.len() as int) =~= from_index_signatures);
    }
    TsTypeLiteralDef { methods, properties, call_signatures, index_signatures }
}

} // verus!
