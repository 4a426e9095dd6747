//! What describes a piece of syntax: for each syntactic form, its description
//! as a value of the model.

use crate::ast::{
    ArrayPat, ArrowExpr, AssignPat, BigInt, BindingIdent, Bool, FnExpr, Number, ObjectPat,
    ObjectPatProp, Param, Pat, RestPat, Str, TplElement, TsCallSignatureDecl, TsConditionalType,
    TsConstructSignatureDecl, TsConstructorType, TsExprWithTypeArgs, TsFnOrConstructorType,
    TsFnParam, TsFnType, TsGetterSignature, TsImportType, TsIndexSignature, TsIndexedAccessType,
    TsLit, TsMappedType, TsMethodSignature, TsPropertySignature, TsSetterSignature,
    TsThisTypeOrIdent, TsTupleElement, TsType, TsTypeAnn, TsTypeElement, TsTypeLit, TsTypeParam,
    TsTypeParamDecl, TsTypeParamInstantiation, TsTypePredicate, TsTypeQueryExpr, TsTypeRef,
    TsUnionOrIntersectionType,
};
use crate::ast::MethodKind;
use crate::display::{bool_text, join};
use crate::model::{
    array_def, conditional_def, fn_or_constructor_def, import_type_def, indexed_access_def,
    infer_def, intersection_def, keyword_def, literal_node, literal_of_kind, mapped_def,
    optional_def, parenthesized_def, rest_def, this_def, tuple_def, type_literal_def,
    type_operator_def, type_predicate_node, type_query_def, type_ref_def, union_def,
    LiteralCallSignatureDefView, LiteralDefView, LiteralIndexSignatureDefView, LiteralMethodDefView,
    LiteralPropertyDefView, ObjectPatPropDefView, ParamDefView, ParamPatternDefView,
    ThisOrIdentView, TsConditionalDefView, TsFnOrConstructorDefView, TsImportTypeDefView,
    TsIndexedAccessDefView, TsInferDefView, TsMappedTypeDefView, TsTypeDefView,
    TsTypeLiteralDefView, TsTypeOperatorDefView, TsTypeParamDefView, TsTypePredicateDefView,
    TsTypeRefDefView,
};
use crate::names::{
    entity_name_text, expr_name, keyword_text, operator_text, prop_name_text, unsupported_name,
};
use crate::render::{rendered, rendered_type_predicate};
use crate::span::Span;
use crate::ts_type::{LiteralDefKind, TsTypeDefKind};
use vstd::prelude::*;

verus! {

/// One part of a template before the parts are put in source order: where it
/// stands, what it is, and the text it contributes.
pub ghost struct TemplatePiece {
    pub span: Span,
    pub def: TsTypeDefView,
    pub text: Seq<char>,
}

/// `sorted` with `piece` put behind the last part that does not come after it.
pub open spec fn insert_by_span(sorted: Seq<TemplatePiece>, piece: TemplatePiece) -> Seq<
    TemplatePiece,
>
    decreases sorted.len(),
{
    if sorted.len() == 0 || sorted.last().span.at_or_before(piece.span) {
        sorted.push(piece)
    } else {
        insert_by_span(sorted.drop_last(), piece).push(sorted.last())
    }
}

/// The pieces in the order of their spans; pieces with the same span keep the
/// order they came in.
pub open spec fn sorted_by_span(pieces: Seq<TemplatePiece>) -> Seq<TemplatePiece>
    decreases pieces.len(),
{
    if pieces.len() == 0 {
        Seq::empty()
    } else {
        insert_by_span(sorted_by_span(pieces.drop_last()), pieces.last())
    }
}

pub open spec fn piece_defs(pieces: Seq<TemplatePiece>) -> Seq<TsTypeDefView> {
    Seq::new(pieces.len(), |i: int| pieces[i].def)
}

pub open spec fn piece_texts(pieces: Seq<TemplatePiece>) -> Seq<Seq<char>> {
    Seq::new(pieces.len(), |i: int| pieces[i].text)
}

/// The literal type of a number.
pub open spec fn number_literal_def(num: Number) -> TsTypeDefView {
    literal_node(
        num.text@,
        LiteralDefView { number: Some(num.bits), ..literal_of_kind(LiteralDefKind::Number) },
    )
}

/// The literal type of a string; the node's text is the content without quotes.
pub open spec fn string_literal_def(value: Seq<char>) -> TsTypeDefView {
    literal_node(
        value,
        LiteralDefView { string: Some(value), ..literal_of_kind(LiteralDefKind::String) },
    )
}

/// The literal type of `true` or `false`.
pub open spec fn bool_literal_def(value: bool) -> TsTypeDefView {
    literal_node(
        bool_text(value),
        LiteralDefView { boolean: Some(value), ..literal_of_kind(LiteralDefKind::Boolean) },
    )
}

/// The literal type of a big integer, given its decimal text.
pub open spec fn bigint_literal_def(value: Seq<char>) -> TsTypeDefView {
    literal_node(
        value,
        LiteralDefView { string: Some(value), ..literal_of_kind(LiteralDefKind::BigInt) },
    )
}

/// The piece that a chunk of literal text contributes to a template.
pub open spec fn quasi_piece(quasi: TplElement) -> TemplatePiece {
    TemplatePiece { span: quasi.span, def: string_literal_def(quasi.raw@), text: quasi.raw@ }
}

pub open spec fn quasi_pieces(quasis: Seq<TplElement>) -> Seq<TemplatePiece> {
    Seq::new(quasis.len(), |i: int| quasi_piece(quasis[i]))
}

/// The pieces that the interpolated types contribute to a template: each is
/// placed by the span of its type and shown as `${...}`.
pub open spec fn type_pieces(types: Seq<Box<TsType>>) -> Seq<TemplatePiece>
    decreases types,
{
    Seq::new(
        types.len(),
        |i: int|
            if 0 <= i < types.len() {
                TemplatePiece {
                    span: span_of_type(*types[i]),
                    def: ts_type_def_of(*types[i]),
                    text: "${"@ + rendered(ts_type_def_of(*types[i])) + "}"@,
                }
            } else {
                arbitrary()
            },
    )
}

/// The literal type of a template with the given pieces: the pieces are put in
/// source order, and the node's text is their texts, one after the other.
pub open spec fn merged_template(pieces: Seq<TemplatePiece>) -> TsTypeDefView {
    let sorted = sorted_by_span(pieces);
    literal_node(
        join(piece_texts(sorted), Seq::empty()),
        LiteralDefView {
            ts_types: Some(piece_defs(sorted)),
            ..literal_of_kind(LiteralDefKind::Template)
        },
    )
}

/// The literal type of a template: its chunks and interpolated types merged
/// into source order.
pub open spec fn template_def(types: Seq<Box<TsType>>, quasis: Seq<TplElement>) -> TsTypeDefView {
    merged_template(type_pieces(types) + quasi_pieces(quasis))
}

/// The span by which a type is placed among the parts of a template.
pub open spec fn span_of_type(t: TsType) -> Span
    decreases t,
{
    match t {
        TsType::TsArrayType(a) => span_of_type(*a.elem_type),
        TsType::TsConditionalType(c) => span_of_type(*c.check_type),
        TsType::TsFnOrConstructorType(f) => match f {
            TsFnOrConstructorType::TsFnType(f) => f.span,
            TsFnOrConstructorType::TsConstructorType(c) => c.span,
        },
        TsType::TsImportType(t) => t.span,
        TsType::TsIndexedAccessType(a) => span_of_type(*a.index_type),
        TsType::TsInferType(t) => t.span,
        TsType::TsKeywordType(t) => t.span,
        TsType::TsLitType(t) => t.span,
        TsType::TsMappedType(t) => t.span,
        TsType::TsOptionalType(t) => t.span,
        TsType::TsParenthesizedType(t) => t.span,
        TsType::TsRestType(t) => t.span,
        TsType::TsThisType(t) => t.span,
        TsType::TsTupleType(t) => t.span,
        TsType::TsTypeLit(t) => t.span,
        TsType::TsTypeOperator(t) => t.span,
        TsType::TsTypePredicate(t) => t.span,
        TsType::TsTypeQuery(t) => t.span,
        TsType::TsTypeRef(t) => t.span,
        TsType::TsUnionOrIntersectionType(u) => match u {
            TsUnionOrIntersectionType::TsUnionType(u) => u.span,
            TsUnionOrIntersectionType::TsIntersectionType(i) => i.span,
        },
    }
}

/// The description of an annotation, where there is one.
pub open spec fn annotation_def(type_ann: Option<TsTypeAnn>) -> Option<TsTypeDefView>
    decreases type_ann,
{
    match type_ann {
        Some(ann) => Some(ts_type_def_of(*ann.type_ann)),
        None => None,
    }
}

/// The description of a type behind an optional box.
pub open spec fn boxed_type_def(ts_type: Option<Box<TsType>>) -> Option<TsTypeDefView>
    decreases ts_type,
{
    match ts_type {
        Some(t) => Some(ts_type_def_of(*t)),
        None => None,
    }
}

/// The descriptions of a list of types, in order.
pub open spec fn type_defs_of(types: Seq<Box<TsType>>) -> Seq<TsTypeDefView>
    decreases types,
{
    Seq::new(
        types.len(),
        |i: int|
            if 0 <= i < types.len() {
                ts_type_def_of(*types[i])
            } else {
                arbitrary()
            },
    )
}

/// The descriptions of the type arguments of a use. No argument list and an
/// empty one are told apart.
pub open spec fn type_args_of(args: Option<TsTypeParamInstantiation>) -> Option<
    Seq<TsTypeDefView>,
>
    decreases args,
{
    match args {
        Some(inst) => Some(type_defs_of(inst.params@)),
        None => None,
    }
}

/// The descriptions of the type arguments of a use; none where there is no
/// argument list.
pub open spec fn type_arg_defs(args: Option<TsTypeParamInstantiation>) -> Seq<TsTypeDefView>
    decreases args,
{
    match args {
        Some(inst) => type_defs_of(inst.params@),
        None => Seq::empty(),
    }
}

pub open spec fn tuple_element_defs(elems: Seq<TsTupleElement>) -> Seq<TsTypeDefView>
    decreases elems,
{
    Seq::new(
        elems.len(),
        |i: int|
            if 0 <= i < elems.len() {
                ts_type_def_of(elems[i].ty)
            } else {
                arbitrary()
            },
    )
}

/// The description of one declared generic parameter.
pub open spec fn type_param_def_of(param: TsTypeParam) -> TsTypeParamDefView
    decreases param,
{
    TsTypeParamDefView {
        name: param.name.sym@,
        constraint: boxed_type_def(param.constraint),
        default: boxed_type_def(param.default),
    }
}

/// The descriptions of the declared generic parameters; none where there is no
/// declaration.
pub open spec fn type_param_defs_of(decl: Option<TsTypeParamDecl>) -> Seq<TsTypeParamDefView>
    decreases decl,
{
    match decl {
        Some(decl) => Seq::new(
            decl.params@.len(),
            |i: int|
                if 0 <= i < decl.params@.len() {
                    type_param_def_of(decl.params@[i])
                } else {
                    arbitrary()
                },
        ),
        None => Seq::empty(),
    }
}

pub open spec fn ident_param_def(ident: BindingIdent) -> ParamDefView
    decreases ident,
{
    ParamDefView {
        pattern: ParamPatternDefView::Identifier {
            name: ident.id.sym@,
            optional: ident.id.optional,
        },
        ts_type: annotation_def(ident.type_ann),
    }
}

/// The descriptions of the elements of an array pattern; a hole stays a hole.
pub open spec fn pat_element_defs(elems: Seq<Option<Pat>>) -> Seq<Option<ParamDefView>>
    decreases elems,
{
    Seq::new(
        elems.len(),
        |i: int|
            if 0 <= i < elems.len() {
                match elems[i] {
                    Some(elem) => Some(pat_param_def(elem)),
                    None => None,
                }
            } else {
                arbitrary()
            },
    )
}

pub open spec fn object_pat_prop_defs(props: Seq<ObjectPatProp>) -> Seq<ObjectPatPropDefView>
    decreases props,
{
    Seq::new(
        props.len(),
        |i: int|
            if 0 <= i < props.len() {
                object_pat_prop_def_of(props[i])
            } else {
                arbitrary()
            },
    )
}

pub open spec fn array_pat_param_def(pat: ArrayPat) -> ParamDefView
    decreases pat,
{
    ParamDefView {
        pattern: ParamPatternDefView::Array {
            elements: pat_element_defs(pat.elems@),
            optional: pat.optional,
        },
        ts_type: annotation_def(pat.type_ann),
    }
}

pub open spec fn rest_pat_param_def(pat: RestPat) -> ParamDefView
    decreases pat,
{
    ParamDefView {
        pattern: ParamPatternDefView::Rest { arg: Box::new(pat_param_def(*pat.arg)) },
        ts_type: annotation_def(pat.type_ann),
    }
}

pub open spec fn object_pat_prop_def_of(prop: ObjectPatProp) -> ObjectPatPropDefView
    decreases prop,
{
    match prop {
        ObjectPatProp::Assign(assign) => ObjectPatPropDefView::Assign {
            key: assign.key.sym@,
            value: if assign.has_value {
                Some(unsupported_name())
            } else {
                None
            },
        },
        ObjectPatProp::KeyValue(key_value) => ObjectPatPropDefView::KeyValue {
            key: prop_name_text(key_value.key),
            value: Box::new(pat_param_def(*key_value.value)),
        },
        ObjectPatProp::Rest(rest) => ObjectPatPropDefView::Rest {
            arg: Box::new(pat_param_def(*rest.arg)),
        },
    }
}

pub open spec fn object_pat_param_def(pat: ObjectPat) -> ParamDefView
    decreases pat,
{
    ParamDefView {
        pattern: ParamPatternDefView::Object {
            props: object_pat_prop_defs(pat.props@),
            optional: pat.optional,
        },
        ts_type: annotation_def(pat.type_ann),
    }
}

/// A parameter with a default value; the value itself is not described.
pub open spec fn assign_pat_param_def(pat: AssignPat) -> ParamDefView
    decreases pat,
{
    ParamDefView {
        pattern: ParamPatternDefView::Assign {
            left: Box::new(pat_param_def(*pat.left)),
            right: unsupported_name(),
        },
        ts_type: annotation_def(pat.type_ann),
    }
}

/// The description of a parameter of a function expression.
pub open spec fn pat_param_def(pat: Pat) -> ParamDefView
    decreases pat,
{
    match pat {
        Pat::Ident(ident) => ident_param_def(ident),
        Pat::Array(array) => array_pat_param_def(array),
        Pat::Rest(rest) => rest_pat_param_def(rest),
        Pat::Object(object) => object_pat_param_def(object),
        Pat::Assign(assign) => assign_pat_param_def(assign),
    }
}

/// The description of a parameter of a function type or of a signature.
pub open spec fn fn_param_def(param: TsFnParam) -> ParamDefView
    decreases param,
{
    match param {
        TsFnParam::Ident(ident) => ident_param_def(ident),
        TsFnParam::Array(array) => array_pat_param_def(array),
        TsFnParam::Rest(rest) => rest_pat_param_def(rest),
        TsFnParam::Object(object) => object_pat_param_def(object),
    }
}

pub open spec fn fn_param_defs(params: Seq<TsFnParam>) -> Seq<ParamDefView>
    decreases params,
{
    Seq::new(
        params.len(),
        |i: int|
            if 0 <= i < params.len() {
                fn_param_def(params[i])
            } else {
                arbitrary()
            },
    )
}

pub open spec fn pat_param_defs(params: Seq<Pat>) -> Seq<ParamDefView>
    decreases params,
{
    Seq::new(
        params.len(),
        |i: int|
            if 0 <= i < params.len() {
                pat_param_def(params[i])
            } else {
                arbitrary()
            },
    )
}

pub open spec fn function_param_defs(params: Seq<Param>) -> Seq<ParamDefView>
    decreases params,
{
    Seq::new(
        params.len(),
        |i: int|
            if 0 <= i < params.len() {
                pat_param_def(params[i].pat)
            } else {
                arbitrary()
            },
    )
}

/// The description of `(params) => T`.
pub open spec fn fn_type_def(f: TsFnType) -> TsFnOrConstructorDefView
    decreases f,
{
    TsFnOrConstructorDefView {
        constructor: false,
        ts_type: ts_type_def_of(*f.type_ann.type_ann),
        params: fn_param_defs(f.params@),
        type_params: type_param_defs_of(f.type_params),
    }
}

/// The description of `new (params) => T`.
pub open spec fn constructor_type_def(c: TsConstructorType) -> TsFnOrConstructorDefView
    decreases c,
{
    TsFnOrConstructorDefView {
        constructor: true,
        ts_type: ts_type_def_of(*c.type_ann.type_ann),
        params: fn_param_defs(c.params@),
        type_params: type_param_defs_of(c.type_params),
    }
}

/// The return type of a function expression: its annotation, or `unknown`.
pub open spec fn return_type_def(return_type: Option<TsTypeAnn>) -> TsTypeDefView
    decreases return_type,
{
    match return_type {
        Some(ann) => ts_type_def_of(*ann.type_ann),
        None => keyword_def("unknown"@, "unknown"@),
    }
}

/// The function type of an arrow function.
pub open spec fn arrow_fn_def(expr: ArrowExpr) -> TsFnOrConstructorDefView
    decreases expr,
{
    TsFnOrConstructorDefView {
        constructor: false,
        ts_type: return_type_def(expr.return_type),
        params: pat_param_defs(expr.params@),
        type_params: type_param_defs_of(expr.type_params),
    }
}

/// The function type of a function expression.
pub open spec fn fn_expr_def(expr: FnExpr) -> TsFnOrConstructorDefView
    decreases expr,
{
    TsFnOrConstructorDefView {
        constructor: false,
        ts_type: return_type_def(expr.function.return_type),
        params: function_param_defs(expr.function.params@),
        type_params: type_param_defs_of(expr.function.type_params),
    }
}

/// The method entry that a member of a type literal gives, if it gives one:
/// a method, a getter (no parameters), a setter (one parameter, no return
/// type), or a construct signature under the name `new`.
pub open spec fn method_of_member(member: TsTypeElement) -> Option<LiteralMethodDefView>
    decreases member,
{
    match member {
        TsTypeElement::TsMethodSignature(m) => Some(
            LiteralMethodDefView {
                name: expr_name(*m.key),
                kind: MethodKind::Method,
                params: fn_param_defs(m.params@),
                computed: m.computed,
                optional: m.optional,
                return_type: annotation_def(m.type_ann),
                type_params: type_param_defs_of(m.type_params),
            },
        ),
        TsTypeElement::TsGetterSignature(g) => Some(
            LiteralMethodDefView {
                name: expr_name(*g.key),
                kind: MethodKind::Getter,
                params: Seq::empty(),
                computed: g.computed,
                optional: g.optional,
                return_type: annotation_def(g.type_ann),
                type_params: Seq::empty(),
            },
        ),
        TsTypeElement::TsSetterSignature(s) => Some(
            LiteralMethodDefView {
                name: expr_name(*s.key),
                kind: MethodKind::Setter,
                params: seq![fn_param_def(s.param)],
                computed: s.computed,
                optional: s.optional,
                return_type: None,
                type_params: Seq::empty(),
            },
        ),
        TsTypeElement::TsConstructSignatureDecl(c) => Some(
            LiteralMethodDefView {
                name: "new"@,
                kind: MethodKind::Method,
                params: fn_param_defs(c.params@),
                computed: false,
                optional: false,
                return_type: annotation_def(c.type_ann),
                type_params: type_param_defs_of(c.type_params),
            },
        ),
        _ => None,
    }
}

/// The property entry that a member of a type literal gives, if it gives one.
pub open spec fn property_of_member(member: TsTypeElement) -> Option<LiteralPropertyDefView>
    decreases member,
{
    match member {
        TsTypeElement::TsPropertySignature(p) => Some(
            LiteralPropertyDefView {
                name: expr_name(*p.key),
                params: fn_param_defs(p.params@),
                readonly: p.readonly,
                computed: p.computed,
                optional: p.optional,
                ts_type: annotation_def(p.type_ann),
                type_params: type_param_defs_of(p.type_params),
            },
        ),
        _ => None,
    }
}

/// The call signature entry that a member of a type literal gives, if it gives
/// one.
pub open spec fn call_signature_of_member(member: TsTypeElement) -> Option<
    LiteralCallSignatureDefView,
>
    decreases member,
{
    match member {
        TsTypeElement::TsCallSignatureDecl(c) => Some(
            LiteralCallSignatureDefView {
                params: fn_param_defs(c.params@),
                ts_type: annotation_def(c.type_ann),
                type_params: type_param_defs_of(c.type_params),
            },
        ),
        _ => None,
    }
}

/// The index signature entry that a member of a type literal gives, if it
/// gives one.
pub open spec fn index_signature_of_member(member: TsTypeElement) -> Option<
    LiteralIndexSignatureDefView,
>
    decreases member,
{
    match member {
        TsTypeElement::TsIndexSignature(x) => Some(
            LiteralIndexSignatureDefView {
                readonly: x.readonly,
                params: fn_param_defs(x.params@),
                ts_type: annotation_def(x.type_ann),
            },
        ),
        _ => None,
    }
}

/// The values of the entries of `s` that are there, in order.
pub open spec fn present<T>(s: Seq<Option<T>>) -> Seq<T>
    decreases s.len(),
{
    if s.len() == 0 {
        Seq::empty()
    } else if s.last() is Some {
        present(s.drop_last()).push(s.last().unwrap())
    } else {
        present(s.drop_last())
    }
}

/// What each member of a type literal gives to the list of methods.
pub open spec fn member_methods(members: Seq<TsTypeElement>) -> Seq<Option<LiteralMethodDefView>>
    decreases members,
{
    Seq::new(
        members.len(),
        |i: int|
            if 0 <= i < members.len() {
                method_of_member(members[i])
            } else {
                None
            },
    )
}

/// What each member of a type literal gives to the list of properties.
pub open spec fn member_properties(members: Seq<TsTypeElement>) -> Seq<
    Option<LiteralPropertyDefView>,
>
    decreases members,
{
    Seq::new(
        members.len(),
        |i: int|
            if 0 <= i < members.len() {
                property_of_member(members[i])
            } else {
                None
            },
    )
}

/// What each member of a type literal gives to the list of call signatures.
pub open spec fn member_call_signatures(members: Seq<TsTypeElement>) -> Seq<
    Option<LiteralCallSignatureDefView>,
>
    decreases members,
{
    Seq::new(
        members.len(),
        |i: int|
            if 0 <= i < members.len() {
                call_signature_of_member(members[i])
            } else {
                None
            },
    )
}

/// What each member of a type literal gives to the list of index signatures.
pub open spec fn member_index_signatures(members: Seq<TsTypeElement>) -> Seq<
    Option<LiteralIndexSignatureDefView>,
>
    decreases members,
{
    Seq::new(
        members.len(),
        |i: int|
            if 0 <= i < members.len() {
                index_signature_of_member(members[i])
            } else {
                None
            },
    )
}

/// The members of a type literal sorted into the four lists of signatures. Each
/// list keeps the order of the members.
pub open spec fn type_literal_of(members: Seq<TsTypeElement>) -> TsTypeLiteralDefView {
    TsTypeLiteralDefView {
        methods: present(member_methods(members)),
        properties: present(member_properties(members)),
        call_signatures: present(member_call_signatures(members)),
        index_signatures: present(member_index_signatures(members)),
    }
}

/// The description of a literal type.
pub open spec fn lit_type_def(lit: TsLit) -> TsTypeDefView
    decreases lit,
{
    match lit {
        TsLit::Number(num) => number_literal_def(num),
        TsLit::Str(s) => string_literal_def(s.value@),
        TsLit::Tpl(tpl) => merged_template(type_pieces(tpl.types@) + quasi_pieces(tpl.quasis@)),
        TsLit::Bool(b) => bool_literal_def(b.value),
        TsLit::BigInt(n) => bigint_literal_def(n.value@),
    }
}

pub open spec fn conditional_type_def(c: TsConditionalType) -> TsConditionalDefView
    decreases c,
{
    TsConditionalDefView {
        check_type: Box::new(ts_type_def_of(*c.check_type)),
        extends_type: Box::new(ts_type_def_of(*c.extends_type)),
        true_type: Box::new(ts_type_def_of(*c.true_type)),
        false_type: Box::new(ts_type_def_of(*c.false_type)),
    }
}

pub open spec fn indexed_access_type_def(a: TsIndexedAccessType) -> TsIndexedAccessDefView
    decreases a,
{
    TsIndexedAccessDefView {
        readonly: a.readonly,
        obj_type: Box::new(ts_type_def_of(*a.obj_type)),
        index_type: Box::new(ts_type_def_of(*a.index_type)),
    }
}

pub open spec fn mapped_type_def(m: TsMappedType) -> TsMappedTypeDefView
    decreases m,
{
    TsMappedTypeDefView {
        readonly: m.readonly,
        type_param: Box::new(type_param_def_of(m.type_param)),
        name_type: match m.name_type {
            Some(t) => Some(Box::new(ts_type_def_of(*t))),
            None => None,
        },
        optional: m.optional,
        ts_type: match m.type_ann {
            Some(t) => Some(Box::new(ts_type_def_of(*t))),
            None => None,
        },
    }
}

pub open spec fn import_type_def_of(i: TsImportType) -> TsImportTypeDefView
    decreases i,
{
    TsImportTypeDefView {
        specifier: i.arg.value@,
        qualifier: match i.qualifier {
            Some(name) => Some(entity_name_text(name)),
            None => None,
        },
        type_params: type_args_of(i.type_args),
    }
}

/// The subject of a type predicate.
pub open spec fn predicate_param_of(param: TsThisTypeOrIdent) -> ThisOrIdentView {
    match param {
        TsThisTypeOrIdent::TsThisType(_) => ThisOrIdentView::This,
        TsThisTypeOrIdent::Ident(ident) => ThisOrIdentView::Identifier { name: ident.sym@ },
    }
}

pub open spec fn type_predicate_def_of(p: TsTypePredicate) -> TsTypePredicateDefView
    decreases p,
{
    TsTypePredicateDefView {
        asserts: p.asserts,
        param: predicate_param_of(p.param_name),
        ty: match p.type_ann {
            Some(ann) => Some(Box::new(ts_type_def_of(*ann.type_ann))),
            None => None,
        },
    }
}

/// The name that `typeof` is applied to.
pub open spec fn type_query_name(expr: TsTypeQueryExpr) -> Seq<char> {
    match expr {
        TsTypeQueryExpr::TsEntityName(name) => entity_name_text(name),
        TsTypeQueryExpr::Import(import) => import.arg.value@,
    }
}

/// The reference that `Name<Args>` describes.
pub open spec fn type_ref_def_of(r: TsTypeRef) -> TsTypeDefView
    decreases r,
{
    type_ref_def(
        entity_name_text(r.name),
        TsTypeRefDefView {
            type_params: type_args_of(r.type_params),
            name: entity_name_text(r.name),
        },
    )
}

/// The reference that an expression with type arguments describes, as in an
/// `extends` clause.
pub open spec fn expr_with_type_args_def(e: TsExprWithTypeArgs) -> TsTypeDefView
    decreases e,
{
    type_ref_def(
        expr_name(*e.expr),
        TsTypeRefDefView { type_params: type_args_of(e.type_args), name: expr_name(*e.expr) },
    )
}

/// The tag of the node that describes `t`.
pub open spec fn kind_of(t: TsType) -> TsTypeDefKind {
    match t {
        TsType::TsKeywordType(_) => TsTypeDefKind::Keyword,
        TsType::TsThisType(_) => TsTypeDefKind::This,
        TsType::TsFnOrConstructorType(_) => TsTypeDefKind::FnOrConstructor,
        TsType::TsTypeRef(_) => TsTypeDefKind::TypeRef,
        TsType::TsTypeQuery(_) => TsTypeDefKind::TypeQuery,
        TsType::TsTypeLit(_) => TsTypeDefKind::TypeLiteral,
        TsType::TsArrayType(_) => TsTypeDefKind::Array,
        TsType::TsTupleType(_) => TsTypeDefKind::Tuple,
        TsType::TsOptionalType(_) => TsTypeDefKind::Optional,
        TsType::TsRestType(_) => TsTypeDefKind::Rest,
        TsType::TsUnionOrIntersectionType(u) => match u {
            TsUnionOrIntersectionType::TsUnionType(_) => TsTypeDefKind::Union,
            TsUnionOrIntersectionType::TsIntersectionType(_) => TsTypeDefKind::Intersection,
        },
        TsType::TsConditionalType(_) => TsTypeDefKind::Conditional,
        TsType::TsInferType(_) => TsTypeDefKind::Infer,
        TsType::TsParenthesizedType(_) => TsTypeDefKind::Parenthesized,
        TsType::TsTypeOperator(_) => TsTypeDefKind::TypeOperator,
        TsType::TsIndexedAccessType(_) => TsTypeDefKind::IndexedAccess,
        TsType::TsMappedType(_) => TsTypeDefKind::Mapped,
        TsType::TsLitType(_) => TsTypeDefKind::Literal,
        TsType::TsTypePredicate(_) => TsTypeDefKind::TypePredicate,
        TsType::TsImportType(_) => TsTypeDefKind::ImportType,
    }
}

/// The description of a type expression: one case per syntactic form.
///
/// Members of unions, intersections and tuples keep their order and are not
/// deduplicated.
pub open spec fn ts_type_def_of(t: TsType) -> TsTypeDefView
    decreases t,
{
    match t {
        TsType::TsKeywordType(k) => keyword_def(keyword_text(k.kind), keyword_text(k.kind)),
        TsType::TsThisType(_) => this_def(),
        TsType::TsFnOrConstructorType(f) => match f {
            TsFnOrConstructorType::TsFnType(f) => fn_or_constructor_def(fn_type_def(f)),
            TsFnOrConstructorType::TsConstructorType(c) => fn_or_constructor_def(
                constructor_type_def(c),
            ),
        },
        TsType::TsTypeRef(r) => type_ref_def_of(r),
        TsType::TsTypeQuery(q) => type_query_def(type_query_name(q.expr_name)),
        TsType::TsTypeLit(l) => type_literal_def(
            TsTypeLiteralDefView {
                methods: present(member_methods(l.members@)),
                properties: present(member_properties(l.members@)),
                call_signatures: present(member_call_signatures(l.members@)),
                index_signatures: present(member_index_signatures(l.members@)),
            },
        ),
        TsType::TsArrayType(a) => array_def(ts_type_def_of(*a.elem_type)),
        TsType::TsTupleType(t) => tuple_def(tuple_element_defs(t.elem_types@)),
        TsType::TsOptionalType(o) => optional_def(ts_type_def_of(*o.type_ann)),
        TsType::TsRestType(r) => rest_def(ts_type_def_of(*r.type_ann)),
        TsType::TsUnionOrIntersectionType(u) => match u {
            TsUnionOrIntersectionType::TsUnionType(u) => union_def(type_defs_of(u.types@)),
            TsUnionOrIntersectionType::TsIntersectionType(i) => intersection_def(
                type_defs_of(i.types@),
            ),
        },
        TsType::TsConditionalType(c) => conditional_def(conditional_type_def(c)),
        TsType::TsInferType(i) => infer_def(
            TsInferDefView { type_param: Box::new(type_param_def_of(i.type_param)) },
        ),
        TsType::TsParenthesizedType(p) => parenthesized_def(ts_type_def_of(*p.type_ann)),
        TsType::TsTypeOperator(o) => type_operator_def(
            TsTypeOperatorDefView {
                operator: operator_text(o.op),
                ts_type: ts_type_def_of(*o.type_ann),
            },
        ),
        TsType::TsIndexedAccessType(a) => indexed_access_def(indexed_access_type_def(a)),
        TsType::TsMappedType(m) => mapped_def(mapped_type_def(m)),
        TsType::TsLitType(l) => lit_type_def(l.lit),
        TsType::TsTypePredicate(p) => type_predicate_node(
            rendered_type_predicate(type_predicate_def_of(p)),
            type_predicate_def_of(p),
        ),
        TsType::TsImportType(i) => import_type_def(import_type_def_of(i)),
    }
}

} // verus!
