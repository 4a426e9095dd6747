//! Descriptions written out as type syntax.

use crate::ast::TruePlusMinus;
use crate::display::{
    bool_text, computed_name, display_bool, display_computed, display_optional, display_readonly,
    join, join_strings, joined, optional_mark, readonly_mark, texts,
};
use crate::model::{
    has_payload, literal_call_signature_def_all_wf, literal_call_signature_def_views,
    literal_def_wf, literal_has_payload, literal_index_signature_def_all_wf,
    literal_index_signature_def_views, literal_method_def_all_wf, literal_method_def_views,
    literal_property_def_all_wf, literal_property_def_views, object_pat_prop_def_all_wf,
    object_pat_prop_def_views, optional_param_def_all_wf, optional_param_def_views,
    param_def_all_wf, param_def_views, param_def_wf, template_parts_wf, ts_type_def_all_wf,
    ts_type_def_view, ts_type_def_views, ts_type_def_wf, LiteralCallSignatureDefView,
    LiteralDefView, LiteralIndexSignatureDefView, LiteralMethodDefView, LiteralPropertyDefView,
    ObjectPatPropDefView, ParamDefView, ParamPatternDefView, ThisOrIdentView, TsConditionalDefView,
    TsFnOrConstructorDefView, TsImportTypeDefView, TsIndexedAccessDefView, TsInferDefView,
    TsMappedTypeDefView, TsTypeDefView, TsTypeLiteralDefView, TsTypeOperatorDefView,
    TsTypeParamDefView, TsTypePredicateDefView, TsTypeRefDefView,
};
use crate::params::{ObjectPatPropDef, ParamDef, ParamPatternDef};
use crate::ts_type::{
    LiteralCallSignatureDef, LiteralDef, LiteralDefKind, LiteralIndexSignatureDef, LiteralMethodDef,
    LiteralPropertyDef, ThisOrIdent, TsConditionalDef, TsFnOrConstructorDef, TsImportTypeDef,
    TsIndexedAccessDef, TsInferDef, TsMappedTypeDef, TsTypeDef, TsTypeDefKind, TsTypeLiteralDef,
    TsTypeOperatorDef, TsTypePredicateDef, TsTypeRefDef,
};
use crate::ts_type_param::TsTypeParamDef;
use vstd::prelude::*;

verus! {

/// The text shown for a node without a tag.
pub open spec fn unsupported_text() -> Seq<char> {
    "[UNSUPPORTED]"@
}

/// `: ` and the type's text, or nothing.
pub open spec fn rendered_annotation(ts_type: Option<TsTypeDefView>) -> Seq<char>
    decreases ts_type,
{
    match ts_type {
        Some(t) => ": "@ + rendered(t),
        None => Seq::empty(),
    }
}

/// `<A, B>`, or nothing where there is no argument list.
pub open spec fn rendered_type_args(args: Option<Seq<TsTypeDefView>>) -> Seq<char>
    decreases args,
{
    match args {
        Some(types) => "<"@ + join(rendered_types(types), ", "@) + ">"@,
        None => Seq::empty(),
    }
}

/// The syntax text of a type node.
///
/// It is determined by the node's tag and the payload under that tag alone. An
/// array whose element is a union or an intersection has the element in
/// parentheses. A number literal shows the node's `repr`.
pub open spec fn rendered(d: TsTypeDefView) -> Seq<char>
    decreases d,
{
    if !has_payload(d) {
        arbitrary()
    } else {
        match d.kind {
        None => unsupported_text(),
        Some(TsTypeDefKind::Array) => {
            let elem = *d.array.unwrap();
            if elem.kind == Some(TsTypeDefKind::Union) || elem.kind == Some(
                TsTypeDefKind::Intersection,
            ) {
                "("@ + rendered(elem) + ")[]"@
            } else {
                rendered(elem) + "[]"@
            }
        },
        Some(TsTypeDefKind::Conditional) => rendered_conditional(d.conditional_type.unwrap()),
        Some(TsTypeDefKind::Infer) => rendered_infer(d.infer.unwrap()),
        Some(TsTypeDefKind::ImportType) => rendered_import_type(d.import_type.unwrap()),
        Some(TsTypeDefKind::FnOrConstructor) => rendered_fn_or_constructor(
            *d.fn_or_constructor.unwrap(),
        ),
        Some(TsTypeDefKind::IndexedAccess) => rendered_indexed_access(d.indexed_access.unwrap()),
        Some(TsTypeDefKind::Intersection) => join(rendered_types(d.intersection.unwrap()), " & "@),
        Some(TsTypeDefKind::Mapped) => rendered_mapped_type(d.mapped_type.unwrap()),
        Some(TsTypeDefKind::Keyword) => d.keyword.unwrap(),
        Some(TsTypeDefKind::Literal) => rendered_literal(d.literal.unwrap(), d.repr),
        Some(TsTypeDefKind::Optional) => rendered(*d.optional.unwrap()) + "?"@,
        Some(TsTypeDefKind::Parenthesized) => "("@ + rendered(*d.parenthesized.unwrap()) + ")"@,
        Some(TsTypeDefKind::Rest) => "..."@ + rendered(*d.rest.unwrap()),
        Some(TsTypeDefKind::This) => "this"@,
        Some(TsTypeDefKind::Tuple) => "["@ + join(rendered_types(d.tuple.unwrap()), ", "@) + "]"@,
        Some(TsTypeDefKind::TypeLiteral) => rendered_type_literal(d.type_literal.unwrap()),
        Some(TsTypeDefKind::TypeOperator) => rendered_type_operator(*d.type_operator.unwrap()),
        Some(TsTypeDefKind::TypeQuery) => "typeof "@ + d.type_query.unwrap(),
        Some(TsTypeDefKind::TypeRef) => rendered_type_ref(d.type_ref.unwrap()),
        Some(TsTypeDefKind::Union) => join(rendered_types(d.union.unwrap()), " | "@),
        Some(TsTypeDefKind::TypePredicate) => rendered_type_predicate(d.type_predicate.unwrap()),
    }
    }
}

/// `check extends ext ? yes : no`
pub open spec fn rendered_conditional(c: TsConditionalDefView) -> Seq<char>
    decreases c,
{
    rendered(*c.check_type) + " extends "@ + rendered(*c.extends_type) + " ? "@ + rendered(
        *c.true_type,
    ) + " : "@ + rendered(*c.false_type)
}

/// `infer U`
pub open spec fn rendered_infer(i: TsInferDefView) -> Seq<char>
    decreases i,
{
    "infer "@ + rendered_type_param(*i.type_param)
}

/// `Obj[Index]`
pub open spec fn rendered_indexed_access(a: TsIndexedAccessDefView) -> Seq<char>
    decreases a,
{
    rendered(*a.obj_type) + "["@ + rendered(*a.index_type) + "]"@
}

/// `operator T`
pub open spec fn rendered_type_operator(op: TsTypeOperatorDefView) -> Seq<char>
    decreases op,
{
    op.operator + " "@ + rendered(op.ts_type)
}

pub open spec fn rendered_types(s: Seq<TsTypeDefView>) -> Seq<Seq<char>>
    decreases s,
{
    Seq::new(
        s.len(),
        |i: int|
            if 0 <= i < s.len() {
                rendered(s[i])
            } else {
                Seq::empty()
            },
    )
}

/// The text of a literal of a node whose own text is `repr`.
pub open spec fn rendered_literal(l: LiteralDefView, repr: Seq<char>) -> Seq<char>
    decreases l,
{
    if !literal_has_payload(l) {
        arbitrary()
    } else {
        match l.kind {
            LiteralDefKind::Boolean => bool_text(l.boolean.unwrap()),
            LiteralDefKind::String => "\""@ + l.string.unwrap() + "\""@,
            LiteralDefKind::Template => "`"@ + join(
                template_part_texts(l.ts_types.unwrap()),
                Seq::empty(),
            ) + "`"@,
            LiteralDefKind::Number => repr,
            LiteralDefKind::BigInt => l.string.unwrap(),
        }
    }
}

/// Whether a part of a template is a chunk of literal text.
pub open spec fn is_template_chunk(part: TsTypeDefView) -> bool {
    part.kind == Some(TsTypeDefKind::Literal) && part.literal.unwrap().kind
        == LiteralDefKind::String
}

/// The texts of the parts of a template: a chunk shows its text as it is; any
/// other part is an interpolation, `${...}`.
pub open spec fn template_part_texts(s: Seq<TsTypeDefView>) -> Seq<Seq<char>>
    decreases s,
{
    Seq::new(
        s.len(),
        |i: int|
            if 0 <= i < s.len() {
                if is_template_chunk(s[i]) {
                    s[i].literal.unwrap().string.unwrap()
                } else {
                    "${"@ + rendered(s[i]) + "}"@
                }
            } else {
                Seq::empty()
            },
    )
}

/// The text of one part of a template.
pub open spec fn template_part_text(part: TsTypeDefView) -> Seq<char> {
    if is_template_chunk(part) {
        part.literal.unwrap().string.unwrap()
    } else {
        "${"@ + rendered(part) + "}"@
    }
}

pub open spec fn rendered_type_ref(r: TsTypeRefDefView) -> Seq<char>
    decreases r,
{
    r.name + rendered_type_args(r.type_params)
}

pub open spec fn rendered_import_type(i: TsImportTypeDefView) -> Seq<char>
    decreases i,
{
    "import(\""@ + i.specifier + "\")"@ + match i.qualifier {
        Some(q) => "."@ + q,
        None => Seq::empty(),
    } + rendered_type_args(i.type_params)
}

pub open spec fn rendered_fn_or_constructor(f: TsFnOrConstructorDefView) -> Seq<char>
    decreases f,
{
    (if f.constructor {
        "new "@
    } else {
        Seq::empty()
    }) + "("@ + join(rendered_params(f.params), ", "@) + ") => "@ + rendered(f.ts_type)
}

/// `readonly `, `+readonly `, `-readonly ` or nothing.
pub open spec fn mapped_readonly_text(modifier: Option<TruePlusMinus>) -> Seq<char> {
    match modifier {
        Some(TruePlusMinus::True) => "readonly "@,
        Some(TruePlusMinus::Plus) => "+readonly "@,
        Some(TruePlusMinus::Minus) => "-readonly "@,
        None => Seq::empty(),
    }
}

/// `?`, `+?`, `-?` or nothing.
pub open spec fn mapped_optional_text(modifier: Option<TruePlusMinus>) -> Seq<char> {
    match modifier {
        Some(TruePlusMinus::True) => "?"@,
        Some(TruePlusMinus::Plus) => "+?"@,
        Some(TruePlusMinus::Minus) => "-?"@,
        None => Seq::empty(),
    }
}

/// The modifiers and, in brackets, the key: `K in C` where the parameter has a
/// constraint, and `as N` where the key is renamed; then the value type.
pub open spec fn rendered_mapped_type(m: TsMappedTypeDefView) -> Seq<char>
    decreases m,
{
    mapped_readonly_text(m.readonly) + "["@ + (match m.type_param.constraint {
        Some(c) => m.type_param.name + " in "@ + rendered(c),
        None => rendered_type_param(*m.type_param),
    }) + match m.name_type {
        Some(n) => " as "@ + rendered(*n),
        None => Seq::empty(),
    } + "]"@ + mapped_optional_text(m.optional) + match m.ts_type {
        Some(t) => ": "@ + rendered(*t),
        None => Seq::empty(),
    }
}

/// Call signatures, then methods, then properties, then index signatures, each
/// followed by `; `, inside `{ ` and `}`.
pub open spec fn rendered_type_literal(l: TsTypeLiteralDefView) -> Seq<char>
    decreases l,
{
    "{ "@ + joined(rendered_call_signatures(l.call_signatures), "; "@, true) + joined(
        rendered_methods(l.methods),
        "; "@,
        true,
    ) + joined(rendered_properties(l.properties), "; "@, true) + joined(
        rendered_index_signatures(l.index_signatures),
        "; "@,
        true,
    ) + "}"@
}

pub open spec fn rendered_method(m: LiteralMethodDefView) -> Seq<char>
    decreases m,
{
    computed_name(m.computed, m.name) + optional_mark(m.optional) + "("@ + join(
        rendered_params(m.params),
        ", "@,
    ) + ")"@ + rendered_annotation(m.return_type)
}

pub open spec fn rendered_methods(s: Seq<LiteralMethodDefView>) -> Seq<Seq<char>>
    decreases s,
{
    Seq::new(
        s.len(),
        |i: int|
            if 0 <= i < s.len() {
                rendered_method(s[i])
            } else {
                Seq::empty()
            },
    )
}

pub open spec fn rendered_property(p: LiteralPropertyDefView) -> Seq<char>
    decreases p,
{
    p.name + rendered_annotation(p.ts_type)
}

pub open spec fn rendered_properties(s: Seq<LiteralPropertyDefView>) -> Seq<Seq<char>>
    decreases s,
{
    Seq::new(
        s.len(),
        |i: int|
            if 0 <= i < s.len() {
                rendered_property(s[i])
            } else {
                Seq::empty()
            },
    )
}

pub open spec fn rendered_call_signature(c: LiteralCallSignatureDefView) -> Seq<char>
    decreases c,
{
    "("@ + join(rendered_params(c.params), ", "@) + ")"@ + rendered_annotation(c.ts_type)
}

pub open spec fn rendered_call_signatures(s: Seq<LiteralCallSignatureDefView>) -> Seq<Seq<char>>
    decreases s,
{
    Seq::new(
        s.len(),
        |i: int|
            if 0 <= i < s.len() {
                rendered_call_signature(s[i])
            } else {
                Seq::empty()
            },
    )
}

pub open spec fn rendered_index_signature(x: LiteralIndexSignatureDefView) -> Seq<char>
    decreases x,
{
    readonly_mark(x.readonly) + "["@ + join(rendered_params(x.params), ", "@) + "]"@
        + rendered_annotation(x.ts_type)
}

pub open spec fn rendered_index_signatures(s: Seq<LiteralIndexSignatureDefView>) -> Seq<Seq<char>>
    decreases s,
{
    Seq::new(
        s.len(),
        |i: int|
            if 0 <= i < s.len() {
                rendered_index_signature(s[i])
            } else {
                Seq::empty()
            },
    )
}

/// `asserts`, the subject, and `is` with the type, as far as each is there,
/// with single spaces between.
pub open spec fn rendered_type_predicate(p: TsTypePredicateDefView) -> Seq<char>
    decreases p,
{
    (if p.asserts {
        "asserts "@
    } else {
        Seq::empty()
    }) + (match p.param {
        ThisOrIdentView::This => "this"@,
        ThisOrIdentView::Identifier { name } => name,
    }) + match p.ty {
        Some(t) => " is "@ + rendered(*t),
        None => Seq::empty(),
    }
}

/// `Name extends Constraint = Default`
pub open spec fn rendered_type_param(p: TsTypeParamDefView) -> Seq<char>
    decreases p,
{
    p.name + (match p.constraint {
        Some(c) => " extends "@ + rendered(c),
        None => Seq::empty(),
    }) + match p.default {
        Some(d) => " = "@ + rendered(d),
        None => Seq::empty(),
    }
}

/// A parameter: its pattern, then its annotation. A default value is not shown.
pub open spec fn rendered_param(p: ParamDefView) -> Seq<char>
    decreases p,
{
    rendered_pattern(p.pattern) + rendered_annotation(p.ts_type)
}

pub open spec fn rendered_pattern(p: ParamPatternDefView) -> Seq<char>
    decreases p,
{
    match p {
        ParamPatternDefView::Array { elements, optional } => "["@ + join(
            rendered_optional_params(elements),
            ", "@,
        ) + "]"@ + optional_mark(optional),
        ParamPatternDefView::Assign { left, right } => rendered_param(*left),
        ParamPatternDefView::Identifier { name, optional } => name + optional_mark(optional),
        ParamPatternDefView::Object { props, optional } => "{"@ + join(
            rendered_object_pat_props(props),
            ", "@,
        ) + "}"@ + optional_mark(optional),
        ParamPatternDefView::Rest { arg } => "..."@ + rendered_param(*arg),
    }
}

pub open spec fn rendered_params(s: Seq<ParamDefView>) -> Seq<Seq<char>>
    decreases s,
{
    Seq::new(
        s.len(),
        |i: int|
            if 0 <= i < s.len() {
                rendered_param(s[i])
            } else {
                Seq::empty()
            },
    )
}

/// The texts of the elements of an array pattern; a hole has no text.
pub open spec fn rendered_optional_params(s: Seq<Option<ParamDefView>>) -> Seq<Seq<char>>
    decreases s,
{
    Seq::new(
        s.len(),
        |i: int|
            if 0 <= i < s.len() {
                match s[i] {
                    Some(p) => rendered_param(p),
                    None => Seq::empty(),
                }
            } else {
                Seq::empty()
            },
    )
}

pub open spec fn rendered_object_pat_prop(p: ObjectPatPropDefView) -> Seq<char>
    decreases p,
{
    match p {
        ObjectPatPropDefView::Assign { key, value } => key,
        ObjectPatPropDefView::KeyValue { key, value } => key,
        ObjectPatPropDefView::Rest { arg } => "..."@ + rendered_param(*arg),
    }
}

pub open spec fn rendered_object_pat_props(s: Seq<ObjectPatPropDefView>) -> Seq<Seq<char>>
    decreases s,
{
    Seq::new(
        s.len(),
        |i: int|
            if 0 <= i < s.len() {
                rendered_object_pat_prop(s[i])
            } else {
                Seq::empty()
            },
    )
}


/// `: ` and the type's text, or nothing.
fn annotation_text(ts_type: &Option<TsTypeDef>) -> (out: String)
    requires
        ts_type matches Some(t) ==> ts_type_def_wf(t@),
    ensures
        out@ == rendered_annotation(
            match *ts_type {
                Some(x) => Some(ts_type_def_view(x)),
                None => None,
            },
        ),
    decreases ts_type, 0int,
{
    match ts_type {
        Some(t) => {
            let mut out = String::from_str(": ");
            let text = t.to_string();
            out.append(text.as_str());
            out
        },
        None => String::new(),
    }
}

/// `<A, B>`, or nothing where there is no argument list.
fn type_args_text(args: &Option<Vec<TsTypeDef>>) -> (out: String)
    requires
        args matches Some(types) ==> ts_type_def_all_wf(ts_type_def_views(types@)),
    ensures
        out@ == rendered_type_args(
            match *args {
                Some(x) => Some(ts_type_def_views(x@)),
                None => None,
            },
        ),
    decreases args, 0int,
{
    match args {
        Some(types) => {
            let mut out = String::from_str("<");
            let parts = render_types(types);
            let list = join_strings(&parts, ", ", false);
            out.append(list.as_str());
            out.append(">");
            out
        },
        None => String::new(),
    }
}

/// The text of each type of a list.
fn render_types(types: &Vec<TsTypeDef>) -> (out: Vec<String>)
    requires
        ts_type_def_all_wf(ts_type_def_views(types@)),
    ensures
        texts(out@) == rendered_types(ts_type_def_views(types@)),
    decreases types, 0int,
{
    let mut out: Vec<String> = Vec::new();
    let mut i: usize = 0;
    while i < types.len()
        invariant
            i <= types.len(),
            out.len() == i,
            ts_type_def_all_wf(ts_type_def_views(types@)),
            forall|k: int| 0 <= k < i ==> out@[k]@ == rendered(ts_type_def_view(types@[k])),
        decreases types.len() - i,
    {
        assert(ts_type_def_wf(ts_type_def_views(types@)[i as int]));
        let text = types[i].to_string();
        out.push(text);
        i += 1;
    }
    assert(texts(out@) =~= rendered_types(ts_type_def_views(types@)));
    out
}

/// The text of each part of a template.
fn render_template_parts(parts: &Vec<TsTypeDef>) -> (out: Vec<String>)
    requires
        template_parts_wf(ts_type_def_views(parts@)),
    ensures
        texts(out@) == template_part_texts(ts_type_def_views(parts@)),
    decreases parts, 0int,
{
    let mut out: Vec<String> = Vec::new();
    let mut i: usize = 0;
    while i < parts.len()
        invariant
            i <= parts.len(),
            out.len() == i,
            template_parts_wf(ts_type_def_views(parts@)),
            forall|k: int|
                0 <= k < i ==> out@[k]@ == template_part_text(ts_type_def_view(parts@[k])),
        decreases parts.len() - i,
    {
        assert(ts_type_def_wf(ts_type_def_views(parts@)[i as int]));
        let text = template_part_to_string(&parts[i]);
        out.push(text);
        i += 1;
    }
    assert(texts(out@) =~= template_part_texts(ts_type_def_views(parts@)));
    out
}

/// The text of one part of a template.
fn template_part_to_string(part: &TsTypeDef) -> (out: String)
    requires
        ts_type_def_wf(part@),
    ensures
        out@ == template_part_text(part@),
    decreases part, 2int,
{
    match chunk_of(part) {
        Some(chunk) => String::from_str(chunk),
        None => {
            let mut text = String::from_str("${");
            let inner = part.to_string();
            text.append(inner.as_str());
            text.append("}");
            text
        },
    }
}

/// The text of a part of a template that is a chunk of literal text.
fn chunk_of(part: &TsTypeDef) -> (chunk: Option<&str>)
    requires
        ts_type_def_wf(part@),
    ensures
        chunk is Some == is_template_chunk(part@),
        chunk matches Some(text) ==> text@ == part@.literal.unwrap().string.unwrap(),
{
    match part.kind {
        Some(TsTypeDefKind::Literal) => {
            let literal = part.literal.as_ref().unwrap();
            assert(literal_def_wf(literal@));
            match literal.kind {
                LiteralDefKind::String => Some(literal.string.as_ref().unwrap().as_str()),
                _ => None,
            }
        },
        _ => None,
    }
}

fn render_params(params: &Vec<ParamDef>) -> (out: Vec<String>)
    requires
        param_def_all_wf(param_def_views(params@)),
    ensures
        texts(out@) == rendered_params(param_def_views(params@)),
    decreases params, 0int,
{
    let mut out: Vec<String> = Vec::new();
    let mut i: usize = 0;
    while i < params.len()
        invariant
            i <= params.len(),
            out.len() == i,
            param_def_all_wf(param_def_views(params@)),
            forall|k: int| 0 <= k < i ==> out@[k]@ == rendered_param(params@[k]@),
        decreases params.len() - i,
    {
        assert(param_def_wf(param_def_views(params@)[i as int]));
        let text = params[i].to_string();
        out.push(text);
        i += 1;
    }
    assert(texts(out@) =~= rendered_params(param_def_views(params@)));
    out
}

fn render_optional_params(params: &Vec<Option<ParamDef>>) -> (out: Vec<String>)
    requires
        optional_param_def_all_wf(optional_param_def_views(params@)),
    ensures
        texts(out@) == rendered_optional_params(optional_param_def_views(params@)),
    decreases params, 0int,
{
    let mut out: Vec<String> = Vec::new();
    let mut i: usize = 0;
    while i < params.len()
        invariant
            i <= params.len(),
            out.len() == i,
            optional_param_def_all_wf(optional_param_def_views(params@)),
            forall|k: int|
                0 <= k < i ==> out@[k]@ == rendered_optional_params(
                    optional_param_def_views(params@),
                )[k],
        decreases params.len() - i,
    {
        let ghost view = optional_param_def_views(params@)[i as int];
        assert(view matches Some(p) ==> param_def_wf(p));
        let text = match &params[i] {
            Some(p) => p.to_string(),
            None => String::new(),
        };
        out.push(text);
        i += 1;
    }
    assert(texts(out@) =~= rendered_optional_params(optional_param_def_views(params@)));
    out
}

fn render_object_pat_props(props: &Vec<ObjectPatPropDef>) -> (out: Vec<String>)
    requires
        object_pat_prop_def_all_wf(object_pat_prop_def_views(props@)),
    ensures
        texts(out@) == rendered_object_pat_props(object_pat_prop_def_views(props@)),
    decreases props, 0int,
{
    let mut out: Vec<String> = Vec::new();
    let mut i: usize = 0;
    while i < props.len()
        invariant
            i <= props.len(),
            out.len() == i,
            object_pat_prop_def_all_wf(object_pat_prop_def_views(props@)),
            forall|k: int| 0 <= k < i ==> out@[k]@ == rendered_object_pat_prop(props@[k]@),
        decreases props.len() - i,
    {
        assert(crate::model::object_pat_prop_def_wf(object_pat_prop_def_views(props@)[i as int]));
        let text = props[i].to_string();
        out.push(text);
        i += 1;
    }
    assert(texts(out@) =~= rendered_object_pat_props(object_pat_prop_def_views(props@)));
    out
}

fn render_methods(methods: &Vec<LiteralMethodDef>) -> (out: Vec<String>)
    requires
        literal_method_def_all_wf(literal_method_def_views(methods@)),
    ensures
        texts(out@) == rendered_methods(literal_method_def_views(methods@)),
    decreases methods, 0int,
{
    let mut out: Vec<String> = Vec::new();
    let mut i: usize = 0;
    while i < methods.len()
        invariant
            i <= methods.len(),
            out.len() == i,
            literal_method_def_all_wf(literal_method_def_views(methods@)),
            forall|k: int| 0 <= k < i ==> out@[k]@ == rendered_method(methods@[k]@),
        decreases methods.len() - i,
    {
        assert(crate::model::literal_method_def_wf(literal_method_def_views(methods@)[i as int]));
        let text = methods[i].to_string();
        out.push(text);
        i += 1;
    }
    assert(texts(out@) =~= rendered_methods(literal_method_def_views(methods@)));
    out
}

fn render_properties(properties: &Vec<LiteralPropertyDef>) -> (out: Vec<String>)
    requires
        literal_property_def_all_wf(literal_property_def_views(properties@)),
    ensures
        texts(out@) == rendered_properties(literal_property_def_views(properties@)),
    decreases properties, 0int,
{
    let mut out: Vec<String> = Vec::new();
    let mut i: usize = 0;
    while i < properties.len()
        invariant
            i <= properties.len(),
            out.len() == i,
            literal_property_def_all_wf(literal_property_def_views(properties@)),
            forall|k: int| 0 <= k < i ==> out@[k]@ == rendered_property(properties@[k]@),
        decreases properties.len() - i,
    {
        assert(crate::model::literal_property_def_wf(
            literal_property_def_views(properties@)[i as int],
        ));
        let text = properties[i].to_string();
        out.push(text);
        i += 1;
    }
    assert(texts(out@) =~= rendered_properties(literal_property_def_views(properties@)));
    out
}

fn render_call_signatures(signatures: &Vec<LiteralCallSignatureDef>) -> (out: Vec<String>)
    requires
        literal_call_signature_def_all_wf(literal_call_signature_def_views(signatures@)),
    ensures
        texts(out@) == rendered_call_signatures(literal_call_signature_def_views(signatures@)),
    decreases signatures, 0int,
{
    let mut out: Vec<String> = Vec::new();
    let mut i: usize = 0;
    while i < signatures.len()
        invariant
            i <= signatures.len(),
            out.len() == i,
            literal_call_signature_def_all_wf(literal_call_signature_def_views(signatures@)),
            forall|k: int| 0 <= k < i ==> out@[k]@ == rendered_call_signature(signatures@[k]@),
        decreases signatures.len() - i,
    {
        assert(crate::model::literal_call_signature_def_wf(
            literal_call_signature_def_views(signatures@)[i as int],
        ));
        let text = signatures[i].to_string();
        out.push(text);
        i += 1;
    }
    assert(texts(out@) =~= rendered_call_signatures(
        literal_call_signature_def_views(signatures@),
    ));
    out
}

fn render_index_signatures(signatures: &Vec<LiteralIndexSignatureDef>) -> (out: Vec<String>)
    requires
        literal_index_signature_def_all_wf(literal_index_signature_def_views(signatures@)),
    ensures
        texts(out@) == rendered_index_signatures(literal_index_signature_def_views(signatures@)),
    decreases signatures, 0int,
{
    let mut out: Vec<String> = Vec::new();
    let mut i: usize = 0;
    while i < signatures.len()
        invariant
            i <= signatures.len(),
            out.len() == i,
            literal_index_signature_def_all_wf(literal_index_signature_def_views(signatures@)),
            forall|k: int| 0 <= k < i ==> out@[k]@ == rendered_index_signature(signatures@[k]@),
        decreases signatures.len() - i,
    {
        assert(crate::model::literal_index_signature_def_wf(
            literal_index_signature_def_views(signatures@)[i as int],
        ));
        let text = signatures[i].to_string();
        out.push(text);
        i += 1;
    }
    assert(texts(out@) =~= rendered_index_signatures(
        literal_index_signature_def_views(signatures@),
    ));
    out
}

impl ObjectPatPropDef {
    /// The property as it is written in a pattern; its value is not shown.
    pub fn to_string(&self) -> (out: String)
        requires
            crate::model::object_pat_prop_def_wf(self@),
        ensures
            out@ == rendered_object_pat_prop(self@),
        decreases self, 0int,
    {
        match self {
            ObjectPatPropDef::Assign { key, value } => key.clone(),
            ObjectPatPropDef::KeyValue { key, value } => key.clone(),
            ObjectPatPropDef::Rest { arg } => {
                let mut out = String::from_str("...");
                let text = arg.to_string();
                out.append(text.as_str());
                out
            },
        }
    }
}

impl ParamDef {
    /// The parameter as it is written in a signature, without a default value.
    pub fn to_string(&self) -> (out: String)
        requires
            param_def_wf(self@),
        ensures
            out@ == rendered_param(self@),
        decreases self, 0int,
    {
        let mut out = match &self.pattern {
            ParamPatternDef::Array { elements, optional } => {
                let mut out = String::from_str("[");
                let parts = render_optional_params(elements);
                let list = join_strings(&parts, ", ", false);
                out.append(list.as_str());
                out.append("]");
                out.append(display_optional(*optional));
                out
            },
            ParamPatternDef::Assign { left, right } => left.to_string(),
            ParamPatternDef::Identifier { name, optional } => {
                let mut out = name.clone();
                out.append(display_optional(*optional));
                out
            },
            ParamPatternDef::Object { props, optional } => {
                let mut out = String::from_str("{");
                let parts = render_object_pat_props(props);
                let list = join_strings(&parts, ", ", false);
                out.append(list.as_str());
                out.append("}");
                out.append(display_optional(*optional));
                out
            },
            ParamPatternDef::Rest { arg } => {
                let mut out = String::from_str("...");
                let text = arg.to_string();
                out.append(text.as_str());
                out
            },
        };
        assert(out@ == rendered_pattern(self@.pattern));
        let annotation = annotation_text(&self.ts_type);
        out.append(annotation.as_str());
        out
    }
}

impl TsTypeParamDef {
    /// `Name extends Constraint = Default`
    pub fn to_string(&self) -> (out: String)
        requires
            crate::model::ts_type_param_def_wf(self@),
        ensures
            out@ == rendered_type_param(self@),
        decreases self, 0int,
    {
        let mut out = self.name.clone();
        if let Some(constraint) = &self.constraint {
            out.append(" extends ");
            let text = constraint.to_string();
            out.append(text.as_str());
        }
        if let Some(default) = &self.default {
            out.append(" = ");
            let text = default.to_string();
            out.append(text.as_str());
        }
        assert(out@ =~= rendered_type_param(self@));
        out
    }
}

impl LiteralMethodDef {
    /// `name?(params): T`, the name in brackets where it is computed.
    pub fn to_string(&self) -> (out: String)
        requires
            crate::model::literal_method_def_wf(self@),
        ensures
            out@ == rendered_method(self@),
        decreases self, 0int,
    {
        let mut out = display_computed(self.computed, self.name.as_str());
        out.append(display_optional(self.optional));
        out.append("(");
        let parts = render_params(&self.params);
        let list = join_strings(&parts, ", ", false);
        out.append(list.as_str());
        out.append(")");
        let annotation = annotation_text(&self.return_type);
        out.append(annotation.as_str());
        out
    }
}

impl LiteralPropertyDef {
    /// `name: T`
    pub fn to_string(&self) -> (out: String)
        requires
            crate::model::literal_property_def_wf(self@),
        ensures
            out@ == rendered_property(self@),
        decreases self, 0int,
    {
        let mut out = self.name.clone();
        let annotation = annotation_text(&self.ts_type);
        out.append(annotation.as_str());
        out
    }
}

impl LiteralCallSignatureDef {
    /// `(params): T`
    pub fn to_string(&self) -> (out: String)
        requires
            crate::model::literal_call_signature_def_wf(self@),
        ensures
            out@ == rendered_call_signature(self@),
        decreases self, 0int,
    {
        let mut out = String::from_str("(");
        let parts = render_params(&self.params);
        let list = join_strings(&parts, ", ", false);
        out.append(list.as_str());
        out.append(")");
        let annotation = annotation_text(&self.ts_type);
        out.append(annotation.as_str());
        out
    }
}

impl LiteralIndexSignatureDef {
    /// `readonly [params]: T`
    pub fn to_string(&self) -> (out: String)
        requires
            crate::model::literal_index_signature_def_wf(self@),
        ensures
            out@ == rendered_index_signature(self@),
        decreases self, 0int,
    {
        let mut out = String::from_str(display_readonly(self.readonly));
        out.append("[");
        let parts = render_params(&self.params);
        let list = join_strings(&parts, ", ", false);
        out.append(list.as_str());
        out.append("]");
        let annotation = annotation_text(&self.ts_type);
        out.append(annotation.as_str());
        out
    }
}

impl TsTypePredicateDef {
    /// `asserts param is T`, as far as each part is there.
    pub fn to_string(&self) -> (out: String)
        requires
            crate::model::ts_type_predicate_def_wf(self@),
        ensures
            out@ == rendered_type_predicate(self@),
        decreases self, 0int,
    {
        let mut out = String::new();
        if self.asserts {
            out.append("asserts ");
        }
        match &self.param {
            ThisOrIdent::This => {
                out.append("this");
            },
            ThisOrIdent::Identifier { name } => {
                out.append(name.as_str());
            },
        }
        if let Some(ty) = &self.ty {
            out.append(" is ");
            let text = ty.to_string();
            out.append(text.as_str());
        }
        assert(out@ =~= rendered_type_predicate(self@));
        out
    }
}


impl TsConditionalDef {
    fn to_string(&self) -> (out: String)
        requires
            crate::model::ts_conditional_def_wf(self@),
        ensures
            out@ == rendered_conditional(self@),
        decreases self, 0int,
    {
        let mut out = self.check_type.to_string();
        out.append(" extends ");
        out.append(self.extends_type.to_string().as_str());
        out.append(" ? ");
        out.append(self.true_type.to_string().as_str());
        out.append(" : ");
        out.append(self.false_type.to_string().as_str());
        out
    }
}

impl TsInferDef {
    fn to_string(&self) -> (out: String)
        requires
            crate::model::ts_infer_def_wf(self@),
        ensures
            out@ == rendered_infer(self@),
        decreases self, 0int,
    {
        let mut out = String::from_str("infer ");
        out.append(self.type_param.to_string().as_str());
        out
    }
}

impl TsIndexedAccessDef {
    fn to_string(&self) -> (out: String)
        requires
            crate::model::ts_indexed_access_def_wf(self@),
        ensures
            out@ == rendered_indexed_access(self@),
        decreases self, 0int,
    {
        let mut out = self.obj_type.to_string();
        out.append("[");
        out.append(self.index_type.to_string().as_str());
        out.append("]");
        out
    }
}

impl TsTypeOperatorDef {
    fn to_string(&self) -> (out: String)
        requires
            crate::model::ts_type_operator_def_wf(self@),
        ensures
            out@ == rendered_type_operator(self@),
        decreases self, 0int,
    {
        let mut out = self.operator.clone();
        out.append(" ");
        out.append(self.ts_type.to_string().as_str());
        out
    }
}

impl TsTypeRefDef {
    fn to_string(&self) -> (out: String)
        requires
            crate::model::ts_type_ref_def_wf(self@),
        ensures
            out@ == rendered_type_ref(self@),
        decreases self, 0int,
    {
        let mut out = self.name.clone();
        let args = type_args_text(&self.type_params);
        out.append(args.as_str());
        out
    }
}

impl TsImportTypeDef {
    fn to_string(&self) -> (out: String)
        requires
            crate::model::ts_import_type_def_wf(self@),
        ensures
            out@ == rendered_import_type(self@),
        decreases self, 0int,
    {
        let mut out = String::from_str("import(\"");
        out.append(self.specifier.as_str());
        out.append("\")");
        if let Some(qualifier) = &self.qualifier {
            out.append(".");
            out.append(qualifier.as_str());
        }
        let args = type_args_text(&self.type_params);
        out.append(args.as_str());
        assert(out@ =~= rendered_import_type(self@));
        out
    }
}

impl TsFnOrConstructorDef {
    fn to_string(&self) -> (out: String)
        requires
            crate::model::ts_fn_or_constructor_def_wf(self@),
        ensures
            out@ == rendered_fn_or_constructor(self@),
        decreases self, 0int,
    {
        let mut out = String::new();
        if self.constructor {
            out.append("new ");
        }
        out.append("(");
        let parts = render_params(&self.params);
        let list = join_strings(&parts, ", ", false);
        out.append(list.as_str());
        out.append(") => ");
        let text = self.ts_type.to_string();
        out.append(text.as_str());
        assert(out@ =~= rendered_fn_or_constructor(self@));
        out
    }
}

fn mapped_readonly_mark(modifier: Option<TruePlusMinus>) -> (mark: &'static str)
    ensures
        mark@ == mapped_readonly_text(modifier),
{
    match modifier {
        Some(TruePlusMinus::True) => "readonly ",
        Some(TruePlusMinus::Plus) => "+readonly ",
        Some(TruePlusMinus::Minus) => "-readonly ",
        None => {
            proof {
                reveal_strlit("");
                assert(""@ =~= Seq::<char>::empty());
            }
            ""
        },
    }
}

fn mapped_optional_mark(modifier: Option<TruePlusMinus>) -> (mark: &'static str)
    ensures
        mark@ == mapped_optional_text(modifier),
{
    match modifier {
        Some(TruePlusMinus::True) => "?",
        Some(TruePlusMinus::Plus) => "+?",
        Some(TruePlusMinus::Minus) => "-?",
        None => {
            proof {
                reveal_strlit("");
                assert(""@ =~= Seq::<char>::empty());
            }
            ""
        },
    }
}

impl TsMappedTypeDef {
    fn to_string(&self) -> (out: String)
        requires
            crate::model::ts_mapped_type_def_wf(self@),
        ensures
            out@ == rendered_mapped_type(self@),
        decreases self, 0int,
    {
        let mut out = String::from_str(mapped_readonly_mark(self.readonly));
        out.append("[");
        match &self.type_param.constraint {
            Some(constraint) => {
                out.append(self.type_param.name.as_str());
                out.append(" in ");
                let text = constraint.to_string();
                out.append(text.as_str());
            },
            None => {
                let text = self.type_param.to_string();
                out.append(text.as_str());
            },
        }
        if let Some(name_type) = &self.name_type {
            out.append(" as ");
            let text = name_type.to_string();
            out.append(text.as_str());
        }
        out.append("]");
        out.append(mapped_optional_mark(self.optional));
        if let Some(ts_type) = &self.ts_type {
            out.append(": ");
            let text = ts_type.to_string();
            out.append(text.as_str());
        }
        assert(out@ =~= rendered_mapped_type(self@));
        out
    }
}

impl TsTypeLiteralDef {
    fn to_string(&self) -> (out: String)
        requires
            crate::model::ts_type_literal_def_wf(self@),
        ensures
            out@ == rendered_type_literal(self@),
        decreases self, 0int,
    {
        let mut out = String::from_str("{ ");
        let call_signatures = render_call_signatures(&self.call_signatures);
        out.append(join_strings(&call_signatures, "; ", true).as_str());
        let methods = render_methods(&self.methods);
        out.append(join_strings(&methods, "; ", true).as_str());
        let properties = render_properties(&self.properties);
        out.append(join_strings(&properties, "; ", true).as_str());
        let index_signatures = render_index_signatures(&self.index_signatures);
        out.append(join_strings(&index_signatures, "; ", true).as_str());
        out.append("}");
        out
    }
}

impl LiteralDef {
    /// The literal's text; `repr` is the text of the node that holds it.
    fn to_string(&self, repr: &String) -> (out: String)
        requires
            literal_def_wf(self@),
        ensures
            out@ == rendered_literal(self@, repr@),
        decreases self, 0int,
    {
        match self.kind {
            LiteralDefKind::Boolean => String::from_str(display_bool(self.boolean.unwrap())),
            LiteralDefKind::String => {
                let mut out = String::from_str("\"");
                out.append(self.string.as_ref().unwrap().as_str());
                out.append("\"");
                out
            },
            LiteralDefKind::Template => {
                let mut out = String::from_str("`");
                let parts = render_template_parts(self.ts_types.as_ref().unwrap());
                out.append(join_strings(&parts, "", false).as_str());
                out.append("`");
                proof {
                    reveal_strlit("");
                    assert(""@ =~= Seq::<char>::empty());
                }
                out
            },
            LiteralDefKind::Number => repr.clone(),
            LiteralDefKind::BigInt => self.string.as_ref().unwrap().clone(),
        }
    }
}

impl TsTypeDef {
    /// The type as it is written in source.
    ///
    /// The node has to hold the payload that its tag names, at every level. A
    /// node without a tag is shown as `[UNSUPPORTED]`.
    pub fn to_string(&self) -> (out: String)
        requires
            ts_type_def_wf(self@),
        ensures
            out@ == rendered(self@),
        decreases self, 1int,
    {
        match self.kind {
            None => String::from_str("[UNSUPPORTED]"),
            Some(TsTypeDefKind::Array) => self.array_text(),
            Some(TsTypeDefKind::Conditional) => self.conditional_type.as_ref().unwrap().to_string(),
            Some(TsTypeDefKind::Infer) => self.infer.as_ref().unwrap().to_string(),
            Some(TsTypeDefKind::ImportType) => self.import_type.as_ref().unwrap().to_string(),
            Some(TsTypeDefKind::FnOrConstructor) => {
                self.fn_or_constructor.as_ref().unwrap().to_string()
            },
            Some(TsTypeDefKind::IndexedAccess) => self.indexed_access.as_ref().unwrap().to_string(),
            Some(TsTypeDefKind::Intersection) => {
                let parts = render_types(self.intersection.as_ref().unwrap());
                join_strings(&parts, " & ", false)
            },
            Some(TsTypeDefKind::Mapped) => self.mapped_type.as_ref().unwrap().to_string(),
            Some(TsTypeDefKind::Keyword) => self.keyword.as_ref().unwrap().clone(),
            Some(TsTypeDefKind::Literal) => self.literal.as_ref().unwrap().to_string(&self.repr),
            Some(TsTypeDefKind::Optional) => {
                let mut out = self.optional.as_ref().unwrap().to_string();
                out.append("?");
                out
            },
            Some(TsTypeDefKind::Parenthesized) => {
                let mut out = String::from_str("(");
                out.append(self.parenthesized.as_ref().unwrap().to_string().as_str());
                out.append(")");
                out
            },
            Some(TsTypeDefKind::Rest) => {
                let mut out = String::from_str("...");
                out.append(self.rest.as_ref().unwrap().to_string().as_str());
                out
            },
            Some(TsTypeDefKind::This) => String::from_str("this"),
            Some(TsTypeDefKind::Tuple) => {
                let mut out = String::from_str("[");
                let parts = render_types(self.tuple.as_ref().unwrap());
                out.append(join_strings(&parts, ", ", false).as_str());
                out.append("]");
                out
            },
            Some(TsTypeDefKind::TypeLiteral) => self.type_literal.as_ref().unwrap().to_string(),
            Some(TsTypeDefKind::TypeOperator) => self.type_operator.as_ref().unwrap().to_string(),
            Some(TsTypeDefKind::TypeQuery) => {
                let mut out = String::from_str("typeof ");
                out.append(self.type_query.as_ref().unwrap().as_str());
                out
            },
            Some(TsTypeDefKind::TypeRef) => self.type_ref.as_ref().unwrap().to_string(),
            Some(TsTypeDefKind::Union) => {
                let parts = render_types(self.union.as_ref().unwrap());
                join_strings(&parts, " | ", false)
            },
            Some(TsTypeDefKind::TypePredicate) => self.type_predicate.as_ref().unwrap().to_string(),
        }
    }

    /// `T[]`, with `T` in parentheses where it is a union or an intersection.
    fn array_text(&self) -> (out: String)
        requires
            self@.kind == Some(TsTypeDefKind::Array),
            ts_type_def_wf(self@),
        ensures
            out@ == rendered(self@),
        decreases self, 0int,
    {
        let elem = self.array.as_ref().unwrap();
        let text = elem.to_string();
        let grouped = match elem.kind {
            Some(TsTypeDefKind::Union) => true,
            Some(TsTypeDefKind::Intersection) => true,
            _ => false,
        };
        if grouped {
            let mut out = String::from_str("(");
            out.append(text.as_str());
            out.append(")[]");
            out
        } else {
            let mut out = text;
            out.append("[]");
            out
        }
    }
}

} // verus!
