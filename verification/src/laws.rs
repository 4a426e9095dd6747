//! What holds of descriptions and of their text, whatever the input.

use crate::ast::{
    ArrayLit, Expr, TplElement, TsLit, TsType, TsTypeElement, TsUnionOrIntersectionType,
};
use crate::described::{
    call_signature_of_member, index_signature_of_member, kind_of, lit_type_def, merged_template,
    method_of_member, piece_defs, piece_texts, property_of_member, quasi_pieces, sorted_by_span,
    template_def, ts_type_def_of, type_pieces, TemplatePiece,
};
use crate::display::join;
use crate::infer::{any_array_def, collected, element_inferences, has_opaque, inferred};
use crate::model::{
    array_def, has_payload, holds_one_payload, keyword_def, payload_count, ts_type_def_view,
    ts_type_def_wf, type_ref_def, union_def, TsTypeDefView, TsTypeRefDefView,
};
use crate::render::{
    is_template_chunk, rendered, rendered_literal, rendered_type_args, rendered_type_ref,
    rendered_types, template_part_text, template_part_texts,
};
use crate::template::{
    lemma_sorted_is_ordered, lemma_sorted_is_permutation, lemma_sorted_keeps, ordered_by_span,
};
use crate::ts_type::{TsTypeDef, TsTypeDefKind};
use vstd::prelude::*;

verus! {

/// Every form of type expression is described by a node that carries the tag of
/// that form, holds the payload of that tag, and holds no other payload.
pub proof fn lemma_description_matches_form(t: TsType)
    ensures
        ts_type_def_of(t).kind == Some(kind_of(t)),
        has_payload(ts_type_def_of(t)),
        payload_count(ts_type_def_of(t)) == 1,
{
    match t {
        TsType::TsLitType(l) => {
            assert(ts_type_def_of(t) == lit_type_def(l.lit));
            match l.lit {
                TsLit::Tpl(tpl) => {
                    assert(lit_type_def(l.lit) == merged_template(
                        type_pieces(tpl.types@) + quasi_pieces(tpl.quasis@),
                    ));
                },
                _ => {},
            }
        },
        TsType::TsTypeRef(r) => {
            assert(ts_type_def_of(t) == crate::described::type_ref_def_of(r));
        },
        TsType::TsUnionOrIntersectionType(u) => {
            match u {
                TsUnionOrIntersectionType::TsUnionType(_) => {},
                TsUnionOrIntersectionType::TsIntersectionType(_) => {},
            }
        },
        _ => {},
    }
}

/// A tagged node that holds the payload of its tag and no other has exactly one
/// payload field populated.
pub proof fn lemma_one_payload_is_counted(d: TsTypeDefView)
    requires
        d.kind is Some,
        holds_one_payload(d),
    ensures
        payload_count(d) == 1,
{
}

/// A well-formed tagged node has exactly one payload field populated, the one
/// that its tag names.
pub proof fn lemma_well_formed_holds_one_payload(d: TsTypeDefView)
    requires
        d.kind is Some,
        ts_type_def_wf(d),
    ensures
        has_payload(d),
        payload_count(d) == 1,
{
    lemma_one_payload_is_counted(d);
}

/// A keyword node populates its keyword and no payload of any other kind.
pub proof fn lemma_keyword_holds_only_keyword(keyword: Seq<char>, repr: Seq<char>)
    ensures
        keyword_def(keyword, repr).kind == Some(TsTypeDefKind::Keyword),
        keyword_def(keyword, repr).keyword == Some(keyword),
        payload_count(keyword_def(keyword, repr)) == 1,
{
}

/// An array of a union is written with the union in parentheses.
pub proof fn lemma_array_of_union(members: Seq<TsTypeDefView>)
    ensures
        rendered(array_def(union_def(members))) == "("@ + join(rendered_types(members), " | "@)
            + ")[]"@,
{
    let union = union_def(members);
    assert(rendered(union) == join(rendered_types(members), " | "@));
    assert(*array_def(union).array.unwrap() == union);
}

/// An array of the union `A | B` is written `(A | B)[]`.
pub proof fn lemma_array_of_union_of_two(a: TsTypeDefView, b: TsTypeDefView)
    ensures
        rendered(array_def(union_def(seq![a, b]))) == "("@ + rendered(a) + " | "@ + rendered(b)
            + ")[]"@,
{
    reveal_with_fuel(join, 3);
    let members = seq![a, b];
    lemma_array_of_union(members);
    let texts = rendered_types(members);
    assert(texts.len() == 2);
    assert(texts[0] == rendered(a));
    assert(texts[1] == rendered(b));
    assert(texts.drop_last().len() == 1);
    assert(texts.drop_last()[0] == rendered(a));
    assert(join(texts, " | "@) == rendered(a) + " | "@ + rendered(b));
}

/// An array of a plain reference `A` is written `A[]`, without parentheses.
pub proof fn lemma_array_of_reference(repr: Seq<char>, name: Seq<char>)
    ensures
        rendered(array_def(type_ref_def(repr, TsTypeRefDefView { type_params: None, name })))
            == name + "[]"@,
{
    let reference = type_ref_def(repr, TsTypeRefDefView { type_params: None, name });
    assert(*array_def(reference).array.unwrap() == reference);
    assert(rendered(reference) == rendered_type_ref(reference.type_ref.unwrap()));
    assert(rendered_type_args(None) == Seq::<char>::empty());
    assert(rendered(reference) =~= name);
}

/// Written out, a template whose interpolated types are no string literals is
/// its own text between backticks: the chunks as they were written and each
/// interpolated type as `${...}`, in the order of their spans.
///
/// An interpolated string literal type is left out: it is written as a chunk,
/// without `${` and `}`.
pub proof fn lemma_template_round_trip(types: Seq<Box<TsType>>, quasis: Seq<TplElement>)
    requires
        forall|i: int|
            0 <= i < types.len() ==> !is_template_chunk(ts_type_def_of(*#[trigger] types[i])),
    ensures
        rendered(template_def(types, quasis)) == "`"@ + template_def(types, quasis).repr + "`"@,
        template_def(types, quasis).repr == join(
            piece_texts(sorted_by_span(type_pieces(types) + quasi_pieces(quasis))),
            Seq::empty(),
        ),
{
    let pieces = type_pieces(types) + quasi_pieces(quasis);
    let sorted = sorted_by_span(pieces);
    let holds = |p: TemplatePiece| template_part_text(p.def) == p.text;
    assert forall|i: int| 0 <= i < pieces.len() implies holds(#[trigger] pieces[i]) by {
        if i < types.len() {
            assert(pieces[i] == type_pieces(types)[i]);
        } else {
            assert(pieces[i] == quasi_pieces(quasis)[i - types.len()]);
        }
    }
    lemma_sorted_keeps(pieces, holds);
    assert(template_part_texts(piece_defs(sorted)) =~= piece_texts(sorted)) by {
        assert forall|i: int| 0 <= i < sorted.len() implies template_part_texts(
            piece_defs(sorted),
        )[i] == piece_texts(sorted)[i] by {
            assert(holds(sorted[i]));
        }
    }
    let node = template_def(types, quasis);
    assert(node == merged_template(pieces));
    let literal = node.literal.unwrap();
    assert(literal.ts_types == Some(piece_defs(sorted)));
    assert(rendered(node) == rendered_literal(literal, node.repr));
    assert(rendered_literal(literal, node.repr) == "`"@ + join(
        template_part_texts(piece_defs(sorted)),
        Seq::empty(),
    ) + "`"@);
}

/// The parts of a template are its chunks and interpolated types, each once,
/// in the order of their spans.
pub proof fn lemma_template_in_source_order(types: Seq<Box<TsType>>, quasis: Seq<TplElement>)
    ensures
        template_def(types, quasis).literal.unwrap().ts_types == Some(
            piece_defs(sorted_by_span(type_pieces(types) + quasi_pieces(quasis))),
        ),
        ordered_by_span(sorted_by_span(type_pieces(types) + quasi_pieces(quasis))),
        sorted_by_span(type_pieces(types) + quasi_pieces(quasis)).to_multiset() == (type_pieces(
            types,
        ) + quasi_pieces(quasis)).to_multiset(),
        sorted_by_span(type_pieces(types) + quasi_pieces(quasis)).len() == types.len()
            + quasis.len(),
{
    let pieces = type_pieces(types) + quasi_pieces(quasis);
    lemma_sorted_is_ordered(pieces);
    lemma_sorted_is_permutation(pieces);
    assert(template_def(types, quasis) == merged_template(pieces));
}

/// Inference is a function of the expression and the flag: two results for the
/// same expression and flag describe the same type, or are both absent.
pub proof fn lemma_inference_is_deterministic(
    expr: Expr,
    is_const: bool,
    first: Option<TsTypeDef>,
    second: Option<TsTypeDef>,
)
    requires
        match first {
            Some(x) => Some(ts_type_def_view(x)),
            None => None,
        } == inferred(expr, is_const),
        match second {
            Some(x) => Some(ts_type_def_view(x)),
            None => None,
        } == inferred(expr, is_const),
    ensures
        first is Some <==> second is Some,
        first is Some ==> first.unwrap()@ == second.unwrap()@,
{
}

/// An array literal of two elements: where one of them says nothing the type is
/// `any[]`; where both give the same type it is an array of that type, the
/// duplicate collapsed; otherwise it is an array of the union of the two, in
/// their order.
pub proof fn lemma_array_of_two_elements(arr_lit: ArrayLit, is_const: bool)
    requires
        arr_lit.elems@.len() == 2,
        arr_lit.elems@[0] is Some,
        arr_lit.elems@[1] is Some,
        arr_lit.elems@[0].unwrap().spread is None,
        arr_lit.elems@[1].unwrap().spread is None,
    ensures
        ({
            let first = inferred(*arr_lit.elems@[0].unwrap().expr, is_const);
            let second = inferred(*arr_lit.elems@[1].unwrap().expr, is_const);
            inferred(Expr::Array(arr_lit), is_const) == if first is None || second is None {
                Some(any_array_def())
            } else if first == second {
                Some(array_def(first.unwrap()))
            } else {
                Some(array_def(union_def(seq![first.unwrap(), second.unwrap()])))
            }
        }),
{
    let first = inferred(*arr_lit.elems@[0].unwrap().expr, is_const);
    let second = inferred(*arr_lit.elems@[1].unwrap().expr, is_const);
    let items = element_inferences(arr_lit.elems@, is_const);
    assert(items.len() == 2);
    assert(items[0] == Some(first));
    assert(items[1] == Some(second));
    if first is None {
        assert(items[0] == Some(None::<TsTypeDefView>));
        assert(has_opaque(items));
    } else if second is None {
        assert(items[1] == Some(None::<TsTypeDefView>));
        assert(has_opaque(items));
    } else {
        assert(!has_opaque(items));
        lemma_collected_of_two(items);
    }
}

/// Two known types are collected as one where they are the same, and as the
/// two in their order otherwise.
pub proof fn lemma_collected_of_two(items: Seq<Option<Option<TsTypeDefView>>>)
    requires
        items.len() == 2,
        items[0] is Some && items[0].unwrap() is Some,
        items[1] is Some && items[1].unwrap() is Some,
    ensures
        collected(items) == if items[0] == items[1] {
            seq![items[0].unwrap().unwrap()]
        } else {
            seq![items[0].unwrap().unwrap(), items[1].unwrap().unwrap()]
        },
{
    let a = items[0].unwrap().unwrap();
    let b = items[1].unwrap().unwrap();
    let one = items.drop_last();
    let none = one.drop_last();
    assert(none.len() == 0);
    assert(collected(none) =~= Seq::<TsTypeDefView>::empty());
    assert(one.len() == 1 && one.last() == Some(Some(a)));
    assert(!collected(none).contains(a));
    assert(collected(one) == collected(none).push(a));
    assert(collected(one) =~= seq![a]);
    assert(items.last() == Some(Some(b)));
    if a == b {
        assert(collected(one)[0] == b);
        assert(collected(one).contains(b));
        assert(collected(items) == collected(one));
    } else {
        assert forall|k: int| 0 <= k < collected(one).len() implies collected(one)[k] != b by {}
        assert(!collected(one).contains(b));
        assert(collected(items) == collected(one).push(b));
        assert(collected(items) =~= seq![a, b]);
    }
}

/// No type is collected twice from the elements of an array literal.
pub proof fn lemma_collected_distinct(items: Seq<Option<Option<TsTypeDefView>>>)
    ensures
        collected(items).no_duplicates(),
    decreases items.len(),
{
    if items.len() > 0 {
        lemma_collected_distinct(items.drop_last());
    }
}

/// The type of every element of an array literal that has one is among the
/// collected types.
pub proof fn lemma_collected_complete(items: Seq<Option<Option<TsTypeDefView>>>, i: int)
    requires
        0 <= i < items.len(),
        items[i] is Some,
        items[i].unwrap() is Some,
    ensures
        collected(items).contains(items[i].unwrap().unwrap()),
    decreases items.len(),
{
    let t = items[i].unwrap().unwrap();
    let before = collected(items.drop_last());
    if i == items.len() - 1 {
        if !before.contains(t) {
            assert(before.push(t)[before.len() as int] == t);
        }
    } else {
        assert(items.drop_last()[i] == items[i]);
        lemma_collected_complete(items.drop_last(), i);
        let k = choose|k: int| 0 <= k < before.len() && before[k] == t;
        assert(collected(items)[k] == t);
    }
}

/// A member of a type literal goes into exactly one of the four lists.
pub proof fn lemma_member_in_one_list(member: TsTypeElement)
    ensures
        (if method_of_member(member) is Some {
            1int
        } else {
            0int
        }) + (if property_of_member(member) is Some {
            1int
        } else {
            0int
        }) + (if call_signature_of_member(member) is Some {
            1int
        } else {
            0int
        }) + (if index_signature_of_member(member) is Some {
            1int
        } else {
            0int
        }) == 1,
{
}

} // verus!
