//! Putting the parts of a template into source order.

use crate::described::{insert_by_span, piece_defs, piece_texts, sorted_by_span, TemplatePiece};
use crate::display::texts;
use crate::model::{template_parts_wf, ts_type_def_views, ts_type_def_wf, TsTypeDefView};
use crate::span::{lemma_span_order_total, lemma_span_order_transitive, Span};
use crate::ts_type::TsTypeDef;
use vstd::prelude::*;

verus! {

/// The pieces that three lists of equal length hold side by side.
pub open spec fn pieces_of(
    spans: Seq<Span>,
    defs: Seq<TsTypeDefView>,
    texts: Seq<Seq<char>>,
) -> Seq<TemplatePiece> {
    Seq::new(spans.len(), |i: int| TemplatePiece { span: spans[i], def: defs[i], text: texts[i] })
}

/// Whether the spans of `pieces` never go down from one piece to the next.
pub open spec fn ordered_by_span(pieces: Seq<TemplatePiece>) -> bool {
    forall|i: int, j: int|
        0 <= i <= j < pieces.len() ==> (#[trigger] pieces[i]).span.at_or_before(
            (#[trigger] pieces[j]).span,
        )
}

/// Putting a piece in by span is putting it at the place `pos` that has nothing
/// at or before the piece behind it and something at or before it in front.
pub proof fn lemma_insert_position(sorted: Seq<TemplatePiece>, piece: TemplatePiece, pos: int)
    requires
        0 <= pos <= sorted.len(),
        forall|k: int|
            pos <= k < sorted.len() ==> !(#[trigger] sorted[k]).span.at_or_before(piece.span),
        pos > 0 ==> sorted[pos - 1].span.at_or_before(piece.span),
    ensures
        insert_by_span(sorted, piece) == sorted.insert(pos, piece),
    decreases sorted.len(),
{
    if sorted.len() == 0 {
        assert(sorted.push(piece) =~= sorted.insert(pos, piece));
    } else if pos == sorted.len() {
        assert(sorted.push(piece) =~= sorted.insert(pos, piece));
    } else {
        assert(!sorted[sorted.len() - 1].span.at_or_before(piece.span));
        let front = sorted.drop_last();
        assert forall|k: int| pos <= k < front.len() implies
            !(#[trigger] front[k]).span.at_or_before(piece.span) by {
            assert(front[k] == sorted[k]);
        }
        lemma_insert_position(front, piece, pos);
        assert(front.insert(pos, piece).push(sorted.last()) =~= sorted.insert(pos, piece));
    }
}

/// Putting a piece in by span adds that piece and nothing else, and keeps the
/// others in their order.
pub proof fn lemma_insert_is_insert(sorted: Seq<TemplatePiece>, piece: TemplatePiece) -> (pos: int)
    ensures
        0 <= pos <= sorted.len(),
        insert_by_span(sorted, piece) == sorted.insert(pos, piece),
        forall|k: int|
            pos <= k < sorted.len() ==> !(#[trigger] sorted[k]).span.at_or_before(piece.span),
        pos > 0 ==> sorted[pos - 1].span.at_or_before(piece.span),
    decreases sorted.len(),
{
    if sorted.len() == 0 || sorted.last().span.at_or_before(piece.span) {
        let pos = sorted.len() as int;
        assert(sorted.push(piece) =~= sorted.insert(pos, piece));
        pos
    } else {
        let front = sorted.drop_last();
        let pos = lemma_insert_is_insert(front, piece);
        assert(front.insert(pos, piece).push(sorted.last()) =~= sorted.insert(pos, piece));
        assert forall|k: int| pos <= k < sorted.len() implies
            !(#[trigger] sorted[k]).span.at_or_before(piece.span) by {
            if k < front.len() {
                assert(front[k] == sorted[k]);
            }
        }
        if pos > 0 {
            assert(front[pos - 1] == sorted[pos - 1]);
        }
        pos
    }
}

/// Putting a piece into an ordered sequence by span leaves it ordered.
pub proof fn lemma_insert_keeps_order(sorted: Seq<TemplatePiece>, piece: TemplatePiece)
    requires
        ordered_by_span(sorted),
    ensures
        ordered_by_span(insert_by_span(sorted, piece)),
{
    let pos = lemma_insert_is_insert(sorted, piece);
    let out = sorted.insert(pos, piece);
    assert forall|i: int, j: int| 0 <= i <= j < out.len() implies
        (#[trigger] out[i]).span.at_or_before((#[trigger] out[j]).span) by {
        if i < pos && j == pos {
            assert(out[i] == sorted[i]);
            assert(sorted[i].span.at_or_before(sorted[pos - 1].span));
            lemma_span_order_transitive(sorted[i].span, sorted[pos - 1].span, piece.span);
        } else if i == pos && j > pos {
            assert(out[j] == sorted[j - 1]);
            assert(!sorted[j - 1].span.at_or_before(piece.span));
            lemma_span_order_total(sorted[j - 1].span, piece.span);
        } else if i < pos && j > pos {
            assert(out[i] == sorted[i]);
            assert(out[j] == sorted[j - 1]);
        } else if i > pos {
            assert(out[i] == sorted[i - 1]);
            assert(out[j] == sorted[j - 1]);
        } else if j < pos {
            assert(out[i] == sorted[i]);
            assert(out[j] == sorted[j]);
        }
    }
}

/// The pieces in source order are ordered by span.
pub proof fn lemma_sorted_is_ordered(pieces: Seq<TemplatePiece>)
    ensures
        ordered_by_span(sorted_by_span(pieces)),
    decreases pieces.len(),
{
    if pieces.len() > 0 {
        lemma_sorted_is_ordered(pieces.drop_last());
        lemma_insert_keeps_order(sorted_by_span(pieces.drop_last()), pieces.last());
    }
}

/// Putting the pieces in source order neither adds nor drops one.
pub proof fn lemma_sorted_is_permutation(pieces: Seq<TemplatePiece>)
    ensures
        sorted_by_span(pieces).to_multiset() == pieces.to_multiset(),
        sorted_by_span(pieces).len() == pieces.len(),
    decreases pieces.len(),
{
    broadcast use vstd::seq_lib::group_to_multiset_ensures;

    if pieces.len() > 0 {
        let front = pieces.drop_last();
        lemma_sorted_is_permutation(front);
        let sorted = sorted_by_span(front);
        let pos = lemma_insert_is_insert(sorted, pieces.last());
        assert(pieces =~= front.push(pieces.last()));
        assert(sorted.insert(pos, pieces.last()).to_multiset() =~= sorted.to_multiset().insert(
            pieces.last(),
        ));
        assert(front.push(pieces.last()).to_multiset() =~= front.to_multiset().insert(
            pieces.last(),
        ));
    } else {
        assert(sorted_by_span(pieces) =~= pieces);
    }
}

/// What holds of every piece holds of every piece in source order.
pub proof fn lemma_sorted_keeps(pieces: Seq<TemplatePiece>, holds: spec_fn(TemplatePiece) -> bool)
    requires
        forall|i: int| 0 <= i < pieces.len() ==> holds(#[trigger] pieces[i]),
    ensures
        forall|i: int|
            0 <= i < sorted_by_span(pieces).len() ==> holds(#[trigger] sorted_by_span(pieces)[i]),
    decreases pieces.len(),
{
    if pieces.len() > 0 {
        let front = pieces.drop_last();
        assert forall|i: int| 0 <= i < front.len() implies holds(#[trigger] front[i]) by {
            assert(front[i] == pieces[i]);
        }
        lemma_sorted_keeps(front, holds);
        let sorted = sorted_by_span(front);
        let pos = lemma_insert_is_insert(sorted, pieces.last());
        let out = sorted.insert(pos, pieces.last());
        assert(holds(pieces[pieces.len() - 1]));
        assert forall|i: int| 0 <= i < out.len() implies holds(#[trigger] out[i]) by {
            if i < pos {
                assert(out[i] == sorted[i]);
            } else if i > pos {
                assert(out[i] == sorted[i - 1]);
            }
        }
    }
}

/// Puts one piece, held as a span, a node and a text, into three lists that hold
/// pieces side by side, at the place its span gives it.
pub(crate) fn insert_piece(
    spans: &mut Vec<Span>,
    defs: &mut Vec<TsTypeDef>,
    parts: &mut Vec<String>,
    span: Span,
    def: TsTypeDef,
    text: String,
)
    requires
        old(spans).len() == old(defs).len(),
        old(spans).len() == old(parts).len(),
    ensures
        final(spans).len() == final(defs).len(),
        final(spans).len() == final(parts).len(),
        pieces_of(final(spans)@, ts_type_def_views(final(defs)@), texts(final(parts)@))
            == insert_by_span(
            pieces_of(old(spans)@, ts_type_def_views(old(defs)@), texts(old(parts)@)),
            TemplatePiece { span, def: def@, text: text@ },
        ),
        template_parts_wf(ts_type_def_views(old(defs)@)) && def@.kind is Some && ts_type_def_wf(
            def@,
        ) ==> template_parts_wf(ts_type_def_views(final(defs)@)),
{
    let ghost before = pieces_of(spans@, ts_type_def_views(defs@), texts(parts@));
    let ghost piece = TemplatePiece { span, def: def@, text: text@ };
    let ghost old_defs = ts_type_def_views(defs@);
    let mut pos: usize = spans.len();
    while pos > 0 && !spans[pos - 1].le(&span)
        invariant
            pos <= spans.len(),
            forall|k: int| pos <= k < spans.len() ==> !(#[trigger] spans@[k]).at_or_before(span),
        decreases pos,
    {
        pos -= 1;
    }
    proof {
        assert forall|k: int| pos <= k < before.len() implies
            !(#[trigger] before[k]).span.at_or_before(piece.span) by {
            assert(before[k].span == spans@[k]);
        }
        lemma_insert_position(before, piece, pos as int);
    }
    spans.insert(pos, span);
    defs.insert(pos, def);
    parts.insert(pos, text);
    proof {
        assert(ts_type_def_views(defs@) =~= old_defs.insert(pos as int, piece.def));
        assert(pieces_of(spans@, ts_type_def_views(defs@), texts(parts@)) =~= before.insert(
            pos as int,
            piece,
        ));
        if template_parts_wf(old_defs) && piece.def.kind is Some && ts_type_def_wf(piece.def) {
            let now = ts_type_def_views(defs@);
            assert forall|i: int| 0 <= i < now.len() implies (#[trigger] now[i]).kind is Some
                && ts_type_def_wf(now[i]) by {
                if i < pos {
                    assert(now[i] == old_defs[i]);
                } else if i > pos {
                    assert(now[i] == old_defs[i - 1]);
                }
            }
        }
    }
}

/// Three lists that hold pieces side by side give back the nodes and the
/// texts of those pieces.
pub proof fn lemma_pieces_of_parts(
    spans: Seq<Span>,
    defs: Seq<TsTypeDefView>,
    texts: Seq<Seq<char>>,
)
    requires
        spans.len() == defs.len(),
        spans.len() == texts.len(),
    ensures
        piece_defs(pieces_of(spans, defs, texts)) == defs,
        piece_texts(pieces_of(spans, defs, texts)) == texts,
{
    assert(piece_defs(pieces_of(spans, defs, texts)) =~= defs);
    assert(piece_texts(pieces_of(spans, defs, texts)) =~= texts);
}

} // verus!
