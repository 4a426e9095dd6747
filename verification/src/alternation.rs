//! A template whose chunks and interpolated types alternate in the source is
//! described by exactly that alternation.

use crate::ast::{TplElement, TsType};
use crate::described::{
    insert_by_span, merged_template, piece_defs, piece_texts, quasi_pieces, sorted_by_span,
    span_of_type, template_def, ts_type_def_of, type_pieces, TemplatePiece,
};
use crate::display::join;
use crate::render::rendered;
use crate::span::Span;
use crate::template::lemma_insert_position;
use vstd::prelude::*;

verus! {

/// Whether the chunks and the interpolated types are given as they stand in the
/// source: a chunk, a type, a chunk, and so on up to a last chunk, each
/// strictly before the next.
pub open spec fn alternates(types: Seq<Box<TsType>>, quasis: Seq<TplElement>) -> bool {
    &&& quasis.len() == types.len() + 1
    &&& forall|i: int|
        0 <= i < types.len() ==> (#[trigger] quasis[i]).span.before(span_of_type(*types[i]))
    &&& forall|i: int|
        0 <= i < types.len() ==> span_of_type(*(#[trigger] types[i])).before(quasis[i + 1].span)
}

/// The pieces of a template in the order chunk, type, chunk, ..., chunk.
pub open spec fn interleaved(types: Seq<Box<TsType>>, quasis: Seq<TplElement>) -> Seq<
    TemplatePiece,
> {
    Seq::new(
        types.len() + quasis.len(),
        |k: int|
            if k % 2 == 0 {
                quasi_pieces(quasis)[k / 2]
            } else {
                type_pieces(types)[k / 2]
            },
    )
}

/// The source text of an alternation, piece by piece: each chunk as it was
/// written, and `${...}` around the text of each type.
pub open spec fn alternation_texts(types: Seq<Box<TsType>>, quasis: Seq<TplElement>) -> Seq<
    Seq<char>,
> {
    Seq::new(
        types.len() + quasis.len(),
        |k: int|
            if k % 2 == 0 {
                quasis[k / 2].raw@
            } else {
                "${"@ + rendered(ts_type_def_of(*types[k / 2])) + "}"@
            },
    )
}

/// The first `j` chunks interleaved with the first `j` types, and the other
/// types behind them.
pub open spec fn partly_interleaved(
    types: Seq<Box<TsType>>,
    quasis: Seq<TplElement>,
    j: int,
) -> Seq<TemplatePiece> {
    Seq::new(
        (types.len() + j) as nat,
        |p: int|
            if p < 2 * j {
                if p % 2 == 0 {
                    quasi_pieces(quasis)[p / 2]
                } else {
                    type_pieces(types)[p / 2]
                }
            } else {
                type_pieces(types)[p - j]
            },
    )
}

/// The span of the piece at `k` of an alternation.
pub open spec fn span_at(types: Seq<Box<TsType>>, quasis: Seq<TplElement>, k: int) -> Span {
    if k % 2 == 0 {
        quasis[k / 2].span
    } else {
        span_of_type(*types[k / 2])
    }
}

/// Strictly before is transitive.
pub proof fn lemma_before_transitive(a: Span, b: Span, c: Span)
    requires
        a.before(b),
        b.before(c),
    ensures
        a.before(c),
{
}

/// In an alternation every piece stands strictly before the next one.
pub proof fn lemma_next_is_later(types: Seq<Box<TsType>>, quasis: Seq<TplElement>, k: int)
    requires
        alternates(types, quasis),
        0 <= k,
        k + 1 < types.len() + quasis.len(),
    ensures
        span_at(types, quasis, k).before(span_at(types, quasis, k + 1)),
{
    let i = k / 2;
    if k % 2 == 0 {
        assert((k + 1) % 2 == 1 && (k + 1) / 2 == i);
        assert(0 <= i < types.len());
        assert(quasis[i].span.before(span_of_type(*types[i])));
    } else {
        assert((k + 1) % 2 == 0 && (k + 1) / 2 == i + 1);
        assert(0 <= i < types.len());
        assert(span_of_type(*types[i]).before(quasis[i + 1].span));
    }
}

/// In an alternation every piece stands strictly before every later one.
pub proof fn lemma_later_is_later(
    types: Seq<Box<TsType>>,
    quasis: Seq<TplElement>,
    a: int,
    b: int,
)
    requires
        alternates(types, quasis),
        0 <= a < b < types.len() + quasis.len(),
    ensures
        span_at(types, quasis, a).before(span_at(types, quasis, b)),
    decreases b - a,
{
    lemma_next_is_later(types, quasis, b - 1);
    if a < b - 1 {
        lemma_later_is_later(types, quasis, a, b - 1);
        lemma_before_transitive(
            span_at(types, quasis, a),
            span_at(types, quasis, b - 1),
            span_at(types, quasis, b),
        );
    }
}

/// In an alternation a chunk stands strictly before every type that does not
/// come before it, and a type strictly before every later type and chunk.
pub proof fn lemma_alternation_order(
    types: Seq<Box<TsType>>,
    quasis: Seq<TplElement>,
    i: int,
    m: int,
)
    requires
        alternates(types, quasis),
        0 <= i,
        0 <= m < types.len(),
    ensures
        i <= m ==> quasis[i].span.before(span_of_type(*types[m])),
        i < m ==> span_of_type(*types[i]).before(span_of_type(*types[m])),
        m < i <= types.len() ==> span_of_type(*types[m]).before(quasis[i].span),
{
    assert((2 * m + 1) % 2 == 1 && (2 * m + 1) / 2 == m);
    assert((2 * i) % 2 == 0 && (2 * i) / 2 == i);
    assert((2 * i + 1) % 2 == 1 && (2 * i + 1) / 2 == i);
    if i <= m {
        lemma_later_is_later(types, quasis, 2 * i, 2 * m + 1);
    }
    if i < m {
        lemma_later_is_later(types, quasis, 2 * i + 1, 2 * m + 1);
    }
    if m < i <= types.len() {
        lemma_later_is_later(types, quasis, 2 * m + 1, 2 * i);
    }
}

/// The types of an alternation, taken alone, are in source order already.
pub proof fn lemma_types_in_order(types: Seq<Box<TsType>>, quasis: Seq<TplElement>, k: int)
    requires
        alternates(types, quasis),
        0 <= k <= types.len(),
    ensures
        sorted_by_span((type_pieces(types) + quasi_pieces(quasis)).take(k)) == type_pieces(
            types,
        ).take(k),
    decreases k,
{
    let all = type_pieces(types) + quasi_pieces(quasis);
    let front = type_pieces(types);
    if k == 0 {
        assert(all.take(0) =~= Seq::<TemplatePiece>::empty());
        assert(front.take(0) =~= Seq::<TemplatePiece>::empty());
    } else {
        lemma_types_in_order(types, quasis, k - 1);
        assert(all.take(k).drop_last() =~= all.take(k - 1));
        assert(all.take(k).last() == front[k - 1]);
        let before = front.take(k - 1);
        if k >= 2 {
            lemma_alternation_order(types, quasis, k - 2, k - 1);
            assert(before.last() == front[k - 2]);
            assert(before.last().span.at_or_before(front[k - 1].span));
        }
        assert(before.push(front[k - 1]) =~= front.take(k));
    }
}

/// The chunk at `i` belongs at the place `2 * i` among the pieces that are in
/// order before it.
pub proof fn lemma_chunk_position(types: Seq<Box<TsType>>, quasis: Seq<TplElement>, i: int)
    requires
        alternates(types, quasis),
        0 <= i < quasis.len(),
    ensures
        insert_by_span(partly_interleaved(types, quasis, i), quasi_pieces(quasis)[i])
            == partly_interleaved(types, quasis, i).insert(2 * i, quasi_pieces(quasis)[i]),
{
    let front = type_pieces(types);
    let before = partly_interleaved(types, quasis, i);
    let piece = quasi_pieces(quasis)[i];
    let pos = 2 * i;
    assert(piece.span == quasis[i].span);
    assert forall|k: int| pos <= k < before.len() implies !(#[trigger] before[k]).span.at_or_before(
        piece.span,
    ) by {
        let m = k - i;
        assert(before[k] == front[m]);
        assert(front[m].span == span_of_type(*types[m]));
        lemma_alternation_order(types, quasis, i, m);
    }
    if pos > 0 {
        let m = i - 1;
        assert((pos - 1) % 2 == 1 && (pos - 1) / 2 == m);
        assert(before[pos - 1] == front[m]);
        assert(front[m].span == span_of_type(*types[m]));
        lemma_alternation_order(types, quasis, i, m);
    }
    lemma_insert_position(before, piece, pos);
}

/// Putting the chunk at `i` at the place `2 * i` gives the pieces with one more
/// chunk in between.
pub proof fn lemma_chunk_goes_between(types: Seq<Box<TsType>>, quasis: Seq<TplElement>, i: int)
    requires
        quasis.len() == types.len() + 1,
        0 <= i < quasis.len(),
    ensures
        partly_interleaved(types, quasis, i).insert(2 * i, quasi_pieces(quasis)[i])
            == partly_interleaved(types, quasis, i + 1),
{
    let before = partly_interleaved(types, quasis, i);
    let piece = quasi_pieces(quasis)[i];
    let pos = 2 * i;
    let after = before.insert(pos, piece);
    let target = partly_interleaved(types, quasis, i + 1);
    assert(after.len() == target.len());
    assert forall|p: int| 0 <= p < target.len() implies after[p] == target[p] by {
        if p < pos {
            assert(after[p] == before[p]);
        } else if p == pos {
            assert(p % 2 == 0 && p / 2 == i);
            assert(after[p] == piece);
        } else if p == pos + 1 {
            assert(p % 2 == 1 && p / 2 == i);
            assert(after[p] == before[p - 1]);
            assert(before[p - 1] == type_pieces(types)[i]);
        } else {
            assert(after[p] == before[p - 1]);
            assert(before[p - 1] == type_pieces(types)[p - 1 - i]);
        }
    }
    assert(after =~= target);
}

/// With the types in place, the chunks go in between them one by one.
pub proof fn lemma_chunks_go_between(types: Seq<Box<TsType>>, quasis: Seq<TplElement>, j: int)
    requires
        alternates(types, quasis),
        0 <= j <= quasis.len(),
    ensures
        sorted_by_span((type_pieces(types) + quasi_pieces(quasis)).take(types.len() + j))
            == partly_interleaved(types, quasis, j),
    decreases j,
{
    let n = types.len() as int;
    let all = type_pieces(types) + quasi_pieces(quasis);
    let front = type_pieces(types);
    if j == 0 {
        lemma_types_in_order(types, quasis, n);
        assert(front.take(n) =~= front);
        assert(partly_interleaved(types, quasis, 0) =~= front);
    } else {
        let i = j - 1;
        lemma_chunks_go_between(types, quasis, i);
        assert(all.take(n + j).drop_last() =~= all.take(n + i));
        assert(all.take(n + j).last() == quasi_pieces(quasis)[i]);
        lemma_chunk_position(types, quasis, i);
        lemma_chunk_goes_between(types, quasis, i);
    }
}

/// A template whose chunks and interpolated types alternate in the source has
/// exactly that alternation as its parts, and its text is the chunks as they
/// were written with `${...}` around the text of each type between them.
pub proof fn lemma_template_alternation(types: Seq<Box<TsType>>, quasis: Seq<TplElement>)
    requires
        alternates(types, quasis),
    ensures
        sorted_by_span(type_pieces(types) + quasi_pieces(quasis)) == interleaved(types, quasis),
        template_def(types, quasis).repr == join(
            alternation_texts(types, quasis),
            Seq::empty(),
        ),
        template_def(types, quasis).literal.unwrap().ts_types == Some(
            piece_defs(interleaved(types, quasis)),
        ),
{
    let all = type_pieces(types) + quasi_pieces(quasis);
    lemma_chunks_go_between(types, quasis, quasis.len() as int);
    assert(all.take((types.len() + quasis.len()) as int) =~= all);
    assert(partly_interleaved(types, quasis, quasis.len() as int) =~= interleaved(types, quasis));
    assert(template_def(types, quasis) == merged_template(all));
    assert(piece_texts(interleaved(types, quasis)) =~= alternation_texts(types, quasis)) by {
        assert forall|k: int| 0 <= k < types.len() + quasis.len() implies piece_texts(
            interleaved(types, quasis),
        )[k] == alternation_texts(types, quasis)[k] by {
            if k % 2 == 0 {
                assert(quasi_pieces(quasis)[k / 2].text == quasis[k / 2].raw@);
            } else {
                assert(type_pieces(types)[k / 2].text == "${"@ + rendered(
                    ts_type_def_of(*types[k / 2]),
                ) + "}"@);
            }
        }
    }
}

} // verus!
