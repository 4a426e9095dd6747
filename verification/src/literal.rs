//! Literal types: numbers, strings, templates, booleans and big integers.

use crate::ast::{BigInt, Bool, Number, Str, TplElement, TsType};
use crate::convert::{get_span_from_type, ts_type_to_def};
use crate::described::{
    bigint_literal_def, bool_literal_def, number_literal_def, quasi_piece, quasi_pieces,
    sorted_by_span, string_literal_def, template_def, type_pieces, TemplatePiece,
};
use crate::display::{display_bool, join_strings, texts};
use crate::model::{template_parts_wf, ts_type_def_views, ts_type_def_wf};
use crate::span::Span;
use crate::template::{insert_piece, lemma_pieces_of_parts, pieces_of};
use crate::ts_type::{LiteralDef, LiteralDefKind, TsTypeDef};
use vstd::prelude::*;

verus! {

impl TsTypeDef {
    /// The literal type of a number: it carries the value and shows the
    /// number's text.
    pub fn number_literal(num: &Number) -> (r: TsTypeDef)
        ensures
            r@ == number_literal_def(*num),
            ts_type_def_wf(r@),
    {
        let repr = num.text.clone();
        let lit = LiteralDef {
            kind: LiteralDefKind::Number,
            number: Some(num.bits),
            string: None,
            ts_types: None,
            boolean: None,
        };
        TsTypeDef::literal(repr, lit)
    }

    /// The literal type of a string: value and text are the content without
    /// quotes.
    pub fn string_literal(str_: &Str) -> (r: TsTypeDef)
        ensures
            r@ == string_literal_def(str_.value@),
            ts_type_def_wf(r@),
    {
        TsTypeDef::string_literal_of(str_.value.clone())
    }

    pub(crate) fn string_literal_of(value: String) -> (r: TsTypeDef)
        ensures
            r@ == string_literal_def(value@),
            ts_type_def_wf(r@),
            r@.kind is Some,
    {
        let repr = value.clone();
        let lit = LiteralDef {
            kind: LiteralDefKind::String,
            number: None,
            string: Some(value),
            ts_types: None,
            boolean: None,
        };
        TsTypeDef::literal(repr, lit)
    }

    /// The literal type of a template. The chunks of text in `quasis` and the
    /// interpolated `types` are merged into one list in the order of their
    /// spans; the node's text is the chunks as written and the types as
    /// `${...}`, in that order.
    pub fn tpl_literal(types: &[Box<TsType>], quasis: &[TplElement]) -> (r: TsTypeDef)
        ensures
            r@ == template_def(types@, quasis@),
            ts_type_def_wf(r@),
        decreases types@,
    {
        let mut spans: Vec<Span> = Vec::new();
        let mut defs: Vec<TsTypeDef> = Vec::new();
        let mut parts: Vec<String> = Vec::new();
        let ghost all = type_pieces(types@) + quasi_pieces(quasis@);
        assert(pieces_of(spans@, ts_type_def_views(defs@), texts(parts@)) =~= sorted_by_span(
            all.take(0),
        ));
        let mut i: usize = 0;
        while i < types.len()
            invariant
                i <= types.len(),
                all == type_pieces(types@) + quasi_pieces(quasis@),
                spans.len() == defs.len(),
                spans.len() == parts.len(),
                pieces_of(spans@, ts_type_def_views(defs@), texts(parts@)) == sorted_by_span(
                    all.take(i as int),
                ),
                template_parts_wf(ts_type_def_views(defs@)),
            decreases types.len() - i,
        {
            let t = ts_type_to_def(&types[i]);
            let mut text = String::from_str("${");
            text.append(t.to_string().as_str());
            text.append("}");
            let span = get_span_from_type(&types[i]);
            proof {
                assert(all.take(i as int + 1).drop_last() =~= all.take(i as int));
                assert(all.take(i as int + 1).last() == type_pieces(types@)[i as int]);
            }
            insert_piece(&mut spans, &mut defs, &mut parts, span, t, text);
            i += 1;
        }
        let mut j: usize = 0;
        while j < quasis.len()
            invariant
                j <= quasis.len(),
                all == type_pieces(types@) + quasi_pieces(quasis@),
                spans.len() == defs.len(),
                spans.len() == parts.len(),
                pieces_of(spans@, ts_type_def_views(defs@), texts(parts@)) == sorted_by_span(
                    all.take(types@.len() + j),
                ),
                template_parts_wf(ts_type_def_views(defs@)),
            decreases quasis.len() - j,
        {
            let quasi = &quasis[j];
            let t = TsTypeDef::string_literal_of(quasi.raw.clone());
            let text = quasi.raw.clone();
            proof {
                let n = types@.len() + j;
                assert(all.take(n + 1).drop_last() =~= all.take(n));
                assert(all.take(n + 1).last() == quasi_pieces(quasis@)[j as int]);
            }
            insert_piece(&mut spans, &mut defs, &mut parts, quasi.span, t, text);
            j += 1;
        }
        proof {
            assert(all.take((types@.len() + quasis@.len()) as int) =~= all);
            lemma_pieces_of_parts(spans@, ts_type_def_views(defs@), texts(parts@));
            reveal_strlit("");
            assert(""@ =~= Seq::<char>::empty());
        }
        let repr = join_strings(&parts, "", false);
        let lit = LiteralDef {
            kind: LiteralDefKind::Template,
            number: None,
            string: None,
            ts_types: Some(defs),
            boolean: None,
        };
        TsTypeDef::literal(repr, lit)
    }

    /// The literal type of `true` or `false`.
    pub fn bool_literal(bool_: &Bool) -> (r: TsTypeDef)
        ensures
            r@ == bool_literal_def(bool_.value),
            ts_type_def_wf(r@),
    {
        let repr = String::from_str(display_bool(bool_.value));
        let lit = LiteralDef {
            kind: LiteralDefKind::Boolean,
            number: None,
            string: None,
            ts_types: None,
            boolean: Some(bool_.value),
        };
        TsTypeDef::literal(repr, lit)
    }

    /// The literal type of a big integer: value and text are its decimal text.
    pub fn bigint_literal(bigint_: &BigInt) -> (r: TsTypeDef)
        ensures
            r@ == bigint_literal_def(bigint_.value@),
            ts_type_def_wf(r@),
    {
        let repr = bigint_.value.clone();
        let lit = LiteralDef {
            kind: LiteralDefKind::BigInt,
            number: None,
            string: Some(bigint_.value.clone()),
            ts_types: None,
            boolean: None,
        };
        TsTypeDef::literal(repr, lit)
    }
}

} // verus!
