//! Types read off initializers. Nothing is guessed: where the shape of an
//! expression says nothing, there is no type.

use crate::ast::{
    ArrayLit, ArrowExpr, CallExpr, Callee, Expr, ExprOrSpread, FnExpr, Lit, NewExpr, Tpl,
    TplElement, TsConstAssertion, TsType, VarDeclarator,
};
use crate::convert::{maybe_type_args_to_defs, ts_type_ann_to_def};
use crate::described::{
    arrow_fn_def, bigint_literal_def, bool_literal_def, fn_expr_def, number_literal_def,
    return_type_def, string_literal_def, template_def, type_args_of,
};
use crate::model::{
    array_def, empty_def, fn_or_constructor_def, keyword_def, ts_fn_or_constructor_def_wf,
    ts_type_def_all_wf, ts_type_def_view, ts_type_def_views, ts_type_def_wf, type_ref_def,
    union_def, TsTypeDefView, TsTypeRefDefView,
};
use crate::params::{function_params_to_param_defs, pats_to_param_defs};
use crate::ts_type::{TsFnOrConstructorDef, TsTypeDef, TsTypeDefKind, TsTypeRefDef};
use crate::ts_type_param::maybe_type_param_decl_to_type_param_defs;
use vstd::prelude::*;

verus! {

/// `any[]`: what an array literal gets when one of its elements says nothing.
pub open spec fn any_array_def() -> TsTypeDefView {
    TsTypeDefView {
        repr: "any[]"@,
        kind: Some(TsTypeDefKind::Array),
        array: Some(Box::new(keyword_def("any"@, "any"@))),
        ..empty_def()
    }
}

/// The types that the known elements give, each once, in the order in which
/// they are seen first. A hole or an element without a type adds nothing.
pub open spec fn collected(items: Seq<Option<Option<TsTypeDefView>>>) -> Seq<TsTypeDefView>
    decreases items.len(),
{
    if items.len() == 0 {
        Seq::empty()
    } else {
        let before = collected(items.drop_last());
        match items.last() {
            Some(Some(t)) => if before.contains(t) {
                before
            } else {
                before.push(t)
            },
            _ => before,
        }
    }
}

/// Whether some element is there but has no type of its own: a spread, or an
/// expression that nothing can be inferred from.
pub open spec fn has_opaque(items: Seq<Option<Option<TsTypeDefView>>>) -> bool {
    exists|i: int| 0 <= i < items.len() && #[trigger] items[i] == Some(None::<TsTypeDefView>)
}

/// The type of an array literal, given for each element `None` for a hole,
/// `Some(None)` for an element without a type of its own, and its type
/// otherwise.
///
/// One element without a type makes the whole `any[]`. Else no type gives no
/// inference, one distinct type an array of it, several an array of their union.
pub open spec fn array_type_from(items: Seq<Option<Option<TsTypeDefView>>>) -> Option<
    TsTypeDefView,
> {
    if has_opaque(items) {
        Some(any_array_def())
    } else {
        let types = collected(items);
        if types.len() == 0 {
            None
        } else if types.len() == 1 {
            Some(array_def(types[0]))
        } else {
            Some(array_def(union_def(types)))
        }
    }
}

/// What each element of an array literal gives: `None` for a hole,
/// `Some(None)` for a spread or an element without an inferred type, and the
/// inferred type otherwise.
pub open spec fn element_inferences(elems: Seq<Option<ExprOrSpread>>, is_const: bool) -> Seq<
    Option<Option<TsTypeDefView>>,
>
    decreases elems,
{
    Seq::new(
        elems.len(),
        |i: int|
            if 0 <= i < elems.len() {
                match elems[i] {
                    None => None,
                    Some(elem) => if elem.spread is Some {
                        Some(None)
                    } else {
                        Some(inferred(*elem.expr, is_const))
                    },
                }
            } else {
                None
            },
    )
}

/// A reference to the built-in `RegExp`, with `repr` as its text.
pub open spec fn regexp_def(repr: Seq<char>) -> TsTypeDefView {
    type_ref_def(repr, TsTypeRefDefView { type_params: None, name: "RegExp"@ })
}

/// The type of a literal: the literal type itself where literals keep their
/// precision, the widened keyword otherwise. A regular expression is a `RegExp`
/// either way; `null` and JSX text give nothing.
pub open spec fn inferred_from_lit(lit: Lit, is_const: bool) -> Option<TsTypeDefView> {
    match lit {
        Lit::Num(num) => Some(
            if is_const {
                number_literal_def(num)
            } else {
                keyword_def("number"@, "number"@)
            },
        ),
        Lit::Str(s) => Some(
            if is_const {
                string_literal_def(s.value@)
            } else {
                keyword_def("string"@, "string"@)
            },
        ),
        Lit::Bool(b) => Some(
            if is_const {
                bool_literal_def(b.value)
            } else {
                keyword_def("boolean"@, "boolean"@)
            },
        ),
        Lit::BigInt(n) => Some(
            if is_const {
                bigint_literal_def(n.value@)
            } else {
                keyword_def("bigint"@, "bigint"@)
            },
        ),
        Lit::Regex(regex) => Some(regexp_def(regex.exp@)),
        _ => None,
    }
}

/// The type of `new Name<Args>(...)`: a reference to `Name` with the type
/// arguments that are written out. Any other callee gives nothing.
pub open spec fn inferred_from_new(expr: NewExpr) -> Option<TsTypeDefView> {
    match *expr.callee {
        Expr::Ident(ident) => Some(
            type_ref_def(
                ident.sym@,
                TsTypeRefDefView { type_params: type_args_of(expr.type_args), name: ident.sym@ },
            ),
        ),
        _ => None,
    }
}

/// The type that a call of a built-in by the name `sym` gives.
pub open spec fn inferred_from_callee_name(sym: Seq<char>) -> Option<TsTypeDefView> {
    if sym == "Symbol"@ {
        Some(keyword_def("symbol"@, sym))
    } else if sym == "Number"@ {
        Some(keyword_def("number"@, sym))
    } else if sym == "String"@ {
        Some(keyword_def("string"@, sym))
    } else if sym == "BigInt"@ {
        Some(keyword_def("bigint"@, sym))
    } else if sym == "Date"@ {
        Some(keyword_def("string"@, sym))
    } else if sym == "RegExp"@ {
        Some(regexp_def(sym))
    } else {
        None
    }
}

/// The type of a call: known for a few built-ins called by their plain name.
pub open spec fn inferred_from_call(expr: CallExpr) -> Option<TsTypeDefView> {
    match expr.callee {
        Callee::Expr(callee) => match *callee {
            Expr::Ident(ident) => inferred_from_callee_name(ident.sym@),
            _ => None,
        },
        _ => None,
    }
}

/// The type of a template literal: the template type where literals keep their
/// precision and the template is one chunk of text, `string` otherwise.
pub open spec fn inferred_from_tpl(quasis: Seq<TplElement>, is_const: bool) -> TsTypeDefView {
    if quasis.len() == 1 && is_const {
        template_def(Seq::<Box<TsType>>::empty(), quasis)
    } else {
        keyword_def("string"@, "string"@)
    }
}

/// The type that can be read off an initializer, if any. `is_const` says
/// whether literals keep their precision.
///
/// The result depends on nothing but the expression and the flag. The flag is
/// handed on to the elements of an array literal, and `as const` sets it for
/// everything beneath it.
pub open spec fn inferred(expr: Expr, is_const: bool) -> Option<TsTypeDefView>
    decreases expr,
{
    match expr {
        Expr::Array(arr_lit) => array_type_from(element_inferences(arr_lit.elems@, is_const)),
        Expr::Arrow(expr) => Some(fn_or_constructor_def(arrow_fn_def(expr))),
        Expr::Fn(expr) => Some(fn_or_constructor_def(fn_expr_def(expr))),
        Expr::Lit(lit) => inferred_from_lit(lit, is_const),
        Expr::New(expr) => inferred_from_new(expr),
        Expr::Tpl(tpl) => Some(inferred_from_tpl(tpl.quasis@, is_const)),
        Expr::TsConstAssertion(assertion) => inferred(*assertion.expr, true),
        Expr::Call(expr) => inferred_from_call(expr),
        _ => None,
    }
}

/// The type of an array literal whose elements are inferred with `is_const`.
pub open spec fn inferred_from_array(arr_lit: ArrayLit, is_const: bool) -> Option<TsTypeDefView> {
    array_type_from(element_inferences(arr_lit.elems@, is_const))
}

/// The type that can be read off the initializer of a declarator.
pub open spec fn inferred_from_var_decl(decl: VarDeclarator, is_const: bool) -> Option<
    TsTypeDefView,
> {
    match decl.init {
        Some(init) => inferred(*init, is_const),
        None => None,
    }
}

/// One more element adds its type to the collected ones unless it has none or
/// the type is there already.
pub proof fn lemma_collected_step(items: Seq<Option<Option<TsTypeDefView>>>, n: int)
    requires
        0 <= n < items.len(),
    ensures
        collected(items.take(n + 1)) == match items[n] {
            Some(Some(t)) => if collected(items.take(n)).contains(t) {
                collected(items.take(n))
            } else {
                collected(items.take(n)).push(t)
            },
            _ => collected(items.take(n)),
        },
{
    assert(items.take(n + 1).drop_last() =~= items.take(n));
    assert(items.take(n + 1).last() == items[n]);
}

/// Whether `defs` holds a type that is the same as `def`.
pub fn contains_def(defs: &Vec<TsTypeDef>, def: &TsTypeDef) -> (r: bool)
    ensures
        r == ts_type_def_views(defs@).contains(def@),
{
    let mut i: usize = 0;
    while i < defs.len()
        invariant
            i <= defs.len(),
            forall|k: int| 0 <= k < i ==> ts_type_def_views(defs@)[k] != def@,
        decreases defs.len() - i,
    {
        if defs[i].equals(def) {
            assert(ts_type_def_views(defs@)[i as int] == def@);
            return true;
        }
        i += 1;
    }
    false
}

fn push_def(defs: &mut Vec<TsTypeDef>, def: TsTypeDef)
    ensures
        ts_type_def_views(final(defs)@) == ts_type_def_views(old(defs)@).push(def@),
        ts_type_def_all_wf(ts_type_def_views(old(defs)@)) && ts_type_def_wf(def@)
            ==> ts_type_def_all_wf(ts_type_def_views(final(defs)@)),
{
    let ghost before = ts_type_def_views(defs@);
    let ghost view = def@;
    defs.push(def);
    proof {
        let now = ts_type_def_views(defs@);
        assert(now =~= before.push(view));
        if ts_type_def_all_wf(before) && ts_type_def_wf(view) {
            assert forall|i: int| 0 <= i < now.len() implies ts_type_def_wf(#[trigger] now[i]) by {
                if i < before.len() {
                    assert(now[i] == before[i]);
                }
            }
        }
    }
}

fn any_array() -> (r: TsTypeDef)
    ensures
        r@ == any_array_def(),
        ts_type_def_wf(r@),
{
    TsTypeDef {
        repr: String::from_str("any[]"),
        kind: Some(TsTypeDefKind::Array),
        array: Some(Box::new(TsTypeDef::keyword("any"))),
        ..TsTypeDef::default()
    }
}

/// The function type of an arrow function: its parameters and generic
/// parameters, and its annotated return type or else `unknown`.
pub fn arrow_expr_to_fn_def(expr: &ArrowExpr) -> (r: TsFnOrConstructorDef)
    ensures
        r@ == arrow_fn_def(*expr),
        ts_fn_or_constructor_def_wf(r@),
{
    let params = pats_to_param_defs(&expr.params);
    let ts_type = match &expr.return_type {
        Some(ann) => ts_type_ann_to_def(ann),
        None => TsTypeDef::keyword("unknown"),
    };
    assert(ts_type@ == return_type_def(expr.return_type));
    let type_params = maybe_type_param_decl_to_type_param_defs(expr.type_params.as_ref());
    TsFnOrConstructorDef { constructor: false, ts_type, params, type_params }
}

/// The function type of a function expression: its parameters and generic
/// parameters, and its annotated return type or else `unknown`.
pub fn fn_expr_to_fn_def(expr: &FnExpr) -> (r: TsFnOrConstructorDef)
    ensures
        r@ == fn_expr_def(*expr),
        ts_fn_or_constructor_def_wf(r@),
{
    let params = function_params_to_param_defs(&expr.function.params);
    let ts_type = match &expr.function.return_type {
        Some(ann) => ts_type_ann_to_def(ann),
        None => TsTypeDef::keyword("unknown"),
    };
    assert(ts_type@ == return_type_def(expr.function.return_type));
    let type_params = maybe_type_param_decl_to_type_param_defs(expr.function.type_params.as_ref());
    TsFnOrConstructorDef { constructor: false, ts_type, params, type_params }
}

/// Infers a type from an initializer. `is_const` says whether literals keep
/// their precision. `None` means that nothing can be inferred; it is no
/// failure.
pub fn infer_ts_type_from_expr(expr: &Expr, is_const: bool) -> (r: Option<TsTypeDef>)
    ensures
        match r {
            Some(x) => Some(ts_type_def_view(x)),
            None => None,
        } == inferred(*expr, is_const),
        r matches Some(t) ==> ts_type_def_wf(t@),
    decreases expr,
{
    match expr {
        Expr::Array(arr_lit) => infer_ts_type_from_arr_lit(arr_lit, is_const),
        Expr::Arrow(expr) => infer_ts_type_from_arrow_expr(expr),
        Expr::Fn(expr) => infer_ts_type_from_fn_expr(expr),
        Expr::Lit(lit) => infer_ts_type_from_lit(lit, is_const),
        Expr::New(expr) => infer_ts_type_from_new_expr(expr),
        Expr::Tpl(tpl) => Some(infer_ts_type_from_tpl(tpl, is_const)),
        Expr::TsConstAssertion(assertion) => infer_ts_type_from_const_assertion(assertion),
        Expr::Call(expr) => infer_ts_type_from_call_expr(expr),
        _ => None,
    }
}

/// Infers a type from the initializer of a declarator, if it has one.
pub fn infer_simple_ts_type_from_var_decl(decl: &VarDeclarator, is_const: bool) -> (r: Option<
    TsTypeDef,
>)
    ensures
        match r {
            Some(x) => Some(ts_type_def_view(x)),
            None => None,
        } == inferred_from_var_decl(*decl, is_const),
        r matches Some(t) ==> ts_type_def_wf(t@),
{
    if let Some(init_expr) = &decl.init {
        infer_ts_type_from_expr(init_expr, is_const)
    } else {
        None
    }
}

/// Infers the type of an array literal; its elements are inferred with
/// `is_const`.
pub fn infer_ts_type_from_arr_lit(arr_lit: &ArrayLit, is_const: bool) -> (r: Option<TsTypeDef>)
    ensures
        match r {
            Some(x) => Some(ts_type_def_view(x)),
            None => None,
        } == inferred_from_array(*arr_lit, is_const),
        r matches Some(t) ==> ts_type_def_wf(t@),
    decreases arr_lit,
{
    let mut defs: Vec<TsTypeDef> = Vec::new();
    let ghost items = element_inferences(arr_lit.elems@, is_const);
    assert(ts_type_def_views(defs@) =~= collected(items.take(0)));
    let mut i: usize = 0;
    while i < arr_lit.elems.len()
        invariant
            i <= arr_lit.elems.len(),
            items == element_inferences(arr_lit.elems@, is_const),
            ts_type_def_views(defs@) == collected(items.take(i as int)),
            ts_type_def_all_wf(ts_type_def_views(defs@)),
            forall|k: int| 0 <= k < i ==> #[trigger] items[k] != Some(None::<TsTypeDefView>),
        decreases arr_lit.elems.len() - i,
    {
        proof {
            lemma_collected_step(items, i as int);
        }
        if let Some(expr) = &arr_lit.elems[i] {
            if expr.spread.is_none() {
                if let Some(ts_type) = infer_ts_type_from_expr(&expr.expr, is_const) {
                    if !contains_def(&defs, &ts_type) {
                        push_def(&mut defs, ts_type);
                    }
                } else {
                    assert(items[i as int] == Some(None::<TsTypeDefView>));
                    return Some(any_array());
                }
            } else {
                assert(items[i as int] == Some(None::<TsTypeDefView>));
                return Some(any_array());
            }
        }
        i += 1;
    }
    proof {
        assert(items.take(arr_lit.elems.len() as int) =~= items);
        assert(!has_opaque(items));
    }
    if defs.len() == 0 {
        None
    } else if defs.len() == 1 {
        let only = defs.pop().unwrap();
        Some(TsTypeDef::of_array(only))
    } else {
        let union = TsTypeDef::of_union(defs);
        Some(TsTypeDef::of_array(union))
    }
}

fn infer_ts_type_from_arrow_expr(expr: &ArrowExpr) -> (r: Option<TsTypeDef>)
    ensures
        match r {
            Some(x) => Some(ts_type_def_view(x)),
            None => None,
        } == Some(fn_or_constructor_def(arrow_fn_def(*expr))),
        r matches Some(t) ==> ts_type_def_wf(t@),
{
    Some(TsTypeDef::of_fn_or_constructor(arrow_expr_to_fn_def(expr)))
}

fn infer_ts_type_from_fn_expr(expr: &FnExpr) -> (r: Option<TsTypeDef>)
    ensures
        match r {
            Some(x) => Some(ts_type_def_view(x)),
            None => None,
        } == Some(fn_or_constructor_def(fn_expr_def(*expr))),
        r matches Some(t) ==> ts_type_def_wf(t@),
{
    Some(TsTypeDef::of_fn_or_constructor(fn_expr_to_fn_def(expr)))
}

fn infer_ts_type_from_const_assertion(assertion: &TsConstAssertion) -> (r: Option<TsTypeDef>)
    ensures
        match r {
            Some(x) => Some(ts_type_def_view(x)),
            None => None,
        } == inferred(Expr::TsConstAssertion(*assertion), true),
        r matches Some(t) ==> ts_type_def_wf(t@),
    decreases assertion,
{
    infer_ts_type_from_expr(&assertion.expr, true)
}

fn infer_ts_type_from_lit(lit: &Lit, is_const: bool) -> (r: Option<TsTypeDef>)
    ensures
        match r {
            Some(x) => Some(ts_type_def_view(x)),
            None => None,
        } == inferred_from_lit(*lit, is_const),
        r matches Some(t) ==> ts_type_def_wf(t@),
{
    match lit {
        Lit::Num(num) => {
            if is_const {
                Some(TsTypeDef::number_literal(num))
            } else {
                Some(TsTypeDef::number_with_repr("number"))
            }
        },
        Lit::Str(str_) => {
            if is_const {
                Some(TsTypeDef::string_literal(str_))
            } else {
                Some(TsTypeDef::string_with_repr("string"))
            }
        },
        Lit::Bool(bool_) => {
            if is_const {
                Some(TsTypeDef::bool_literal(bool_))
            } else {
                Some(TsTypeDef::bool_with_repr("boolean"))
            }
        },
        Lit::BigInt(bigint_) => {
            if is_const {
                Some(TsTypeDef::bigint_literal(bigint_))
            } else {
                Some(TsTypeDef::bigint_with_repr("bigint"))
            }
        },
        Lit::Regex(regex) => Some(TsTypeDef::regexp(regex.exp.clone())),
        _ => None,
    }
}

fn infer_ts_type_from_new_expr(new_expr: &NewExpr) -> (r: Option<TsTypeDef>)
    ensures
        match r {
            Some(x) => Some(ts_type_def_view(x)),
            None => None,
        } == inferred_from_new(*new_expr),
        r matches Some(t) ==> ts_type_def_wf(t@),
{
    match &*new_expr.callee {
        Expr::Ident(ident) => {
            let type_params = maybe_type_args_to_defs(&new_expr.type_args);
            Some(
                TsTypeDef::of_type_ref(
                    ident.sym.clone(),
                    TsTypeRefDef { type_params, name: ident.sym.clone() },
                ),
            )
        },
        _ => None,
    }
}

fn is_name(sym: &String, name: &str) -> (r: bool)
    ensures
        r == (sym@ == name@),
{
    let name = String::from_str(name);
    *sym == name
}

fn infer_ts_type_from_callee_name(sym: &String) -> (r: Option<TsTypeDef>)
    ensures
        match r {
            Some(x) => Some(ts_type_def_view(x)),
            None => None,
        } == inferred_from_callee_name(sym@),
        r matches Some(t) ==> ts_type_def_wf(t@),
{
    if is_name(sym, "Symbol") {
        Some(TsTypeDef::keyword_with_repr("symbol", sym.as_str()))
    } else if is_name(sym, "Number") {
        Some(TsTypeDef::keyword_with_repr("number", sym.as_str()))
    } else if is_name(sym, "String") {
        Some(TsTypeDef::keyword_with_repr("string", sym.as_str()))
    } else if is_name(sym, "BigInt") {
        Some(TsTypeDef::keyword_with_repr("bigint", sym.as_str()))
    } else if is_name(sym, "Date") {
        Some(TsTypeDef::string_with_repr(sym.as_str()))
    } else if is_name(sym, "RegExp") {
        Some(TsTypeDef::regexp(sym.clone()))
    } else {
        None
    }
}

fn infer_ts_type_from_call_expr(call_expr: &CallExpr) -> (r: Option<TsTypeDef>)
    ensures
        match r {
            Some(x) => Some(ts_type_def_view(x)),
            None => None,
        } == inferred_from_call(*call_expr),
        r matches Some(t) ==> ts_type_def_wf(t@),
{
    match &call_expr.callee {
        Callee::Expr(expr) => match &**expr {
            Expr::Ident(ident) => infer_ts_type_from_callee_name(&ident.sym),
            _ => None,
        },
        _ => None,
    }
}

fn infer_ts_type_from_tpl(tpl: &Tpl, is_const: bool) -> (r: TsTypeDef)
    ensures
        r@ == inferred_from_tpl(tpl.quasis@, is_const),
        ts_type_def_wf(r@),
{
    if tpl.quasis.len() == 1 && is_const {
        let types: Vec<Box<TsType>> = Vec::new();
        assert(types@ =~= Seq::empty());
        TsTypeDef::tpl_literal(types.as_slice(), tpl.quasis.as_slice())
    } else {
        TsTypeDef::string_with_repr("string")
    }
}

} // verus!
