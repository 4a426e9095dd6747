//! The description of a type: a tree of tagged nodes.

use crate::ast::{MethodKind, TruePlusMinus};
pub use crate::convert::{maybe_type_param_instantiation_to_type_defs, ts_type_ann_to_def};
pub use crate::infer::{infer_simple_ts_type_from_var_decl, infer_ts_type_from_expr};
use crate::model::{
    array_def, conditional_def, empty_def, fn_or_constructor_def, import_type_def,
    indexed_access_def, infer_def, intersection_def, keyword_def, literal_def_wf, literal_node,
    mapped_def, optional_def, parenthesized_def, rest_def, this_def, ts_conditional_def_wf,
    ts_fn_or_constructor_def_wf, ts_import_type_def_wf, ts_indexed_access_def_wf, ts_infer_def_wf,
    ts_mapped_type_def_wf, ts_type_def_all_wf, ts_type_def_views, ts_type_def_wf,
    ts_type_literal_def_wf, ts_type_operator_def_wf, ts_type_predicate_def_wf, ts_type_ref_def_wf,
    tuple_def, type_literal_def, type_operator_def, type_predicate_node, type_query_def,
    type_ref_def, union_def, TsTypeRefDefView,
};
pub use crate::names::{ts_entity_name_to_name, ts_member_name_to_name};
use crate::params::ParamDef;
use crate::ts_type_param::TsTypeParamDef;
use vstd::prelude::*;

verus! {

/// The category of a literal type.
#[derive(Clone, Copy, Debug, PartialEq, Eq, Structural)]
pub enum LiteralDefKind {
    Number,
    String,
    Template,
    Boolean,
    BigInt,
}

/// The tag of a type node: one per syntactic form.
#[derive(Clone, Copy, Debug, PartialEq, Eq, Structural)]
pub enum TsTypeDefKind {
    Keyword,
    Literal,
    TypeRef,
    Union,
    Intersection,
    Array,
    Tuple,
    TypeOperator,
    Parenthesized,
    Rest,
    Optional,
    TypeQuery,
    This,
    FnOrConstructor,
    Conditional,
    Infer,
    IndexedAccess,
    Mapped,
    TypeLiteral,
    TypePredicate,
    ImportType,
}

/// A reference to a named type: the dotted name and the type arguments that
/// are written out. `None` is no argument list; an empty list is `<>`.
#[derive(Debug)]
pub struct TsTypeRefDef {
    pub type_params: Option<Vec<TsTypeDef>>,
    pub name: String,
}

/// A literal type. Of the scalars, the one that `kind` names is populated: the
/// bits of the number, the content of the string, the truth value, or the
/// decimal text of the big integer in `string`. A template holds its parts in
/// `ts_types`, in source order.
#[derive(Debug)]
pub struct LiteralDef {
    pub kind: LiteralDefKind,
    pub number: Option<u64>,
    pub string: Option<String>,
    pub ts_types: Option<Vec<TsTypeDef>>,
    pub boolean: Option<bool>,
}

/// `operator T`: `keyof`, `unique` or `readonly` applied to a type.
#[derive(Debug)]
pub struct TsTypeOperatorDef {
    pub operator: String,
    pub ts_type: TsTypeDef,
}

/// A function type, or with `constructor` a constructor type: parameters,
/// generic parameters and the type that comes back.
#[derive(Debug)]
pub struct TsFnOrConstructorDef {
    pub constructor: bool,
    pub ts_type: TsTypeDef,
    pub params: Vec<ParamDef>,
    pub type_params: Vec<TsTypeParamDef>,
}

/// `check_type extends extends_type ? true_type : false_type`
#[derive(Debug)]
pub struct TsConditionalDef {
    pub check_type: Box<TsTypeDef>,
    pub extends_type: Box<TsTypeDef>,
    pub true_type: Box<TsTypeDef>,
    pub false_type: Box<TsTypeDef>,
}

/// `infer U`
#[derive(Debug)]
pub struct TsInferDef {
    pub type_param: Box<TsTypeParamDef>,
}

/// `import("specifier").Qualifier<Args>`
#[derive(Debug)]
pub struct TsImportTypeDef {
    pub specifier: String,
    pub qualifier: Option<String>,
    pub type_params: Option<Vec<TsTypeDef>>,
}

/// `obj_type[index_type]`
#[derive(Debug)]
pub struct TsIndexedAccessDef {
    pub readonly: bool,
    pub obj_type: Box<TsTypeDef>,
    pub index_type: Box<TsTypeDef>,
}

/// A mapped type, as in
/// `readonly [Key in keyof Type as NewName]?: Type[Key]`.
///
/// `readonly` and `optional` are unset, plain, `+` or `-`; `type_param` is
/// `Key in keyof Type`, `name_type` is `NewName`, `ts_type` is `Type[Key]`.
#[derive(Debug)]
pub struct TsMappedTypeDef {
    pub readonly: Option<TruePlusMinus>,
    pub type_param: Box<TsTypeParamDef>,
    pub name_type: Option<Box<TsTypeDef>>,
    pub optional: Option<TruePlusMinus>,
    pub ts_type: Option<Box<TsTypeDef>>,
}

/// A method of a type literal. Getters, setters and construct signatures are
/// held as methods: a getter has no parameter, a setter has one and no return
/// type, a construct signature is named `new`.
#[derive(Debug)]
pub struct LiteralMethodDef {
    pub name: String,
    pub kind: MethodKind,
    pub params: Vec<ParamDef>,
    pub computed: bool,
    pub optional: bool,
    pub return_type: Option<TsTypeDef>,
    pub type_params: Vec<TsTypeParamDef>,
}

/// A property of a type literal.
#[derive(Debug)]
pub struct LiteralPropertyDef {
    pub name: String,
    pub params: Vec<ParamDef>,
    pub readonly: bool,
    pub computed: bool,
    pub optional: bool,
    pub ts_type: Option<TsTypeDef>,
    pub type_params: Vec<TsTypeParamDef>,
}

/// A call signature of a type literal. It has no name, so nothing says whether
/// a name is computed.
#[derive(Debug)]
pub struct LiteralCallSignatureDef {
    pub params: Vec<ParamDef>,
    pub ts_type: Option<TsTypeDef>,
    pub type_params: Vec<TsTypeParamDef>,
}

/// An index signature of a type literal.
#[derive(Debug)]
pub struct LiteralIndexSignatureDef {
    pub readonly: bool,
    pub params: Vec<ParamDef>,
    pub ts_type: Option<TsTypeDef>,
}

/// The members of a type literal, sorted into four lists. Each list keeps the
/// order of the members.
#[derive(Debug)]
pub struct TsTypeLiteralDef {
    pub methods: Vec<LiteralMethodDef>,
    pub properties: Vec<LiteralPropertyDef>,
    pub call_signatures: Vec<LiteralCallSignatureDef>,
    pub index_signatures: Vec<LiteralIndexSignatureDef>,
}

/// A type predicate, as in `asserts param is Type`: whether `asserts` is
/// written, the subject, and the type that the subject is checked against.
#[derive(Debug)]
pub struct TsTypePredicateDef {
    pub asserts: bool,
    pub param: ThisOrIdent,
    pub ty: Option<Box<TsTypeDef>>,
}

/// A node of a described type.
///
/// `kind` is the tag of the node, and of the payload fields the one that the tag
/// names is populated. `repr` is the text of a keyword, a literal, a reference,
/// a type query, `this` or a type predicate; the other kinds are written out
/// from their parts.
#[derive(Debug)]
pub struct TsTypeDef {
    pub repr: String,
    pub kind: Option<TsTypeDefKind>,
    pub keyword: Option<String>,
    pub literal: Option<LiteralDef>,
    pub type_ref: Option<TsTypeRefDef>,
    pub union: Option<Vec<TsTypeDef>>,
    pub intersection: Option<Vec<TsTypeDef>>,
    pub array: Option<Box<TsTypeDef>>,
    pub tuple: Option<Vec<TsTypeDef>>,
    pub type_operator: Option<Box<TsTypeOperatorDef>>,
    pub parenthesized: Option<Box<TsTypeDef>>,
    pub rest: Option<Box<TsTypeDef>>,
    pub optional: Option<Box<TsTypeDef>>,
    pub type_query: Option<String>,
    pub this: Option<bool>,
    pub fn_or_constructor: Option<Box<TsFnOrConstructorDef>>,
    pub conditional_type: Option<TsConditionalDef>,
    pub infer: Option<TsInferDef>,
    pub indexed_access: Option<TsIndexedAccessDef>,
    pub mapped_type: Option<TsMappedTypeDef>,
    pub type_literal: Option<TsTypeLiteralDef>,
    pub type_predicate: Option<TsTypePredicateDef>,
    pub import_type: Option<TsImportTypeDef>,
}

/// The subject of a type predicate: `this`, or a parameter by name.
#[derive(Debug)]
pub enum ThisOrIdent {
    This,
    Identifier { name: String },
}

impl Default for TsTypeDef {
    /// The node with no tag, no text and no payload.
    fn default() -> (r: TsTypeDef)
        ensures
            r@ == empty_def(),
    {
        TsTypeDef {
            repr: String::new(),
            kind: None,
            keyword: None,
            literal: None,
            type_ref: None,
            union: None,
            intersection: None,
            array: None,
            tuple: None,
            type_operator: None,
            parenthesized: None,
            rest: None,
            optional: None,
            type_query: None,
            this: None,
            fn_or_constructor: None,
            conditional_type: None,
            infer: None,
            indexed_access: None,
            mapped_type: None,
            type_literal: None,
            type_predicate: None,
            import_type: None,
        }
    }
}

impl TsTypeDef {
    pub(crate) fn of_union(types: Vec<TsTypeDef>) -> (r: TsTypeDef)
        ensures
            r@ == union_def(ts_type_def_views(types@)),
            ts_type_def_all_wf(ts_type_def_views(types@)) ==> ts_type_def_wf(r@),
    {
        TsTypeDef { kind: Some(TsTypeDefKind::Union), union: Some(types), ..TsTypeDef::default() }
    }

    pub(crate) fn of_intersection(types: Vec<TsTypeDef>) -> (r: TsTypeDef)
        ensures
            r@ == intersection_def(ts_type_def_views(types@)),
            ts_type_def_all_wf(ts_type_def_views(types@)) ==> ts_type_def_wf(r@),
    {
        TsTypeDef {
            kind: Some(TsTypeDefKind::Intersection),
            intersection: Some(types),
            ..TsTypeDef::default()
        }
    }

    pub(crate) fn of_array(elem: TsTypeDef) -> (r: TsTypeDef)
        ensures
            r@ == array_def(elem@),
            ts_type_def_wf(elem@) ==> ts_type_def_wf(r@),
    {
        TsTypeDef {
            kind: Some(TsTypeDefKind::Array),
            array: Some(Box::new(elem)),
            ..TsTypeDef::default()
        }
    }

    pub(crate) fn of_tuple(types: Vec<TsTypeDef>) -> (r: TsTypeDef)
        ensures
            r@ == tuple_def(ts_type_def_views(types@)),
            ts_type_def_all_wf(ts_type_def_views(types@)) ==> ts_type_def_wf(r@),
    {
        TsTypeDef { kind: Some(TsTypeDefKind::Tuple), tuple: Some(types), ..TsTypeDef::default() }
    }

    pub(crate) fn of_type_operator(operator: TsTypeOperatorDef) -> (r: TsTypeDef)
        ensures
            r@ == type_operator_def(operator@),
            ts_type_operator_def_wf(operator@) ==> ts_type_def_wf(r@),
    {
        TsTypeDef {
            kind: Some(TsTypeDefKind::TypeOperator),
            type_operator: Some(Box::new(operator)),
            ..TsTypeDef::default()
        }
    }

    pub(crate) fn of_parenthesized(inner: TsTypeDef) -> (r: TsTypeDef)
        ensures
            r@ == parenthesized_def(inner@),
            ts_type_def_wf(inner@) ==> ts_type_def_wf(r@),
    {
        TsTypeDef {
            kind: Some(TsTypeDefKind::Parenthesized),
            parenthesized: Some(Box::new(inner)),
            ..TsTypeDef::default()
        }
    }

    pub(crate) fn of_rest(inner: TsTypeDef) -> (r: TsTypeDef)
        ensures
            r@ == rest_def(inner@),
            ts_type_def_wf(inner@) ==> ts_type_def_wf(r@),
    {
        TsTypeDef {
            kind: Some(TsTypeDefKind::Rest),
            rest: Some(Box::new(inner)),
            ..TsTypeDef::default()
        }
    }

    pub(crate) fn of_optional(inner: TsTypeDef) -> (r: TsTypeDef)
        ensures
            r@ == optional_def(inner@),
            ts_type_def_wf(inner@) ==> ts_type_def_wf(r@),
    {
        TsTypeDef {
            kind: Some(TsTypeDefKind::Optional),
            optional: Some(Box::new(inner)),
            ..TsTypeDef::default()
        }
    }

    pub(crate) fn of_fn_or_constructor(f: TsFnOrConstructorDef) -> (r: TsTypeDef)
        ensures
            r@ == fn_or_constructor_def(f@),
            ts_fn_or_constructor_def_wf(f@) ==> ts_type_def_wf(r@),
    {
        TsTypeDef {
            kind: Some(TsTypeDefKind::FnOrConstructor),
            fn_or_constructor: Some(Box::new(f)),
            ..TsTypeDef::default()
        }
    }

    pub(crate) fn of_conditional(conditional: TsConditionalDef) -> (r: TsTypeDef)
        ensures
            r@ == conditional_def(conditional@),
            ts_conditional_def_wf(conditional@) ==> ts_type_def_wf(r@),
    {
        TsTypeDef {
            kind: Some(TsTypeDefKind::Conditional),
            conditional_type: Some(conditional),
            ..TsTypeDef::default()
        }
    }

    pub(crate) fn of_infer(infer: TsInferDef) -> (r: TsTypeDef)
        ensures
            r@ == infer_def(infer@),
            ts_infer_def_wf(infer@) ==> ts_type_def_wf(r@),
    {
        TsTypeDef { kind: Some(TsTypeDefKind::Infer), infer: Some(infer), ..TsTypeDef::default() }
    }

    pub(crate) fn of_indexed_access(access: TsIndexedAccessDef) -> (r: TsTypeDef)
        ensures
            r@ == indexed_access_def(access@),
            ts_indexed_access_def_wf(access@) ==> ts_type_def_wf(r@),
    {
        TsTypeDef {
            kind: Some(TsTypeDefKind::IndexedAccess),
            indexed_access: Some(access),
            ..TsTypeDef::default()
        }
    }

    pub(crate) fn of_mapped(mapped: TsMappedTypeDef) -> (r: TsTypeDef)
        ensures
            r@ == mapped_def(mapped@),
            ts_mapped_type_def_wf(mapped@) ==> ts_type_def_wf(r@),
    {
        TsTypeDef {
            kind: Some(TsTypeDefKind::Mapped),
            mapped_type: Some(mapped),
            ..TsTypeDef::default()
        }
    }

    pub(crate) fn of_type_literal(literal: TsTypeLiteralDef) -> (r: TsTypeDef)
        ensures
            r@ == type_literal_def(literal@),
            ts_type_literal_def_wf(literal@) ==> ts_type_def_wf(r@),
    {
        TsTypeDef {
            kind: Some(TsTypeDefKind::TypeLiteral),
            type_literal: Some(literal),
            ..TsTypeDef::default()
        }
    }

    pub(crate) fn of_import_type(import: TsImportTypeDef) -> (r: TsTypeDef)
        ensures
            r@ == import_type_def(import@),
            ts_import_type_def_wf(import@) ==> ts_type_def_wf(r@),
    {
        TsTypeDef {
            kind: Some(TsTypeDefKind::ImportType),
            import_type: Some(import),
            ..TsTypeDef::default()
        }
    }

    pub(crate) fn of_type_ref(repr: String, type_ref: TsTypeRefDef) -> (r: TsTypeDef)
        ensures
            r@ == type_ref_def(repr@, type_ref@),
            ts_type_ref_def_wf(type_ref@) ==> ts_type_def_wf(r@),
    {
        TsTypeDef {
            repr,
            kind: Some(TsTypeDefKind::TypeRef),
            type_ref: Some(type_ref),
            ..TsTypeDef::default()
        }
    }

    pub(crate) fn of_type_query(name: String) -> (r: TsTypeDef)
        ensures
            r@ == type_query_def(name@),
            ts_type_def_wf(r@),
    {
        TsTypeDef {
            repr: name.clone(),
            kind: Some(TsTypeDefKind::TypeQuery),
            type_query: Some(name),
            ..TsTypeDef::default()
        }
    }

    pub(crate) fn of_this() -> (r: TsTypeDef)
        ensures
            r@ == this_def(),
            ts_type_def_wf(r@),
    {
        TsTypeDef {
            repr: String::from_str("this"),
            kind: Some(TsTypeDefKind::This),
            this: Some(true),
            ..TsTypeDef::default()
        }
    }

    pub(crate) fn of_type_predicate(repr: String, predicate: TsTypePredicateDef) -> (r: TsTypeDef)
        ensures
            r@ == type_predicate_node(repr@, predicate@),
            ts_type_predicate_def_wf(predicate@) ==> ts_type_def_wf(r@),
    {
        TsTypeDef {
            repr,
            kind: Some(TsTypeDefKind::TypePredicate),
            type_predicate: Some(predicate),
            ..TsTypeDef::default()
        }
    }

    /// A reference to the built-in `RegExp`, with `repr` as its text.
    pub fn regexp(repr: String) -> (r: TsTypeDef)
        ensures
            r@ == type_ref_def(repr@, TsTypeRefDefView { type_params: None, name: "RegExp"@ }),
            ts_type_def_wf(r@),
    {
        let type_ref = TsTypeRefDef { type_params: None, name: String::from_str("RegExp") };
        TsTypeDef::of_type_ref(repr, type_ref)
    }

    /// The keyword `keyword_str`, shown as itself.
    pub fn keyword(keyword_str: &str) -> (r: TsTypeDef)
        ensures
            r@ == keyword_def(keyword_str@, keyword_str@),
            ts_type_def_wf(r@),
    {
        TsTypeDef::keyword_with_repr(keyword_str, keyword_str)
    }

    /// The keyword `number`, with `repr` as its text.
    pub fn number_with_repr(repr: &str) -> (r: TsTypeDef)
        ensures
            r@ == keyword_def("number"@, repr@),
            ts_type_def_wf(r@),
    {
        TsTypeDef::keyword_with_repr("number", repr)
    }

    /// The keyword `string`, with `repr` as its text.
    pub fn string_with_repr(repr: &str) -> (r: TsTypeDef)
        ensures
            r@ == keyword_def("string"@, repr@),
            ts_type_def_wf(r@),
    {
        TsTypeDef::keyword_with_repr("string", repr)
    }

    /// The keyword `boolean`, with `repr` as its text.
    pub fn bool_with_repr(repr: &str) -> (r: TsTypeDef)
        ensures
            r@ == keyword_def("boolean"@, repr@),
            ts_type_def_wf(r@),
    {
        TsTypeDef::keyword_with_repr("boolean", repr)
    }

    /// The keyword `bigint`, with `repr` as its text.
    pub fn bigint_with_repr(repr: &str) -> (r: TsTypeDef)
        ensures
            r@ == keyword_def("bigint"@, repr@),
            ts_type_def_wf(r@),
    {
        TsTypeDef::keyword_with_repr("bigint", repr)
    }

    /// The keyword `keyword_str`, with `repr` as its text. No payload but the
    /// keyword is populated.
    pub fn keyword_with_repr(keyword_str: &str, repr: &str) -> (r: TsTypeDef)
        ensures
            r@ == keyword_def(keyword_str@, repr@),
            ts_type_def_wf(r@),
    {
        TsTypeDef {
            repr: String::from_str(repr),
            kind: Some(TsTypeDefKind::Keyword),
            keyword: Some(String::from_str(keyword_str)),
            ..TsTypeDef::default()
        }
    }

    /// The literal `lit`, with `repr` as its text.
    pub(crate) fn literal(repr: String, lit: LiteralDef) -> (r: TsTypeDef)
        ensures
            r@ == literal_node(repr@, lit@),
            literal_def_wf(lit@) ==> ts_type_def_wf(r@),
    {
        TsTypeDef {
            repr,
            kind: Some(TsTypeDefKind::Literal),
            literal: Some(lit),
            ..TsTypeDef::default()
        }
    }
}

} // verus!
