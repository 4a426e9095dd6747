//! The texts of names: entity names, keys of members and of patterns, keywords
//! and operators.

use crate::ast::{
    Expr, Lit, MemberProp, PropName, TsEntityName, TsKeywordTypeKind, TsMemberName,
    TsTypeOperatorOp,
};
use crate::display::{bool_text, display_bool};
use vstd::prelude::*;

verus! {

/// The text that stands for what cannot be named.
pub open spec fn unsupported_name() -> Seq<char> {
    "[UNSUPPORTED]"@
}

/// The text that stands for a computed key whose source text is not at hand.
pub open spec fn unavailable_name() -> Seq<char> {
    "<UNAVAILABLE>"@
}

pub open spec fn keyword_text(kind: TsKeywordTypeKind) -> Seq<char> {
    match kind {
        TsKeywordTypeKind::TsAnyKeyword => "any"@,
        TsKeywordTypeKind::TsUnknownKeyword => "unknown"@,
        TsKeywordTypeKind::TsNumberKeyword => "number"@,
        TsKeywordTypeKind::TsObjectKeyword => "object"@,
        TsKeywordTypeKind::TsBooleanKeyword => "boolean"@,
        TsKeywordTypeKind::TsBigIntKeyword => "bigint"@,
        TsKeywordTypeKind::TsStringKeyword => "string"@,
        TsKeywordTypeKind::TsSymbolKeyword => "symbol"@,
        TsKeywordTypeKind::TsVoidKeyword => "void"@,
        TsKeywordTypeKind::TsUndefinedKeyword => "undefined"@,
        TsKeywordTypeKind::TsNullKeyword => "null"@,
        TsKeywordTypeKind::TsNeverKeyword => "never"@,
        TsKeywordTypeKind::TsIntrinsicKeyword => "intrinsic"@,
    }
}

pub open spec fn operator_text(op: TsTypeOperatorOp) -> Seq<char> {
    match op {
        TsTypeOperatorOp::KeyOf => "keyof"@,
        TsTypeOperatorOp::Unique => "unique"@,
        TsTypeOperatorOp::ReadOnly => "readonly"@,
    }
}

/// The bare text of a member name; a private name loses its `#`.
pub open spec fn member_name_text(name: TsMemberName) -> Seq<char> {
    match name {
        TsMemberName::Ident(ident) => ident.sym@,
        TsMemberName::PrivateName(private) => private.id.sym@,
    }
}

/// The dotted text of an entity name: `left.right`, down to the first identifier.
pub open spec fn entity_name_text(name: TsEntityName) -> Seq<char>
    decreases name,
{
    match name {
        TsEntityName::Ident(ident) => ident.sym@,
        TsEntityName::TsQualifiedName(qualified) => entity_name_text(qualified.left) + "."@
            + member_name_text(qualified.right),
    }
}

/// The text of a literal used as a name.
pub open spec fn lit_name(lit: Lit) -> Seq<char> {
    match lit {
        Lit::Str(s) => s.value@,
        Lit::Bool(b) => bool_text(b.value),
        Lit::Null(_) => "null"@,
        Lit::Num(n) => n.text@,
        Lit::BigInt(n) => n.value@,
        Lit::Regex(_) => unsupported_name(),
        Lit::JSXText(_) => unsupported_name(),
    }
}

/// The text of the property part of a member access.
pub open spec fn member_prop_text(prop: MemberProp) -> Seq<char> {
    match prop {
        MemberProp::Ident(ident) => "."@ + ident.sym@,
        MemberProp::PrivateName(_) => unsupported_name(),
        MemberProp::Computed(_) => unsupported_name(),
    }
}

/// The name that an expression stands for in a key position: an identifier is
/// its own name, a member access is `[obj.prop]`, a literal is its text, and
/// anything else has no name.
pub open spec fn expr_name(expr: Expr) -> Seq<char>
    decreases expr,
{
    match expr {
        Expr::Ident(ident) => ident.sym@,
        Expr::Member(member) => "["@ + expr_name(*member.obj) + member_prop_text(member.prop)
            + "]"@,
        Expr::Lit(lit) => lit_name(lit),
        _ => unsupported_name(),
    }
}

/// The text of a key of an object pattern.
pub open spec fn prop_name_text(name: PropName) -> Seq<char> {
    match name {
        PropName::Ident(ident) => ident.sym@,
        PropName::Str(s) => s.value@,
        PropName::Num(n) => n.text@,
        PropName::BigInt(n) => n.value@,
        PropName::Computed(_) => unavailable_name(),
    }
}

pub fn keyword_str(kind: TsKeywordTypeKind) -> (text: &'static str)
    ensures
        text@ == keyword_text(kind),
{
    match kind {
        TsKeywordTypeKind::TsAnyKeyword => "any",
        TsKeywordTypeKind::TsUnknownKeyword => "unknown",
        TsKeywordTypeKind::TsNumberKeyword => "number",
        TsKeywordTypeKind::TsObjectKeyword => "object",
        TsKeywordTypeKind::TsBooleanKeyword => "boolean",
        TsKeywordTypeKind::TsBigIntKeyword => "bigint",
        TsKeywordTypeKind::TsStringKeyword => "string",
        TsKeywordTypeKind::TsSymbolKeyword => "symbol",
        TsKeywordTypeKind::TsVoidKeyword => "void",
        TsKeywordTypeKind::TsUndefinedKeyword => "undefined",
        TsKeywordTypeKind::TsNullKeyword => "null",
        TsKeywordTypeKind::TsNeverKeyword => "never",
        TsKeywordTypeKind::TsIntrinsicKeyword => "intrinsic",
    }
}

impl TsTypeOperatorOp {
    pub fn as_str(&self) -> (text: &'static str)
        ensures
            text@ == operator_text(*self),
    {
        match self {
            TsTypeOperatorOp::KeyOf => "keyof",
            TsTypeOperatorOp::Unique => "unique",
            TsTypeOperatorOp::ReadOnly => "readonly",
        }
    }
}

pub fn ts_member_name_to_name(member_name: &TsMemberName) -> (name: String)
    ensures
        name@ == member_name_text(*member_name),
{
    match member_name {
        TsMemberName::Ident(ident) => ident.sym.clone(),
        TsMemberName::PrivateName(private_name) => private_name.id.sym.clone(),
    }
}

pub fn ts_entity_name_to_name(entity_name: &TsEntityName) -> (name: String)
    ensures
        name@ == entity_name_text(*entity_name),
    decreases entity_name,
{
    match entity_name {
        TsEntityName::Ident(ident) => ident.sym.clone(),
        TsEntityName::TsQualifiedName(ts_qualified_name) => {
            let mut name = ts_entity_name_to_name(&ts_qualified_name.left);
            let right = ts_member_name_to_name(&ts_qualified_name.right);
            name.append(".");
            name.append(right.as_str());
            name
        },
    }
}

fn lit_to_name(lit: &Lit) -> (name: String)
    ensures
        name@ == lit_name(*lit),
{
    match lit {
        Lit::Str(s) => s.value.clone(),
        Lit::Bool(b) => String::from_str(display_bool(b.value)),
        Lit::Null(_) => String::from_str("null"),
        Lit::Num(n) => n.text.clone(),
        Lit::BigInt(n) => n.value.clone(),
        Lit::Regex(_) => String::from_str("[UNSUPPORTED]"),
        Lit::JSXText(_) => String::from_str("[UNSUPPORTED]"),
    }
}

/// The name that `expr` stands for in a key position.
pub fn expr_to_name(expr: &Expr) -> (name: String)
    ensures
        name@ == expr_name(*expr),
    decreases expr,
{
    match expr {
        Expr::Ident(ident) => ident.sym.clone(),
        Expr::Member(member) => {
            let mut name = String::from_str("[");
            let left = expr_to_name(&member.obj);
            name.append(left.as_str());
            match &member.prop {
                MemberProp::Ident(ident) => {
                    name.append(".");
                    name.append(ident.sym.as_str());
                },
                MemberProp::PrivateName(_) => {
                    name.append("[UNSUPPORTED]");
                },
                MemberProp::Computed(_) => {
                    name.append("[UNSUPPORTED]");
                },
            }
            name.append("]");
            assert(name@ =~= expr_name(*expr));
            name
        },
        Expr::Lit(lit) => lit_to_name(lit),
        _ => String::from_str("[UNSUPPORTED]"),
    }
}

/// The text of a key of an object pattern.
pub fn prop_name_to_string(prop_name: &PropName) -> (name: String)
    ensures
        name@ == prop_name_text(*prop_name),
{
    match prop_name {
        PropName::Ident(ident) => ident.sym.clone(),
        PropName::Str(s) => s.value.clone(),
        PropName::Num(n) => n.text.clone(),
        PropName::BigInt(n) => n.value.clone(),
        PropName::Computed(_) => String::from_str("<UNAVAILABLE>"),
    }
}

} // verus!
