//! The syntax tree that descriptions are made from: type expressions, the
//! members of type literals, parameters, and the expressions that a type can be
//! read off.

use crate::span::Span;
use vstd::prelude::*;

verus! {

/// An identifier, with the `?` marker it may carry in a binding position.
#[derive(Debug)]
pub struct Ident {
    pub span: Span,
    pub sym: String,
    pub optional: bool,
}

/// `#name`
#[derive(Debug)]
pub struct PrivateName {
    pub span: Span,
    pub id: Ident,
}

/// A string literal; `value` is the content without quotes.
#[derive(Debug)]
pub struct Str {
    pub span: Span,
    pub value: String,
}

#[derive(Debug)]
pub struct Bool {
    pub span: Span,
    pub value: bool,
}

/// A numeric literal.
///
/// `bits` is the IEEE 754 binary64 pattern of the value and `text` its default
/// decimal form. The two are supplied together by whoever builds the node.
#[derive(Debug)]
pub struct Number {
    pub span: Span,
    pub bits: u64,
    pub text: String,
}

/// A big-integer literal; `value` is its decimal text, without the `n` suffix.
#[derive(Debug)]
pub struct BigInt {
    pub span: Span,
    pub value: String,
}

/// `/exp/flags`
#[derive(Debug)]
pub struct Regex {
    pub span: Span,
    pub exp: String,
    pub flags: String,
}

/// A literal chunk of a template; `raw` is its text as written.
#[derive(Debug)]
pub struct TplElement {
    pub span: Span,
    pub raw: String,
}

#[derive(Debug)]
pub enum Lit {
    Str(Str),
    Bool(Bool),
    Null(Span),
    Num(Number),
    BigInt(BigInt),
    Regex(Regex),
    JSXText(Span),
}

#[derive(Clone, Copy, Debug, PartialEq, Eq, Structural)]
pub enum MethodKind {
    Method,
    Getter,
    Setter,
}

/// The state of a `readonly` or `?` modifier of a mapped type when it is present:
/// plain, `+` or `-`.
#[derive(Clone, Copy, Debug, PartialEq, Eq, Structural)]
pub enum TruePlusMinus {
    True,
    Plus,
    Minus,
}

#[derive(Clone, Copy, Debug, PartialEq, Eq, Structural)]
pub enum TsKeywordTypeKind {
    TsAnyKeyword,
    TsUnknownKeyword,
    TsNumberKeyword,
    TsObjectKeyword,
    TsBooleanKeyword,
    TsBigIntKeyword,
    TsStringKeyword,
    TsSymbolKeyword,
    TsVoidKeyword,
    TsUndefinedKeyword,
    TsNullKeyword,
    TsNeverKeyword,
    TsIntrinsicKeyword,
}

#[derive(Clone, Copy, Debug, PartialEq, Eq, Structural)]
pub enum TsTypeOperatorOp {
    KeyOf,
    Unique,
    ReadOnly,
}

/// `: T`
#[derive(Debug)]
pub struct TsTypeAnn {
    pub span: Span,
    pub type_ann: Box<TsType>,
}

/// One declared generic parameter: `K extends C = D`.
#[derive(Debug)]
pub struct TsTypeParam {
    pub span: Span,
    pub name: Ident,
    pub constraint: Option<Box<TsType>>,
    pub default: Option<Box<TsType>>,
}

/// `<A, B extends C>` on a declaration.
#[derive(Debug)]
pub struct TsTypeParamDecl {
    pub span: Span,
    pub params: Vec<TsTypeParam>,
}

/// `<X, Y>` on a use.
#[derive(Debug)]
pub struct TsTypeParamInstantiation {
    pub span: Span,
    pub params: Vec<Box<TsType>>,
}

#[derive(Debug)]
pub enum TsMemberName {
    Ident(Ident),
    PrivateName(PrivateName),
}

/// `left.right`
#[derive(Debug)]
pub struct TsQualifiedName {
    pub left: TsEntityName,
    pub right: TsMemberName,
}

#[derive(Debug)]
pub enum TsEntityName {
    TsQualifiedName(Box<TsQualifiedName>),
    Ident(Ident),
}

/// A binding identifier with its annotation: `a?: T`.
#[derive(Debug)]
pub struct BindingIdent {
    pub id: Ident,
    pub type_ann: Option<TsTypeAnn>,
}

/// `[a, , b]: T`
#[derive(Debug)]
pub struct ArrayPat {
    pub span: Span,
    pub elems: Vec<Option<Pat>>,
    pub optional: bool,
    pub type_ann: Option<TsTypeAnn>,
}

/// `...arg: T`
#[derive(Debug)]
pub struct RestPat {
    pub span: Span,
    pub arg: Box<Pat>,
    pub type_ann: Option<TsTypeAnn>,
}

/// `{ a, b: c, ...d }: T`
#[derive(Debug)]
pub struct ObjectPat {
    pub span: Span,
    pub props: Vec<ObjectPatProp>,
    pub optional: bool,
    pub type_ann: Option<TsTypeAnn>,
}

/// `left = <default>`; the default expression is not part of a description.
#[derive(Debug)]
pub struct AssignPat {
    pub span: Span,
    pub left: Box<Pat>,
    pub type_ann: Option<TsTypeAnn>,
}

#[derive(Debug)]
pub enum PropName {
    Ident(Ident),
    Str(Str),
    Num(Number),
    BigInt(BigInt),
    Computed(Span),
}

/// `key: value` inside an object pattern.
#[derive(Debug)]
pub struct KeyValuePatProp {
    pub key: PropName,
    pub value: Box<Pat>,
}

/// `key` or `key = <default>` inside an object pattern.
#[derive(Debug)]
pub struct AssignPatProp {
    pub span: Span,
    pub key: Ident,
    pub has_value: bool,
}

#[derive(Debug)]
pub enum ObjectPatProp {
    KeyValue(KeyValuePatProp),
    Assign(AssignPatProp),
    Rest(RestPat),
}

/// A pattern in a parameter position of a function expression.
#[derive(Debug)]
pub enum Pat {
    Ident(BindingIdent),
    Array(ArrayPat),
    Rest(RestPat),
    Object(ObjectPat),
    Assign(AssignPat),
}

/// A parameter of a function type or of a signature.
#[derive(Debug)]
pub enum TsFnParam {
    Ident(BindingIdent),
    Array(ArrayPat),
    Rest(RestPat),
    Object(ObjectPat),
}

#[derive(Debug)]
pub struct TsKeywordType {
    pub span: Span,
    pub kind: TsKeywordTypeKind,
}

#[derive(Debug)]
pub struct TsThisType {
    pub span: Span,
}

/// `(params) => T`
#[derive(Debug)]
pub struct TsFnType {
    pub span: Span,
    pub params: Vec<TsFnParam>,
    pub type_params: Option<TsTypeParamDecl>,
    pub type_ann: TsTypeAnn,
}

/// `new (params) => T`
#[derive(Debug)]
pub struct TsConstructorType {
    pub span: Span,
    pub params: Vec<TsFnParam>,
    pub type_params: Option<TsTypeParamDecl>,
    pub type_ann: TsTypeAnn,
}

#[derive(Debug)]
pub enum TsFnOrConstructorType {
    TsFnType(TsFnType),
    TsConstructorType(TsConstructorType),
}

/// `Name<Args>`
#[derive(Debug)]
pub struct TsTypeRef {
    pub span: Span,
    pub name: TsEntityName,
    pub type_params: Option<TsTypeParamInstantiation>,
}

/// An expression with type arguments, as in `extends Base<T>`.
#[derive(Debug)]
pub struct TsExprWithTypeArgs {
    pub span: Span,
    pub expr: Box<Expr>,
    pub type_args: Option<TsTypeParamInstantiation>,
}

/// `param is T`, `asserts param`, `asserts this is T`
#[derive(Debug)]
pub struct TsTypePredicate {
    pub span: Span,
    pub asserts: bool,
    pub param_name: TsThisTypeOrIdent,
    pub type_ann: Option<TsTypeAnn>,
}

#[derive(Debug)]
pub enum TsThisTypeOrIdent {
    TsThisType(TsThisType),
    Ident(Ident),
}

/// `typeof name`
#[derive(Debug)]
pub struct TsTypeQuery {
    pub span: Span,
    pub expr_name: TsTypeQueryExpr,
}

#[derive(Debug)]
pub enum TsTypeQueryExpr {
    TsEntityName(TsEntityName),
    Import(TsImportType),
}

/// `import("specifier").Qualifier<Args>`
#[derive(Debug)]
pub struct TsImportType {
    pub span: Span,
    pub arg: Str,
    pub qualifier: Option<TsEntityName>,
    pub type_args: Option<TsTypeParamInstantiation>,
}

/// `{ members }`
#[derive(Debug)]
pub struct TsTypeLit {
    pub span: Span,
    pub members: Vec<TsTypeElement>,
}

#[derive(Debug)]
pub struct TsArrayType {
    pub span: Span,
    pub elem_type: Box<TsType>,
}

#[derive(Debug)]
pub struct TsTupleElement {
    pub span: Span,
    pub ty: TsType,
}

#[derive(Debug)]
pub struct TsTupleType {
    pub span: Span,
    pub elem_types: Vec<TsTupleElement>,
}

#[derive(Debug)]
pub struct TsOptionalType {
    pub span: Span,
    pub type_ann: Box<TsType>,
}

#[derive(Debug)]
pub struct TsRestType {
    pub span: Span,
    pub type_ann: Box<TsType>,
}

#[derive(Debug)]
pub struct TsUnionType {
    pub span: Span,
    pub types: Vec<Box<TsType>>,
}

#[derive(Debug)]
pub struct TsIntersectionType {
    pub span: Span,
    pub types: Vec<Box<TsType>>,
}

#[derive(Debug)]
pub enum TsUnionOrIntersectionType {
    TsUnionType(TsUnionType),
    TsIntersectionType(TsIntersectionType),
}

/// `check extends ext ? yes : no`
#[derive(Debug)]
pub struct TsConditionalType {
    pub span: Span,
    pub check_type: Box<TsType>,
    pub extends_type: Box<TsType>,
    pub true_type: Box<TsType>,
    pub false_type: Box<TsType>,
}

/// `infer U`
#[derive(Debug)]
pub struct TsInferType {
    pub span: Span,
    pub type_param: TsTypeParam,
}

#[derive(Debug)]
pub struct TsParenthesizedType {
    pub span: Span,
    pub type_ann: Box<TsType>,
}

/// `keyof T`, `unique T`, `readonly T`
#[derive(Debug)]
pub struct TsTypeOperator {
    pub span: Span,
    pub op: TsTypeOperatorOp,
    pub type_ann: Box<TsType>,
}

/// `Obj[Index]`
#[derive(Debug)]
pub struct TsIndexedAccessType {
    pub span: Span,
    pub readonly: bool,
    pub obj_type: Box<TsType>,
    pub index_type: Box<TsType>,
}

/// `readonly [K in C as N]?: T`
#[derive(Debug)]
pub struct TsMappedType {
    pub span: Span,
    pub readonly: Option<TruePlusMinus>,
    pub type_param: TsTypeParam,
    pub name_type: Option<Box<TsType>>,
    pub optional: Option<TruePlusMinus>,
    pub type_ann: Option<Box<TsType>>,
}

/// A template literal type: the interpolated types and the literal chunks,
/// each list in source order, to be merged by span.
#[derive(Debug)]
pub struct TsTplLitType {
    pub span: Span,
    pub types: Vec<Box<TsType>>,
    pub quasis: Vec<TplElement>,
}

#[derive(Debug)]
pub enum TsLit {
    Number(Number),
    Str(Str),
    Tpl(TsTplLitType),
    Bool(Bool),
    BigInt(BigInt),
}

#[derive(Debug)]
pub struct TsLitType {
    pub span: Span,
    pub lit: TsLit,
}

/// `(params): T`
#[derive(Debug)]
pub struct TsCallSignatureDecl {
    pub span: Span,
    pub params: Vec<TsFnParam>,
    pub type_ann: Option<TsTypeAnn>,
    pub type_params: Option<TsTypeParamDecl>,
}

/// `new (params): T`
#[derive(Debug)]
pub struct TsConstructSignatureDecl {
    pub span: Span,
    pub params: Vec<TsFnParam>,
    pub type_ann: Option<TsTypeAnn>,
    pub type_params: Option<TsTypeParamDecl>,
}

/// `readonly key?: T`
#[derive(Debug)]
pub struct TsPropertySignature {
    pub span: Span,
    pub readonly: bool,
    pub key: Box<Expr>,
    pub computed: bool,
    pub optional: bool,
    pub params: Vec<TsFnParam>,
    pub type_ann: Option<TsTypeAnn>,
    pub type_params: Option<TsTypeParamDecl>,
}

/// `get key(): T`
#[derive(Debug)]
pub struct TsGetterSignature {
    pub span: Span,
    pub readonly: bool,
    pub key: Box<Expr>,
    pub computed: bool,
    pub optional: bool,
    pub type_ann: Option<TsTypeAnn>,
}

/// `set key(param)`
#[derive(Debug)]
pub struct TsSetterSignature {
    pub span: Span,
    pub readonly: bool,
    pub key: Box<Expr>,
    pub computed: bool,
    pub optional: bool,
    pub param: TsFnParam,
}

/// `key?(params): T`
#[derive(Debug)]
pub struct TsMethodSignature {
    pub span: Span,
    pub readonly: bool,
    pub key: Box<Expr>,
    pub computed: bool,
    pub optional: bool,
    pub params: Vec<TsFnParam>,
    pub type_ann: Option<TsTypeAnn>,
    pub type_params: Option<TsTypeParamDecl>,
}

/// `readonly [params]: T`
#[derive(Debug)]
pub struct TsIndexSignature {
    pub span: Span,
    pub params: Vec<TsFnParam>,
    pub type_ann: Option<TsTypeAnn>,
    pub readonly: bool,
}

/// A member of a type literal.
#[derive(Debug)]
pub enum TsTypeElement {
    TsCallSignatureDecl(TsCallSignatureDecl),
    TsConstructSignatureDecl(TsConstructSignatureDecl),
    TsPropertySignature(TsPropertySignature),
    TsGetterSignature(TsGetterSignature),
    TsSetterSignature(TsSetterSignature),
    TsMethodSignature(TsMethodSignature),
    TsIndexSignature(TsIndexSignature),
}

/// A type expression: one variant per syntactic form.
#[derive(Debug)]
pub enum TsType {
    TsKeywordType(TsKeywordType),
    TsThisType(TsThisType),
    TsFnOrConstructorType(TsFnOrConstructorType),
    TsTypeRef(TsTypeRef),
    TsTypeQuery(TsTypeQuery),
    TsTypeLit(TsTypeLit),
    TsArrayType(TsArrayType),
    TsTupleType(TsTupleType),
    TsOptionalType(TsOptionalType),
    TsRestType(TsRestType),
    TsUnionOrIntersectionType(TsUnionOrIntersectionType),
    TsConditionalType(TsConditionalType),
    TsInferType(TsInferType),
    TsParenthesizedType(TsParenthesizedType),
    TsTypeOperator(TsTypeOperator),
    TsIndexedAccessType(TsIndexedAccessType),
    TsMappedType(TsMappedType),
    TsLitType(TsLitType),
    TsTypePredicate(TsTypePredicate),
    TsImportType(TsImportType),
}

/// `[a, ...b]`; a hole is `None`.
#[derive(Debug)]
pub struct ArrayLit {
    pub span: Span,
    pub elems: Vec<Option<ExprOrSpread>>,
}

/// An array element or call argument; `spread` is the span of its `...`, if any.
#[derive(Debug)]
pub struct ExprOrSpread {
    pub spread: Option<Span>,
    pub expr: Box<Expr>,
}

/// `<T>(params): R => body`
#[derive(Debug)]
pub struct ArrowExpr {
    pub span: Span,
    pub params: Vec<Pat>,
    pub type_params: Option<TsTypeParamDecl>,
    pub return_type: Option<TsTypeAnn>,
}

/// A parameter of a function declared with `function`.
#[derive(Debug)]
pub struct Param {
    pub span: Span,
    pub pat: Pat,
}

#[derive(Debug)]
pub struct Function {
    pub span: Span,
    pub params: Vec<Param>,
    pub type_params: Option<TsTypeParamDecl>,
    pub return_type: Option<TsTypeAnn>,
}

/// `function name<T>(params): R { body }`
#[derive(Debug)]
pub struct FnExpr {
    pub ident: Option<Ident>,
    pub function: Function,
}

/// `new callee<Args>(...)`
#[derive(Debug)]
pub struct NewExpr {
    pub span: Span,
    pub callee: Box<Expr>,
    pub type_args: Option<TsTypeParamInstantiation>,
}

#[derive(Debug)]
pub enum Callee {
    Super(Span),
    Import(Span),
    Expr(Box<Expr>),
}

/// `callee(...)`
#[derive(Debug)]
pub struct CallExpr {
    pub span: Span,
    pub callee: Callee,
}

/// A template literal expression; only its literal chunks are described.
#[derive(Debug)]
pub struct Tpl {
    pub span: Span,
    pub quasis: Vec<TplElement>,
}

/// `expr as const`
#[derive(Debug)]
pub struct TsConstAssertion {
    pub span: Span,
    pub expr: Box<Expr>,
}

#[derive(Debug)]
pub enum MemberProp {
    Ident(Ident),
    PrivateName(PrivateName),
    Computed(Span),
}

/// `obj.prop`
#[derive(Debug)]
pub struct MemberExpr {
    pub span: Span,
    pub obj: Box<Expr>,
    pub prop: MemberProp,
}

/// An expression, as far as a type can be read off it. Every shape that is not
/// listed is `Other`.
#[derive(Debug)]
pub enum Expr {
    Array(ArrayLit),
    Arrow(ArrowExpr),
    Fn(FnExpr),
    Lit(Lit),
    New(NewExpr),
    Tpl(Tpl),
    TsConstAssertion(TsConstAssertion),
    Call(CallExpr),
    Ident(Ident),
    Member(MemberExpr),
    Other(Span),
}

/// `name = init` in a variable declaration.
#[derive(Debug)]
pub struct VarDeclarator {
    pub span: Span,
    pub init: Option<Box<Expr>>,
}

/// `type Name<Params> = T`
#[derive(Debug)]
pub struct TsTypeAliasDecl {
    pub span: Span,
    pub id: Ident,
    pub type_params: Option<TsTypeParamDecl>,
    pub type_ann: Box<TsType>,
}

} // verus!
