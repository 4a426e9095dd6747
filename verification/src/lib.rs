//! Descriptions of TypeScript types.
//!
//! A parsed type expression is turned into a tree of [`ts_type::TsTypeDef`]
//! nodes, one kind of node for each syntactic form, and a tree is written back
//! as type syntax. Where a declaration has no annotation, a type is read off
//! its initializer as far as the initializer's shape allows.
//!
//! The input is the syntax tree of [`ast`]. What each function returns is
//! stated over the views of [`model`]: [`described`] says what describes a
//! piece of syntax, [`render`] what a description looks like as text, and
//! [`infer`] what an initializer gives. [`laws`], [`invariants`] and
//! [`alternation`] hold what is proved of these for every input.

pub mod alternation;
pub mod ast;
pub mod convert;
pub mod copying;
pub mod described;
pub mod display;
pub mod equality;
pub mod infer;
pub mod invariants;
pub mod laws;
pub mod literal;
pub mod model;
pub mod names;
pub mod params;
pub mod render;
pub mod signatures;
pub mod span;
pub mod tagged;
pub mod template;
pub mod ts_type;
pub mod ts_type_param;
pub mod type_alias;
pub mod well_formed;
