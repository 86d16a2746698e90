//! The schema a decoded source declaration arrives as: the struct-level
//! configuration and one descriptor per field, with every directive already
//! demultiplexed into a typed slot. Expressions and closures are carried as
//! plain data — just enough structure for the shape checks the transformer
//! performs, with everything else kept as raw text for the emitter.

use vstd::prelude::*;
use crate::diag::Span;

verus! {

/// One parameter pattern of a user-supplied mapping closure.
#[derive(Clone, PartialEq, Eq, Debug)]
pub enum Pat {
    /// A plain identifier, the only shape a mapping closure's parameter may have.
    Ident { name: String },
    /// Any other pattern (tuple, typed, wildcard, ...), kept as raw text.
    Other { tokens: String },
}

/// A candidate mapping expression, classified by its outermost shape.
#[derive(Clone, PartialEq, Eq, Debug)]
pub enum Expr {
    /// A field access on some receiver, e.g. `u.field`, kept as raw text.
    FieldAccess { tokens: String },
    /// A closure literal: its parameter patterns and its body as raw text.
    Closure { params: Vec<Pat>, body: String },
    /// Any other expression, kept as raw text.
    Other { tokens: String },
}

/// An expression together with the source position of the directive that
/// supplied it.
#[derive(Clone, PartialEq, Eq, Debug)]
pub struct SpannedExpr {
    pub expr: Expr,
    pub span: Span,
}

/// A raw token string (an identifier or a type) together with the source
/// position of the directive that supplied it.
#[derive(Clone, PartialEq, Eq, Debug)]
pub struct SpannedString {
    pub value: String,
    pub span: Span,
}

/// A field's function mapping: up to one closure per direction and
/// fallibility. Within a direction the plain and fallible slots are mutually
/// exclusive; a direction with neither slot simply does not contribute.
#[derive(Clone, PartialEq, Eq, Debug)]
pub struct MapFn {
    pub view: Option<SpannedExpr>,
    pub bake: Option<SpannedExpr>,
    pub try_view: Option<SpannedExpr>,
    pub try_bake: Option<SpannedExpr>,
}

/// A function mapping together with the source position of the whole
/// `map_fn` directive.
#[derive(Clone, PartialEq, Eq, Debug)]
pub struct SpannedMapFn {
    pub map_fn: MapFn,
    pub span: Span,
}

/// One field descriptor of the source struct, with its directives.
#[derive(Clone, PartialEq, Eq, Debug)]
pub struct Field {
    /// The source field's identifier; absent for unnamed slots.
    pub ident: Option<String>,
    /// The source field's visibility, as raw text.
    pub vis: String,
    /// The source field's declared type, as raw text.
    pub ty: String,
    /// Direct mapping: one expression used for both directions.
    pub map: Option<SpannedExpr>,
    /// Function mapping: per-direction closures.
    pub map_fn: Option<SpannedMapFn>,
    /// Leave this field out of both companion types.
    pub ignore: bool,
    /// Override for the output field's type.
    pub new_type: Option<SpannedString>,
    /// Override for the output field's identifier.
    pub name: Option<SpannedString>,
}

/// The decoded schema of one annotated struct declaration.
#[derive(Clone, PartialEq, Eq, Debug)]
pub struct Struct {
    /// The source struct's identifier.
    pub ident: String,
    /// The source struct's visibility, as raw text.
    pub vis: String,
    /// The source struct's generic parameters, one raw token string each.
    pub generics: Vec<String>,
    /// The field descriptors, in declaration order.
    pub fields: Vec<Field>,
    /// The name of the owned companion type.
    pub name: String,
    /// The name of the borrowed companion type; defaults to `name` + "View".
    pub name_view: Option<String>,
    /// The error type fallible conversion methods return.
    pub error_type: Option<String>,
}

} // verus!
