//! The abstract description of what a successful invocation emits: the two
//! companion type definitions and up to two conversion methods. A back end
//! renders this description into declaration text; nothing here is tokens yet.

use vstd::prelude::*;

verus! {

/// One field of a companion type: resolved visibility, identifier and type,
/// all as raw text.
#[derive(Clone, PartialEq, Eq, Debug)]
pub struct FieldDef {
    pub vis: String,
    pub name: String,
    pub ty: String,
}

/// One companion type definition. When `borrowed` is set, the type's generic
/// parameter list starts with a fresh lifetime and every field's type is a
/// reference bound to that lifetime.
#[derive(Clone, PartialEq, Eq, Debug)]
pub struct TypeDef {
    pub vis: String,
    pub name: String,
    pub generics: Vec<String>,
    pub borrowed: bool,
    pub fields: Vec<FieldDef>,
}

/// The value expression a conversion method evaluates for one output field.
#[derive(Clone, PartialEq, Eq, Debug)]
pub enum FieldValue {
    /// A direct mapping used in the view direction: a borrow of the mapped
    /// expression.
    Borrowed { expr: String },
    /// A direct mapping used in the bake direction: the mapped expression
    /// itself.
    Owned { expr: String },
    /// A call of a user closure whose sole parameter has been rebound to a
    /// borrow of the receiver. When `fallible` is set the call's failure
    /// short-circuits the whole conversion.
    Call { param: String, body: String, fallible: bool },
}

/// One output field initializer of a conversion method.
#[derive(Clone, PartialEq, Eq, Debug)]
pub struct FieldInit {
    pub name: String,
    pub value: FieldValue,
}

/// One conversion method: its field initializers in declaration order, and
/// whether it returns a result wrapping the configured error type.
#[derive(Clone, PartialEq, Eq, Debug)]
pub struct Method {
    pub fallible: bool,
    pub inits: Vec<FieldInit>,
}

/// Everything a successful invocation emits.
#[derive(Clone, PartialEq, Eq, Debug)]
pub struct Emitted {
    /// The source struct the methods are attached to.
    pub source_ident: String,
    /// The source struct's own generic parameters.
    pub source_generics: Vec<String>,
    /// The configured error type, if any; fallible methods return a result
    /// wrapping it.
    pub error_type: Option<String>,
    /// The owned companion type.
    pub baked: TypeDef,
    /// The borrowed companion type.
    pub viewed: TypeDef,
    /// The view-direction conversion method, when every field contributes.
    pub view_method: Option<Method>,
    /// The bake-direction conversion method, when every field contributes.
    pub bake_method: Option<Method>,
}

} // verus!
