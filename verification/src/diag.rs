//! Structured diagnostics: every way a schema can be rejected, each carrying
//! the source position of the offending directive when one is known.

use vstd::prelude::*;

verus! {

/// Handle to a position in the source declaration. The front end that decodes
/// the attributes assigns the handles and keeps the mapping back to real
/// source positions; the transformer only threads them through to diagnostics.
#[derive(Clone, Copy, PartialEq, Eq, Debug)]
pub struct Span {
    pub id: usize,
}

/// Every validation failure the transformer can report.
#[derive(Clone, Copy, PartialEq, Eq, Debug)]
pub enum DiagKind {
    /// A direct mapping expression is not a field access.
    ExprNotField,
    /// A function mapping expression is not a closure literal.
    ExprNotClosure,
    /// A direct mapping on a field that is also marked ignored.
    MapOnIgnored,
    /// A function mapping on a field that is also marked ignored.
    MapFnOnIgnored,
    /// A type override on a field that is also marked ignored.
    TypeOnIgnored,
    /// A rename on a field that is also marked ignored.
    NameOnIgnored,
    /// A function mapping on a field that already has a direct mapping.
    MapFnWithMap,
    /// A non-ignored field with neither a direct nor a function mapping.
    NoMapping,
    /// Both the plain and the fallible bake closure are present.
    TryBakeWithBake,
    /// Both the plain and the fallible view closure are present.
    TryViewWithView,
    /// Some field maps the view direction through a function, so every
    /// function-mapped field must, and this one does not.
    MissingViewMapping,
    /// Symmetric to `MissingViewMapping`, for the bake direction.
    MissingBakeMapping,
    /// A mapping closure with no parameter at all.
    ClosureNeedsParameter,
    /// A mapping closure with more than one parameter.
    ClosureExtraParameter,
    /// A mapping closure whose parameter is not a plain identifier.
    ClosureParamNotIdent,
    /// A conversion direction is fallible but no error type was configured.
    ErrorTypeRequired,
}

/// One validation failure: what went wrong and, when a single directive is to
/// blame, where it stands in the source.
#[derive(Clone, Copy, PartialEq, Eq, Debug)]
pub struct Diagnostic {
    pub kind: DiagKind,
    pub span: Option<Span>,
}

/// The human-readable wording of each diagnostic kind.
pub open spec fn kind_message(k: DiagKind) -> Seq<char> {
    match k {
        DiagKind::ExprNotField => "Expression must be a field"@,
        DiagKind::ExprNotClosure => "Expression must be a closure."@,
        DiagKind::MapOnIgnored => "Attribute map cannot be set when field is ignored"@,
        DiagKind::MapFnOnIgnored => "Attribute map_fn cannot be set when field is ignored"@,
        DiagKind::TypeOnIgnored => "Attribute type cannot be set when field is ignored"@,
        DiagKind::NameOnIgnored => "Attribute name cannot be set when field is ignored"@,
        DiagKind::MapFnWithMap => "function-mapping must not be set if direct mapping is set"@,
        DiagKind::NoMapping => "either direct mapping or a function mapping must be set"@,
        DiagKind::TryBakeWithBake => "try_bake cannot be set if bake is set"@,
        DiagKind::TryViewWithView => "try_view cannot be set if view is set"@,
        DiagKind::MissingViewMapping => "missing view mapping"@,
        DiagKind::MissingBakeMapping => "missing bake mapping"@,
        DiagKind::ClosureNeedsParameter => "Closure needs a parameter"@,
        DiagKind::ClosureExtraParameter => "Closure must have exactly one parameter"@,
        DiagKind::ClosureParamNotIdent => "Closure parameter needs to be an identifier"@,
        DiagKind::ErrorTypeRequired => "error_type is required when a fallible mapping is used"@,
    }
}

impl Diagnostic {
    /// Renders the diagnostic's message for the build log.
    pub fn message(&self) -> (r: String)
        ensures
            r@ == kind_message(self.kind),
    {
        match self.kind {
            DiagKind::ExprNotField => "Expression must be a field".to_owned(),
            DiagKind::ExprNotClosure => "Expression must be a closure.".to_owned(),
            DiagKind::MapOnIgnored => "Attribute map cannot be set when field is ignored".to_owned(),
            DiagKind::MapFnOnIgnored => "Attribute map_fn cannot be set when field is ignored".to_owned(),
            DiagKind::TypeOnIgnored => "Attribute type cannot be set when field is ignored".to_owned(),
            DiagKind::NameOnIgnored => "Attribute name cannot be set when field is ignored".to_owned(),
            DiagKind::MapFnWithMap => "function-mapping must not be set if direct mapping is set".to_owned(),
            DiagKind::NoMapping => "either direct mapping or a function mapping must be set".to_owned(),
            DiagKind::TryBakeWithBake => "try_bake cannot be set if bake is set".to_owned(),
            DiagKind::TryViewWithView => "try_view cannot be set if view is set".to_owned(),
            DiagKind::MissingViewMapping => "missing view mapping".to_owned(),
            DiagKind::MissingBakeMapping => "missing bake mapping".to_owned(),
            DiagKind::ClosureNeedsParameter => "Closure needs a parameter".to_owned(),
            DiagKind::ClosureExtraParameter => "Closure must have exactly one parameter".to_owned(),
            DiagKind::ClosureParamNotIdent => "Closure parameter needs to be an identifier".to_owned(),
            DiagKind::ErrorTypeRequired => "error_type is required when a fallible mapping is used".to_owned(),
        }
    }
}

} // verus!
