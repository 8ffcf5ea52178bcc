//! Why no code could be generated for a declaration.
use vstd::prelude::*;

verus! {

/// The kind of a parameter that code cannot be generated for.
#[derive(Clone, Copy, Debug, PartialEq, Eq)]
pub enum ParamKind {
    Type,
    Const,
}

/// Each failure names the parameter or shape it is about.
#[derive(Clone, Debug, PartialEq, Eq)]
pub enum GenerationError {
    /// The declaration has a type or a constant parameter.
    UnsupportedParameterKind { name: String, kind: ParamKind },
    /// A scope parameter carries bounds.
    BoundedScopeParameter { marker: String },
    /// A record, a variant, or a tagged union has nothing in it.
    EmptyShapeUnsupported { shape: String },
    /// The declaration is neither a record nor a tagged union.
    UnsupportedDeclarationKind { name: String },
}

} // verus!
