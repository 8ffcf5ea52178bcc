//! The in-memory form of the code generated for a declaration.
use vstd::prelude::*;

verus! {

/// How a field is reached: by its name, or by its position.
#[derive(Clone, Debug, PartialEq, Eq)]
pub enum FieldKey {
    Named(String),
    Index(usize),
}

/// Where the current value of a field is read from.
#[derive(Clone, Copy, Debug, PartialEq, Eq)]
pub enum Source {
    /// A field of `self`: `self.name` or `self.0`.
    SelfField,
    /// A binding made by a match arm: the field's own name, or, for a
    /// positional field, a placeholder derived from its index.
    Binding,
}

/// What is done to a field's value to produce the new field.
#[derive(Clone, Copy, Debug, PartialEq, Eq)]
pub enum FieldOp {
    /// The value is moved through unchanged.
    Move,
    /// The value is copied out from behind a reference.
    Copy,
    /// The value is turned into a scope-independent copy.
    Widen,
    /// A new view of the value is made, bound to the caller's scope.
    Reborrow,
}

/// One field of a generated constructor.
#[derive(Clone, Debug, PartialEq, Eq)]
pub struct FieldInit {
    pub key: FieldKey,
    pub source: Source,
    pub op: FieldOp,
}

/// Whether a constructor lists its fields by name or by position.
#[derive(Clone, Copy, Debug, PartialEq, Eq)]
pub enum Style {
    Named,
    Positional,
}

/// A constructor call `Type { .. }`, `Type(..)`, `Type::Variant { .. }` or
/// `Type::Variant(..)`, with its fields in declared order.
#[derive(Clone, Debug, PartialEq, Eq)]
pub struct Construction {
    pub shape: String,
    pub variant: Option<String>,
    pub style: Style,
    pub inits: Vec<FieldInit>,
}

/// One arm of a match over the variants of a tagged union: the pattern binds
/// every field of `variant`, and `result` builds the new value from them.
#[derive(Clone, Debug, PartialEq, Eq)]
pub struct Arm {
    pub variant: String,
    pub style: Style,
    pub bindings: Vec<FieldKey>,
    pub result: Construction,
}

/// The body of a generated conversion.
#[derive(Clone, Debug, PartialEq, Eq)]
pub enum ConstructorExpr {
    /// The new value of a record.
    Construct(Construction),
    /// A match over all variants of a tagged union, in declared order.
    Match(Vec<Arm>),
}

/// Which of the two conversions is implemented.
#[derive(Clone, Copy, Debug, PartialEq, Eq)]
pub enum Contract {
    /// `IntoStatic`, taking the value by move.
    Widen,
    /// `ToBorrowed`, taking the value by reference.
    Reborrow,
}

/// A scope argument of the output type.
#[derive(Clone, Debug, PartialEq, Eq)]
pub enum ScopeArg {
    Unbounded,
    Named(String),
}

/// An implementation of one of the conversions for one declaration:
/// `impl<'s, ..> Contract for [&'r] Name<'a, ..> { type Output = Name<..>; .. }`.
#[derive(Clone, Debug, PartialEq, Eq)]
pub struct GeneratedImpl {
    pub contract: Contract,
    /// The scope parameters of the impl, in order.
    pub impl_scopes: Vec<String>,
    /// The marker of the reference the input is taken through, if any.
    pub self_reference: Option<String>,
    pub shape: String,
    /// The scope arguments of the input type.
    pub type_args: Vec<String>,
    /// The scope arguments of the output type.
    pub output_args: Vec<ScopeArg>,
    pub body: ConstructorExpr,
}

} // verus!
