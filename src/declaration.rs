//! The in-memory form of a record or tagged-union declaration that code is
//! generated for.
use vstd::prelude::*;

verus! {

/// A scope marker as written in a declaration.
#[derive(Clone, Debug, PartialEq, Eq)]
pub enum Scope {
    /// The fixed marker of data usable for the whole run of the program.
    Unbounded,
    /// A marker left for the compiler to pick.
    Anonymous,
    /// A marker introduced by name.
    Named(String),
}

/// One bound of an `impl Trait` or `dyn Trait` type.
#[derive(Clone, Debug, PartialEq, Eq)]
pub enum Bound {
    /// A scope the value must outlive.
    Scope(Scope),
    /// A trait the value implements.
    Trait,
}

/// The declared type of a field, as far as its dependence on scopes goes.
#[derive(Debug, PartialEq, Eq)]
pub enum TypeExpr {
    /// `&'s T` or `&'s mut T`.
    Reference { scope: Scope, referent: Box<TypeExpr> },
    /// `*const T` or `*mut T`.
    Pointer(Box<TypeExpr>),
    /// `(A, B, ...)`.
    Tuple(Vec<TypeExpr>),
    /// `[T; N]`.
    Array(Box<TypeExpr>),
    /// `[T]`.
    Slice(Box<TypeExpr>),
    /// A path such as `a::B<'s, T>`, with the generic arguments of all of its
    /// segments; `qualified` when it starts with `<T as Trait>::`.
    Path { qualified: bool, args: Vec<GenericArg> },
    /// `impl A + B` or `dyn A + B`.
    Bounds(Vec<Bound>),
    /// `fn(A) -> B`.
    FnPointer,
    /// `!`.
    Never,
    /// `_`, a macro invocation, or another form whose meaning is not known.
    Opaque,
}

/// A generic argument of a path.
#[derive(Debug, PartialEq, Eq)]
pub enum GenericArg {
    Scope(Scope),
    Type(TypeExpr),
    /// An associated type binding, `Item = T`.
    Binding(TypeExpr),
    Const,
}

/// A parameter of a declaration.
#[derive(Clone, Debug, PartialEq, Eq)]
pub enum Param {
    /// `'name: bound + ...`.
    Scope { name: String, bounds: Vec<Scope> },
    Type { name: String },
    Const { name: String },
}

#[derive(Debug, PartialEq, Eq)]
pub struct NamedField {
    pub name: String,
    pub ty: TypeExpr,
}

/// The field list of a record or of a variant, in declared order.
#[derive(Debug, PartialEq, Eq)]
pub enum Fields {
    Named(Vec<NamedField>),
    Positional(Vec<TypeExpr>),
    Unit,
}

#[derive(Debug, PartialEq, Eq)]
pub struct Variant {
    pub name: String,
    pub fields: Fields,
}

#[derive(Debug, PartialEq, Eq)]
pub enum Body {
    Record(Fields),
    TaggedUnion(Vec<Variant>),
    /// An untagged union, for which nothing is generated.
    Untagged,
}

#[derive(Debug, PartialEq, Eq)]
pub struct Declaration {
    pub name: String,
    pub params: Vec<Param>,
    pub body: Body,
}

impl Fields {
    /// The number of fields.
    pub open spec fn count(self) -> nat {
        match self {
            Fields::Named(v) => v@.len(),
            Fields::Positional(v) => v@.len(),
            Fields::Unit => 0,
        }
    }

    /// The declared type of the field at `i`.
    pub open spec fn ty_at(self, i: int) -> TypeExpr {
        match self {
            Fields::Named(v) => v@[i].ty,
            Fields::Positional(v) => v@[i],
            Fields::Unit => TypeExpr::Opaque,
        }
    }
}

} // verus!
