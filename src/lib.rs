//! Changing the scope of borrowed data held by a value, and generating the
//! code that does so for user-declared records and tagged unions.
//!
//! The runtime part is two traits: [`IntoStatic`] turns a value into a copy
//! that owns all of its data, and [`ToBorrowed`] produces a new view of a
//! value bound to the scope of the reference it was reached through.
//!
//! The generator takes a [`Declaration`], checks its parameters
//! ([`validate`](validate::validate)), decides for each field whether its type
//! depends on a scope ([`depends_on_scope`](analysis::depends_on_scope)), and
//! walks the shape ([`build`](builder::build)) to produce a
//! [`GeneratedImpl`] of either trait. What that code does when it runs is
//! modelled in [`semantics`], where the laws of the two conversions are
//! proved.
mod into_static;
mod to_borrowed;

pub mod analysis;
pub mod builder;
pub mod declaration;
pub mod error;
pub mod generated;
pub mod reborrow;
pub mod placeholder;
pub mod rejection;
pub mod semantics;
pub mod validate;
pub mod widen;

pub use analysis::{depends_on_scope, Policy};
pub use declaration::{
    Body, Bound, Declaration, Fields, GenericArg, NamedField, Param, Scope, TypeExpr, Variant,
};
pub use error::{GenerationError, ParamKind};
pub use generated::{
    Arm, Construction, ConstructorExpr, Contract, FieldInit, FieldKey, FieldOp, GeneratedImpl,
    ScopeArg, Source, Style,
};
pub use into_static::IntoStatic;
pub use reborrow::{generate_reborrow_impl, generate_reborrow_impl_with};
pub use to_borrowed::ToBorrowed;
pub use widen::{generate_widen_impl, generate_widen_impl_with};
