//! Generating `IntoStatic` for a declaration: the value is taken by move, and
//! every scope parameter of the output type is the unbounded one.
use crate::analysis::{depends_on_scope, type_depends, Policy};
use crate::builder::{build, reproduces, FieldStrategy};
use crate::rejection::generation_error;
use crate::declaration::{Declaration, TypeExpr};
use crate::error::GenerationError;
use crate::generated::{Contract, FieldOp, GeneratedImpl, ScopeArg};
use crate::validate::{names_of, param_names, validate};
use vstd::prelude::*;

verus! {

/// Widens the fields that depend on a scope and moves the others through.
#[derive(Clone, Copy, Debug, PartialEq, Eq)]
pub struct WidenStrategy {
    pub policy: Policy,
}

impl FieldStrategy for WidenStrategy {
    open spec fn op_for(&self, index: int, ty: TypeExpr) -> FieldOp {
        if type_depends(ty, self.policy) {
            FieldOp::Widen
        } else {
            FieldOp::Move
        }
    }

    fn field_op(&self, index: usize, ty: &TypeExpr) -> (r: FieldOp) {
        if depends_on_scope(ty, self.policy) {
            FieldOp::Widen
        } else {
            FieldOp::Move
        }
    }
}

/// `g` implements `IntoStatic` for `decl`.
pub open spec fn widen_impl_for(g: GeneratedImpl, decl: Declaration, policy: Policy) -> bool {
    &&& g.contract == Contract::Widen
    &&& g.impl_scopes@ == param_names(decl.params@)
    &&& g.self_reference is None
    &&& g.shape == decl.name
    &&& g.type_args@ == param_names(decl.params@)
    &&& g.output_args@ == Seq::new(decl.params@.len(), |i: int| ScopeArg::Unbounded)
    &&& reproduces(g.body, decl.name, decl.body, WidenStrategy { policy })
}

fn unbounded_args(n: usize) -> (r: Vec<ScopeArg>)
    ensures
        r@ == Seq::new(n as nat, |i: int| ScopeArg::Unbounded),
{
    let mut args: Vec<ScopeArg> = Vec::new();
    let mut i: usize = 0;
    while i < n
        invariant
            i <= n,
            args@ == Seq::new(i as nat, |j: int| ScopeArg::Unbounded),
        decreases n - i,
    {
        args.push(ScopeArg::Unbounded);
        i = i + 1;
        assert(args@ =~= Seq::new(i as nat, |j: int| ScopeArg::Unbounded));
    }
    args
}

/// Generates `IntoStatic` for `decl`, reading it under `policy`.
pub fn generate_widen_impl_with(decl: &Declaration, policy: Policy) -> (r: Result<
    GeneratedImpl,
    GenerationError,
>)
    ensures
        match r {
            Ok(g) => generation_error(*decl, policy) is None && widen_impl_for(g, *decl, policy),
            Err(e) => generation_error(*decl, policy) == Some(e),
        },
{
    match validate(&decl.params, policy) {
        Err(e) => return Err(e),
        Ok(()) => {},
    }
    let body = match build(decl, &WidenStrategy { policy }) {
        Err(e) => return Err(e),
        Ok(body) => body,
    };
    Ok(
        GeneratedImpl {
            contract: Contract::Widen,
            impl_scopes: names_of(&decl.params),
            self_reference: None,
            shape: decl.name.clone(),
            type_args: names_of(&decl.params),
            output_args: unbounded_args(decl.params.len()),
            body,
        },
    )
}

/// Generates `IntoStatic` for `decl` under [`Policy::Strict`].
pub fn generate_widen_impl(decl: &Declaration) -> (r: Result<GeneratedImpl, GenerationError>)
    ensures
        match r {
            Ok(g) => generation_error(*decl, Policy::Strict) is None && widen_impl_for(
                g,
                *decl,
                Policy::Strict,
            ),
            Err(e) => generation_error(*decl, Policy::Strict) == Some(e),
        },
{
    generate_widen_impl_with(decl, Policy::Strict)
}

} // verus!
