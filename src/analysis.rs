//! Deciding whether a field's type depends on a scope marker other than the
//! fixed, unbounded one.
use crate::declaration::{Bound, GenericArg, Scope, TypeExpr};
use vstd::prelude::*;

verus! {


/// How conservatively declarations are read.
#[derive(Clone, Copy, Debug, PartialEq, Eq)]
pub enum Policy {
    /// Scope parameters may carry no bounds, and a reference depends on a
    /// scope only when its marker is not the unbounded one.
    Strict,
    /// Scope parameters may carry bounds, and every reference depends on a
    /// scope.
    Legacy,
}

pub open spec fn is_free(s: Scope) -> bool {
    !(s is Unbounded)
}

/// Whether a value of type `t` may hold data tied to a non-fixed scope.
/// Forms that cannot be shown independent count as dependent.
pub open spec fn type_depends(t: TypeExpr, policy: Policy) -> bool
    decreases t,
{
    match t {
        TypeExpr::Reference { scope, referent } => policy is Legacy || is_free(scope),
        TypeExpr::Pointer(inner) => type_depends(*inner, policy),
        TypeExpr::Tuple(elems) => exists|i: int|
            0 <= i < elems@.len() && type_depends(#[trigger] elems@[i], policy),
        TypeExpr::Array(inner) => type_depends(*inner, policy),
        TypeExpr::Slice(inner) => type_depends(*inner, policy),
        TypeExpr::Path { qualified, args } => qualified || exists|i: int|
            0 <= i < args@.len() && arg_depends(#[trigger] args@[i], policy),
        TypeExpr::Bounds(bounds) => exists|i: int|
            0 <= i < bounds@.len() && #[trigger] bound_depends(bounds@[i]),
        TypeExpr::FnPointer => false,
        TypeExpr::Never => false,
        TypeExpr::Opaque => true,
    }
}

pub open spec fn arg_depends(a: GenericArg, policy: Policy) -> bool
    decreases a,
{
    match a {
        GenericArg::Scope(s) => is_free(s),
        GenericArg::Type(t) => type_depends(t, policy),
        GenericArg::Binding(t) => type_depends(t, policy),
        GenericArg::Const => false,
    }
}

pub open spec fn bound_depends(b: Bound) -> bool {
    b matches Bound::Scope(s) && is_free(s)
}

fn scope_is_free(s: &Scope) -> (r: bool)
    ensures
        r == is_free(*s),
{
    match s {
        Scope::Unbounded => false,
        _ => true,
    }
}

/// Whether a value of type `ty` may hold data tied to a non-fixed scope.
pub fn depends_on_scope(ty: &TypeExpr, policy: Policy) -> (r: bool)
    ensures
        r == type_depends(*ty, policy),
    decreases ty,
{
    match ty {
        TypeExpr::Reference { scope, .. } => {
            match policy {
                Policy::Legacy => true,
                Policy::Strict => scope_is_free(scope),
            }
        },
        TypeExpr::Pointer(inner) => depends_on_scope(inner, policy),
        TypeExpr::Tuple(elems) => {
            let mut i: usize = 0;
            while i < elems.len()
                invariant
                    0 <= i <= elems.len(),
                    *ty == TypeExpr::Tuple(*elems),
                    forall|j: int| 0 <= j < i ==> !type_depends(#[trigger] elems@[j], policy),
                decreases elems.len() - i,
            {
                proof {
                    assert(decreases_to!(*ty => (*ty)->Tuple_0));
                    assert(decreases_to!(*elems => elems@));
                    assert(decreases_to!(elems@ => elems@[i as int]));
                }
                if depends_on_scope(&elems[i], policy) {
                    assert((*ty)->Tuple_0 == *elems);
                    assert(type_depends(elems@[i as int], policy));
                    return true;
                }
                i = i + 1;
            }
            false
        },
        TypeExpr::Array(inner) => depends_on_scope(inner, policy),
        TypeExpr::Slice(inner) => depends_on_scope(inner, policy),
        TypeExpr::Path { qualified, args } => {
            if *qualified {
                return true;
            }
            let mut i: usize = 0;
            while i < args.len()
                invariant
                    0 <= i <= args.len(),
                    *ty == (TypeExpr::Path { qualified: false, args: *args }),
                    forall|j: int| 0 <= j < i ==> !arg_depends(#[trigger] args@[j], policy),
                decreases args.len() - i,
            {
                proof {
                    assert(decreases_to!(*ty => (*ty)->Path_args));
                    assert(decreases_to!(*args => args@));
                    assert(decreases_to!(args@ => args@[i as int]));
                }
                let d = match &args[i] {
                    GenericArg::Scope(s) => scope_is_free(s),
                    GenericArg::Type(t) => depends_on_scope(t, policy),
                    GenericArg::Binding(t) => depends_on_scope(t, policy),
                    GenericArg::Const => false,
                };
                if d {
                    assert((*ty)->Path_args == *args);
                    assert(arg_depends(args@[i as int], policy));
                    return true;
                }
                i = i + 1;
            }
            false
        },
        TypeExpr::Bounds(bounds) => {
            let mut i: usize = 0;
            while i < bounds.len()
                invariant
                    0 <= i <= bounds.len(),
                    *ty == TypeExpr::Bounds(*bounds),
                    forall|j: int| 0 <= j < i ==> !bound_depends(#[trigger] bounds@[j]),
                decreases bounds.len() - i,
            {
                if let Bound::Scope(s) = &bounds[i] {
                    if scope_is_free(s) {
                        assert((*ty)->Bounds_0 == *bounds);
                        assert(bound_depends(bounds@[i as int]));
                        return true;
                    }
                }
                i = i + 1;
            }
            false
        },
        TypeExpr::FnPointer => false,
        TypeExpr::Never => false,
        TypeExpr::Opaque => true,
    }
}

} // verus!
