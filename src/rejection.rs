//! When code generation fails, and with which error.
use crate::analysis::Policy;
use crate::builder::shape_error;
use crate::declaration::{Body, Declaration, Param};
use crate::error::{GenerationError, ParamKind};
use crate::validate::{lemma_validation_ok, param_error, params_valid, validation};
use vstd::prelude::*;

verus! {

/// Why nothing can be generated for `decl` under `policy`, if that is so:
/// its parameters are checked first, then its shape.
pub open spec fn generation_error(decl: Declaration, policy: Policy) -> Option<GenerationError> {
    match validation(decl.params@, policy) {
        Err(e) => Some(e),
        Ok(_) => shape_error(decl.name, decl.body),
    }
}

/// Validation reports the first parameter that is not acceptable.
pub proof fn lemma_validation_first_error(params: Seq<Param>, policy: Policy, i: int)
    requires
        0 <= i < params.len(),
        param_error(params[i], policy) is Some,
        forall|j: int| 0 <= j < i ==> param_error(#[trigger] params[j], policy) is None,
    ensures
        validation(params, policy) == Err::<(), GenerationError>(param_error(params[i], policy)->Some_0),
    decreases i,
{
    if i > 0 {
        let rest = params.drop_first();
        assert(param_error(params[0], policy) is None);
        assert forall|j: int| 0 <= j < i - 1 implies param_error(#[trigger] rest[j], policy) is None by {
            assert(rest[j] == params[j + 1]);
        }
        lemma_validation_first_error(rest, policy, i - 1);
    }
}

/// A declaration with a type or constant parameter fails with
/// `UnsupportedParameterKind`, naming the first such parameter, unless an
/// earlier parameter was rejected already.
pub proof fn lemma_type_parameter_rejected(decl: Declaration, policy: Policy, i: int)
    requires
        0 <= i < decl.params@.len(),
        !(decl.params@[i] is Scope),
        forall|j: int| 0 <= j < i ==> param_error(#[trigger] decl.params@[j], policy) is None,
    ensures
        generation_error(decl, policy) == Some(
            match decl.params@[i] {
                Param::Type { name } => GenerationError::UnsupportedParameterKind {
                    name,
                    kind: ParamKind::Type,
                },
                Param::Const { name } => GenerationError::UnsupportedParameterKind {
                    name,
                    kind: ParamKind::Const,
                },
                Param::Scope { name, .. } => GenerationError::BoundedScopeParameter { marker: name },
            },
        ),
{
    lemma_validation_first_error(decl.params@, policy, i);
}

/// A record without fields, whose parameters are acceptable, fails with
/// `EmptyShapeUnsupported`, naming the record.
pub proof fn lemma_empty_record_rejected(decl: Declaration, policy: Policy)
    requires
        params_valid(decl.params@, policy),
        decl.body matches Body::Record(f) && f.count() == 0,
    ensures
        generation_error(decl, policy) == Some(
            GenerationError::EmptyShapeUnsupported { shape: decl.name },
        ),
{
    lemma_validation_ok(decl.params@, policy);
}

} // verus!
