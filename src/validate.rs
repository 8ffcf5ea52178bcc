//! Rejecting declarations whose parameters are not plain scope markers.
use crate::analysis::Policy;
use crate::declaration::Param;
use crate::error::{GenerationError, ParamKind};
use vstd::prelude::*;

verus! {

/// What is wrong with one parameter, if anything.
pub open spec fn param_error(p: Param, policy: Policy) -> Option<GenerationError> {
    match p {
        Param::Type { name } => Some(
            GenerationError::UnsupportedParameterKind { name, kind: ParamKind::Type },
        ),
        Param::Const { name } => Some(
            GenerationError::UnsupportedParameterKind { name, kind: ParamKind::Const },
        ),
        Param::Scope { name, bounds } => if policy is Strict && bounds@.len() > 0 {
            Some(GenerationError::BoundedScopeParameter { marker: name })
        } else {
            None
        },
    }
}

/// The failure for the first unacceptable parameter of `params`.
pub open spec fn validation(params: Seq<Param>, policy: Policy) -> Result<(), GenerationError>
    decreases params.len(),
{
    if params.len() == 0 {
        Ok(())
    } else {
        match param_error(params[0], policy) {
            Some(e) => Err(e),
            None => validation(params.drop_first(), policy),
        }
    }
}

/// Whether every parameter is a scope marker acceptable under `policy`.
pub open spec fn params_valid(params: Seq<Param>, policy: Policy) -> bool {
    forall|i: int| 0 <= i < params.len() ==> param_error(#[trigger] params[i], policy) is None
}

/// A suffix of the parameters fails exactly when one of its members does.
pub proof fn lemma_validation_ok(params: Seq<Param>, policy: Policy)
    ensures
        validation(params, policy) is Ok <==> params_valid(params, policy),
    decreases params.len(),
{
    if params.len() > 0 {
        lemma_validation_ok(params.drop_first(), policy);
        if params_valid(params, policy) {
            assert forall|i: int| 0 <= i < params.drop_first().len() implies param_error(
                #[trigger] params.drop_first()[i],
                policy,
            ) is None by {
                assert(params.drop_first()[i] == params[i + 1]);
            }
        }
        if param_error(params[0], policy) is None && params_valid(params.drop_first(), policy) {
            assert forall|i: int| 0 <= i < params.len() implies param_error(
                #[trigger] params[i],
                policy,
            ) is None by {
                if i > 0 {
                    assert(params[i] == params.drop_first()[i - 1]);
                }
            }
        }
    }
}

fn check_param(p: &Param, policy: Policy) -> (r: Option<GenerationError>)
    ensures
        r == param_error(*p, policy),
{
    match p {
        Param::Type { name } => Some(
            GenerationError::UnsupportedParameterKind { name: name.clone(), kind: ParamKind::Type },
        ),
        Param::Const { name } => Some(
            GenerationError::UnsupportedParameterKind {
                name: name.clone(),
                kind: ParamKind::Const,
            },
        ),
        Param::Scope { name, bounds } => {
            if matches!(policy, Policy::Strict) && bounds.len() > 0 {
                Some(GenerationError::BoundedScopeParameter { marker: name.clone() })
            } else {
                None
            }
        },
    }
}

/// Accepts a parameter list made of scope markers only; under
/// [`Policy::Strict`] they may not carry bounds either. Fails on the first
/// parameter that is not acceptable.
pub fn validate(params: &Vec<Param>, policy: Policy) -> (r: Result<(), GenerationError>)
    ensures
        r == validation(params@, policy),
        r is Ok <==> params_valid(params@, policy),
{
    proof {
        lemma_validation_ok(params@, policy);
        assert(params@.subrange(0, params@.len() as int) =~= params@);
    }
    let mut i: usize = 0;
    while i < params.len()
        invariant
            0 <= i <= params.len(),
            validation(params@, policy) == validation(params@.subrange(i as int, params@.len() as int), policy),
        decreases params.len() - i,
    {
        let ghost rest = params@.subrange(i as int, params@.len() as int);
        assert(rest.drop_first() =~= params@.subrange(i + 1, params@.len() as int));
        assert(rest[0] == params@[i as int]);
        if let Some(e) = check_param(&params[i], policy) {
            return Err(e);
        }
        i = i + 1;
    }
    assert(params@.subrange(i as int, params@.len() as int).len() == 0);
    Ok(())
}

/// The name a parameter is declared with.
pub open spec fn param_name(p: Param) -> String {
    match p {
        Param::Scope { name, .. } => name,
        Param::Type { name } => name,
        Param::Const { name } => name,
    }
}

pub open spec fn param_names(params: Seq<Param>) -> Seq<String> {
    Seq::new(params.len(), |i: int| param_name(params[i]))
}

/// The names of `params`, in order.
pub fn names_of(params: &Vec<Param>) -> (r: Vec<String>)
    ensures
        r@ == param_names(params@),
{
    let mut names: Vec<String> = Vec::new();
    let mut i: usize = 0;
    while i < params.len()
        invariant
            i <= params.len(),
            names@.len() == i,
            forall|j: int| 0 <= j < i ==> names@[j] == param_name(params@[j]),
        decreases params.len() - i,
    {
        let name = match &params[i] {
            Param::Scope { name, .. } => name.clone(),
            Param::Type { name } => name.clone(),
            Param::Const { name } => name.clone(),
        };
        names.push(name);
        i = i + 1;
    }
    assert(names@ =~= param_names(params@));
    names
}

} // verus!
