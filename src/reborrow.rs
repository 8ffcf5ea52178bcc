//! Generating `ToBorrowed` for a declaration: the value is taken through a
//! reference bound by a freshly named caller scope, and every scope
//! parameter of the output type is that caller scope.
use crate::analysis::{depends_on_scope, type_depends, Policy};
use crate::builder::{build, reproduces, FieldStrategy};
use crate::declaration::{Declaration, TypeExpr};
use crate::error::GenerationError;
use crate::generated::{Contract, FieldOp, GeneratedImpl, ScopeArg};
use crate::validate::{names_of, param_names, validate};
use crate::rejection::generation_error;
use vstd::prelude::*;
use vstd::string::StringExecFns;

verus! {

/// Reborrows the fields that depend on a scope and copies the others.
#[derive(Clone, Copy, Debug, PartialEq, Eq)]
pub struct ReborrowStrategy {
    pub policy: Policy,
}

impl FieldStrategy for ReborrowStrategy {
    open spec fn op_for(&self, index: int, ty: TypeExpr) -> FieldOp {
        if type_depends(ty, self.policy) {
            FieldOp::Reborrow
        } else {
            FieldOp::Copy
        }
    }

    fn field_op(&self, index: usize, ty: &TypeExpr) -> (r: FieldOp) {
        if depends_on_scope(ty, self.policy) {
            FieldOp::Reborrow
        } else {
            FieldOp::Copy
        }
    }
}

/// The `k`-th name tried for the caller scope: `ref_`, `ref__`, `ref___`, ...
pub open spec fn candidate(k: nat) -> Seq<char> {
    seq!['r', 'e', 'f'] + Seq::new(k + 1, |i: int| '_')
}

pub open spec fn is_taken(m: Seq<char>, names: Seq<String>) -> bool {
    exists|i: int| 0 <= i < names.len() && (#[trigger] names[i])@ == m
}

/// `m` is the first candidate that none of `names` takes.
pub open spec fn is_first_free(m: Seq<char>, names: Seq<String>) -> bool {
    exists|k: nat|
        {
            &&& m == #[trigger] candidate(k)
            &&& !is_taken(m, names)
            &&& forall|j: nat| j < k ==> is_taken(#[trigger] candidate(j), names)
        }
}

pub open spec fn longest(names: Seq<String>) -> nat
    decreases names.len(),
{
    if names.len() == 0 {
        0
    } else {
        let rest = longest(names.drop_last());
        if names.last()@.len() > rest {
            names.last()@.len()
        } else {
            rest
        }
    }
}

proof fn lemma_longest(names: Seq<String>, i: int)
    requires
        0 <= i < names.len(),
    ensures
        names[i]@.len() <= longest(names),
    decreases names.len(),
{
    if i < names.len() - 1 {
        lemma_longest(names.drop_last(), i);
    }
}

fn taken(m: &String, names: &Vec<String>) -> (r: bool)
    ensures
        r == is_taken(m@, names@),
{
    let mut i: usize = 0;
    while i < names.len()
        invariant
            i <= names.len(),
            forall|j: int| 0 <= j < i ==> (#[trigger] names@[j])@ != m@,
        decreases names.len() - i,
    {
        if names[i] == *m {
            return true;
        }
        i = i + 1;
    }
    false
}

/// The first of `ref_`, `ref__`, `ref___`, ... that is none of `names`.
pub fn fresh_marker(names: &Vec<String>) -> (r: String)
    ensures
        is_first_free(r@, names@),
{
    let mut m = "ref_".to_string();
    let ghost mut k: nat = 0;
    proof {
        reveal_strlit("ref_");
        assert(m@ =~= candidate(0));
    }
    while taken(&m, names)
        invariant
            m@ == candidate(k),
            forall|j: nat| j < k ==> is_taken(#[trigger] candidate(j), names@),
        decreases longest(names@) + 1 - k,
    {
        proof {
            let i = choose|i: int| 0 <= i < names@.len() && (#[trigger] names@[i])@ == m@;
            lemma_longest(names@, i);
            reveal_strlit("_");
        }
        m = m.concat("_");
        proof {
            k = k + 1;
            assert(m@ =~= candidate(k));
        }
    }
    m
}

/// `g` implements `ToBorrowed` for references to `decl`.
pub open spec fn reborrow_impl_for(g: GeneratedImpl, decl: Declaration, policy: Policy) -> bool {
    let names = param_names(decl.params@);
    &&& g.contract == Contract::Reborrow
    &&& g.self_reference matches Some(caller) && {
        &&& is_first_free(caller@, names)
        &&& g.impl_scopes@ == seq![caller] + names
        &&& g.output_args@ == Seq::new(decl.params@.len(), |i: int| ScopeArg::Named(caller))
    }
    &&& g.shape == decl.name
    &&& g.type_args@ == names
    &&& reproduces(g.body, decl.name, decl.body, ReborrowStrategy { policy })
}

fn caller_args(caller: &String, n: usize) -> (r: Vec<ScopeArg>)
    ensures
        r@ == Seq::new(n as nat, |i: int| ScopeArg::Named(*caller)),
{
    let mut args: Vec<ScopeArg> = Vec::new();
    let mut i: usize = 0;
    while i < n
        invariant
            i <= n,
            args@ == Seq::new(i as nat, |j: int| ScopeArg::Named(*caller)),
        decreases n - i,
    {
        args.push(ScopeArg::Named(caller.clone()));
        i = i + 1;
        assert(args@ =~= Seq::new(i as nat, |j: int| ScopeArg::Named(*caller)));
    }
    args
}

/// A generated `ToBorrowed` introduces exactly one scope of its own, new to
/// the declaration, and every scope parameter of the output type is that one.
pub proof fn lemma_one_caller_scope(decl: Declaration, policy: Policy, g: GeneratedImpl)
    requires
        reborrow_impl_for(g, decl, policy),
    ensures
        g.impl_scopes@.len() == decl.params@.len() + 1,
        g.impl_scopes@.drop_first() == param_names(decl.params@),
        g.self_reference == Some(g.impl_scopes@[0]),
        !is_taken(g.impl_scopes@[0]@, param_names(decl.params@)),
        g.output_args@.len() == decl.params@.len(),
        forall|i: int|
            0 <= i < decl.params@.len() ==> #[trigger] g.output_args@[i] == ScopeArg::Named(
                g.impl_scopes@[0],
            ),
{
    let names = param_names(decl.params@);
    let caller = g.self_reference->Some_0;
    assert((seq![caller] + names).drop_first() =~= names);
}

/// Generates `ToBorrowed` for references to `decl`, reading it under
/// `policy`.
pub fn generate_reborrow_impl_with(decl: &Declaration, policy: Policy) -> (r: Result<
    GeneratedImpl,
    GenerationError,
>)
    ensures
        match r {
            Ok(g) => generation_error(*decl, policy) is None && reborrow_impl_for(g, *decl, policy),
            Err(e) => generation_error(*decl, policy) == Some(e),
        },
{
    match validate(&decl.params, policy) {
        Err(e) => return Err(e),
        Ok(()) => {},
    }
    let body = match build(decl, &ReborrowStrategy { policy }) {
        Err(e) => return Err(e),
        Ok(body) => body,
    };
    let names = names_of(&decl.params);
    let caller = fresh_marker(&names);
    let mut impl_scopes: Vec<String> = Vec::new();
    impl_scopes.push(caller.clone());
    let mut rest = names_of(&decl.params);
    impl_scopes.append(&mut rest);
    assert(impl_scopes@ =~= seq![caller] + names@);
    let output_args = caller_args(&caller, decl.params.len());
    Ok(
        GeneratedImpl {
            contract: Contract::Reborrow,
            impl_scopes,
            self_reference: Some(caller),
            shape: decl.name.clone(),
            type_args: names,
            output_args,
            body,
        },
    )
}

/// Generates `ToBorrowed` for references to `decl` under [`Policy::Strict`].
pub fn generate_reborrow_impl(decl: &Declaration) -> (r: Result<GeneratedImpl, GenerationError>)
    ensures
        match r {
            Ok(g) => generation_error(*decl, Policy::Strict) is None && reborrow_impl_for(
                g,
                *decl,
                Policy::Strict,
            ),
            Err(e) => generation_error(*decl, Policy::Strict) == Some(e),
        },
{
    generate_reborrow_impl_with(decl, Policy::Strict)
}

} // verus!
