//! What generated code does when it runs, stated over a model of values, and
//! the laws that follow for the two generators.
use crate::analysis::{type_depends, Policy};
use crate::builder::{arm_for, constructs, inits_of, key_at, reproduces, FieldStrategy};
use crate::declaration::{Body, Declaration, Fields, Variant};
use crate::generated::{Construction, ConstructorExpr, FieldKey, FieldOp, GeneratedImpl, Source};
use crate::reborrow::{reborrow_impl_for, ReborrowStrategy};
use crate::widen::{widen_impl_for, WidenStrategy};
use crate::into_static::IntoStatic;
use crate::to_borrowed::ToBorrowed;
use std::borrow::Cow;
use vstd::prelude::*;

verus! {

/// The value of one field: plain data, or a buffer that either borrows its
/// content or owns it.
pub enum Datum {
    Plain(int),
    Buffer { owned: bool, content: Seq<char> },
}

/// A value of a record (`variant` is `None`) or of a tagged union, with its
/// fields in declared order.
pub struct Instance {
    pub variant: Option<String>,
    pub fields: Seq<(FieldKey, Datum)>,
}

/// The model of a `Cow<str>` value.
pub open spec fn datum_of(c: Cow<'_, str>) -> Datum {
    Datum::Buffer { owned: c is Owned, content: c@ }
}

/// What `into_static` does to a field value.
pub open spec fn widen_datum(d: Datum) -> Datum {
    match d {
        Datum::Buffer { content, .. } => Datum::Buffer { owned: true, content },
        Datum::Plain(n) => Datum::Plain(n),
    }
}

/// What `to_borrowed` does to a field value.
pub open spec fn reborrow_datum(d: Datum) -> Datum {
    match d {
        Datum::Buffer { content, .. } => Datum::Buffer { owned: false, content },
        Datum::Plain(n) => Datum::Plain(n),
    }
}

/// What a value holds, whatever its representation.
pub open spec fn content(d: Datum) -> Datum {
    match d {
        Datum::Buffer { content, .. } => Datum::Buffer { owned: false, content },
        Datum::Plain(n) => Datum::Plain(n),
    }
}

pub open spec fn apply(op: FieldOp, d: Datum) -> Datum {
    match op {
        FieldOp::Move => d,
        FieldOp::Copy => d,
        FieldOp::Widen => widen_datum(d),
        FieldOp::Reborrow => reborrow_datum(d),
    }
}

/// The value of the field `k` among `fields`.
pub open spec fn lookup(fields: Seq<(FieldKey, Datum)>, k: FieldKey) -> Datum {
    let j = choose|j: int| 0 <= j < fields.len() && (#[trigger] fields[j]).0 == k;
    fields[j].1
}

/// The value that `c` builds from the fields of `input`.
pub open spec fn run_construction(c: Construction, input: Seq<(FieldKey, Datum)>) -> Instance {
    Instance {
        variant: c.variant,
        fields: Seq::new(
            c.inits@.len(),
            |i: int| (c.inits@[i].key, apply(c.inits@[i].op, lookup(input, c.inits@[i].key))),
        ),
    }
}

/// The value that `e` produces from `input`, if one of its arms applies.
pub open spec fn run(e: ConstructorExpr, input: Instance) -> Option<Instance> {
    match e {
        ConstructorExpr::Construct(c) => Some(run_construction(c, input.fields)),
        ConstructorExpr::Match(arms) => if exists|a: int|
            0 <= a < arms@.len() && input.variant == Some((#[trigger] arms@[a]).variant) {
            let a = choose|a: int|
                0 <= a < arms@.len() && input.variant == Some((#[trigger] arms@[a]).variant);
            Some(run_construction(arms@[a].result, input.fields))
        } else {
            None
        },
    }
}

/// No two fields share a name.
pub open spec fn names_distinct(fields: Fields) -> bool {
    fields matches Fields::Named(v) ==> forall|i: int, j: int|
        0 <= i < j < v@.len() ==> (#[trigger] v@[i]).name != (#[trigger] v@[j]).name
}

/// What the language asks of a declaration: field names are distinct within
/// a record or variant, and variant names are distinct.
pub open spec fn well_formed(decl: Declaration) -> bool {
    match decl.body {
        Body::Record(f) => names_distinct(f),
        Body::TaggedUnion(vs) => {
            &&& forall|i: int| 0 <= i < vs@.len() ==> names_distinct(#[trigger] vs@[i].fields)
            &&& forall|i: int, j: int|
                0 <= i < j < vs@.len() ==> (#[trigger] vs@[i]).name != (#[trigger] vs@[j]).name
        },
        Body::Untagged => true,
    }
}

/// `vals` holds one value for each of `fields`, in declared order.
pub open spec fn fits(fields: Fields, vals: Seq<(FieldKey, Datum)>) -> bool {
    &&& vals.len() == fields.count()
    &&& fields.count() <= usize::MAX
    &&& forall|j: int| 0 <= j < vals.len() ==> (#[trigger] vals[j]).0 == key_at(fields, j)
}

/// `v` is a value of `decl`.
pub open spec fn is_value_of(decl: Declaration, v: Instance) -> bool {
    match decl.body {
        Body::Record(f) => v.variant is None && fits(f, v.fields),
        Body::TaggedUnion(vs) => exists|i: int|
            0 <= i < vs@.len() && v.variant == Some((#[trigger] vs@[i]).name) && fits(
                vs@[i].fields,
                v.fields,
            ),
        Body::Untagged => false,
    }
}

/// The variant of a tagged union that `v` is a value of.
pub open spec fn variant_of(vs: Seq<Variant>, v: Instance) -> Variant {
    let i = choose|i: int|
        0 <= i < vs.len() && v.variant == Some((#[trigger] vs[i]).name) && fits(vs[i].fields, v.fields);
    vs[i]
}

/// Each field of `vals` transformed as `s` says for its declared type.
pub open spec fn transform_fields<S: FieldStrategy>(
    fields: Fields,
    vals: Seq<(FieldKey, Datum)>,
    s: S,
) -> Seq<(FieldKey, Datum)> {
    Seq::new(vals.len(), |j: int| (vals[j].0, apply(s.op_for(j, fields.ty_at(j)), vals[j].1)))
}

/// The value of the same shape and variant as `v`, each field transformed as
/// `s` says.
pub open spec fn transformed<S: FieldStrategy>(decl: Declaration, v: Instance, s: S) -> Instance {
    match decl.body {
        Body::Record(f) => Instance { variant: v.variant, fields: transform_fields(f, v.fields, s) },
        Body::TaggedUnion(vs) => Instance {
            variant: v.variant,
            fields: transform_fields(variant_of(vs@, v).fields, v.fields, s),
        },
        Body::Untagged => v,
    }
}

/// In a value that fits `fields`, the field reached by the key of the `j`-th
/// field is the `j`-th field.
proof fn lemma_lookup(fields: Fields, vals: Seq<(FieldKey, Datum)>, j: int)
    requires
        fits(fields, vals),
        names_distinct(fields),
        0 <= j < vals.len(),
    ensures
        lookup(vals, key_at(fields, j)) == vals[j].1,
{
    let k = key_at(fields, j);
    assert(vals[j].0 == k);
    let m = choose|m: int| 0 <= m < vals.len() && (#[trigger] vals[m]).0 == k;
    assert(vals[m].0 == key_at(fields, m));
    if m != j {
        match fields {
            Fields::Named(v) => {
                if m < j {
                    assert(v@[m].name != v@[j].name);
                } else {
                    assert(v@[j].name != v@[m].name);
                }
            },
            _ => {
                assert(key_at(fields, m) == FieldKey::Index(m as usize));
                assert(key_at(fields, j) == FieldKey::Index(j as usize));
            },
        }
    }
}

proof fn lemma_run_construction<S: FieldStrategy>(
    c: Construction,
    shape: String,
    variant: Option<String>,
    fields: Fields,
    source: Source,
    s: S,
    vals: Seq<(FieldKey, Datum)>,
)
    requires
        constructs(c, shape, variant, fields, source, s),
        fits(fields, vals),
        names_distinct(fields),
    ensures
        run_construction(c, vals) == (Instance { variant, fields: transform_fields(fields, vals, s) }),
{
    let out = run_construction(c, vals);
    assert forall|j: int| 0 <= j < vals.len() implies out.fields[j] == transform_fields(
        fields,
        vals,
        s,
    )[j] by {
        assert(c.inits@[j] == inits_of(s, fields, source)[j]);
        lemma_lookup(fields, vals, j);
    }
    assert(out.fields =~= transform_fields(fields, vals, s));
}

/// Generated code rebuilds a value of its declaration field by field: the
/// shape and variant are kept, and each field, in declared order, is
/// transformed as the strategy says for its type.
pub proof fn lemma_run_reproduces<S: FieldStrategy>(
    e: ConstructorExpr,
    decl: Declaration,
    s: S,
    v: Instance,
)
    requires
        reproduces(e, decl.name, decl.body, s),
        well_formed(decl),
        is_value_of(decl, v),
    ensures
        run(e, v) == Some(transformed(decl, v, s)),
{
    match decl.body {
        Body::Record(f) => {
            let c = e->Construct_0;
            lemma_run_construction(c, decl.name, None, f, Source::SelfField, s, v.fields);
        },
        Body::TaggedUnion(vs) => {
            let arms = e->Match_0;
            let i = choose|i: int|
                0 <= i < vs@.len() && v.variant == Some((#[trigger] vs@[i]).name) && fits(
                    vs@[i].fields,
                    v.fields,
                );
            assert(arm_for(arms@[i], decl.name, vs@[i], s));
            assert(v.variant == Some(arms@[i].variant));
            let a = choose|a: int|
                0 <= a < arms@.len() && v.variant == Some((#[trigger] arms@[a]).variant);
            assert(arm_for(arms@[a], decl.name, vs@[a], s));
            if a != i {
                if a < i {
                    assert(vs@[a].name != vs@[i].name);
                } else {
                    assert(vs@[i].name != vs@[a].name);
                }
            }
            assert(variant_of(vs@, v) == vs@[i]) by {
                let k = choose|k: int|
                    0 <= k < vs@.len() && v.variant == Some((#[trigger] vs@[k]).name) && fits(
                        vs@[k].fields,
                        v.fields,
                    );
                if k != i {
                    if k < i {
                        assert(vs@[k].name != vs@[i].name);
                    } else {
                        assert(vs@[i].name != vs@[k].name);
                    }
                }
            }
            assert(names_distinct(vs@[i].fields));
            lemma_run_construction(
                arms@[i].result,
                decl.name,
                Some(vs@[i].name),
                vs@[i].fields,
                Source::Binding,
                s,
                v.fields,
            );
        },
        Body::Untagged => {},
    }
}

/// The buffer model agrees with the runtime: `into_static` on a `Cow<str>`
/// does what [`widen_datum`] says.
pub proof fn lemma_cow_into_static(c: Cow<'_, str>, r: Cow<'static, str>)
    requires
        c.widens_to(&r),
    ensures
        datum_of(r) == widen_datum(datum_of(c)),
{
}

/// The buffer model agrees with the runtime: `to_borrowed` on a `&Cow<str>`
/// does what [`reborrow_datum`] says.
pub proof fn lemma_cow_to_borrowed<'c>(c: &'c Cow<'_, str>, r: Cow<'c, str>)
    requires
        c.borrows_as(&r),
    ensures
        datum_of(r) == reborrow_datum(datum_of(*c)),
{
}

/// On a record whose fields all are scope-independent, the generated
/// `into_static` and `to_borrowed` give back the same field values, in the
/// same order.
pub proof fn lemma_independent_record_unchanged(
    decl: Declaration,
    policy: Policy,
    widen: GeneratedImpl,
    reborrow: GeneratedImpl,
    v: Instance,
)
    requires
        well_formed(decl),
        decl.body matches Body::Record(f) && forall|i: int|
            0 <= i < f.count() ==> !type_depends(#[trigger] f.ty_at(i), policy),
        is_value_of(decl, v),
        widen_impl_for(widen, decl, policy),
        reborrow_impl_for(reborrow, decl, policy),
    ensures
        run(widen.body, v) == Some(v),
        run(reborrow.body, v) == Some(v),
{
    let f = decl.body->Record_0;
    lemma_run_reproduces(widen.body, decl, WidenStrategy { policy }, v);
    lemma_run_reproduces(reborrow.body, decl, ReborrowStrategy { policy }, v);
    assert(transform_fields(f, v.fields, WidenStrategy { policy }) =~= v.fields);
    assert(transform_fields(f, v.fields, ReborrowStrategy { policy }) =~= v.fields);
}

/// In a record, a buffer field whose type depends on a scope is owned after
/// `into_static` and borrowed after `to_borrowed`, with the same content.
pub proof fn lemma_record_buffer_field(
    decl: Declaration,
    policy: Policy,
    widen: GeneratedImpl,
    reborrow: GeneratedImpl,
    v: Instance,
    i: int,
)
    requires
        well_formed(decl),
        decl.body matches Body::Record(f) && 0 <= i < f.count() && type_depends(f.ty_at(i), policy),
        is_value_of(decl, v),
        v.fields[i].1 is Buffer,
        widen_impl_for(widen, decl, policy),
        reborrow_impl_for(reborrow, decl, policy),
    ensures
        run(widen.body, v) matches Some(w) && w.fields[i].1 == (Datum::Buffer {
            owned: true,
            content: v.fields[i].1->content,
        }),
        run(reborrow.body, v) matches Some(b) && b.fields[i].1 == (Datum::Buffer {
            owned: false,
            content: v.fields[i].1->content,
        }),
{
    lemma_run_reproduces(widen.body, decl, WidenStrategy { policy }, v);
    lemma_run_reproduces(reborrow.body, decl, ReborrowStrategy { policy }, v);
}

/// On a tagged union, the generated `into_static` and `to_borrowed` keep the
/// variant, and transform its fields one by one, in declared order.
pub proof fn lemma_union_variant_kept(
    decl: Declaration,
    policy: Policy,
    widen: GeneratedImpl,
    reborrow: GeneratedImpl,
    v: Instance,
)
    requires
        well_formed(decl),
        decl.body is TaggedUnion,
        is_value_of(decl, v),
        widen_impl_for(widen, decl, policy),
        reborrow_impl_for(reborrow, decl, policy),
    ensures
        run(widen.body, v) matches Some(w) && w.variant == v.variant && w.fields
            == transform_fields(
            variant_of(decl.body->TaggedUnion_0@, v).fields,
            v.fields,
            WidenStrategy { policy },
        ),
        run(reborrow.body, v) matches Some(b) && b.variant == v.variant && b.fields
            == transform_fields(
            variant_of(decl.body->TaggedUnion_0@, v).fields,
            v.fields,
            ReborrowStrategy { policy },
        ),
{
    lemma_run_reproduces(widen.body, decl, WidenStrategy { policy }, v);
    lemma_run_reproduces(reborrow.body, decl, ReborrowStrategy { policy }, v);
}

/// The generated `into_static` keeps what every field holds, changing at
/// most its representation; widening the result again changes nothing.
pub proof fn lemma_widen_keeps_content(
    decl: Declaration,
    policy: Policy,
    widen: GeneratedImpl,
    v: Instance,
)
    requires
        well_formed(decl),
        is_value_of(decl, v),
        widen_impl_for(widen, decl, policy),
    ensures
        run(widen.body, v) matches Some(w) && {
            &&& w.variant == v.variant
            &&& w.fields.len() == v.fields.len()
            &&& forall|j: int|
                0 <= j < v.fields.len() ==> (#[trigger] w.fields[j]).0 == v.fields[j].0
                    && content(w.fields[j].1) == content(v.fields[j].1)
            &&& run(widen.body, w) == Some(w)
        },
{
    let s = WidenStrategy { policy };
    lemma_run_reproduces(widen.body, decl, s, v);
    let w = transformed(decl, v, s);
    match decl.body {
        Body::Record(f) => {
            assert(is_value_of(decl, w));
            lemma_run_reproduces(widen.body, decl, s, w);
            assert(transform_fields(f, w.fields, s) =~= w.fields);
        },
        Body::TaggedUnion(vs) => {
            let i = choose|i: int|
                0 <= i < vs@.len() && v.variant == Some((#[trigger] vs@[i]).name) && fits(
                    vs@[i].fields,
                    v.fields,
                );
            assert(variant_of(vs@, v) == vs@[i]) by {
                let k = choose|k: int|
                    0 <= k < vs@.len() && v.variant == Some((#[trigger] vs@[k]).name) && fits(
                        vs@[k].fields,
                        v.fields,
                    );
                if k != i {
                    if k < i {
                        assert(vs@[k].name != vs@[i].name);
                    } else {
                        assert(vs@[i].name != vs@[k].name);
                    }
                }
            }
            assert(fits(vs@[i].fields, w.fields));
            assert(is_value_of(decl, w));
            lemma_run_reproduces(widen.body, decl, s, w);
            assert(variant_of(vs@, w) == vs@[i]) by {
                let k = choose|k: int|
                    0 <= k < vs@.len() && w.variant == Some((#[trigger] vs@[k]).name) && fits(
                        vs@[k].fields,
                        w.fields,
                    );
                if k != i {
                    if k < i {
                        assert(vs@[k].name != vs@[i].name);
                    } else {
                        assert(vs@[i].name != vs@[k].name);
                    }
                }
            }
            assert(transform_fields(vs@[i].fields, w.fields, s) =~= w.fields);
        },
        Body::Untagged => {},
    }
}

} // verus!
