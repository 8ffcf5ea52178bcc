//! The traversal shared by both generators: it walks a declaration's fields,
//! or its variants and their fields, and builds a constructor expression that
//! reproduces the shape, asking a strategy what to do with each field.
use crate::declaration::{Body, Declaration, Fields, TypeExpr, Variant};
use crate::error::GenerationError;
use crate::generated::{Arm, Construction, ConstructorExpr, FieldInit, FieldKey, FieldOp, Source, Style};
use vstd::prelude::*;

verus! {

/// The per-field policy of a generator.
pub trait FieldStrategy {
    /// What is done to the field at `index`, declared with type `ty`.
    spec fn op_for(&self, index: int, ty: TypeExpr) -> FieldOp;

    fn field_op(&self, index: usize, ty: &TypeExpr) -> (r: FieldOp)
        ensures
            r == self.op_for(index as int, *ty),
    ;
}

/// How the field at `i` is reached.
pub open spec fn key_at(fields: Fields, i: int) -> FieldKey {
    match fields {
        Fields::Named(v) => FieldKey::Named(v@[i].name),
        _ => FieldKey::Index(i as usize),
    }
}

pub open spec fn keys_of(fields: Fields) -> Seq<FieldKey> {
    Seq::new(fields.count(), |i: int| key_at(fields, i))
}

pub open spec fn style_of(fields: Fields) -> Style {
    match fields {
        Fields::Named(_) => Style::Named,
        _ => Style::Positional,
    }
}

/// The field initialisers for `fields`, in declared order, reading each
/// value from `source`.
pub open spec fn inits_of<S: FieldStrategy>(s: S, fields: Fields, source: Source) -> Seq<FieldInit> {
    Seq::new(
        fields.count(),
        |i: int| FieldInit { key: key_at(fields, i), source, op: s.op_for(i, fields.ty_at(i)) },
    )
}

/// `c` rebuilds `fields` as `shape` (or its variant `variant`).
pub open spec fn constructs<S: FieldStrategy>(
    c: Construction,
    shape: String,
    variant: Option<String>,
    fields: Fields,
    source: Source,
    s: S,
) -> bool {
    &&& c.shape == shape
    &&& c.variant == variant
    &&& c.style == style_of(fields)
    &&& c.inits@ == inits_of(s, fields, source)
}

/// `a` matches variant `v` of `shape`, binding all of its fields, and
/// rebuilds the same variant from those bindings.
pub open spec fn arm_for<S: FieldStrategy>(a: Arm, shape: String, v: Variant, s: S) -> bool {
    &&& a.variant == v.name
    &&& a.style == style_of(v.fields)
    &&& a.bindings@ == keys_of(v.fields)
    &&& constructs(a.result, shape, Some(v.name), v.fields, Source::Binding, s)
}

/// The first variant without fields, if any.
pub open spec fn empty_variant(vs: Seq<Variant>) -> Option<GenerationError>
    decreases vs.len(),
{
    if vs.len() == 0 {
        None
    } else if vs[0].fields.count() == 0 {
        Some(GenerationError::EmptyShapeUnsupported { shape: vs[0].name })
    } else {
        empty_variant(vs.drop_first())
    }
}

/// Why no constructor can be built for a declaration named `name` with
/// `body`, if that is so.
pub open spec fn shape_error(name: String, body: Body) -> Option<GenerationError> {
    match body {
        Body::Record(fields) => if fields.count() == 0 {
            Some(GenerationError::EmptyShapeUnsupported { shape: name })
        } else {
            None
        },
        Body::TaggedUnion(vs) => if vs@.len() == 0 {
            Some(GenerationError::EmptyShapeUnsupported { shape: name })
        } else {
            empty_variant(vs@)
        },
        Body::Untagged => Some(GenerationError::UnsupportedDeclarationKind { name }),
    }
}

/// `e` reproduces a value of the declaration `name` with `body`, field by
/// field as `s` says.
pub open spec fn reproduces<S: FieldStrategy>(e: ConstructorExpr, name: String, body: Body, s: S) -> bool {
    match body {
        Body::Record(fields) => e matches ConstructorExpr::Construct(c) && constructs(
            c,
            name,
            None,
            fields,
            Source::SelfField,
            s,
        ),
        Body::TaggedUnion(vs) => e matches ConstructorExpr::Match(arms) && arms@.len() == vs@.len()
            && forall|i: int| 0 <= i < vs@.len() ==> #[trigger] arm_for(arms@[i], name, vs@[i], s),
        Body::Untagged => false,
    }
}

pub fn field_count(fields: &Fields) -> (r: usize)
    ensures
        r == fields.count(),
{
    match fields {
        Fields::Named(v) => v.len(),
        Fields::Positional(v) => v.len(),
        Fields::Unit => 0,
    }
}

fn style(fields: &Fields) -> (r: Style)
    ensures
        r == style_of(*fields),
{
    match fields {
        Fields::Named(_) => Style::Named,
        _ => Style::Positional,
    }
}

fn key(fields: &Fields, i: usize) -> (r: FieldKey)
    requires
        i < fields.count(),
    ensures
        r == key_at(*fields, i as int),
{
    match fields {
        Fields::Named(v) => FieldKey::Named(v[i].name.clone()),
        _ => FieldKey::Index(i),
    }
}

fn field_type(fields: &Fields, i: usize) -> (r: &TypeExpr)
    requires
        i < fields.count(),
    ensures
        *r == fields.ty_at(i as int),
{
    match fields {
        Fields::Named(v) => &v[i].ty,
        Fields::Positional(v) => &v[i],
        Fields::Unit => vstd::pervasive::unreached(),
    }
}

/// The keys that a match arm binds the fields of a variant to.
fn binding_keys(fields: &Fields) -> (r: Vec<FieldKey>)
    ensures
        r@ == keys_of(*fields),
{
    let n = field_count(fields);
    let mut keys: Vec<FieldKey> = Vec::new();
    let mut i: usize = 0;
    while i < n
        invariant
            n == fields.count(),
            i <= n,
            keys@.len() == i,
            forall|j: int| 0 <= j < i ==> keys@[j] == key_at(*fields, j),
        decreases n - i,
    {
        keys.push(key(fields, i));
        i = i + 1;
    }
    assert(keys@ =~= keys_of(*fields));
    keys
}

/// Rebuilds `fields` as `shape` (or its variant `variant`), reading each
/// value from `source` and transforming it as `s` says.
pub fn construction<S: FieldStrategy>(
    shape: &String,
    variant: Option<String>,
    fields: &Fields,
    source: Source,
    s: &S,
) -> (r: Construction)
    ensures
        constructs(r, *shape, variant, *fields, source, *s),
{
    let n = field_count(fields);
    let mut inits: Vec<FieldInit> = Vec::new();
    let mut i: usize = 0;
    while i < n
        invariant
            n == fields.count(),
            i <= n,
            inits@.len() == i,
            forall|j: int| 0 <= j < i ==> inits@[j] == inits_of(*s, *fields, source)[j],
        decreases n - i,
    {
        let op = s.field_op(i, field_type(fields, i));
        inits.push(FieldInit { key: key(fields, i), source, op });
        i = i + 1;
    }
    assert(inits@ =~= inits_of(*s, *fields, source));
    Construction { shape: shape.clone(), variant, style: style(fields), inits }
}

fn arm<S: FieldStrategy>(shape: &String, v: &Variant, s: &S) -> (r: Arm)
    ensures
        arm_for(r, *shape, *v, *s),
{
    let result = construction(shape, Some(v.name.clone()), &v.fields, Source::Binding, s);
    Arm { variant: v.name.clone(), style: style(&v.fields), bindings: binding_keys(&v.fields), result }
}

/// Builds the expression that reproduces a value of `decl`, field by field
/// as `s` says: a constructor for a record, or a match with one arm per
/// variant, in declared order, for a tagged union. Fails on a shape with
/// nothing in it and on an untagged union.
pub fn build<S: FieldStrategy>(decl: &Declaration, s: &S) -> (r: Result<ConstructorExpr, GenerationError>)
    ensures
        match r {
            Ok(e) => shape_error(decl.name, decl.body) is None && reproduces(e, decl.name, decl.body, *s),
            Err(err) => shape_error(decl.name, decl.body) == Some(err),
        },
{
    match &decl.body {
        Body::Record(fields) => {
            if field_count(fields) == 0 {
                return Err(GenerationError::EmptyShapeUnsupported { shape: decl.name.clone() });
            }
            Ok(ConstructorExpr::Construct(construction(&decl.name, None, fields, Source::SelfField, s)))
        },
        Body::TaggedUnion(vs) => {
            if vs.len() == 0 {
                return Err(GenerationError::EmptyShapeUnsupported { shape: decl.name.clone() });
            }
            let mut arms: Vec<Arm> = Vec::new();
            let mut i: usize = 0;
            proof {
                assert(vs@.subrange(0, vs@.len() as int) =~= vs@);
            }
            while i < vs.len()
                invariant
                    decl.body == Body::TaggedUnion(*vs),
                    i <= vs.len(),
                    empty_variant(vs@) == empty_variant(vs@.subrange(i as int, vs@.len() as int)),
                    arms@.len() == i,
                    forall|j: int| 0 <= j < i ==> #[trigger] arm_for(arms@[j], decl.name, vs@[j], *s),
                decreases vs.len() - i,
            {
                let ghost rest = vs@.subrange(i as int, vs@.len() as int);
                assert(rest.drop_first() =~= vs@.subrange(i + 1, vs@.len() as int));
                assert(rest[0] == vs@[i as int]);
                if field_count(&vs[i].fields) == 0 {
                    return Err(GenerationError::EmptyShapeUnsupported { shape: vs[i].name.clone() });
                }
                arms.push(arm(&decl.name, &vs[i], s));
                i = i + 1;
            }
            assert(vs@.subrange(i as int, vs@.len() as int).len() == 0);
            Ok(ConstructorExpr::Match(arms))
        },
        Body::Untagged => Err(GenerationError::UnsupportedDeclarationKind { name: decl.name.clone() }),
    }
}

} // verus!
