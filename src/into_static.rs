use std::borrow::Cow;
use vstd::prelude::*;

verus! {

/// Upgrades the scope of a value: the result owns all of its data.
pub trait IntoStatic: Sized {
    type Static: 'static;

    /// `r` is `self` with every borrowed part replaced by an owned copy of
    /// the same content. The impls of this crate say so exactly; an impl
    /// elsewhere promises nothing unless it overrides this.
    open spec fn widens_to(&self, r: &Self::Static) -> bool {
        true
    }

    fn into_static(self) -> (r: Self::Static)
        ensures
            self.widens_to(&r),
    ;
}

impl<'b> IntoStatic for Cow<'b, str> {
    type Static = Cow<'static, str>;

    open spec fn widens_to(&self, r: &Cow<'static, str>) -> bool {
        r is Owned && r@ == self@
    }

    fn into_static(self) -> (r: Cow<'static, str>) {
        match self {
            Cow::Borrowed(s) => Cow::Owned(s.to_string()),
            Cow::Owned(s) => Cow::Owned(s),
        }
    }
}

impl<'b, T: Copy + View + 'static> IntoStatic for Cow<'b, [T]> {
    type Static = Cow<'static, [T]>;

    open spec fn widens_to(&self, r: &Cow<'static, [T]>) -> bool {
        r is Owned && r@ == self@
    }

    fn into_static(self) -> (r: Cow<'static, [T]>) {
        match self {
            Cow::Borrowed(s) => Cow::Owned(vstd::slice::slice_to_vec(s)),
            Cow::Owned(v) => Cow::Owned(v),
        }
    }
}

impl<T: IntoStatic> IntoStatic for Option<T> {
    type Static = Option<T::Static>;

    open spec fn widens_to(&self, r: &Option<T::Static>) -> bool {
        match (self, r) {
            (Some(a), Some(b)) => a.widens_to(b),
            (None, None) => true,
            _ => false,
        }
    }

    fn into_static(self) -> (r: Option<T::Static>) {
        match self {
            Some(x) => Some(x.into_static()),
            None => None,
        }
    }
}

impl<T: IntoStatic> IntoStatic for Vec<T> {
    type Static = Vec<T::Static>;

    open spec fn widens_to(&self, r: &Vec<T::Static>) -> bool {
        &&& r.len() == self.len()
        &&& forall|i: int| 0 <= i < self.len() ==> (#[trigger] self[i]).widens_to(&r[i])
    }

    fn into_static(self) -> (r: Vec<T::Static>) {
        let ghost orig = self@;
        let mut rest = self;
        // Elements are taken from the back, so they are widened in reverse.
        let mut reversed: Vec<T::Static> = Vec::new();
        while rest.len() > 0
            invariant
                rest@ == orig.subrange(0, rest.len() as int),
                rest.len() + reversed.len() == orig.len(),
                forall|j: int|
                    0 <= j < reversed.len() ==> orig[orig.len() - 1 - j].widens_to(
                        &#[trigger] reversed@[j],
                    ),
            decreases rest.len(),
        {
            let x = rest.pop().unwrap();
            reversed.push(x.into_static());
        }
        let mut out: Vec<T::Static> = Vec::new();
        while reversed.len() > 0
            invariant
                reversed.len() + out.len() == orig.len(),
                forall|j: int|
                    0 <= j < reversed.len() ==> orig[orig.len() - 1 - j].widens_to(
                        &#[trigger] reversed@[j],
                    ),
                forall|j: int| 0 <= j < out.len() ==> orig[j].widens_to(&#[trigger] out@[j]),
            decreases reversed.len(),
        {
            let y = reversed.pop().unwrap();
            out.push(y);
        }
        out
    }
}

impl<T: IntoStatic, E: IntoStatic> IntoStatic for Result<T, E> {
    type Static = Result<T::Static, E::Static>;

    open spec fn widens_to(&self, r: &Result<T::Static, E::Static>) -> bool {
        match (self, r) {
            (Ok(a), Ok(b)) => a.widens_to(b),
            (Err(a), Err(b)) => a.widens_to(b),
            _ => false,
        }
    }

    fn into_static(self) -> (r: Result<T::Static, E::Static>) {
        match self {
            Ok(x) => Ok(x.into_static()),
            Err(e) => Err(e.into_static()),
        }
    }
}

impl<A: IntoStatic, B: IntoStatic> IntoStatic for (A, B) {
    type Static = (A::Static, B::Static);

    open spec fn widens_to(&self, r: &(A::Static, B::Static)) -> bool {
        &&& self.0.widens_to(&r.0)
        &&& self.1.widens_to(&r.1)
    }

    fn into_static(self) -> (r: (A::Static, B::Static)) {
        let (a, b) = self;
        (a.into_static(), b.into_static())
    }
}

impl<A: IntoStatic, B: IntoStatic, C: IntoStatic> IntoStatic for (A, B, C) {
    type Static = (A::Static, B::Static, C::Static);

    open spec fn widens_to(&self, r: &(A::Static, B::Static, C::Static)) -> bool {
        &&& self.0.widens_to(&r.0)
        &&& self.1.widens_to(&r.1)
        &&& self.2.widens_to(&r.2)
    }

    fn into_static(self) -> (r: (A::Static, B::Static, C::Static)) {
        let (a, b, c) = self;
        (a.into_static(), b.into_static(), c.into_static())
    }
}

impl<A: IntoStatic, B: IntoStatic, C: IntoStatic, D: IntoStatic> IntoStatic for (A, B, C, D) {
    type Static = (A::Static, B::Static, C::Static, D::Static);

    open spec fn widens_to(&self, r: &(A::Static, B::Static, C::Static, D::Static)) -> bool {
        &&& self.0.widens_to(&r.0)
        &&& self.1.widens_to(&r.1)
        &&& self.2.widens_to(&r.2)
        &&& self.3.widens_to(&r.3)
    }

    fn into_static(self) -> (r: (A::Static, B::Static, C::Static, D::Static)) {
        let (a, b, c, d) = self;
        (a.into_static(), b.into_static(), c.into_static(), d.into_static())
    }
}

impl<A: IntoStatic, B: IntoStatic, C: IntoStatic, D: IntoStatic, E: IntoStatic> IntoStatic for (A, B, C, D, E) {
    type Static = (A::Static, B::Static, C::Static, D::Static, E::Static);

    open spec fn widens_to(&self, r: &(A::Static, B::Static, C::Static, D::Static, E::Static)) -> bool {
        &&& self.0.widens_to(&r.0)
        &&& self.1.widens_to(&r.1)
        &&& self.2.widens_to(&r.2)
        &&& self.3.widens_to(&r.3)
        &&& self.4.widens_to(&r.4)
    }

    fn into_static(self) -> (r: (A::Static, B::Static, C::Static, D::Static, E::Static)) {
        let (a, b, c, d, e) = self;
        (a.into_static(), b.into_static(), c.into_static(), d.into_static(), e.into_static())
    }
}

impl<A: IntoStatic, B: IntoStatic, C: IntoStatic, D: IntoStatic, E: IntoStatic, F: IntoStatic> IntoStatic for (A, B, C, D, E, F) {
    type Static = (A::Static, B::Static, C::Static, D::Static, E::Static, F::Static);

    open spec fn widens_to(&self, r: &(A::Static, B::Static, C::Static, D::Static, E::Static, F::Static)) -> bool {
        &&& self.0.widens_to(&r.0)
        &&& self.1.widens_to(&r.1)
        &&& self.2.widens_to(&r.2)
        &&& self.3.widens_to(&r.3)
        &&& self.4.widens_to(&r.4)
        &&& self.5.widens_to(&r.5)
    }

    fn into_static(self) -> (r: (A::Static, B::Static, C::Static, D::Static, E::Static, F::Static)) {
        let (a, b, c, d, e, f) = self;
        (a.into_static(), b.into_static(), c.into_static(), d.into_static(), e.into_static(), f.into_static())
    }
}

impl<A: IntoStatic, B: IntoStatic, C: IntoStatic, D: IntoStatic, E: IntoStatic, F: IntoStatic, G: IntoStatic> IntoStatic for (A, B, C, D, E, F, G) {
    type Static = (A::Static, B::Static, C::Static, D::Static, E::Static, F::Static, G::Static);

    open spec fn widens_to(&self, r: &(A::Static, B::Static, C::Static, D::Static, E::Static, F::Static, G::Static)) -> bool {
        &&& self.0.widens_to(&r.0)
        &&& self.1.widens_to(&r.1)
        &&& self.2.widens_to(&r.2)
        &&& self.3.widens_to(&r.3)
        &&& self.4.widens_to(&r.4)
        &&& self.5.widens_to(&r.5)
        &&& self.6.widens_to(&r.6)
    }

    fn into_static(self) -> (r: (A::Static, B::Static, C::Static, D::Static, E::Static, F::Static, G::Static)) {
        let (a, b, c, d, e, f, g) = self;
        (a.into_static(), b.into_static(), c.into_static(), d.into_static(), e.into_static(), f.into_static(), g.into_static())
    }
}

impl<A: IntoStatic, B: IntoStatic, C: IntoStatic, D: IntoStatic, E: IntoStatic, F: IntoStatic, G: IntoStatic, H: IntoStatic> IntoStatic for (A, B, C, D, E, F, G, H) {
    type Static = (A::Static, B::Static, C::Static, D::Static, E::Static, F::Static, G::Static, H::Static);

    open spec fn widens_to(&self, r: &(A::Static, B::Static, C::Static, D::Static, E::Static, F::Static, G::Static, H::Static)) -> bool {
        &&& self.0.widens_to(&r.0)
        &&& self.1.widens_to(&r.1)
        &&& self.2.widens_to(&r.2)
        &&& self.3.widens_to(&r.3)
        &&& self.4.widens_to(&r.4)
        &&& self.5.widens_to(&r.5)
        &&& self.6.widens_to(&r.6)
        &&& self.7.widens_to(&r.7)
    }

    fn into_static(self) -> (r: (A::Static, B::Static, C::Static, D::Static, E::Static, F::Static, G::Static, H::Static)) {
        let (a, b, c, d, e, f, g, h) = self;
        (a.into_static(), b.into_static(), c.into_static(), d.into_static(), e.into_static(), f.into_static(), g.into_static(), h.into_static())
    }
}

impl<A: IntoStatic, B: IntoStatic, C: IntoStatic, D: IntoStatic, E: IntoStatic, F: IntoStatic, G: IntoStatic, H: IntoStatic, I: IntoStatic> IntoStatic for (A, B, C, D, E, F, G, H, I) {
    type Static = (A::Static, B::Static, C::Static, D::Static, E::Static, F::Static, G::Static, H::Static, I::Static);

    open spec fn widens_to(&self, r: &(A::Static, B::Static, C::Static, D::Static, E::Static, F::Static, G::Static, H::Static, I::Static)) -> bool {
        &&& self.0.widens_to(&r.0)
        &&& self.1.widens_to(&r.1)
        &&& self.2.widens_to(&r.2)
        &&& self.3.widens_to(&r.3)
        &&& self.4.widens_to(&r.4)
        &&& self.5.widens_to(&r.5)
        &&& self.6.widens_to(&r.6)
        &&& self.7.widens_to(&r.7)
        &&& self.8.widens_to(&r.8)
    }

    fn into_static(self) -> (r: (A::Static, B::Static, C::Static, D::Static, E::Static, F::Static, G::Static, H::Static, I::Static)) {
        let (a, b, c, d, e, f, g, h, i) = self;
        (a.into_static(), b.into_static(), c.into_static(), d.into_static(), e.into_static(), f.into_static(), g.into_static(), h.into_static(), i.into_static())
    }
}

} // verus!
