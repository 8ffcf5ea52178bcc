use std::borrow::Cow;
use vstd::prelude::*;

verus! {

/// Downgrades the scope of a value to that of the reference it is reached
/// through, without copying what it holds.
pub trait ToBorrowed: Sized {
    type Borrowed;

    /// `r` is a view of `self` that borrows every part of it that can be
    /// borrowed, with the same content. The impls of this crate say so
    /// exactly; an impl elsewhere promises nothing unless it overrides this.
    open spec fn borrows_as(&self, r: &Self::Borrowed) -> bool {
        true
    }

    fn to_borrowed(self) -> (r: Self::Borrowed)
        ensures
            self.borrows_as(&r),
    ;
}

impl<'b, 'c> ToBorrowed for &'c Cow<'b, str> {
    type Borrowed = Cow<'c, str>;

    open spec fn borrows_as(&self, r: &Cow<'c, str>) -> bool {
        r is Borrowed && r@ == (**self)@
    }

    fn to_borrowed(self) -> (r: Cow<'c, str>) {
        match self {
            Cow::Borrowed(s) => Cow::Borrowed(*s),
            Cow::Owned(s) => Cow::Borrowed(s.as_str()),
        }
    }
}

impl<'b, 'c, T: Copy + View + 'static> ToBorrowed for &'c Cow<'b, [T]> {
    type Borrowed = Cow<'c, [T]>;

    open spec fn borrows_as(&self, r: &Cow<'c, [T]>) -> bool {
        r is Borrowed && r@ == (**self)@
    }

    fn to_borrowed(self) -> (r: Cow<'c, [T]>) {
        match self {
            Cow::Borrowed(s) => Cow::Borrowed(*s),
            Cow::Owned(v) => Cow::Borrowed(v.as_slice()),
        }
    }
}

impl<'o, T> ToBorrowed for &'o Option<T> where &'o T: ToBorrowed {
    type Borrowed = Option<<&'o T as ToBorrowed>::Borrowed>;

    open spec fn borrows_as(&self, r: &Option<<&'o T as ToBorrowed>::Borrowed>) -> bool {
        match (*self, r) {
            (Some(a), Some(b)) => a.borrows_as(b),
            (None, None) => true,
            _ => false,
        }
    }

    fn to_borrowed(self) -> (r: Option<<&'o T as ToBorrowed>::Borrowed>) {
        match self {
            Some(x) => Some(x.to_borrowed()),
            None => None,
        }
    }
}

} // verus!
