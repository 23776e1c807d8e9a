//! Handles that own a native value on behalf of the foreign side.
//!
//! Every crossing of the boundary copies: a handle owns its own copy of the
//! native value, and what is read out of it is a copy too, so later changes
//! through the handle never reach a value read out before.
use vstd::prelude::*;

verus! {

/// A handle around a native value.
pub trait PyWrapper: Sized {
    /// The native type being wrapped.
    type Inner;

    /// The wrapped value.
    spec fn inner_spec(&self) -> Self::Inner;

    /// Wraps a native value.
    fn from_inner(inner: Self::Inner) -> (r: Self)
        ensures
            r.inner_spec() == inner,
    ;

    /// A reference to the wrapped value.
    fn as_inner(&self) -> (r: &Self::Inner)
        ensures
            *r == self.inner_spec(),
    ;

    /// Unwraps the native value.
    fn into_inner(self) -> (r: Self::Inner)
        ensures
            r == self.inner_spec(),
    ;
}

/// A handle whose wrapped value can be changed in place.
pub trait PyWrapperMut: PyWrapper {
    /// A mutable reference to the wrapped value.
    fn as_inner_mut(&mut self) -> (r: &mut Self::Inner)
        ensures
            *r == old(self).inner_spec(),
            final(self).inner_spec() == *final(r),
    ;
}

/// The opaque handle: a native value of any type, owned by the handle.
#[derive(Debug, Clone, PartialEq)]
pub struct Opaque<T> {
    inner: T,
}

impl<T> PyWrapper for Opaque<T> {
    type Inner = T;

    closed spec fn inner_spec(&self) -> T {
        self.inner
    }

    fn from_inner(inner: T) -> (r: Self) {
        Opaque { inner }
    }

    fn as_inner(&self) -> (r: &T) {
        &self.inner
    }

    fn into_inner(self) -> (r: T) {
        self.inner
    }
}

impl<T> PyWrapperMut for Opaque<T> {
    fn as_inner_mut(&mut self) -> (r: &mut T) {
        &mut self.inner
    }
}

} // verus!
