//! The restricted wrapper and the capability marker.

use vstd::prelude::*;

verus! {

/// The capability marker: a type that has it is safe to hold across a
/// suspension point. In the working attribute layer this is an auto trait,
/// inferred structurally for every type and withheld for [`Anchored`]; auto
/// traits and negative impls lie outside what the verifier accepts, so the
/// trait is declared here as the name the generated code refers to
/// (`anchored::Unanchored`), and the auto-trait form stays with the
/// unverified attribute layer.
pub trait Unanchored {
}

/// Wraps one value and withholds the [`Unanchored`] capability for it,
/// whatever the inner value's own status. Construction and access cannot
/// fail; access is pass-through, with no synchronization and no runtime cost.
pub struct Anchored<T> {
    data: T,
}

impl<T> Anchored<T> {
    /// The wrapped value, as the contracts speak of it.
    pub closed spec fn inner(&self) -> T {
        self.data
    }

    /// Wrap a value.
    pub fn new(data: T) -> (r: Self)
        ensures
            r.inner() == data,
    {
        Anchored { data }
    }

    /// Read access to the wrapped value.
    pub fn get(&self) -> (r: &T)
        ensures
            *r == self.inner(),
    {
        &self.data
    }

    /// Write access to the wrapped value.
    pub fn get_mut(&mut self) -> (r: &mut T)
        ensures
            *r == old(self).inner(),
            final(self).inner() == *final(r),
    {
        &mut self.data
    }

    /// Unwrap, handing the inner value back.
    pub fn into_inner(self) -> (r: T)
        ensures
            r == self.inner(),
    {
        self.data
    }
}

} // verus!
