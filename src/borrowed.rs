//! A handle observed for a bounded scope, without a reference of its own.

use vstd::prelude::*;

verus! {

/// A handle that observes a reference owned elsewhere. It takes no reference
/// and gives none back: it offers no way to release what it wraps.
pub struct Borrowed<T> {
    inner: T,
}

impl<T> Borrowed<T> {
    /// The handle observed.
    pub closed spec fn inner(&self) -> T {
        self.inner
    }

    /// Wraps a handle for borrowed use.
    pub fn new(inner: T) -> (r: Borrowed<T>)
        ensures
            r.inner() == inner,
    {
        Borrowed { inner }
    }

    /// The handle, for the length of the borrow.
    pub fn get(&self) -> (r: &T)
        ensures
            *r == self.inner(),
    {
        &self.inner
    }
}

} // verus!
