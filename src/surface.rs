//! Owned handles to native drawing targets.

use vstd::prelude::*;
use crate::error::{result_of, status_to_result, Error};
use crate::native::{acquired, live, released, slot, NativeObjects};

verus! {

/// An owned reference to a native drawing target. The address is never null.
pub struct Surface {
    ptr: usize,
}

impl Surface {
    /// The address of the target.
    pub closed spec fn raw(&self) -> usize {
        self.ptr
    }

    #[verifier::type_invariant]
    spec fn non_null(&self) -> bool {
        self.ptr != 0
    }

    /// Takes over the caller's reference to the target at `ptr`.
    pub fn from_raw_full(ptr: usize) -> (r: Surface)
        requires
            ptr != 0,
        ensures
            r.raw() == ptr,
    {
        Surface { ptr }
    }

    /// Takes a reference of its own to the target at `ptr`; the caller's
    /// reference is left alone.
    pub fn from_raw_none(objs: &mut NativeObjects, ptr: usize) -> (r: Surface)
        requires
            live(old(objs)@, ptr),
            old(objs)@[slot(ptr)].refcount < u32::MAX,
        ensures
            r.raw() == ptr,
            final(objs)@ == acquired(old(objs)@, ptr),
    {
        objs.reference(ptr);
        Surface { ptr }
    }

    /// The address, with no reference taken.
    pub fn to_raw_none(&self) -> (r: usize)
        ensures
            r == self.raw(),
            r != 0,
    {
        proof {
            use_type_invariant(self);
        }
        self.ptr
    }

    /// The status of the target, as a result.
    pub fn status(&self, objs: &NativeObjects) -> (r: Result<(), Error>)
        requires
            live(objs@, self.raw()),
        ensures
            r == result_of(objs@[slot(self.raw())].status),
    {
        status_to_result(objs.get(self.ptr).status)
    }

    /// Gives the reference back.
    pub fn drop(self, objs: &mut NativeObjects)
        requires
            live(old(objs)@, self.raw()),
        ensures
            final(objs)@ == released(old(objs)@, self.raw()),
    {
        objs.destroy(self.ptr);
    }
}

} // verus!
