//! Owned handles to native drawing contexts.

use vstd::prelude::*;
use crate::borrowed::Borrowed;
use crate::error::{error_of, result_of, status_to_result, Error, STATUS_SUCCESS};
use crate::native::{
    acquired, live, released, restored, saved, slot, NativeObject, NativeObjects,
};
use crate::surface::Surface;

verus! {

/// An owned reference to a native drawing context. The address is never
/// null, and the reference is given back exactly once, by `drop`.
pub struct Context {
    ptr: usize,
}

impl Context {
    /// The address of the context.
    pub closed spec fn raw(&self) -> usize {
        self.ptr
    }

    #[verifier::type_invariant]
    spec fn non_null(&self) -> bool {
        self.ptr != 0
    }

    /// Takes a reference of its own to the context at `ptr`; the caller's
    /// reference is left alone.
    pub fn from_raw_none(objs: &mut NativeObjects, ptr: usize) -> (r: Context)
        requires
            live(old(objs)@, ptr),
            old(objs)@[slot(ptr)].refcount < u32::MAX,
        ensures
            r.raw() == ptr,
            final(objs)@ == acquired(old(objs)@, ptr),
    {
        objs.reference(ptr);
        Context { ptr }
    }

    /// Observes the context at `ptr`, owned elsewhere, without taking or
    /// giving back a reference.
    pub fn from_raw_borrow(ptr: usize) -> (r: Borrowed<Context>)
        requires
            ptr != 0,
        ensures
            r.inner().raw() == ptr,
    {
        Borrowed::new(Context { ptr })
    }

    /// Takes over the caller's reference to the context at `ptr`.
    pub fn from_raw_full(ptr: usize) -> (r: Context)
        requires
            ptr != 0,
        ensures
            r.raw() == ptr,
    {
        Context { ptr }
    }

    /// The address, with no reference taken.
    pub fn to_raw_none(&self) -> (r: usize)
        ensures
            r == self.raw(),
            r != 0,
    {
        proof {
            use_type_invariant(self);
        }
        self.ptr
    }

    /// The address, with a new reference that the caller then owns.
    pub fn to_glib_full(&self, objs: &mut NativeObjects) -> (r: usize)
        requires
            live(old(objs)@, self.raw()),
            old(objs)@[slot(self.raw())].refcount < u32::MAX,
        ensures
            r == self.raw(),
            final(objs)@ == acquired(old(objs)@, self.raw()),
    {
        objs.reference(self.ptr);
        self.ptr
    }

    /// A second handle to the same context, with a reference of its own.
    pub fn clone(&self, objs: &mut NativeObjects) -> (r: Context)
        requires
            live(old(objs)@, self.raw()),
            old(objs)@[slot(self.raw())].refcount < u32::MAX,
        ensures
            r.raw() == self.raw(),
            final(objs)@ == acquired(old(objs)@, self.raw()),
    {
        let ptr = self.to_raw_none();
        Context::from_raw_none(objs, ptr)
    }

    /// Gives the reference back.
    pub fn drop(self, objs: &mut NativeObjects)
        requires
            live(old(objs)@, self.raw()),
        ensures
            final(objs)@ == released(old(objs)@, self.raw()),
    {
        objs.destroy(self.ptr);
    }

    /// The status of the context: success is `Ok`, anything else its error.
    pub fn status(&self, objs: &NativeObjects) -> (r: Result<(), Error>)
        requires
            live(objs@, self.raw()),
        ensures
            r == result_of(objs@[slot(self.raw())].status),
    {
        status_to_result(objs.get(self.ptr).status)
    }

    /// Makes a context that draws on `target`. A target in error gives a
    /// context in the same error, which is given back at once and reported.
    pub fn new(objs: &mut NativeObjects, target: &Surface) -> (r: Result<Context, Error>)
        requires
            live(old(objs)@, target.raw()),
            old(objs)@.len() < usize::MAX,
        ensures
            ({
                let st = old(objs)@[slot(target.raw())].status;
                &&& (r is Ok <==> st == STATUS_SUCCESS)
                &&& r matches Ok(c) ==> c.raw() == old(objs)@.len() + 1
                    && final(objs)@ == old(objs)@.push(
                        NativeObject { refcount: 1, status: STATUS_SUCCESS, depth: 0 },
                    )
                &&& r matches Err(e) ==> e == error_of(st)
                    && final(objs)@ == old(objs)@.push(
                        NativeObject { refcount: 0, status: st, depth: 0 },
                    )
            }),
    {
        let st = objs.get(target.to_raw_none()).status;
        let ptr = objs.create(st);
        let ctx = Context::from_raw_full(ptr);
        match ctx.status(objs) {
            Ok(()) => Ok(ctx),
            Err(e) => {
                ctx.drop(objs);
                proof {
                    assert(final(objs)@ =~= old(objs)@.push(
                        NativeObject { refcount: 0, status: st, depth: 0 },
                    ));
                }
                Err(e)
            },
        }
    }

    /// Saves the drawing state, then reports the status.
    pub fn save(&self, objs: &mut NativeObjects) -> (r: Result<(), Error>)
        requires
            live(old(objs)@, self.raw()),
            old(objs)@[slot(self.raw())].depth < u32::MAX,
        ensures
            final(objs)@ == saved(old(objs)@, self.raw()),
            r == result_of(final(objs)@[slot(self.raw())].status),
    {
        objs.save(self.ptr);
        self.status(objs)
    }

    /// Restores the last saved drawing state, then reports the status; with
    /// nothing saved the context goes into error.
    pub fn restore(&self, objs: &mut NativeObjects) -> (r: Result<(), Error>)
        requires
            live(old(objs)@, self.raw()),
        ensures
            final(objs)@ == restored(old(objs)@, self.raw()),
            r == result_of(final(objs)@[slot(self.raw())].status),
    {
        objs.restore(self.ptr);
        self.status(objs)
    }

    /// The number of references to the context.
    pub fn reference_count(&self, objs: &NativeObjects) -> (r: u32)
        requires
            live(objs@, self.raw()),
        ensures
            r == objs@[slot(self.raw())].refcount,
    {
        objs.get(self.ptr).refcount
    }
}

} // verus!
