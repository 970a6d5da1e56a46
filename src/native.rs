//! The native side of a handle, as the ownership layer observes it.
//!
//! Each native object has a reference count, a status code and the depth of
//! its stack of saved drawing states. An address names an object; address
//! zero is the null pointer and names none. An object whose count has
//! dropped to zero has been freed and may not be used again.

use vstd::prelude::*;
use crate::error::{Error, STATUS_SUCCESS};

verus! {

/// The status code that an unmatched restore leaves on an object.
pub const STATUS_INVALID_RESTORE: i32 = 2;

/// The observable state of one native object.
#[derive(Clone, Copy, Debug, PartialEq, Eq, Structural)]
pub struct NativeObject {
    pub refcount: u32,
    pub status: i32,
    pub depth: u32,
}

/// The native objects, each reached by its address.
pub struct NativeObjects {
    objects: Vec<NativeObject>,
}

/// The position of the object that a non-null address names.
pub open spec fn slot(ptr: usize) -> int {
    ptr as int - 1
}

/// Whether `ptr` names an object in `s` that has not been freed.
pub open spec fn live(s: Seq<NativeObject>, ptr: usize) -> bool {
    1 <= ptr <= s.len() && s[slot(ptr)].refcount > 0
}

/// The objects after one more reference to `ptr` was taken.
pub open spec fn acquired(s: Seq<NativeObject>, ptr: usize) -> Seq<NativeObject> {
    s.update(slot(ptr), NativeObject { refcount: (s[slot(ptr)].refcount + 1) as u32, ..s[slot(ptr)] })
}

/// The objects after one reference to `ptr` was given back.
pub open spec fn released(s: Seq<NativeObject>, ptr: usize) -> Seq<NativeObject> {
    s.update(slot(ptr), NativeObject { refcount: (s[slot(ptr)].refcount - 1) as u32, ..s[slot(ptr)] })
}

/// The objects after an error was reported on `ptr`: the first error sticks,
/// later ones are ignored.
pub open spec fn errored(s: Seq<NativeObject>, ptr: usize, code: i32) -> Seq<NativeObject> {
    if s[slot(ptr)].status == STATUS_SUCCESS {
        s.update(slot(ptr), NativeObject { status: code, ..s[slot(ptr)] })
    } else {
        s
    }
}

/// The objects after the drawing state of `ptr` was saved.
pub open spec fn saved(s: Seq<NativeObject>, ptr: usize) -> Seq<NativeObject> {
    if s[slot(ptr)].status == STATUS_SUCCESS {
        s.update(slot(ptr), NativeObject { depth: (s[slot(ptr)].depth + 1) as u32, ..s[slot(ptr)] })
    } else {
        s
    }
}

/// The objects after the last saved drawing state of `ptr` was restored; a
/// restore with nothing saved puts the object in error.
pub open spec fn restored(s: Seq<NativeObject>, ptr: usize) -> Seq<NativeObject> {
    if s[slot(ptr)].status != STATUS_SUCCESS {
        s
    } else if s[slot(ptr)].depth == 0 {
        errored(s, ptr, STATUS_INVALID_RESTORE)
    } else {
        s.update(slot(ptr), NativeObject { depth: (s[slot(ptr)].depth - 1) as u32, ..s[slot(ptr)] })
    }
}

impl View for NativeObjects {
    type V = Seq<NativeObject>;

    closed spec fn view(&self) -> Seq<NativeObject> {
        self.objects@
    }
}

impl NativeObjects {
    /// No objects yet.
    pub fn new() -> (r: NativeObjects)
        ensures
            r@ == Seq::<NativeObject>::empty(),
    {
        NativeObjects { objects: Vec::new() }
    }

    /// Whether `ptr` names an object that has not been freed.
    pub fn is_live(&self, ptr: usize) -> (r: bool)
        ensures
            r == live(self@, ptr),
    {
        ptr >= 1 && ptr <= self.objects.len()
            && self.objects[ptr - 1].refcount > 0
    }

    /// Makes a new object that holds one reference, owned by the caller, and
    /// returns its address.
    pub fn create(&mut self, status: i32) -> (ptr: usize)
        requires
            old(self)@.len() < usize::MAX,
        ensures
            ptr as int == old(self)@.len() + 1,
            final(self)@ == old(self)@.push(NativeObject { refcount: 1, status, depth: 0 }),
            live(final(self)@, ptr),
    {
        self.objects.push(NativeObject { refcount: 1, status, depth: 0 });
        self.objects.len()
    }

    /// The object that `ptr` names.
    pub fn get(&self, ptr: usize) -> (r: NativeObject)
        requires
            live(self@, ptr),
        ensures
            r == self@[slot(ptr)],
    {
        self.objects[ptr - 1]
    }

    /// Takes one more reference to the object.
    pub fn reference(&mut self, ptr: usize)
        requires
            live(old(self)@, ptr),
            old(self)@[slot(ptr)].refcount < u32::MAX,
        ensures
            final(self)@ == acquired(old(self)@, ptr),
    {
        let i = ptr - 1;
        let o = self.objects[i];
        self.objects.set(i, NativeObject { refcount: o.refcount + 1, ..o });
    }

    /// Gives one reference back; the object is freed with its last one.
    pub fn destroy(&mut self, ptr: usize)
        requires
            live(old(self)@, ptr),
        ensures
            final(self)@ == released(old(self)@, ptr),
    {
        let i = ptr - 1;
        let o = self.objects[i];
        self.objects.set(i, NativeObject { refcount: o.refcount - 1, ..o });
    }

    /// Puts the object in error, unless it is in error already.
    pub fn set_error(&mut self, ptr: usize, e: Error)
        requires
            live(old(self)@, ptr),
        ensures
            final(self)@ == errored(old(self)@, ptr, crate::error::code_of(e)),
    {
        let i = ptr - 1;
        let o = self.objects[i];
        if o.status == STATUS_SUCCESS {
            self.objects.set(i, NativeObject { status: e.code(), ..o });
        }
    }

    /// Saves the drawing state of an object that is not in error.
    pub fn save(&mut self, ptr: usize)
        requires
            live(old(self)@, ptr),
            old(self)@[slot(ptr)].depth < u32::MAX,
        ensures
            final(self)@ == saved(old(self)@, ptr),
    {
        let i = ptr - 1;
        let o = self.objects[i];
        if o.status == STATUS_SUCCESS {
            self.objects.set(i, NativeObject { depth: o.depth + 1, ..o });
        }
    }

    /// Restores the last saved drawing state of an object that is not in
    /// error, or puts it in error when nothing is saved.
    pub fn restore(&mut self, ptr: usize)
        requires
            live(old(self)@, ptr),
        ensures
            final(self)@ == restored(old(self)@, ptr),
    {
        let i = ptr - 1;
        let o = self.objects[i];
        if o.status == STATUS_SUCCESS {
            if o.depth == 0 {
                self.objects.set(i, NativeObject { status: STATUS_INVALID_RESTORE, ..o });
            } else {
                self.objects.set(i, NativeObject { depth: o.depth - 1, ..o });
            }
        }
    }
}

/// Taking a reference and giving it back leaves every object as it was.
pub proof fn lemma_acquire_release(s: Seq<NativeObject>, ptr: usize)
    requires
        live(s, ptr),
        s[slot(ptr)].refcount < u32::MAX,
    ensures
        live(acquired(s, ptr), ptr),
        released(acquired(s, ptr), ptr) == s,
{
    assert(released(acquired(s, ptr), ptr) =~= s);
}

/// Two handles to one object, each with a reference of its own, give back
/// two references: the count ends one below where the first started.
pub proof fn lemma_clone_release_both(s: Seq<NativeObject>, ptr: usize)
    requires
        live(s, ptr),
        s[slot(ptr)].refcount < u32::MAX,
    ensures
        live(acquired(s, ptr), ptr),
        live(released(acquired(s, ptr), ptr), ptr),
        acquired(s, ptr)[slot(ptr)].refcount == s[slot(ptr)].refcount + 1,
        released(released(acquired(s, ptr), ptr), ptr) == released(s, ptr),
{
    assert(released(released(acquired(s, ptr), ptr), ptr) =~= released(s, ptr));
}

/// An object in error stays in the same error: saving, restoring and
/// further errors leave every object as it was.
pub proof fn lemma_error_sticks(s: Seq<NativeObject>, ptr: usize, code: i32)
    requires
        live(s, ptr),
        s[slot(ptr)].status != STATUS_SUCCESS,
    ensures
        saved(s, ptr) == s,
        restored(s, ptr) == s,
        errored(s, ptr, code) == s,
{
}

/// A restore with nothing saved leaves the object in the error that an
/// unmatched restore reports.
pub proof fn lemma_unmatched_restore(s: Seq<NativeObject>, ptr: usize)
    requires
        live(s, ptr),
        s[slot(ptr)].status == STATUS_SUCCESS,
        s[slot(ptr)].depth == 0,
    ensures
        live(restored(s, ptr), ptr),
        crate::error::result_of(restored(s, ptr)[slot(ptr)].status) == Err::<(), Error>(
            Error::InvalidRestore,
        ),
{
}

/// Saving and then restoring leaves every object as it was.
pub proof fn lemma_save_restore(s: Seq<NativeObject>, ptr: usize)
    requires
        live(s, ptr),
        s[slot(ptr)].depth < u32::MAX,
    ensures
        live(saved(s, ptr), ptr),
        restored(saved(s, ptr), ptr) == s,
{
    assert(restored(saved(s, ptr), ptr) =~= s);
}

} // verus!
