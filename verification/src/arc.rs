//! Ownership-tracked handles to native objects, over a counting model of the
//! native reference-counting runtime.
//!
//! A [`Handle`] designates one native object and carries its ownership
//! classification. An `Owned` handle is entitled to exactly one release; a
//! `Borrowed` handle never releases; an `Autoreleased` handle must be
//! converted to `Owned` (by a retain) before it may outlive the call that
//! produced it. The runtime itself is modeled by [`Runtime`], which keeps one
//! retain count per object and running totals of retain and release calls, so
//! that balance properties can be stated and checked against it.

use vstd::prelude::*;

verus! {

/// How a handle relates to the native object it designates.
#[derive(Clone, Copy, Debug, PartialEq, Eq, Structural)]
pub enum Ownership {
    /// The handle holds one unit of the object's retain count and owes
    /// exactly one release.
    Owned,
    /// The handle is a non-owning alias; it never issues a release.
    Borrowed,
    /// The handle was returned through an autorelease pool; the pool holds
    /// its count, so the handle must be retained before the pool drains.
    Autoreleased,
}

/// A reference to one native object.
///
/// Handles are not copyable: an `Owned` handle is a linear capability, and
/// consuming it (through [`Runtime::release`] or [`Handle::leak`]) is the
/// only way to let it go, which is how "exactly one release per owned
/// handle" is kept.
pub struct Handle {
    obj: usize,
    ownership: Ownership,
}

impl Handle {
    /// The object this handle designates.
    pub closed spec fn obj_spec(&self) -> usize {
        self.obj
    }

    /// The ownership classification of this handle.
    pub closed spec fn ownership_spec(&self) -> Ownership {
        self.ownership
    }

    #[verifier::when_used_as_spec(obj_spec)]
    pub fn obj(&self) -> (o: usize)
        ensures
            o == self.obj_spec(),
    {
        self.obj
    }

    #[verifier::when_used_as_spec(ownership_spec)]
    pub fn ownership(&self) -> (o: Ownership)
        ensures
            o == self.ownership_spec(),
    {
        self.ownership
    }

    /// Produce a non-owning alias of this handle. The alias never extends
    /// the object's lifetime and never issues a release.
    pub fn as_borrowed(&self) -> (b: Handle)
        ensures
            b.obj_spec() == self.obj_spec(),
            b.ownership_spec() == Ownership::Borrowed,
    {
        Handle { obj: self.obj, ownership: Ownership::Borrowed }
    }

    /// Explicitly forfeit this handle without releasing. The object's count
    /// keeps the unit the handle held; this is the one sanctioned way to
    /// drop an `Owned` handle without a release.
    pub fn leak(self) {
    }
}

/// The counting model of the native reference-counting runtime: one retain
/// count per object, plus totals of how many retain and release calls were
/// ever issued through it.
pub struct Runtime {
    counts: Vec<u64>,
    retain_calls: u64,
    release_calls: u64,
}

/// The effect of one retain on the per-object counts.
pub open spec fn retain_effect(counts: Seq<u64>, obj: int) -> Seq<u64> {
    counts.update(obj, (counts[obj] + 1) as u64)
}

/// The effect of one release on the per-object counts.
pub open spec fn release_effect(counts: Seq<u64>, obj: int) -> Seq<u64> {
    counts.update(obj, (counts[obj] - 1) as u64)
}

impl Runtime {
    /// The per-object retain counts.
    pub closed spec fn counts_spec(self) -> Seq<u64> {
        self.counts@
    }

    /// How many retain calls were issued through this runtime.
    pub closed spec fn retain_calls_spec(&self) -> u64 {
        self.retain_calls
    }

    /// How many release calls were issued through this runtime.
    pub closed spec fn release_calls_spec(&self) -> u64 {
        self.release_calls
    }

    /// A handle is live in this runtime when it designates an allocated
    /// object whose count is positive.
    pub open spec fn live(self, h: Handle) -> bool {
        &&& 0 <= h.obj_spec() < self.counts_spec().len()
        &&& self.counts_spec()[h.obj_spec() as int] > 0
    }

    /// The retain count of one object.
    pub open spec fn count_of(self, obj: int) -> u64 {
        self.counts_spec()[obj]
    }

    pub fn new() -> (rt: Runtime)
        ensures
            rt.counts_spec() =~= Seq::<u64>::empty(),
            rt.retain_calls_spec() == 0,
            rt.release_calls_spec() == 0,
    {
        Runtime { counts: Vec::new(), retain_calls: 0, release_calls: 0 }
    }

    #[verifier::when_used_as_spec(retain_calls_spec)]
    pub fn retain_calls(&self) -> (n: u64)
        ensures
            n == self.retain_calls_spec(),
    {
        self.retain_calls
    }

    #[verifier::when_used_as_spec(release_calls_spec)]
    pub fn release_calls(&self) -> (n: u64)
        ensures
            n == self.release_calls_spec(),
    {
        self.release_calls
    }

    /// The current retain count of the object a handle designates.
    pub fn count(&self, h: &Handle) -> (n: u64)
        requires
            h.obj_spec() < self.counts_spec().len(),
        ensures
            n == self.count_of(h.obj_spec() as int),
    {
        self.counts[h.obj()]
    }

    /// Allocate a fresh native object with a retain count of one and hand
    /// back the owned handle that holds that count.
    pub fn allocate(&mut self) -> (h: Handle)
        requires
            old(self).counts_spec().len() < usize::MAX,
        ensures
            h.obj_spec() == old(self).counts_spec().len(),
            h.ownership_spec() == Ownership::Owned,
            final(self).counts_spec() =~= old(self).counts_spec().push(1),
            final(self).retain_calls_spec() == old(self).retain_calls_spec(),
            final(self).release_calls_spec() == old(self).release_calls_spec(),
    {
        let obj = self.counts.len();
        self.counts.push(1);
        Handle { obj, ownership: Ownership::Owned }
    }

    /// Adopt a pointer that native code handed over, with the stated
    /// ownership. The object must be live: a "no object" result is modeled
    /// as an optional handle by the caller, never as a null owned handle.
    pub fn wrap(&self, obj: usize, ownership: Ownership) -> (h: Handle)
        requires
            obj < self.counts_spec().len(),
            self.counts_spec()[obj as int] > 0,
        ensures
            h.obj_spec() == obj,
            h.ownership_spec() == ownership,
    {
        Handle { obj, ownership }
    }

    /// Issue one native retain and return a fresh owned handle to the same
    /// object.
    pub fn retain(&mut self, h: &Handle) -> (r: Handle)
        requires
            old(self).live(*h),
            old(self).count_of(h.obj_spec() as int) < u64::MAX,
            old(self).retain_calls_spec() < u64::MAX,
        ensures
            r.obj_spec() == h.obj_spec(),
            r.ownership_spec() == Ownership::Owned,
            final(self).counts_spec() =~= retain_effect(old(self).counts_spec(), h.obj_spec() as int),
            final(self).retain_calls_spec() == old(self).retain_calls_spec() + 1,
            final(self).release_calls_spec() == old(self).release_calls_spec(),
    {
        let obj = h.obj();
        let c = self.counts[obj];
        self.counts.set(obj, c + 1);
        self.retain_calls = self.retain_calls + 1;
        Handle { obj, ownership: Ownership::Owned }
    }

    /// Convert an autoreleased handle into an owned one by issuing a retain,
    /// so that it may safely outlive the enclosing call scope.
    pub fn retain_autoreleased(&mut self, h: Handle) -> (r: Handle)
        requires
            old(self).live(h),
            h.ownership_spec() == Ownership::Autoreleased,
            old(self).count_of(h.obj_spec() as int) < u64::MAX,
            old(self).retain_calls_spec() < u64::MAX,
        ensures
            r.obj_spec() == h.obj_spec(),
            r.ownership_spec() == Ownership::Owned,
            final(self).counts_spec() =~= retain_effect(old(self).counts_spec(), h.obj_spec() as int),
            final(self).retain_calls_spec() == old(self).retain_calls_spec() + 1,
            final(self).release_calls_spec() == old(self).release_calls_spec(),
    {
        let r = self.retain(&h);
        h.leak();
        r
    }

    /// Issue the one native release an owned handle owes, consuming the
    /// handle. Only owned handles may release, and since the handle is taken
    /// by value, no handle can release twice.
    pub fn release(&mut self, h: Handle) -> (obj: usize)
        requires
            old(self).live(h),
            h.ownership_spec() == Ownership::Owned,
            old(self).release_calls_spec() < u64::MAX,
        ensures
            obj == h.obj_spec(),
            final(self).counts_spec() =~= release_effect(old(self).counts_spec(), h.obj_spec() as int),
            final(self).retain_calls_spec() == old(self).retain_calls_spec(),
            final(self).release_calls_spec() == old(self).release_calls_spec() + 1,
    {
        let obj = h.obj();
        let c = self.counts[obj];
        self.counts.set(obj, c - 1);
        self.release_calls = self.release_calls + 1;
        obj
    }
}

/// Every owned handle balances: constructing one by a retain and then
/// releasing it leaves every object's retain count exactly where it started,
/// so a handle that is dropped without being leaked neither leaks a count
/// nor frees one twice.
pub proof fn lemma_owned_handle_balances(counts: Seq<u64>, obj: int)
    requires
        0 <= obj < counts.len(),
        counts[obj] < u64::MAX,
    ensures
        release_effect(retain_effect(counts, obj), obj) =~= counts,
{
}


/// A retained native object: the owned handle that holds one unit of the
/// object's retain count, paired with the plain data the object carries — a
/// created pixel buffer, an array, any product of a creation call that
/// returns an owned reference.
pub struct Retained<T> {
    handle: Handle,
    value: T,
}

impl<T> Retained<T> {
    /// The owned handle holding the object's count.
    pub closed spec fn handle_spec(&self) -> Handle {
        self.handle
    }

    /// The plain data the object carries.
    pub closed spec fn value_spec(&self) -> T {
        self.value
    }

    /// Read access to the carried data.
    pub fn value(&self) -> (r: &T)
        ensures
            r == self.value_spec(),
    {
        &self.value
    }

    /// A non-owning alias of the object's handle; it never releases.
    pub fn as_borrowed(&self) -> (b: Handle)
        ensures
            b.obj_spec() == self.handle_spec().obj_spec(),
            b.ownership_spec() == Ownership::Borrowed,
    {
        self.handle.as_borrowed()
    }
}

impl Runtime {
    /// Adopt what a creation call returned: a fresh native object with a
    /// retain count of one, carrying the given data as an owned, retained
    /// value.
    pub fn allocate_retained<T>(&mut self, value: T) -> (r: Retained<T>)
        requires
            old(self).counts_spec().len() < usize::MAX,
        ensures
            r.handle_spec().obj_spec() == old(self).counts_spec().len(),
            r.handle_spec().ownership_spec() == Ownership::Owned,
            r.value_spec() == value,
            final(self).counts_spec() =~= old(self).counts_spec().push(1),
            final(self).retain_calls_spec() == old(self).retain_calls_spec(),
            final(self).release_calls_spec() == old(self).release_calls_spec(),
    {
        let handle = self.allocate();
        Retained { handle, value }
    }

    /// Issue the one release a retained object owes, consuming it and
    /// handing its data back. With [`Runtime::allocate_retained`]'s count of
    /// one this returns the object's count to its pre-construction value.
    pub fn release_retained<T>(&mut self, r: Retained<T>) -> (value: T)
        requires
            old(self).live(r.handle_spec()),
            r.handle_spec().ownership_spec() == Ownership::Owned,
            old(self).release_calls_spec() < u64::MAX,
        ensures
            value == r.value_spec(),
            final(self).counts_spec() =~= release_effect(
                old(self).counts_spec(),
                r.handle_spec().obj_spec() as int,
            ),
            final(self).retain_calls_spec() == old(self).retain_calls_spec(),
            final(self).release_calls_spec() == old(self).release_calls_spec() + 1,
    {
        let Retained { handle, value } = r;
        self.release(handle);
        value
    }
}

} // verus!
