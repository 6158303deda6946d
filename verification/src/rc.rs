//! Shared-ownership handle guarded by a lock domain.

use vstd::prelude::*;

use std::mem::ManuallyDrop;
use std::rc::Rc;

use crate::GraphRootGuard;
use crate::Tag;

verus! {

/// Reference-counted pointer whose count-mutating operations demand a
/// possession proof for the domain named by its tag.
///
/// Like `std::rc::Rc` — and unlike `std::sync::Arc` — the shared count is
/// plain, non-atomic memory. The design's intent is that handles can still
/// be shared across cooperating threads, because every count mutation
/// (`clone`, `safely_drop`) demands a guard for the handle's domain and at
/// most one thread can hold that guard at a time. As built here, though,
/// the type is not `Send` or `Sync` — those impls would be an unchecked
/// promise this crate does not make — so a handle cannot currently cross a
/// thread boundary, and the guard discipline is what the contracts enforce.
/// Reading the payload (`get`) and moving a handle never touch the count,
/// so they need no guard at all.
///
/// The only sanctioned way to retire a handle is `safely_drop`, which
/// presents the proof that the decrement cannot race. A handle that is
/// merely discarded deliberately leaks its block instead: an unsynchronized
/// decrement could corrupt the count or double-free, so leaking is the safe
/// outcome for that lock-discipline violation.
pub struct RootedRc<T> {
    tag: Tag,
    val: ManuallyDrop<Rc<T>>,
}

impl<T> RootedRc<T> {
    /// The tag of the domain guarding this handle's shared count.
    pub closed spec fn tag(self) -> Tag {
        self.tag
    }

    /// The shared payload.
    pub closed spec fn value(self) -> Rc<T> {
        self.val@
    }

    /// Wraps `val` in a fresh shared block tagged with `tag`, with a count of
    /// one. Construction mutates no pre-existing shared state, so it needs no
    /// possession proof.
    pub fn new(tag: Tag, val: T) -> (r: RootedRc<T>)
        ensures
            r.tag() == tag,
            r.value() == val,
    {
        RootedRc { tag, val: ManuallyDrop::new(Rc::new(val)) }
    }

    /// Returns a new handle to the same block, incrementing the shared
    /// count. Demands a possession proof for this handle's own domain; the
    /// new handle carries the same tag and the same payload.
    ///
    /// Named `clone` as the guarded counterpart of `Clone::clone`: cloning a
    /// handle mutates the shared count, so it cannot be offered without the
    /// proof argument.
    pub fn clone(&self, guard: &GraphRootGuard<'_>) -> (r: RootedRc<T>)
        requires
            guard@ == self.tag(),
        ensures
            r.tag() == self.tag(),
            r.value() == self.value(),
    {
        RootedRc { tag: self.tag, val: ManuallyDrop::new((*self.val).clone()) }
    }

    /// Read access to the payload: always permitted, from any thread, with
    /// no guard — reading never touches the shared count.
    pub fn get(&self) -> (r: &T)
        ensures
            *r == self.value(),
    {
        &**self.val
    }

    /// Retires this handle under a matching possession proof: decrements the
    /// shared count and, when this was the last handle, destroys the payload.
    pub fn safely_drop(self, guard: &GraphRootGuard<'_>)
        requires
            guard@ == self.tag(),
    {
        let RootedRc { tag: _, val } = self;
        let _ = ManuallyDrop::into_inner(val);
    }

    /// True exactly when `guard` proves possession of this handle's domain:
    /// the runtime form of the identity check that `clone` and `safely_drop`
    /// demand. A caller outside verified code tests this before mutating and
    /// treats `false` as a fatal identity mismatch.
    pub fn tag_matches(&self, guard: &GraphRootGuard<'_>) -> (r: bool)
        ensures
            r == (guard@ == self.tag()),
    {
        guard.tag() == self.tag
    }
}

/// Law: whatever the payload type, a guard for a different domain than a
/// handle's own never authorizes a count mutation. When the handle's tag and
/// the guard's tag come from different allocation steps, the identity check
/// is false, so the preconditions of `clone` and `safely_drop` cannot be met
/// with that guard.
pub proof fn lemma_foreign_guard_rejected<T>(
    pre1: crate::TagAllocator,
    post1: crate::TagAllocator,
    pre2: crate::TagAllocator,
    post2: crate::TagAllocator,
    h: RootedRc<T>,
    guard_tag: Tag,
)
    requires
        crate::allocation_step(pre1, post1, h.tag()),
        crate::allocation_step(pre2, post2, guard_tag),
        post1.issued().subset_of(pre2.issued()),
    ensures
        guard_tag != h.tag(),
{
    crate::lemma_tags_unique(pre1, post1, h.tag(), pre2, post2, guard_tag);
}

} // verus!
