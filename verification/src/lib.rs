//! Coarse-grained lock domains for plain (non-atomic) shared ownership.
//!
//! A `Root` is a named mutual-exclusion authority: it owns a lock and a
//! globally unique `Tag`. Locking a `Root` yields a `GraphRootGuard`, the
//! possession proof that the calling thread holds that domain's lock. The
//! handle types built on top of this module (`rc::RootedRc`,
//! `refcell::RootedRefCell`) store a copy of their domain's tag and demand a
//! matching guard for every operation that touches shared bookkeeping, so
//! that the bookkeeping itself needs no synchronization of its own.
//!
//! Combining several domains safely (lock ordering, deadlock avoidance) is
//! entirely the caller's responsibility; nothing here detects or prevents
//! cross-domain deadlock.

use vstd::prelude::*;
use vstd::rwlock::{RwLock, RwLockPredicate, WriteHandle};

pub mod rc;
pub mod refcell;

verus! {

/// Globally unique identifier of a lock domain.
///
/// A tag is an opaque, copyable value compared only by equality. No two
/// domains created from one `TagAllocator` ever share a tag; the random
/// per-allocator prefix makes collisions between independent allocator
/// instances (or processes sharing memory) unlikely as well.
#[derive(Debug, Clone, Copy, PartialEq, Eq, Hash, Structural)]
pub struct Tag {
    prefix: u32,
    suffix: u32,
}

/// The identity allocator: issues fresh `Tag`s, never the same one twice.
///
/// It advances a monotonic suffix counter on every allocation; the prefix is
/// drawn at random once per allocator. The counter's exhaustion is a fatal
/// condition, not a recoverable error: `allocate` demands spare capacity, and
/// a caller that cannot prove it must check `can_allocate` first and treat
/// `false` as fatal. Identifiers are never recycled.
///
/// This is the process-wide identity service modelled as an explicit value:
/// create one at process start and route every domain creation through it.
pub struct TagAllocator {
    prefix: u32,
    next_suffix: u32,
    issued: Ghost<Set<Tag>>,
}

/// Holds when one call to `TagAllocator::allocate` can take the allocator
/// from state `pre` to state `post` while issuing the tag `t`: the tag was
/// never issued before, and the record of issued tags grows by exactly it.
pub open spec fn allocation_step(pre: TagAllocator, post: TagAllocator, t: Tag) -> bool {
    &&& !pre.issued().contains(t)
    &&& post.issued() == pre.issued().insert(t)
}

impl TagAllocator {
    #[verifier::type_invariant]
    spec fn wf(self) -> bool {
        forall|t: Tag|
            #[trigger] self.issued@.contains(t) ==> t.prefix == self.prefix && t.suffix
                < self.next_suffix
    }

    /// The set of tags this allocator has issued so far.
    pub closed spec fn issued(self) -> Set<Tag> {
        self.issued@
    }

    /// How many further tags this allocator can still issue.
    pub closed spec fn capacity_left(self) -> nat {
        (u32::MAX - self.next_suffix) as nat
    }

    /// Creates a fresh allocator that has issued nothing yet.
    pub fn new() -> (r: TagAllocator)
        ensures
            r.issued() == Set::<Tag>::empty(),
            r.capacity_left() == u32::MAX as nat,
    {
        let prefix: u32 = rand::random();
        TagAllocator { prefix, next_suffix: 0, issued: Ghost(Set::empty()) }
    }

    /// Issues a tag that differs from every tag issued before.
    pub fn allocate(&mut self) -> (t: Tag)
        requires
            old(self).capacity_left() > 0,
        ensures
            allocation_step(*old(self), *final(self), t),
            final(self).capacity_left() == old(self).capacity_left() - 1,
    {
        proof {
            use_type_invariant(&*self);
        }
        let t = Tag { prefix: self.prefix, suffix: self.next_suffix };
        self.next_suffix = self.next_suffix + 1;
        proof {
            self.issued@ = self.issued@.insert(t);
        }
        t
    }

    /// True exactly when the identifier space is not yet exhausted.
    pub fn can_allocate(&self) -> (r: bool)
        ensures
            r == (self.capacity_left() > 0),
    {
        self.next_suffix < u32::MAX
    }
}

/// Law: an allocation step never reissues a tag. Any tag the allocator had
/// already issued before the step differs from the tag the step issues.
pub proof fn lemma_fresh_tag_distinct(pre: TagAllocator, post: TagAllocator, t: Tag, prev: Tag)
    requires
        allocation_step(pre, post, t),
        pre.issued().contains(prev),
    ensures
        t != prev,
{
}

/// Law: the record of issued tags only grows across an allocation step, and
/// afterwards it holds the tag that the step issued.
pub proof fn lemma_allocation_grows(pre: TagAllocator, post: TagAllocator, t: Tag)
    requires
        allocation_step(pre, post, t),
    ensures
        pre.issued().subset_of(post.issued()),
        post.issued().contains(t),
{
}

/// Law: tags issued at two different allocation steps are unequal, however
/// many further allocations lie between the two steps. Since every domain is
/// created from exactly one such step, distinct domains carry unequal tags.
pub proof fn lemma_tags_unique(
    pre1: TagAllocator,
    post1: TagAllocator,
    t1: Tag,
    pre2: TagAllocator,
    post2: TagAllocator,
    t2: Tag,
)
    requires
        allocation_step(pre1, post1, t1),
        allocation_step(pre2, post2, t2),
        post1.issued().subset_of(pre2.issued()),
    ensures
        t1 != t2,
{
    assert(post1.issued().contains(t1));
}

/// The lock predicate of a domain: the domain's lock stores exactly the
/// domain's own tag, so every guard obtained from it witnesses that tag.
pub struct TagInv {
    pub tag: Tag,
}

impl RwLockPredicate<Tag> for TagInv {
    open spec fn inv(self, v: Tag) -> bool {
        v == self.tag
    }
}

/// Root of an object graph: a named mutual-exclusion authority.
///
/// It owns a lock and a globally unique tag, and holds no user payload.
/// Handles guarded by this domain store a copy of the tag, never a pointer to
/// the `Root` itself, so they may outlive any particular lock acquisition —
/// though not the `Root`'s own existence, which remains the caller's
/// responsibility. The view of a `Root` is its tag.
pub struct Root {
    mutex: RwLock<Tag, TagInv>,
    tag: Tag,
}

impl View for Root {
    type V = Tag;

    closed spec fn view(&self) -> Tag {
        self.tag
    }
}

impl Root {
    #[verifier::type_invariant]
    spec fn wf(self) -> bool {
        self.mutex.pred() == (TagInv { tag: self.tag })
    }

    /// Creates a domain with a tag freshly issued by `tags`, and an unlocked
    /// lock bound to it. The allocation step recorded in `tags` shows the new
    /// domain's tag differs from every tag issued before.
    pub fn new(tags: &mut TagAllocator) -> (r: Root)
        requires
            old(tags).capacity_left() > 0,
        ensures
            allocation_step(*old(tags), *final(tags), r@),
            final(tags).capacity_left() == old(tags).capacity_left() - 1,
    {
        let tag = tags.allocate();
        let mutex = RwLock::<Tag, TagInv>::new(tag, Ghost(TagInv { tag }));
        Root { mutex, tag }
    }

    /// Blocks until this domain's lock is acquired, then returns the
    /// possession proof. The proof's tag always equals this domain's tag.
    pub fn lock<'a>(&'a self) -> (g: GraphRootGuard<'a>)
        ensures
            g@ == self@,
    {
        proof {
            use_type_invariant(self);
        }
        let (tag, handle) = self.mutex.acquire_write();
        GraphRootGuard { tag, handle }
    }

    /// This domain's globally unique tag. Reading it requires no lock.
    pub fn tag(&self) -> (t: Tag)
        ensures
            t == self@,
    {
        self.tag
    }
}

/// Possession proof: evidence that the calling thread holds a domain's lock.
///
/// Produced only by `Root::lock`; its view is the tag of the domain whose
/// lock it holds. While a guard is alive no other thread can obtain one for
/// the same domain. The lock is released by `unlock`, not by discarding the
/// guard: a guard that is dropped instead of unlocked leaves its domain
/// locked for good.
pub struct GraphRootGuard<'a> {
    tag: Tag,
    handle: WriteHandle<'a, Tag, TagInv>,
}

impl<'a> View for GraphRootGuard<'a> {
    type V = Tag;

    closed spec fn view(&self) -> Tag {
        self.tag
    }
}

impl<'a> GraphRootGuard<'a> {
    #[verifier::type_invariant]
    spec fn wf(self) -> bool {
        self.handle.rwlock().pred() == (TagInv { tag: self.tag })
    }

    /// The tag of the domain whose lock this proof witnesses.
    pub fn tag(&self) -> (t: Tag)
        ensures
            t == self@,
    {
        self.tag
    }

    /// Releases the domain's lock, making it available to the next waiter.
    pub fn unlock(self) {
        proof {
            use_type_invariant(&self);
        }
        let GraphRootGuard { tag, handle } = self;
        handle.release_write(tag);
    }
}

/// Relies on `rand::random`: draws a value from the thread-local generator.
/// Nothing is promised of the result; every outcome is acceptable here.
pub assume_specification<T>[ rand::random::<T> ]() -> (r: T)
    where
        rand::distributions::Standard: rand::distributions::Distribution<T>,
;

} // verus!
