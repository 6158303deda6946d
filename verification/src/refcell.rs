//! Interior-mutability handle guarded by a lock domain.

use vstd::cell::invcell::InvCell;
use vstd::predicate::Predicate;
use vstd::prelude::*;

use std::rc::Rc;

use crate::GraphRootGuard;
use crate::Tag;

verus! {

/// Cell-contents predicate that admits every value: the cell places no
/// constraint of its own on the payload.
pub struct AnyContents {}

impl<T> Predicate<BorrowState<T>> for AnyContents {
    open spec fn predicate(&self, v: BorrowState<T>) -> bool {
        true
    }
}

/// The cell's borrow bookkeeping: the payload is at rest, or lent out to
/// some number of shared borrows, or moved out into one exclusive borrow.
///
/// What the verifier cannot see is *which* state a given cell currently
/// holds — that depends on the cell's history. What it does fix is the
/// transition each operation makes for every possible state, through the
/// step functions below; the operations on `RootedRefCell` and its borrow
/// guards are routed through those steps and nothing else touches the
/// state.
pub enum BorrowState<T> {
    /// No borrow outstanding; the payload is at rest in the cell.
    Available(T),
    /// Shared borrows outstanding: the payload sits in a shared block, and
    /// the count says how many read guards are out.
    Shared(Rc<T>, u32),
    /// An exclusive borrow is outstanding; the payload lives in its guard.
    Exclusive,
}

/// One exclusive-borrow attempt, decided over the state read from the cell:
/// an available payload is granted, leaving the cell exclusively borrowed;
/// every other state is a borrow conflict — it goes back unchanged and
/// nothing is granted.
pub fn exclusive_borrow_step<T>(state: BorrowState<T>) -> (r: (BorrowState<T>, Option<T>))
    ensures
        (state matches BorrowState::Available(v) ==> r.0 is Exclusive && r.1 == Some(v)),
        !(state is Available) ==> r.0 == state && r.1 is None,
{
    match state {
        BorrowState::Available(value) => (BorrowState::Exclusive, Some(value)),
        other => (other, None),
    }
}

/// One shared-borrow attempt, decided over the state read from the cell: an
/// available payload moves into a shared block with one reader; an already
/// shared payload below the reader-count's ceiling gains one more reader;
/// an exclusively borrowed (or reader-saturated) cell is a borrow conflict
/// — the state goes back unchanged and nothing is granted. What is granted
/// is always the payload the cell held.
pub fn shared_borrow_step<T>(state: BorrowState<T>) -> (r: (BorrowState<T>, Option<Rc<T>>))
    ensures
        (state matches BorrowState::Available(v) ==> {
            &&& (r.0 matches BorrowState::Shared(s, n) && s == v && n == 1)
            &&& (r.1 matches Some(mine) && mine == v)
        }),
        (state matches BorrowState::Shared(s0, n0) ==> {
            &&& n0 < u32::MAX ==> {
                &&& (r.0 matches BorrowState::Shared(s, n) && s == s0 && n == n0 + 1)
                &&& (r.1 matches Some(mine) && mine == s0)
            }
            &&& n0 == u32::MAX ==> r.0 == state && r.1 is None
        }),
        state is Exclusive ==> r.0 == state && r.1 is None,
{
    match state {
        BorrowState::Available(value) => {
            let shared = Rc::new(value);
            let mine = shared.clone();
            (BorrowState::Shared(shared, 1), Some(mine))
        },
        BorrowState::Shared(shared, readers) => {
            if readers < u32::MAX {
                let mine = shared.clone();
                (BorrowState::Shared(shared, readers + 1), Some(mine))
            } else {
                (BorrowState::Shared(shared, readers), None)
            }
        },
        BorrowState::Exclusive => (BorrowState::Exclusive, None),
    }
}

/// The end of one shared borrow, decided over the state read from the cell
/// and this borrow's own share of the payload (which it gives up). With
/// other readers still out, the count goes down by one. For the last
/// reader the shared block is dismantled and the payload comes to rest —
/// unless a share besides the cell's own is still held (a read guard was
/// discarded rather than released), in which case the cell stays shared
/// with that one reader counted. Any other state goes back unchanged.
pub fn shared_release_step<T>(state: BorrowState<T>, mine: Rc<T>) -> (r: BorrowState<T>)
    ensures
        (state matches BorrowState::Shared(s0, n0) ==> {
            &&& n0 > 1 ==> (r matches BorrowState::Shared(s, n) && s == s0 && n == n0 - 1)
            &&& n0 == 1 ==> ((r matches BorrowState::Available(v) && v == s0) || (
            r matches BorrowState::Shared(s, n) && s == s0 && n == 1))
        }),
        !(state is Shared) ==> r == state,
{
    match state {
        BorrowState::Shared(shared, readers) => {
            if readers > 1 {
                BorrowState::Shared(shared, readers - 1)
            } else {
                {
                    // give up this borrow's share first, so that the shared
                    // block can be dismantled below
                    let _last_share = mine;
                }
                match Rc::try_unwrap(shared) {
                    Ok(value) => BorrowState::Available(value),
                    Err(again) => BorrowState::Shared(again, 1),
                }
            }
        },
        other => other,
    }
}

/// The end of the one exclusive borrow: the (possibly updated) value of its
/// guard comes to rest in the cell, whatever state the cell showed.
pub fn exclusive_release_step<T>(value: T) -> (r: BorrowState<T>)
    ensures
        r matches BorrowState::Available(v) && v == value,
{
    BorrowState::Available(value)
}

/// The dismantling of a cell, decided over its final state: an at-rest
/// payload is handed back; a shared block is dismantled and hands the
/// payload back unless a discarded read guard still holds a share; a cell
/// left exclusively borrowed has nothing to hand back.
pub fn into_inner_step<T>(state: BorrowState<T>) -> (r: Option<T>)
    ensures
        (state matches BorrowState::Available(v) ==> r == Some(v)),
        state is Exclusive ==> r is None,
        (state matches BorrowState::Shared(s0, n0) ==> (r matches Some(v) ==> v == s0)),
{
    match state {
        BorrowState::Available(value) => Some(value),
        BorrowState::Shared(shared, _) => match Rc::try_unwrap(shared) {
            Ok(value) => Some(value),
            Err(_) => None,
        },
        BorrowState::Exclusive => None,
    }
}

/// Runtime-borrow-checked cell whose borrows demand a possession proof for
/// the domain named by its tag.
///
/// The cell tracks either any number of outstanding shared borrows or one
/// outstanding exclusive borrow, never both. A borrow that conflicts with
/// the borrows outstanding fails by returning `None` — the borrow-conflict
/// failure. Each borrow guard holds a reference to the cell and to nothing
/// past the possession proof's borrow, so no borrow guard can outlive the
/// lock acquisition it was begun under.
///
/// Which state the cell holds at a given call is runtime history that the
/// contracts cannot read; what each operation does *for every state* is
/// fixed by the contracts of the step functions above, and a borrow
/// observes whatever payload the cell held.
///
/// Unlike the shared-ownership handle, the cell owns no shared count of its
/// own, so its destruction needs no proof: `into_inner` retires the cell
/// and hands the payload back without a guard.
pub struct RootedRefCell<T> {
    tag: Tag,
    cell: InvCell<BorrowState<T>, AnyContents>,
}

impl<T> RootedRefCell<T> {
    /// The tag of the domain guarding this cell's borrows.
    pub closed spec fn tag(self) -> Tag {
        self.tag
    }

    /// Wraps `val` in a cell tagged with `tag`, with no borrow outstanding.
    /// Construction needs no possession proof.
    pub fn new(tag: Tag, val: T) -> (r: RootedRefCell<T>)
        ensures
            r.tag() == tag,
    {
        RootedRefCell { tag, cell: InvCell::new(BorrowState::Available(val), Ghost(AnyContents {})) }
    }

    /// Begins a shared borrow under a matching possession proof, by one
    /// `shared_borrow_step` on the cell's state. Succeeds while no
    /// exclusive borrow is outstanding; any number of shared borrows may be
    /// outstanding at once.
    pub fn borrow<'a, 'r>(&'a self, guard: &'a GraphRootGuard<'r>) -> (r: Option<
        ReadGuard<'a, T>,
    >)
        requires
            guard@ == self.tag(),
        ensures
            r matches Some(g) ==> g.cell() == *self,
    {
        let state = self.cell.replace(BorrowState::Exclusive);
        let (back, granted) = shared_borrow_step(state);
        self.cell.set(back);
        match granted {
            Some(mine) => Some(ReadGuard { owner: self, shared: mine }),
            None => None,
        }
    }

    /// Begins an exclusive borrow under a matching possession proof, by one
    /// `exclusive_borrow_step` on the cell's state. Succeeds while no
    /// borrow of either kind is outstanding; the guard then holds the
    /// payload the cell held.
    pub fn borrow_mut<'a, 'r>(&'a self, guard: &'a GraphRootGuard<'r>) -> (r: Option<
        WriteGuard<'a, T>,
    >)
        requires
            guard@ == self.tag(),
        ensures
            r matches Some(g) ==> g.cell() == *self,
    {
        let state = self.cell.replace(BorrowState::Exclusive);
        let (back, taken) = exclusive_borrow_step(state);
        self.cell.set(back);
        match taken {
            Some(value) => Some(WriteGuard { owner: self, value }),
            None => None,
        }
    }

    /// True exactly when `guard` proves possession of this cell's domain:
    /// the runtime form of the identity check that the borrow operations
    /// demand. A caller outside verified code tests this before borrowing
    /// and treats `false` as a fatal identity mismatch.
    pub fn tag_matches(&self, guard: &GraphRootGuard<'_>) -> (r: bool)
        ensures
            r == (guard@ == self.tag()),
    {
        guard.tag() == self.tag
    }

    /// Retires the cell and hands its payload back, without a guard, by one
    /// `into_inner_step` on the cell's final state. `None` only if a borrow
    /// guard was discarded instead of released and the payload is therefore
    /// gone from the cell.
    pub fn into_inner(self) -> (r: Option<T>) {
        let RootedRefCell { tag: _, cell } = self;
        into_inner_step(cell.into_inner())
    }
}

/// Shared borrow of a `RootedRefCell`: read access to the borrowed value.
/// Any number may be outstanding at once.
///
/// Ends when `release` gives the borrow back; once the last shared borrow is
/// released the payload is at rest in the cell again. A guard that is
/// discarded instead is counted as outstanding for good: the cell stays
/// readable but can never again be borrowed exclusively.
pub struct ReadGuard<'a, T> {
    owner: &'a RootedRefCell<T>,
    shared: Rc<T>,
}

impl<'a, T> ReadGuard<'a, T> {
    /// The cell this borrow came from.
    pub closed spec fn cell(self) -> RootedRefCell<T> {
        *self.owner
    }

    /// The borrowed value.
    pub closed spec fn value(self) -> Rc<T> {
        self.shared
    }

    /// Read access to the borrowed value.
    pub fn get(&self) -> (r: &T)
        ensures
            *r == self.value(),
    {
        &*self.shared
    }

    /// Ends this shared borrow, by one `shared_release_step` on the cell's
    /// state. When it was the last one outstanding, the value comes to rest
    /// in the cell again.
    pub fn release(self) {
        let ReadGuard { owner, shared: mine } = self;
        let state = owner.cell.replace(BorrowState::Exclusive);
        let back = shared_release_step(state, mine);
        owner.cell.set(back);
    }
}

/// Exclusive borrow of a `RootedRefCell`: read and write access to the
/// borrowed value. At most one may be outstanding, and only while no shared
/// borrow is.
///
/// Ends when `release` stores the (possibly updated) value back. A guard
/// that is discarded instead leaves the cell empty for good: every later
/// borrow fails, and the borrowed value is destroyed together with the
/// guard.
pub struct WriteGuard<'a, T> {
    owner: &'a RootedRefCell<T>,
    value: T,
}

impl<'a, T> WriteGuard<'a, T> {
    /// The cell this borrow came from.
    pub closed spec fn cell(self) -> RootedRefCell<T> {
        *self.owner
    }

    /// The borrowed value.
    pub closed spec fn value(self) -> T {
        self.value
    }

    /// Read access to the borrowed value.
    pub fn get(&self) -> (r: &T)
        ensures
            *r == self.value(),
    {
        &self.value
    }

    /// Overwrites the borrowed value.
    pub fn set(&mut self, v: T)
        ensures
            final(self).value() == v,
            final(self).cell() == old(self).cell(),
    {
        self.value = v;
    }

    /// Ends the exclusive borrow: by `exclusive_release_step`, exactly this
    /// guard's value — the value last stored with `set`, or the borrowed
    /// one — comes to rest in the cell.
    pub fn release(self) {
        let WriteGuard { owner, value } = self;
        let back = exclusive_release_step(value);
        let _ = owner.cell.replace(back);
    }
}

} // verus!
