use objgraph::rc::RootedRc;
use objgraph::refcell::exclusive_borrow_step;
use objgraph::refcell::exclusive_release_step;
use objgraph::refcell::into_inner_step;
use objgraph::refcell::shared_borrow_step;
use objgraph::refcell::shared_release_step;
use objgraph::refcell::BorrowState;
use objgraph::refcell::RootedRefCell;
use objgraph::Root;
use objgraph::TagAllocator;

use std::cell::Cell;
use std::rc::Rc;

/// Payload whose destruction is observable through a shared counter.
struct DropTally {
    drops: Rc<Cell<u32>>,
}

impl Drop for DropTally {
    fn drop(&mut self) {
        self.drops.set(self.drops.get() + 1);
    }
}

#[test]
fn borrow_steps_decide_by_state() {
    // exclusive: only the at-rest state grants, everything else goes back
    let (back, taken) = exclusive_borrow_step(BorrowState::Available(5u32));
    assert!(matches!(back, BorrowState::Exclusive));
    assert_eq!(taken, Some(5));

    let (back, taken) = exclusive_borrow_step::<u32>(BorrowState::Exclusive);
    assert!(matches!(back, BorrowState::Exclusive));
    assert_eq!(taken, None);

    let (back, taken) = exclusive_borrow_step(BorrowState::Shared(Rc::new(7u32), 1));
    assert!(matches!(back, BorrowState::Shared(_, 1)));
    assert_eq!(taken, None);

    // shared: at-rest and below-saturation shared states grant the payload
    let (back, granted) = shared_borrow_step(BorrowState::Available(5u32));
    match back {
        BorrowState::Shared(s, 1) => assert_eq!(*s, 5),
        _ => panic!("an at-rest payload moves into a shared block with one reader"),
    }
    assert_eq!(*granted.expect("granted"), 5);

    let (back, granted) = shared_borrow_step(BorrowState::Shared(Rc::new(7u32), 2));
    assert!(matches!(back, BorrowState::Shared(_, 3)));
    assert_eq!(*granted.expect("granted"), 7);

    let (back, granted) = shared_borrow_step::<u32>(BorrowState::Exclusive);
    assert!(matches!(back, BorrowState::Exclusive));
    assert!(granted.is_none());

    let (back, granted) = shared_borrow_step(BorrowState::Shared(Rc::new(7u32), u32::MAX));
    assert!(matches!(back, BorrowState::Shared(_, u32::MAX)));
    assert!(granted.is_none());
}

#[test]
fn release_steps_decide_by_state() {
    // the last reader brings the payload to rest
    let shared = Rc::new(9u32);
    let mine = shared.clone();
    let back = shared_release_step(BorrowState::Shared(shared, 1), mine);
    match back {
        BorrowState::Available(v) => assert_eq!(v, 9),
        _ => panic!("the last reader brings the payload to rest"),
    }

    // a reader that is not the last only lowers the count
    let shared = Rc::new(9u32);
    let mine = shared.clone();
    let other_reader = shared.clone();
    let back = shared_release_step(BorrowState::Shared(shared, 2), mine);
    assert!(matches!(back, BorrowState::Shared(_, 1)));
    drop(other_reader);

    // an exclusive release always brings its value to rest
    match exclusive_release_step(3u32) {
        BorrowState::Available(v) => assert_eq!(v, 3),
        _ => panic!("an exclusive release brings its value to rest"),
    }

    // dismantling hands the payload back except from an exclusively
    // borrowed cell
    assert_eq!(into_inner_step(BorrowState::Available(4u32)), Some(4));
    assert_eq!(into_inner_step::<u32>(BorrowState::Exclusive), None);
    assert_eq!(into_inner_step(BorrowState::Shared(Rc::new(4u32), 1)), Some(4));
}

#[test]
fn conflicting_borrows_fail_and_sequential_borrows_succeed() {
    let mut tags = TagAllocator::new();
    let d = Root::new(&mut tags);
    let c = RootedRefCell::new(d.tag(), 0u32);
    let g = d.lock();
    let w = c.borrow_mut(&g).expect("first exclusive borrow succeeds");
    assert!(c.borrow_mut(&g).is_none());
    assert!(c.borrow(&g).is_none());
    w.release();
    let r = c.borrow(&g).expect("borrow after release succeeds");
    assert!(c.borrow_mut(&g).is_none());
    r.release();
    let w2 = c.borrow_mut(&g).expect("sequential non-overlapping borrows never fail");
    w2.release();
    g.unlock();
}

#[test]
fn multiple_shared_borrows_coexist() {
    let mut tags = TagAllocator::new();
    let d = Root::new(&mut tags);
    let c = RootedRefCell::new(d.tag(), 5u32);
    let g = d.lock();
    let r1 = c.borrow(&g).expect("first shared borrow succeeds");
    let r2 = c.borrow(&g).expect("second shared borrow coexists with the first");
    assert_eq!(*r1.get(), 5);
    assert_eq!(*r2.get(), 5);
    assert!(c.borrow_mut(&g).is_none());
    r1.release();
    assert!(c.borrow_mut(&g).is_none());
    r2.release();
    let mut w = c.borrow_mut(&g).expect("exclusive borrow once every read is released");
    w.set(6);
    w.release();
    g.unlock();
    assert_eq!(c.into_inner().expect("no borrow outstanding"), 6);
}

#[test]
fn leaked_read_guard_keeps_cell_readable() {
    let mut tags = TagAllocator::new();
    let d = Root::new(&mut tags);
    let c = RootedRefCell::new(d.tag(), 1u32);
    let g = d.lock();
    let r = c.borrow(&g).expect("no borrow outstanding");
    drop(r);
    let r2 = c.borrow(&g).expect("cell stays readable");
    assert_eq!(*r2.get(), 1);
    r2.release();
    assert!(c.borrow_mut(&g).is_none());
    g.unlock();
    assert_eq!(c.into_inner(), Some(1));
}

#[test]
fn scenario_write_then_read_across_lock_acquisitions() {
    let mut tags = TagAllocator::new();
    let d = Root::new(&mut tags);
    let h = RootedRc::new(d.tag(), RootedRefCell::new(d.tag(), 0u32));

    // the worker's turn: lock, write, release the borrow and the handle, unlock
    let g = d.lock();
    let hw = h.clone(&g);
    let mut w = hw.get().borrow_mut(&g).expect("no borrow outstanding");
    w.set(3);
    w.release();
    hw.safely_drop(&g);
    g.unlock();

    // the originating side: re-lock and observe the write
    let g = d.lock();
    let r = h.get().borrow(&g).expect("no borrow outstanding");
    assert_eq!(*r.get(), 3);
    r.release();
    h.safely_drop(&g);
    g.unlock();
}

#[test]
fn read_borrow_hands_the_value_back_unchanged() {
    let mut tags = TagAllocator::new();
    let d = Root::new(&mut tags);
    let c = RootedRefCell::new(d.tag(), String::from("abc"));
    let g = d.lock();
    let r = c.borrow(&g).expect("no borrow outstanding");
    assert_eq!(r.get(), "abc");
    r.release();
    g.unlock();
    assert_eq!(c.into_inner().expect("no borrow outstanding"), "abc");
}

#[test]
fn leaked_borrow_guard_empties_the_cell() {
    let drops = Rc::new(Cell::new(0u32));
    let mut tags = TagAllocator::new();
    let d = Root::new(&mut tags);
    let c = RootedRefCell::new(d.tag(), DropTally { drops: drops.clone() });
    let g = d.lock();
    let w = c.borrow_mut(&g).expect("no borrow outstanding");
    drop(w);
    assert_eq!(drops.get(), 1);
    assert!(c.borrow(&g).is_none());
    assert!(c.borrow_mut(&g).is_none());
    g.unlock();
    assert!(c.into_inner().is_none());
}

#[test]
fn cell_destruction_needs_no_guard() {
    let drops = Rc::new(Cell::new(0u32));
    let mut tags = TagAllocator::new();
    let d = Root::new(&mut tags);
    let c = RootedRefCell::new(d.tag(), DropTally { drops: drops.clone() });
    let payload = c.into_inner().expect("no borrow outstanding");
    assert_eq!(drops.get(), 0);
    drop(payload);
    assert_eq!(drops.get(), 1);
}
