use std::cell::Cell;
use std::rc::Rc;

use sync_primitives::arc::{Arc, ArcData, Arena};
use sync_primitives::utils::non_null_from;

struct DetectDrop {
    drops: Rc<Cell<usize>>,
}

impl Drop for DetectDrop {
    fn drop(&mut self) {
        self.drops.set(self.drops.get() + 1);
    }
}

fn detector() -> (DetectDrop, Rc<Cell<usize>>) {
    let drops = Rc::new(Cell::new(0));
    (DetectDrop { drops: drops.clone() }, drops)
}

#[test]
fn test() {
    let (detect, num_drops) = detector();
    let mut arena = Arena::new();

    // Two handles share an object that holds a string and a drop detector.
    let x = Arc::new(&mut arena, ("hello", detect));
    let y = x.clone(&mut arena);

    // One handle is used and given up.
    assert_eq!(x.deref(&arena).0, "hello");
    assert!(x.drop(&mut arena).is_none());

    // The other is still usable.
    assert_eq!(y.deref(&arena).0, "hello");

    // One handle is gone, one is left: the object is still there.
    assert_eq!(num_drops.get(), 0);

    // With the last handle the object goes.
    drop(y.drop(&mut arena));
    assert_eq!(num_drops.get(), 1);
}

fn drop_three_in_order(order: [usize; 3]) {
    let (detect, num_drops) = detector();
    let mut arena = Arena::new();
    let first = Arc::new(&mut arena, detect);
    let second = first.clone(&mut arena);
    let third = second.clone(&mut arena);
    assert_eq!(third.ref_count(&arena), 3);

    let mut handles = [Some(first), Some(second), Some(third)];
    for (done, which) in order.iter().enumerate() {
        assert_eq!(num_drops.get(), 0);
        let handle = handles[*which].take().unwrap();
        let payload = handle.drop(&mut arena);
        assert_eq!(payload.is_some(), done == 2);
        drop(payload);
    }
    assert_eq!(num_drops.get(), 1);
}

#[test]
fn three_handles_dropped_in_any_order_destroy_once() {
    drop_three_in_order([0, 1, 2]);
    drop_three_in_order([0, 2, 1]);
    drop_three_in_order([1, 0, 2]);
    drop_three_in_order([1, 2, 0]);
    drop_three_in_order([2, 0, 1]);
    drop_three_in_order([2, 1, 0]);
}

#[test]
fn clones_and_drops_interleaved_destroy_once() {
    let (detect, num_drops) = detector();
    let mut arena = Arena::new();
    let a = Arc::new(&mut arena, detect);
    let b = a.clone(&mut arena);
    assert!(a.drop(&mut arena).is_none());
    let c = b.clone(&mut arena);
    let d = c.clone(&mut arena);
    assert_eq!(d.ref_count(&arena), 3);
    assert!(c.drop(&mut arena).is_none());
    assert!(b.drop(&mut arena).is_none());
    assert_eq!(d.ref_count(&arena), 1);
    assert_eq!(num_drops.get(), 0);
    assert!(d.drop(&mut arena).is_some());
    assert_eq!(num_drops.get(), 1);
}

#[test]
fn new_handle_is_the_only_owner() {
    let mut arena = Arena::new();
    let arc = Arc::new(&mut arena, 5u32);
    assert_eq!(arc.ref_count(&arena), 1);
    assert!(arc.can_clone(&arena));
    assert_eq!(*arc.deref(&arena), 5);
    assert_eq!(arc.drop(&mut arena), Some(5));
}

#[test]
fn get_mut_needs_the_only_handle() {
    let mut arena = Arena::new();
    let mut x = Arc::new(&mut arena, String::from("one"));

    // One handle: the payload can be changed.
    match Arc::get_mut(&mut x, &mut arena) {
        Some(data) => data.push_str(" and only"),
        None => panic!("the only handle was refused"),
    }
    assert_eq!(x.deref(&arena).as_str(), "one and only");

    // Two handles: neither may change it.
    let mut y = x.clone(&mut arena);
    assert!(Arc::get_mut(&mut x, &mut arena).is_none());
    assert!(Arc::get_mut(&mut y, &mut arena).is_none());

    // Three handles: still refused.
    let z = y.clone(&mut arena);
    assert!(Arc::get_mut(&mut x, &mut arena).is_none());
    assert!(z.drop(&mut arena).is_none());
    assert!(x.drop(&mut arena).is_none());

    // One handle again.
    match Arc::get_mut(&mut y, &mut arena) {
        Some(data) => *data = String::from("changed"),
        None => panic!("the last handle was refused"),
    }
    assert_eq!(y.drop(&mut arena), Some(String::from("changed")));
}

#[test]
fn every_handle_reads_the_same_payload() {
    let mut arena = Arena::new();
    let x = Arc::new(&mut arena, vec![1, 2, 3]);
    let y = x.clone(&mut arena);
    assert_eq!(x.deref(&arena), &vec![1, 2, 3]);
    assert_eq!(y.deref(&arena), &vec![1, 2, 3]);
    assert_eq!(x.ref_count(&arena), 2);
    assert_eq!(y.ref_count(&arena), 2);
    assert!(y.drop(&mut arena).is_none());
    assert_eq!(x.drop(&mut arena), Some(vec![1, 2, 3]));
}

#[test]
fn blocks_of_one_arena_do_not_touch_each_other() {
    let (detect_a, drops_a) = detector();
    let (detect_b, drops_b) = detector();
    let mut arena = Arena::new();
    let a = Arc::new(&mut arena, detect_a);
    let b = Arc::new(&mut arena, detect_b);
    let b2 = b.clone(&mut arena);
    assert_eq!(a.ref_count(&arena), 1);
    assert_eq!(b.ref_count(&arena), 2);
    assert!(a.drop(&mut arena).is_some());
    assert_eq!(drops_a.get(), 1);
    assert_eq!(drops_b.get(), 0);
    assert_eq!(b2.ref_count(&arena), 2);
    assert!(b.drop(&mut arena).is_none());
    assert!(b2.drop(&mut arena).is_some());
    assert_eq!(drops_a.get(), 1);
    assert_eq!(drops_b.get(), 1);
}

#[test]
fn arena_dropped_with_live_handles_destroys_once() {
    let (detect, num_drops) = detector();
    {
        let mut arena = Arena::new();
        let a = Arc::new(&mut arena, detect);
        let _b = a.clone(&mut arena);
        assert_eq!(num_drops.get(), 0);
    }
    assert_eq!(num_drops.get(), 1);
}

#[test]
fn control_block_can_be_built_alone() {
    let mut heap: Vec<Option<ArcData<u8>>> = Vec::new();
    let first = non_null_from(&mut heap, ArcData::new(1));
    let second = non_null_from(&mut heap, ArcData::default());
    assert_eq!(first, 0);
    assert_eq!(second, 1);
    assert_eq!(heap.len(), 2);
    assert!(heap[0].is_some());
    assert!(heap[1].is_some());
}

#[test]
fn non_null_from_keeps_what_was_there() {
    let mut heap = vec![Some("a"), None, Some("b")];
    let ptr = non_null_from(&mut heap, "c");
    assert_eq!(ptr, 3);
    assert_eq!(heap, vec![Some("a"), None, Some("b"), Some("c")]);
}

fn goes_between_threads<T: Send + Sync>(_: &T) {}

#[test]
fn handle_of_a_shareable_payload_goes_between_threads() {
    let mut arena = Arena::new();
    let arc = Arc::new(&mut arena, 1u64);
    goes_between_threads(&arc);
    goes_between_threads(&arena);
    assert_eq!(arc.drop(&mut arena), Some(1));
}
