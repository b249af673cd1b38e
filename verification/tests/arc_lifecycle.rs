use refcounted::arc::ArcHeap;
use refcounted::heap::Heap;
use refcounted::ReferenceCounted;

#[test]
fn arc_new_starts_with_one_owner() {
    let mut heap: ArcHeap<i32> = Heap::new();
    let h = heap.new_handle(42);
    assert_eq!(heap.reference_count(&h), 1);
    assert!(heap.can_make_mut(&h));
    assert_eq!(*heap.read(&h), 42);

    let mut words: ArcHeap<String> = Heap::new();
    let w = words.new_handle(String::from("shared"));
    assert_eq!(words.reference_count(&w), 1);
    assert_eq!(*words.read(&w), "shared");
}

#[test]
fn arc_clone_increments_count_for_both_handles() {
    let mut heap: ArcHeap<i32> = Heap::new();
    let h = heap.new_handle(7);
    let before = heap.reference_count(&h);
    let twin = heap.clone_handle(&h);
    assert_eq!(heap.reference_count(&h), before + 1);
    assert_eq!(heap.reference_count(&twin), before + 1);
    assert_eq!(*heap.read(&h), 7);
    assert_eq!(*heap.read(&twin), 7);
}

#[test]
fn arc_second_release_frees_exactly_once() {
    let mut heap: ArcHeap<String> = Heap::new();
    let first = heap.new_handle(String::from("payload"));
    let second = heap.clone_handle(&first);

    // The first release must not destroy the payload.
    assert_eq!(heap.release(first), None);
    assert_eq!(heap.reference_count(&second), 1);
    assert_eq!(*heap.read(&second), "payload");

    // The second release destroys it, exactly once.
    assert_eq!(heap.release(second), Some(String::from("payload")));
}

#[test]
fn arc_can_make_mut_iff_sole_owner() {
    let mut heap: ArcHeap<u8> = Heap::new();
    let h = heap.new_handle(1);
    assert!(heap.can_make_mut(&h));
    assert_eq!(heap.reference_count(&h), 1);

    let twin = heap.clone_handle(&h);
    assert!(!heap.can_make_mut(&h));
    assert!(!heap.can_make_mut(&twin));
    assert_eq!(heap.reference_count(&h), 2);

    assert_eq!(heap.release(twin), None);
    assert!(heap.can_make_mut(&h));
    assert_eq!(heap.reference_count(&h), 1);

    assert_eq!(heap.release(h), Some(1));
}

#[test]
fn arc_try_unwrap_succeeds_iff_sole_owner() {
    let mut heap: ArcHeap<i64> = Heap::new();
    let h = heap.new_handle(-9);
    let twin = heap.clone_handle(&h);

    // Still shared: the attempt fails and has no observable side effect.
    let h = match heap.try_unwrap(h) {
        Ok(_) => panic!("try_unwrap succeeded while shared"),
        Err(returned) => returned,
    };
    assert_eq!(heap.reference_count(&h), 2);
    assert_eq!(*heap.read(&h), -9);

    // Down to one owner: the attempt succeeds.
    assert_eq!(heap.release(twin), None);
    match heap.try_unwrap(h) {
        Ok(payload) => assert_eq!(payload, -9),
        Err(_) => panic!("try_unwrap failed for a sole owner"),
    }
}

#[test]
fn arc_unique_roundtrip_keeps_count() {
    let mut heap: ArcHeap<i32> = Heap::new();
    let h = heap.new_handle(3);
    let before = heap.reference_count(&h);

    let unique = heap.into_unique(h);
    let back = unique.into_shared();

    assert_eq!(heap.reference_count(&back), before);
    assert_eq!(*heap.read(&back), 3);
}

#[test]
fn arc_try_into_unique_succeeds_iff_sole_owner() {
    let mut heap: ArcHeap<i32> = Heap::new();
    let h = heap.new_handle(4);
    let twin = heap.clone_handle(&h);

    // Still shared: the conversion is refused.
    let h = match heap.try_into_unique(h) {
        Ok(_) => panic!("conversion succeeded while shared"),
        Err(returned) => returned,
    };
    assert_eq!(heap.reference_count(&h), 2);

    // Sole owner again: the conversion succeeds, leaving the count at 1.
    assert_eq!(heap.release(twin), None);
    match heap.try_into_unique(h) {
        Ok(unique) => {
            let back = unique.into_shared();
            assert_eq!(heap.reference_count(&back), 1);
        },
        Err(_) => panic!("conversion failed for a sole owner"),
    }
}

#[test]
fn arc_write_sole_swaps_payload() {
    let mut heap: ArcHeap<i32> = Heap::new();
    let h = heap.new_handle(30);
    let previous = heap.write_sole(&h, 31);
    assert_eq!(previous, 30);
    assert_eq!(*heap.read(&h), 31);
    assert_eq!(heap.reference_count(&h), 1);
}

#[test]
fn arc_unique_write_and_take() {
    let mut heap: ArcHeap<i32> = Heap::new();
    let unique = heap.new_unique(5);
    assert_eq!(*heap.read_unique(&unique), 5);

    let previous = heap.write_unique(&unique, 9);
    assert_eq!(previous, 5);
    assert_eq!(*heap.read_unique(&unique), 9);

    assert_eq!(heap.take_unique(unique), 9);
}

#[test]
fn arc_allocations_are_independent() {
    let mut heap: ArcHeap<i32> = Heap::new();
    let a = heap.new_handle(10);
    let b = heap.new_handle(20);

    let a2 = heap.clone_handle(&a);
    assert_eq!(heap.reference_count(&a), 2);
    assert_eq!(heap.reference_count(&b), 1);
    assert_eq!(*heap.read(&b), 20);

    assert_eq!(heap.release(a), None);
    assert_eq!(heap.release(a2), Some(10));
    assert_eq!(heap.release(b), Some(20));
}

#[test]
fn arc_scenario_new_clone_release_unwrap() {
    let mut heap: ArcHeap<i32> = Heap::new();
    let h = heap.new_handle(42);
    assert_eq!(heap.reference_count(&h), 1);

    let twin = heap.clone_handle(&h);
    assert_eq!(heap.reference_count(&h), 2);
    assert_eq!(heap.reference_count(&twin), 2);

    assert_eq!(heap.release(twin), None);
    assert_eq!(heap.reference_count(&h), 1);

    match heap.try_unwrap(h) {
        Ok(payload) => assert_eq!(payload, 42),
        Err(_) => panic!("try_unwrap failed for a sole owner"),
    }
}
