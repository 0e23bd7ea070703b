use shared_cell::arc_unsafe_refcell::ArcUnsafeRefCellError;
use shared_cell::arc_unsafe_refcell::ArcUnsafeRefCellWrapper;
use shared_cell::arc_unsafe_refcell::Heap;

#[test]
fn construct_borrow_reads_value() {
    let mut heap: Heap<u64> = Heap::new();
    let h = ArcUnsafeRefCellWrapper::new(&mut heap, 7u64);
    let g = h.borrow(&mut heap).unwrap();
    assert_eq!(*g.deref(&heap), 7u64);
    g.release(&mut heap);
    assert_eq!(h.drop_handle(&mut heap), Some(7u64));
}

#[test]
fn construct_borrow_reads_string_value() {
    let mut heap: Heap<String> = Heap::new();
    let h = ArcUnsafeRefCellWrapper::new(&mut heap, String::from("payload"));
    let g = h.borrow(&mut heap).unwrap();
    assert_eq!(g.deref(&heap).as_str(), "payload");
    g.release(&mut heap);
    assert_eq!(h.drop_handle(&mut heap), Some(String::from("payload")));
}

#[test]
fn write_guard_blocks_read_until_released() {
    let mut heap: Heap<u64> = Heap::new();
    let h = ArcUnsafeRefCellWrapper::new(&mut heap, 1u64);
    let w = h.borrow_mut(&mut heap).unwrap();
    match h.borrow(&mut heap) {
        Err(e) => assert_eq!(e, ArcUnsafeRefCellError::BorrowError),
        Ok(_) => panic!("read granted while a write guard is outstanding"),
    }
    w.release(&mut heap);
    let g = h.borrow(&mut heap).unwrap();
    assert_eq!(*g.deref(&heap), 1u64);
    g.release(&mut heap);
    h.drop_handle(&mut heap);
}

#[test]
fn read_guard_blocks_write_until_released() {
    let mut heap: Heap<u64> = Heap::new();
    let h = ArcUnsafeRefCellWrapper::new(&mut heap, 2u64);
    let g = h.borrow(&mut heap).unwrap();
    match h.borrow_mut(&mut heap) {
        Err(e) => assert_eq!(e, ArcUnsafeRefCellError::BorrowMutError),
        Ok(_) => panic!("write granted while a read guard is outstanding"),
    }
    g.release(&mut heap);
    let w = h.borrow_mut(&mut heap).unwrap();
    *w.deref_mut(&mut heap) = 3;
    w.release(&mut heap);
    assert_eq!(h.drop_handle(&mut heap), Some(3u64));
}

#[test]
fn concurrent_reads_all_succeed() {
    let mut heap: Heap<u64> = Heap::new();
    let h = ArcUnsafeRefCellWrapper::new(&mut heap, 9u64);
    let g1 = h.borrow(&mut heap).unwrap();
    let g2 = h.borrow(&mut heap).unwrap();
    let g3 = h.borrow(&mut heap).unwrap();
    assert_eq!(*g1.deref(&heap), 9u64);
    assert_eq!(*g2.deref(&heap), 9u64);
    assert_eq!(*g3.deref(&heap), 9u64);
    assert!(matches!(
        h.borrow_mut(&mut heap),
        Err(ArcUnsafeRefCellError::BorrowMutError)
    ));
    g1.release(&mut heap);
    g2.release(&mut heap);
    g3.release(&mut heap);
    let w = h.borrow_mut(&mut heap).unwrap();
    w.release(&mut heap);
    h.drop_handle(&mut heap);
}

#[test]
fn clone_increments_drop_decrements() {
    let mut heap: Heap<u64> = Heap::new();
    let h = ArcUnsafeRefCellWrapper::new(&mut heap, 4u64);
    assert_eq!(h.ref_count(&heap), 1);
    let c = h.clone(&mut heap);
    assert_eq!(h.ref_count(&heap), 2);
    assert_eq!(c.ref_count(&heap), 2);
    assert_eq!(c.drop_handle(&mut heap), None);
    assert_eq!(h.ref_count(&heap), 1);
    h.drop_handle(&mut heap);
}

#[test]
fn payload_freed_exactly_once_after_all_handles() {
    let mut heap: Heap<String> = Heap::new();
    let h = ArcUnsafeRefCellWrapper::new(&mut heap, String::from("shared"));
    let c1 = h.clone(&mut heap);
    let c2 = h.clone(&mut heap);
    let c3 = h.clone(&mut heap);
    assert_eq!(h.ref_count(&heap), 4);
    assert_eq!(c1.drop_handle(&mut heap), None);
    assert_eq!(c2.drop_handle(&mut heap), None);
    assert_eq!(c3.drop_handle(&mut heap), None);
    assert_eq!(h.drop_handle(&mut heap), Some(String::from("shared")));
}

#[test]
fn drop_ref_on_sole_owner_fails() {
    let mut heap: Heap<u64> = Heap::new();
    let h = ArcUnsafeRefCellWrapper::new(&mut heap, 5u64);
    assert_eq!(h.ref_count(&heap), 1);
    match h.drop_ref(&mut heap) {
        Err(e) => assert_eq!(e, ArcUnsafeRefCellError::UnableToDrop),
        Ok(_) => panic!("manual release of the last owner was accepted"),
    }
    assert_eq!(h.ref_count(&heap), 1);
    h.drop_handle(&mut heap);
}

#[test]
fn detach_reattach_increments_once() {
    let mut heap: Heap<u64> = Heap::new();
    let h = ArcUnsafeRefCellWrapper::new(&mut heap, 11u64);
    h.clone_ref(&mut heap).unwrap();
    assert_eq!(h.ref_count(&heap), 2);
    let addr = h.get_inner();
    assert_eq!(h.ref_count(&heap), 2);
    let h2 = ArcUnsafeRefCellWrapper::from_inner(&mut heap, addr);
    assert_eq!(h.ref_count(&heap), 3);
    assert_eq!(h2.get_inner(), addr);
    let g = h2.borrow(&mut heap).unwrap();
    assert_eq!(*g.deref(&heap), 11u64);
    g.release(&mut heap);
    h2.drop_ref(&mut heap).unwrap();
    assert_eq!(h2.drop_handle(&mut heap), None);
    assert_eq!(h.drop_handle(&mut heap), Some(11u64));
}

#[test]
fn is_unique_iff_ref_count_one() {
    let mut heap: Heap<u64> = Heap::new();
    let h = ArcUnsafeRefCellWrapper::new(&mut heap, 6u64);
    assert!(h.is_unique(&heap));
    let c = h.clone(&mut heap);
    assert!(!h.is_unique(&heap));
    assert!(!c.is_unique(&heap));
    c.drop_handle(&mut heap);
    assert!(h.is_unique(&heap));
    h.drop_handle(&mut heap);
}

#[test]
fn scenario_clone_drop_write_read() {
    let mut heap: Heap<u64> = Heap::new();
    let h = ArcUnsafeRefCellWrapper::new(&mut heap, 0u64);
    let c = h.clone(&mut heap);
    assert_eq!(h.ref_count(&heap), 2);
    c.drop_handle(&mut heap);
    assert_eq!(h.ref_count(&heap), 1);
    let w = h.borrow_mut(&mut heap).unwrap();
    *w.deref_mut(&mut heap) = 42;
    w.release(&mut heap);
    let g = h.borrow(&mut heap).unwrap();
    assert_eq!(*g.deref(&heap), 42u64);
    g.release(&mut heap);
    h.drop_handle(&mut heap);
}

#[test]
fn clone_ref_fails_under_write_guard() {
    let mut heap: Heap<u64> = Heap::new();
    let h = ArcUnsafeRefCellWrapper::new(&mut heap, 8u64);
    let w = h.borrow_mut(&mut heap).unwrap();
    match h.clone_ref(&mut heap) {
        Err(e) => assert_eq!(e, ArcUnsafeRefCellError::BorrowError),
        Ok(_) => panic!("manual reference clone granted under a write guard"),
    }
    assert_eq!(h.ref_count(&heap), 1);
    w.release(&mut heap);
    h.drop_handle(&mut heap);
}

#[test]
fn unregistered_write_guard_defeats_tracking() {
    let mut heap: Heap<u64> = Heap::new();
    let h = ArcUnsafeRefCellWrapper::new(&mut heap, 13u64);
    let w = h.borrow_mut_unsafe(&mut heap).unwrap();
    // Nothing recorded the guard, so a read is still granted beside it.
    let g = h.borrow(&mut heap).unwrap();
    assert_eq!(*g.deref(&heap), 13u64);
    g.release(&mut heap);
    w.release(&mut heap);
    h.drop_handle(&mut heap);
}

#[test]
fn unregistered_write_guard_still_checks_conflicts() {
    let mut heap: Heap<u64> = Heap::new();
    let h = ArcUnsafeRefCellWrapper::new(&mut heap, 14u64);
    let g = h.borrow(&mut heap).unwrap();
    assert!(matches!(
        h.borrow_mut_unsafe(&mut heap),
        Err(ArcUnsafeRefCellError::BorrowMutError)
    ));
    g.release(&mut heap);
    let w = h.borrow_mut_unsafe(&mut heap).unwrap();
    *w.deref_mut(&mut heap) = 15;
    w.release(&mut heap);
    assert_eq!(h.drop_handle(&mut heap), Some(15u64));
}

#[test]
fn direct_access_bypasses_tracking() {
    let mut heap: Heap<u64> = Heap::new();
    let h = ArcUnsafeRefCellWrapper::new(&mut heap, 21u64);
    assert_eq!(*h.get(&heap), 21u64);
    *h.get_mut(&mut heap) = 22;
    // The counters were never touched, so a write guard is still granted.
    let w = h.borrow_mut(&mut heap).unwrap();
    assert_eq!(*w.deref(&heap), 22u64);
    w.release(&mut heap);
    assert_eq!(h.drop_handle(&mut heap), Some(22u64));
}

#[test]
fn cells_in_one_heap_are_independent() {
    let mut heap: Heap<u64> = Heap::new();
    let a = ArcUnsafeRefCellWrapper::new(&mut heap, 100u64);
    let b = ArcUnsafeRefCellWrapper::new(&mut heap, 200u64);
    assert_ne!(a.get_inner(), b.get_inner());
    let wa = a.borrow_mut(&mut heap).unwrap();
    // A write guard on one cell does not block the other.
    let gb = b.borrow(&mut heap).unwrap();
    assert_eq!(*gb.deref(&heap), 200u64);
    *wa.deref_mut(&mut heap) = 101;
    gb.release(&mut heap);
    wa.release(&mut heap);
    assert_eq!(a.drop_handle(&mut heap), Some(101u64));
    assert_eq!(b.drop_handle(&mut heap), Some(200u64));
}

#[test]
fn freed_addresses_are_not_reused() {
    let mut heap: Heap<u64> = Heap::new();
    let a = ArcUnsafeRefCellWrapper::new(&mut heap, 1u64);
    let old_addr = a.get_inner();
    a.drop_handle(&mut heap);
    let b = ArcUnsafeRefCellWrapper::new(&mut heap, 2u64);
    assert_ne!(b.get_inner(), old_addr);
    b.drop_handle(&mut heap);
}

#[test]
fn error_kinds_describe_themselves() {
    assert_eq!(ArcUnsafeRefCellError::BorrowError.describe(), "BorrowError");
    assert_eq!(
        ArcUnsafeRefCellError::BorrowMutError.describe(),
        "BorrowMutError"
    );
    assert_eq!(ArcUnsafeRefCellError::UnableToDrop.describe(), "UnableToDrop");
}
