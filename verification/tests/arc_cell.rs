use std::sync::atomic::Ordering;
use std::sync::Arc;
use utils::arc_cell::ArcCell;

#[derive(Debug, Clone, PartialEq)]
struct Usize(usize);

#[test]
fn new_then_get_gives_the_value() {
    let cell = ArcCell::new(Arc::new("xmmxm".to_owned()));
    let c2 = cell.get();
    assert_eq!(*c2, "xmmxm");
    drop(cell);
    assert_eq!(*c2, "xmmxm");
}

#[test]
fn get_shares_the_allocation() {
    let data = Arc::new(Usize(7));
    let cell = ArcCell::new(data.clone());
    let got = cell.get();
    assert!(Arc::ptr_eq(&got, &data));
    assert_eq!(Arc::strong_count(&data), 3);
}

#[test]
fn load_with_every_ordering_gives_the_value() {
    let cell = ArcCell::new(Arc::new(Usize(3)));
    for ord in [Ordering::Relaxed, Ordering::Acquire, Ordering::SeqCst] {
        assert_eq!(*cell.load(ord), Usize(3));
    }
}

#[test]
fn store_returns_previous_and_load_reads_new() {
    let mut cell = ArcCell::new(Arc::new(Usize(0)));
    let old = cell.store(Arc::new(Usize(1)), Ordering::Release);
    assert_eq!(*old, Usize(0));
    assert_eq!(*cell.get(), Usize(1));
    let old = cell.set(Arc::new(Usize(2)));
    assert_eq!(*old, Usize(1));
    assert_eq!(*cell.load(Ordering::Acquire), Usize(2));
}

#[test]
fn sequential_updates_as_in_the_stress_run() {
    let mut cell = ArcCell::new(Arc::new(Usize(0)));
    for i in 0..1000usize {
        let old = cell.get();
        assert_eq!(old.0, i);
        let new = Arc::new(Usize(i + 1));
        let rest = cell.compare_and_swap(old.clone(), new.clone(), Ordering::SeqCst);
        assert_eq!(old, rest);
        assert_eq!(cell.get().0, i + 1);
    }
}

#[test]
fn compare_and_swap_with_another_allocation_fails() {
    let mut cell = ArcCell::new(Arc::new(Usize(5)));
    let same_value_elsewhere = Arc::new(Usize(5));
    let new = Arc::new(Usize(6));
    let back = cell.compare_and_swap(same_value_elsewhere, new.clone(), Ordering::SeqCst);
    assert!(Arc::ptr_eq(&back, &new));
    assert_eq!(*cell.get(), Usize(5));
}

#[test]
fn swap_if_follows_the_flag() {
    let mut cell = ArcCell::new(Arc::new(Usize(1)));
    let back = cell.swap_if(false, Arc::new(Usize(2)));
    assert_eq!(*back, Usize(2));
    assert_eq!(*cell.get(), Usize(1));
    let back = cell.swap_if(true, Arc::new(Usize(3)));
    assert_eq!(*back, Usize(1));
    assert_eq!(*cell.get(), Usize(3));
}

#[test]
fn into_inner_gives_the_value() {
    let mut cell = ArcCell::new(Arc::new(Usize(1)));
    cell.set(Arc::new(Usize(9)));
    assert_eq!(*cell.into_inner(), Usize(9));
}

#[test]
fn from_is_new() {
    let cell: ArcCell<String> = ArcCell::from(Arc::new("x".to_owned()));
    assert_eq!(*cell.get(), "x");
    let old = ArcCell::from(Arc::new(1u8)).set(Arc::new(2u8));
    assert_eq!(*old, 1);
}

#[test]
fn store_keeps_the_cells_reference_to_the_old_value() {
    let data = Arc::new(Usize(1));
    let mut cell = ArcCell::new(data.clone());
    assert_eq!(Arc::strong_count(&data), 2);
    let old = cell.store(Arc::new(Usize(2)), Ordering::Release);
    assert!(Arc::ptr_eq(&old, &data));
    assert_eq!(Arc::strong_count(&data), 3);
    drop(old);
    assert_eq!(Arc::strong_count(&data), 2);
}

#[test]
fn compare_and_swap_hands_back_the_cells_reference() {
    let data = Arc::new(Usize(1));
    let mut cell = ArcCell::new(data.clone());
    let current = cell.get();
    let back = cell.compare_and_swap(current, Arc::new(Usize(2)), Ordering::SeqCst);
    assert!(Arc::ptr_eq(&back, &data));
    drop(back);
    assert_eq!(Arc::strong_count(&data), 1);
}

#[test]
fn debug_text_shows_the_address() {
    let data = Arc::new(Usize(4));
    let cell = ArcCell::new(data.clone());
    assert_eq!(cell.debug_text(), format!("ArcCell {{ ptr: {:p} }}", Arc::as_ptr(&data)));
}
