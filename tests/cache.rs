use std::cell::Cell;

use opengl_examples_rs::cache::Cached;

#[test]
fn new_cache_is_stale_until_refreshed() {
    let mut c = Cached::new_stale(0u32);
    assert!(c.is_dirty());
    assert!(c.refresh(|| 7));
    assert!(!c.is_dirty());
    assert_eq!(*c.get(), 7);
}

#[test]
fn second_refresh_does_not_recompute() {
    let calls = Cell::new(0u32);
    let mut c = Cached::new_stale([0i64; 4]);
    c.refresh(|| {
        calls.set(calls.get() + 1);
        [1, 2, 3, 4]
    });
    let first = *c.get();
    let ran = c.refresh(|| {
        calls.set(calls.get() + 1);
        [9, 9, 9, 9]
    });
    assert!(!ran);
    assert_eq!(calls.get(), 1);
    assert_eq!(*c.get(), first);
    assert!(!c.is_dirty());
}

#[test]
fn invalidate_keeps_value_and_forces_recompute() {
    let mut c = Cached::new_stale(1u8);
    c.refresh(|| 2);
    c.invalidate();
    assert!(c.is_dirty());
    assert_eq!(*c.get(), 2);
    assert!(c.refresh(|| 3));
    assert_eq!(*c.get(), 3);
}
