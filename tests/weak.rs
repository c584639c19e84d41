use rcu_cell::{RcuWeak, Shared};

fn h(v: u64) -> Option<Shared> {
    Shared::new(v * 8)
}

#[test]
fn new_weak_upgrades_to_nothing() {
    let w = RcuWeak::<Option<Shared>>::new();
    assert_eq!(w.upgrade(), Ok(None));
    assert_eq!(w.read(), Ok(None));
    assert_eq!(w.into_weak(), None);
}

#[test]
fn weak_write_read_take() {
    let w = RcuWeak::new();
    let old = w.write(h(4)).unwrap();
    assert_eq!(old, None);
    assert_eq!(w.read(), Ok(h(4)));
    assert_eq!(w.upgrade(), Ok(h(4)));
    assert!(w.weak_eq(&h(4)));
    assert!(w.arc_eq(&h(4)));
    assert!(!w.arc_eq(&h(5)));
    assert_eq!(w.take(), Ok(h(4)));
    assert_eq!(w.read(), Ok(None));
}

#[test]
fn weak_write_arc_and_ptr_eq() {
    let a = RcuWeak::from(h(6));
    let b = RcuWeak::<Option<Shared>>::new();
    assert!(!RcuWeak::ptr_eq(&a, &b));
    assert_eq!(b.write_arc(&h(6)), Ok(None));
    assert!(RcuWeak::ptr_eq(&a, &b));
    assert_eq!(b.into_weak(), h(6));
}
