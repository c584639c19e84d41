use rcu_cell::{ArcPointer, Busy, RcuCell, Shared};
use std::sync::atomic::Ordering::SeqCst;

fn h(v: u64) -> Option<Shared> {
    Shared::new(v * 8)
}

fn val(x: Option<Shared>) -> Option<u64> {
    x.map(|s| s.as_ptr() / 8)
}

fn read_val(c: &RcuCell<Option<Shared>>) -> Option<u64> {
    val(c.read().unwrap())
}

#[test]
fn test_default() {
    let x = RcuCell::<Option<Shared>>::none();
    assert!(x.read().unwrap().is_none());
    assert!(x.is_none());
}

#[test]
fn single_thread() {
    let t = RcuCell::new(h(10));
    let x = t.read().unwrap();
    let y = t.read().unwrap();
    let taken = t.take().unwrap();
    let z = t.read().unwrap();
    assert_eq!(val(x), Some(10));
    assert_eq!(val(y), Some(10));
    assert_eq!(val(taken), Some(10));
    assert_eq!(val(z), None);
}

#[test]
fn test_is_none() {
    let t = RcuCell::new(h(10));
    assert!(!t.is_none());
    t.take().unwrap();
    assert!(t.is_none());
}

#[test]
fn test_rcu_take() {
    let t = RcuCell::new(h(10));
    let d1 = t.take().unwrap();
    assert_eq!(val(d1), Some(10));
    assert_eq!(read_val(&t), None);
    let d2 = t.write(h(42)).unwrap();
    assert!(d2.is_none());
    assert_eq!(read_val(&t), Some(42));
}

#[test]
fn test_rcu_reader() {
    let t = RcuCell::new(h(10));
    let d1 = t.read().unwrap();
    let d3 = t.read().unwrap();
    let old = t.write(h(11)).unwrap();
    let d2 = t.read().unwrap();
    assert_ne!(d1, d2);
    assert_eq!(d1, d3);
    assert_ne!(d2, d3);
    assert_eq!(val(old), Some(10));
}

#[test]
fn update_through_writer_bit() {
    let t = RcuCell::new(h(10));
    let seen = t.lock_update().unwrap();
    assert_eq!(val(seen), Some(10));
    let next = val(seen).map(|x| x + 1).and_then(h);
    let old = t.unlock_update(next).unwrap();
    assert_eq!(read_val(&t), Some(11));
    assert_eq!(val(old), Some(10));

    let seen = t.lock_update().unwrap();
    let next = match val(seen) {
        Some(11) => None,
        _ => h(42),
    };
    let old = t.unlock_update(next).unwrap();
    assert!(t.read().unwrap().is_none());
    assert_eq!(val(old), Some(11));
}

#[test]
fn update_keeps_other_writers_out() {
    let t = RcuCell::new(h(10));
    let _seen = t.lock_update().unwrap();
    assert_eq!(t.lock_update(), Err(Busy::Contended));
    let back = t.set(h(20)).unwrap_err();
    assert_eq!(val(back), Some(20));
    assert_eq!(t.take(), Err(Busy::Contended));
    // readers still get in while the writer bit is held
    assert_eq!(read_val(&t), Some(10));
    let old = t.unlock_update(h(30)).unwrap();
    assert_eq!(val(old), Some(10));
    assert_eq!(read_val(&t), Some(30));
}

#[test]
fn unlock_update_without_lock_is_refused() {
    let t = RcuCell::new(h(10));
    let back = t.unlock_update(h(11)).unwrap_err();
    assert_eq!(val(back), Some(11));
    assert_eq!(read_val(&t), Some(10));
}

#[test]
fn test_arc_eq() {
    let t = RcuCell::new(h(10));
    let v = t.read().unwrap();
    assert!(t.arc_eq(&v));
    t.write(h(11)).unwrap();
    assert!(!t.arc_eq(&v));
    let t1 = RcuCell::new(v);
    assert!(t1.arc_eq(&v));
    let v2 = t.write(v).unwrap();
    let t2 = RcuCell::new(v2);
    assert!(RcuCell::ptr_eq(&t, &t1));
    assert!(t2.arc_eq(&v2));
    assert_eq!(val(v2), Some(11));
}

#[test]
fn cas_test() {
    let a = RcuCell::new(h(1234));
    let curr = a.read().unwrap().as_ptr();
    let res1 = a.compare_exchange(curr, &None, SeqCst, SeqCst).unwrap().unwrap();
    assert_eq!(res1, curr);
    assert!(a.is_none());
    let res2 = a.compare_exchange(res1, &h(5678), SeqCst, SeqCst).unwrap();
    assert_eq!(res2, Err(0));
    let res3 = a.compare_exchange(0, &h(5678), SeqCst, SeqCst).unwrap();
    assert_eq!(res3, Ok(0));
    assert_eq!(read_val(&a), Some(5678));
}

#[test]
fn cas_under_update_is_busy() {
    let a = RcuCell::new(h(7));
    let _seen = a.lock_update().unwrap();
    assert_eq!(a.compare_exchange(56, &h(8), SeqCst, SeqCst), Err(Busy::Contended));
    assert_eq!(a.compare_exchange(0, &h(8), SeqCst, SeqCst), Ok(Err(56)));
}

#[test]
fn write_then_read_sees_written() {
    let t = RcuCell::<Option<Shared>>::none();
    let w = h(99);
    t.write(w).unwrap();
    let r = t.read().unwrap();
    assert_eq!(r, w);
    assert!(t.arc_eq(&w));
}

#[test]
fn from_then_into_arc_round_trips() {
    let some = h(5);
    assert_eq!(RcuCell::new(some).into_arc(), some);
    let none: Option<Shared> = None;
    assert_eq!(RcuCell::new(none).into_arc(), None);
}

#[test]
fn empty_cell_reads_nothing() {
    let t = RcuCell::<Option<Shared>>::none();
    assert!(t.is_none());
    assert_eq!(t.take(), Ok(None));
    assert_eq!(t.into_arc(), None);
}

#[test]
fn shared_is_none_only_for_null() {
    assert_eq!(Shared::new(0), None);
    assert_eq!(Shared::new(1).map(|s| s.as_ptr()), Some(1));
    assert_eq!(Shared::new(12).map(|s| s.as_ptr()), Some(12));
    assert_eq!(Shared::new(16).map(|s| s.as_ptr()), Some(16));
    let some = h(3);
    assert_eq!(some.as_ptr(), 24);
    assert_eq!(<Option<Shared> as ArcPointer>::from_raw(24), some);
}
