use rcu_cell::{ArcPointer, RcuCell};
use std::sync::atomic::{AtomicI64, Ordering};

/// Charges held on each of sixteen payloads, by address / 8.
static CHARGES: [AtomicI64; 16] = [const { AtomicI64::new(0) }; 16];

fn charges(slot: u64) -> i64 {
    CHARGES[slot as usize].load(Ordering::SeqCst)
}

/// A handle that counts the charges on its payload.
struct Counted(u64);

impl Counted {
    fn new(slot: u64) -> Counted {
        if slot != 0 {
            CHARGES[slot as usize].fetch_add(1, Ordering::SeqCst);
        }
        Counted(slot * 8)
    }
}

impl Drop for Counted {
    fn drop(&mut self) {
        if self.0 != 0 {
            CHARGES[(self.0 / 8) as usize].fetch_sub(1, Ordering::SeqCst);
        }
    }
}

impl ArcPointer for Counted {
    fn addr(&self) -> u64 {
        self.0
    }

    fn as_ptr(&self) -> u64 {
        self.0
    }

    fn into_raw(self) -> u64 {
        let a = self.0;
        std::mem::forget(self);
        a
    }

    fn from_raw(a: u64) -> Counted {
        Counted(a)
    }

    fn clone_raw(a: u64) -> Counted {
        Counted::new(a / 8)
    }
}

#[test]
fn charges_follow_cell_and_handles() {
    let cell = RcuCell::new(Counted::new(1));
    assert_eq!(charges(1), 1);
    let r1 = cell.read().ok().unwrap();
    let r2 = cell.read().ok().unwrap();
    assert_eq!(charges(1), 3);
    let old = cell.write(Counted::new(2)).ok().unwrap();
    assert_eq!(charges(1), 3);
    assert_eq!(charges(2), 1);
    drop(old);
    assert_eq!(charges(1), 2);
    drop(r1);
    drop(r2);
    assert_eq!(charges(1), 0);

    // a refused write hands the data back with its charge
    let seen = cell.lock_update().ok().unwrap();
    assert_eq!(charges(2), 2);
    let back = cell.write(Counted::new(3)).err().unwrap();
    assert_eq!(charges(3), 1);
    drop(back);
    assert_eq!(charges(3), 0);
    let old = cell.unlock_update(Counted::new(4)).ok().unwrap();
    drop(old);
    drop(seen);
    assert_eq!(charges(2), 0);
    assert_eq!(charges(4), 1);

    // compare_exchange puts a charge of its own and hands the old one over
    let keep = Counted::new(5);
    let done = cell.compare_exchange(32, &keep, Ordering::SeqCst, Ordering::SeqCst);
    assert_eq!(done.ok(), Some(Ok(32)));
    assert_eq!(charges(4), 1);
    drop(Counted::from_raw(32));
    assert_eq!(charges(4), 0);
    assert_eq!(charges(5), 2);
    let missed = cell.compare_exchange(32, &Counted::new(6), Ordering::SeqCst, Ordering::SeqCst);
    assert_eq!(missed.ok(), Some(Err(40)));
    assert_eq!(charges(6), 0);
    drop(keep);
    assert_eq!(charges(5), 1);

    let last = cell.take().ok().unwrap();
    assert_eq!(charges(5), 1);
    drop(last);
    assert_eq!(charges(5), 0);
    assert!(cell.is_none());
}

#[test]
fn cell_charge_outlives_cell_while_read() {
    let cell = RcuCell::new(Counted::new(7));
    let reader = cell.read().ok().unwrap();
    assert_eq!(charges(7), 2);
    drop(cell.into_arc());
    assert_eq!(charges(7), 1);
    drop(reader);
    assert_eq!(charges(7), 0);

    let empty = RcuCell::<Counted>::none();
    assert!(empty.read().ok().unwrap().as_ptr() == 0);
    drop(empty.into_arc());
    assert_eq!(charges(0), 0);
}
