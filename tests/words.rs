use rcu_cell::link::{
    cas_failure_result, cas_step, enter_reader, held_quiet_word, locked_word, pack, quiet_word,
    read_result, unlocked_word, unpack, CasStep, LinkWrapper,
};
use rcu_cell::node_lock::{
    is_removed_word, lock_prev_step, lock_result, lock_step, unlock_remove_step, unlock_step,
    LockAttempt, NodeLock, PrevStep,
};
use rcu_cell::Busy;
use std::sync::atomic::Ordering::SeqCst;

#[test]
fn pack_and_unpack() {
    assert_eq!(pack(80), 20480);
    assert_eq!(unpack(20480), 80);
    assert_eq!(unpack(20480 | 0x400 | 5), 80);
    assert_eq!(pack(0), 0);
    assert_eq!(unpack(0x7ff), 0);
}

#[test]
fn reader_field() {
    assert_eq!(enter_reader(20480), Some(20481));
    assert_eq!(enter_reader(20480 | 0x400), Some(20481 | 0x400));
    assert_eq!(enter_reader(20480 | 0x3ff), None);
}

#[test]
fn writer_expectations() {
    let w = 20480 | 0x400 | 3;
    assert_eq!(quiet_word(w), 20480);
    assert_eq!(unlocked_word(w), 20483);
    assert_eq!(locked_word(20483), w);
    assert_eq!(held_quiet_word(w), 20480 | 0x400);
    assert_eq!(quiet_word(20480), 20480);
}

#[test]
fn compare_exchange_decision() {
    assert_eq!(
        cas_step(20480 | 2, 80, 16),
        CasStep::Try { expected: 20480, next: 4096 }
    );
    assert_eq!(cas_step(20480, 88, 16), CasStep::Mismatch(80));
}

#[test]
fn link_attempts() {
    let l = LinkWrapper::new(80);
    assert_eq!(l.get_ref(), 80);
    assert!(!l.is_none());
    assert_eq!(l.try_inc_ref(), Ok(80));
    assert_eq!(l.try_update(16), None);
    l.dec_ref();
    assert_eq!(l.try_update(16), Some(80));
    assert_eq!(l.try_lock_read(), Some(16));
    assert_eq!(l.try_lock_read(), None);
    assert_eq!(l.try_inc_ref(), Ok(16));
    assert_eq!(l.try_unlock_update(0), None);
    l.dec_ref();
    assert_eq!(l.try_unlock_update(0), Some(16));
    assert!(l.is_none());
    assert_eq!(l.try_compare_exchange(0, 24, SeqCst, SeqCst), Ok(Ok(0)));
    assert_eq!(l.try_compare_exchange(0, 32, SeqCst, SeqCst), Ok(Err(24)));
    assert_eq!(l.get_ref(), 24);
}

#[test]
fn node_version_steps() {
    assert_eq!(lock_step(0), Some(2));
    assert_eq!(lock_step(2), None);
    assert_eq!(lock_step(1), None);
    assert_eq!(lock_step(4), Some(6));
    assert_eq!(unlock_step(2), 4);
    assert_eq!(unlock_remove_step(2), 5);
    assert!(is_removed_word(5));
    assert!(!is_removed_word(4));
}

#[test]
fn node_lock_cycle() {
    let n = NodeLock::new();
    assert!(!n.is_removed());
    assert_eq!(n.try_lock(), LockAttempt::Locked(0));
    assert_eq!(n.try_lock(), LockAttempt::Busy);
    n.unlock();
    assert_eq!(n.try_lock(), LockAttempt::Locked(4));
    n.unlock_remove();
    assert!(n.is_removed());
    assert_eq!(n.try_lock(), LockAttempt::Removed);
}

#[test]
fn read_outcomes() {
    assert_eq!(read_result(20480 | 0x3ff, false), Err(Busy::ReadersFull));
    assert_eq!(read_result(20480 | 0x3ff | 0x400, true), Err(Busy::ReadersFull));
    assert_eq!(read_result(20480 | 0x3fe, true), Ok(80));
    assert_eq!(read_result(20480, false), Err(Busy::Contended));
}

#[test]
fn full_reader_field_is_reported() {
    let l = LinkWrapper::new(8);
    for _ in 0..0x3ff {
        assert_eq!(l.try_inc_ref(), Ok(8));
    }
    assert_eq!(l.try_inc_ref(), Err(Busy::ReadersFull));
    l.dec_ref();
    assert_eq!(l.try_inc_ref(), Ok(8));
}

#[test]
fn compare_exchange_failures() {
    assert_eq!(cas_failure_result(20480 | 1, 80), Err(Busy::Contended));
    assert_eq!(cas_failure_result(20480 | 0x400, 80), Err(Busy::Contended));
    assert_eq!(cas_failure_result(4096, 80), Ok(Err(16)));
}

#[test]
fn lock_outcomes() {
    assert_eq!(lock_result(4, true), LockAttempt::Locked(4));
    assert_eq!(lock_result(4, false), LockAttempt::Busy);
    assert_eq!(lock_result(6, true), LockAttempt::Busy);
    assert_eq!(lock_result(5, true), LockAttempt::Removed);
}

#[test]
fn predecessor_lookup_steps() {
    let locked = LockAttempt::Locked(0);
    assert_eq!(lock_prev_step(false, true, LockAttempt::Busy, false), PrevStep::Removed);
    assert_eq!(lock_prev_step(false, false, LockAttempt::Busy, false), PrevStep::Retry);
    assert_eq!(lock_prev_step(true, false, LockAttempt::Removed, true), PrevStep::Retry);
    assert_eq!(lock_prev_step(true, false, locked, false), PrevStep::UnlockAndRetry);
    assert_eq!(lock_prev_step(true, false, locked, true), PrevStep::Locked);
}
