//! The version word of a list node: bit 0 marks the node removed, bit 1
//! marks it locked, and the bits above count completed lock cycles.
//!
//! - unlocked and present: `v & 3 == 0`;
//! - locking adds 2, unlocking adds 2 again, so each cycle adds 4;
//! - unlocking for removal adds 3 instead, which leaves the node removed and
//!   unlocked for good: a removed node cannot be locked again.
use vstd::prelude::*;
use std::sync::atomic::AtomicU64;
use std::sync::atomic::Ordering;

verus! {

/// Whether the node is removed.
pub open spec fn removed(v: u64) -> bool {
    v & 1 == 1
}

/// Whether the node is locked.
pub open spec fn held(v: u64) -> bool {
    v & 2 == 2
}

/// The version word after a successful lock of `v`, or `None` where `v` is
/// locked or removed.
pub fn lock_step(v: u64) -> (r: Option<u64>)
    ensures
        r is Some <==> !removed(v) && !held(v),
        r matches Some(n) ==> n == v + 2 && held(n) && !removed(n),
{
    if v & 3 == 0 {
        proof {
            assert(v & 3 == 0 ==> v + 2 <= u64::MAX && (v + 2) as u64 & 2 == 2 && (v + 2) as u64
                & 1 == 0 && v & 1 != 1 && v & 2 != 2) by (bit_vector);
        }
        Some(v + 2)
    } else {
        proof {
            assert(v & 3 != 0 ==> v & 1 == 1 || v & 2 == 2) by (bit_vector);
        }
        None
    }
}

/// The version word after unlocking the locked `v`.
pub fn unlock_step(v: u64) -> (n: u64)
    requires
        held(v),
        !removed(v),
    ensures
        !held(n),
        !removed(n),
        n == v.wrapping_add(2),
{
    proof {
        assert(v & 2 == 2 && v & 1 != 1 ==> v.wrapping_add(2) & 2 != 2 && v.wrapping_add(2) & 1
            != 1) by (bit_vector);
    }
    v.wrapping_add(2)
}

/// The version word after unlocking the locked `v` and marking it removed.
pub fn unlock_remove_step(v: u64) -> (n: u64)
    requires
        held(v),
        !removed(v),
    ensures
        !held(n),
        removed(n),
        n == v.wrapping_add(3),
{
    proof {
        assert(v & 2 == 2 && v & 1 != 1 ==> v.wrapping_add(3) & 2 != 2 && v.wrapping_add(3) & 1
            == 1) by (bit_vector);
    }
    v.wrapping_add(3)
}

/// Whether the version word `v` marks the node removed.
pub fn is_removed_word(v: u64) -> (r: bool)
    ensures
        r == removed(v),
{
    v & 1 == 1
}

/// What one attempt to lock a node found.
#[derive(Debug, Clone, Copy, PartialEq, Eq)]
pub enum LockAttempt {
    /// The node is now locked by the caller; the version it had is given.
    Locked(u64),
    /// The node is locked by someone else, or changed meanwhile.
    Busy,
    /// The node is removed and cannot be locked.
    Removed,
}

/// What one attempt to lock a node that showed version `v` comes to, where
/// `cas_ok` tells whether the compare-exchange to `v + 2` went through.
pub open spec fn lock_outcome(v: u64, cas_ok: bool) -> LockAttempt {
    if removed(v) {
        LockAttempt::Removed
    } else if !held(v) && cas_ok {
        LockAttempt::Locked(v)
    } else {
        LockAttempt::Busy
    }
}

/// `lock_outcome`, computed.
pub fn lock_result(v: u64, cas_ok: bool) -> (r: LockAttempt)
    ensures
        r == lock_outcome(v, cas_ok),
{
    if is_removed_word(v) {
        LockAttempt::Removed
    } else if v & 2 != 2 && cas_ok {
        LockAttempt::Locked(v)
    } else {
        LockAttempt::Busy
    }
}

/// What the lookup of a node's predecessor does next.
#[derive(Debug, Clone, Copy, PartialEq, Eq)]
pub enum PrevStep {
    /// The node itself is removed: give up.
    Removed,
    /// The predecessor could not be reached or locked: look again.
    Retry,
    /// The locked candidate no longer links to the node: unlock it and
    /// look again.
    UnlockAndRetry,
    /// The candidate is locked and links to the node: it is the predecessor.
    Locked,
}

/// The decision of the predecessor lookup after one round: whether the
/// node's weak `prev` could be upgraded, whether the node is removed, how
/// locking the candidate went, and whether the candidate's `next` is still
/// the node.
pub fn lock_prev_step(
    prev_upgraded: bool,
    curr_removed: bool,
    lock: LockAttempt,
    links_here: bool,
) -> (r: PrevStep)
    ensures
        r == PrevStep::Removed <==> !prev_upgraded && curr_removed,
        r == PrevStep::Locked <==> prev_upgraded && lock is Locked && links_here,
        r == PrevStep::UnlockAndRetry <==> prev_upgraded && lock is Locked && !links_here,
        r == PrevStep::Retry <==> (!prev_upgraded && !curr_removed) || (prev_upgraded
            && !(lock is Locked)),
{
    if !prev_upgraded {
        if curr_removed {
            PrevStep::Removed
        } else {
            PrevStep::Retry
        }
    } else {
        match lock {
            LockAttempt::Locked(_) => {
                if links_here {
                    PrevStep::Locked
                } else {
                    PrevStep::UnlockAndRetry
                }
            },
            _ => PrevStep::Retry,
        }
    }
}

/// The lock of a list node.
pub struct NodeLock {
    version: AtomicU64,
}

impl NodeLock {
    /// An unlocked node that is not removed.
    pub fn new() -> Self {
        NodeLock { version: AtomicU64::new(0) }
    }

    /// One attempt to lock the node, decided by `lock_outcome` on the
    /// version observed.
    pub fn try_lock(&self) -> (r: LockAttempt)
        ensures
            r matches LockAttempt::Locked(v) ==> !removed(v) && !held(v),
    {
        let v = self.version.load(Ordering::Relaxed);
        let cas_ok = if is_removed_word(v) {
            false
        } else {
            match lock_step(v) {
                Some(n) => self.version.compare_exchange_weak(v, n, Ordering::Acquire, Ordering::Relaxed).is_ok(),
                None => false,
            }
        };
        lock_result(v, cas_ok)
    }

    /// Unlock the node; pairs with a successful `try_lock`.
    pub fn unlock(&self) {
        self.version.fetch_add(2, Ordering::Release);
    }

    /// Unlock the node and mark it removed; pairs with a successful
    /// `try_lock`.
    pub fn unlock_remove(&self) {
        self.version.fetch_add(3, Ordering::Release);
    }

    /// Whether the node is removed.
    pub fn is_removed(&self) -> bool {
        is_removed_word(self.version.load(Ordering::Acquire))
    }
}

} // verus!
