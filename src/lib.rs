//! A cell holding an optional shared handle that readers copy out without
//! locking while writers replace it, one compare-exchange at a time.
use vstd::prelude::*;

pub mod handle;
pub mod link;
pub mod list;
pub mod node_lock;
pub mod protocol;
pub mod rcu_cell;
pub mod rcu_weak;

pub use handle::{ArcPointer, Shared, WeakPointer};
pub use rcu_cell::RcuCell;
pub use rcu_weak::RcuWeak;

verus! {

/// Why an attempt on a cell did not go through.
#[derive(Debug, Clone, Copy, PartialEq, Eq, Structural)]
pub enum Busy {
    /// Other threads were active on the same word; trying again later may
    /// succeed.
    Contended,
    /// The word's reader field is full: one more reader would overflow it.
    ReadersFull,
}

} // verus!
