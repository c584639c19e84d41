//! A cell that holds an optional shared handle.
use vstd::prelude::*;
use std::marker::PhantomData;
use std::sync::atomic::Ordering;
use crate::Busy;
use crate::handle::ArcPointer;
use crate::link::{addr_ok, lemma_null_ok, LinkWrapper};

verus! {

/// A cell that holds an optional shared handle, read and replaced through a
/// link word. While it is not empty the cell keeps one charge on what its
/// word points at.
///
/// The cell has no destructor of its own: a holder that drops it gives the
/// cell's charge back first, with `take` or `into_arc`.
pub struct RcuCell<H> {
    link: LinkWrapper,
    marker: PhantomData<H>,
}

impl<H: ArcPointer> RcuCell<H> {
    /// An empty cell. No handle is made or touched.
    pub fn none() -> Self {
        proof {
            lemma_null_ok();
        }
        RcuCell { link: LinkWrapper::new(0), marker: PhantomData }
    }

    /// A cell that takes over `data`, which may be empty.
    pub fn new(data: H) -> Self
        requires
            addr_ok(data.addr()),
    {
        RcuCell { link: LinkWrapper::new(data.into_raw()), marker: PhantomData }
    }

    /// The handle held, with the cell's charge.
    pub fn into_arc(self) -> (r: H)
        ensures
            addr_ok(r.addr()),
    {
        H::from_raw(self.link.get_ref())
    }

    /// Whether the cell is empty.
    pub fn is_none(&self) -> bool {
        self.link.is_none()
    }

    /// One attempt to put `data` in the cell. On success the handle that was
    /// held is returned, with the cell's charge; otherwise `data` comes back.
    pub fn set(&self, data: H) -> (r: Result<H, H>)
        requires
            addr_ok(data.addr()),
        ensures
            r matches Ok(old) ==> addr_ok(old.addr()),
            r matches Err(back) ==> back.addr() == data.addr(),
    {
        let a = data.into_raw();
        match self.link.try_update(a) {
            Some(old) => Ok(H::from_raw(old)),
            None => Err(H::from_raw(a)),
        }
    }

    /// One attempt to empty the cell. On success the handle that was held is
    /// returned, with the cell's charge.
    pub fn take(&self) -> (r: Result<H, Busy>)
        ensures
            r matches Ok(old) ==> addr_ok(old.addr()),
            r matches Err(b) ==> b == Busy::Contended,
    {
        proof {
            lemma_null_ok();
        }
        match self.link.try_update(0) {
            Some(a) => Ok(H::from_raw(a)),
            None => Err(Busy::Contended),
        }
    }

    /// One attempt to write `data`: `set` under the name writers use.
    pub fn write(&self, data: H) -> (r: Result<H, H>)
        requires
            addr_ok(data.addr()),
        ensures
            r matches Ok(old) ==> addr_ok(old.addr()),
            r matches Err(back) ==> back.addr() == data.addr(),
    {
        self.set(data)
    }

    /// One attempt to read: a new handle to what the cell holds.
    /// `Busy::ReadersFull` where the word cannot take one more reader.
    pub fn read(&self) -> (r: Result<H, Busy>)
        ensures
            r matches Ok(h) ==> addr_ok(h.addr()),
    {
        match self.link.try_inc_ref() {
            Ok(a) => {
                let h = H::clone_raw(a);
                self.link.dec_ref();
                Ok(h)
            },
            Err(b) => Err(b),
        }
    }

    /// One attempt to take the writer bit for an update: other writers are
    /// kept out, readers go on. On success a new handle to what the cell
    /// holds is returned; `unlock_update` must follow.
    pub fn lock_update(&self) -> (r: Result<H, Busy>)
        ensures
            r matches Ok(h) ==> addr_ok(h.addr()),
            r matches Err(b) ==> b == Busy::Contended,
    {
        match self.link.try_lock_read() {
            Some(a) => Ok(H::clone_raw(a)),
            None => Err(Busy::Contended),
        }
    }

    /// One attempt, after `lock_update`, to install `data` and give the
    /// writer bit back; it goes through once no reader is left. On success
    /// the handle that was held is returned, with the cell's charge;
    /// otherwise `data` comes back.
    pub fn unlock_update(&self, data: H) -> (r: Result<H, H>)
        requires
            addr_ok(data.addr()),
        ensures
            r matches Ok(old) ==> addr_ok(old.addr()),
            r matches Err(back) ==> back.addr() == data.addr(),
    {
        let a = data.into_raw();
        match self.link.try_unlock_update(a) {
            Some(old) => Ok(H::from_raw(old)),
            None => Err(H::from_raw(a)),
        }
    }

    /// One attempt to put a new charge on what `new` points at in the cell,
    /// where the cell points at `current`.
    /// - `Ok(Ok(current))` where it was put. The cell's charge on `current`
    ///   now belongs to the caller, who may take it back with
    ///   `H::from_raw(current)`.
    /// - `Ok(Err(a))` where the cell points at another address `a`.
    /// - `Err(Busy::Contended)` where readers or a writer were active on a
    ///   cell that points at `current`: nothing was decided.
    /// Which of these comes is `cas_decision` on the word observed, then
    /// `cas_failure` on the word the compare-exchange found.
    pub fn compare_exchange(
        &self,
        current: u64,
        new: &H,
        success: Ordering,
        failure: Ordering,
    ) -> (r: Result<Result<u64, u64>, Busy>)
        requires
            addr_ok(new.addr()),
            !(failure is Release),
            !(failure is AcqRel),
        ensures
            r matches Ok(Ok(a)) ==> a == current && addr_ok(a),
            r matches Ok(Err(a)) ==> a != current && addr_ok(a),
            r matches Err(b) ==> b == Busy::Contended,
    {
        let charge = H::clone_raw(new.as_ptr());
        let a = charge.into_raw();
        let r = self.link.try_compare_exchange(current, a, success, failure);
        if !(r matches Ok(Ok(_))) {
            let _unused = H::from_raw(a);
        }
        r
    }

    /// Whether the cell points at what `data` points at.
    pub fn arc_eq(&self, data: &H) -> bool {
        self.link.get_ref() == data.as_ptr()
    }

    /// Whether two cells point at the same object.
    pub fn ptr_eq(this: &Self, other: &Self) -> bool {
        this.link.get_ref() == other.link.get_ref()
    }
}

} // verus!
