//! A cell that holds a weak handle.
use vstd::prelude::*;
use std::marker::PhantomData;
use crate::Busy;
use crate::handle::{ArcPointer, WeakPointer};
use crate::link::{addr_ok, lemma_null_ok, LinkWrapper};

verus! {

/// A cell that holds a weak handle, read and replaced through a link word.
/// The cell keeps one weak charge on what its word points at; an empty weak
/// handle is held as the null address. The cell has no destructor of its
/// own: a holder that drops it gives the charge back first.
pub struct RcuWeak<W> {
    link: LinkWrapper,
    marker: PhantomData<W>,
}

impl<W: WeakPointer> RcuWeak<W> {
    /// A cell that holds the empty weak handle; upgrading it gives nothing.
    pub fn new() -> Self {
        proof {
            lemma_null_ok();
        }
        RcuWeak { link: LinkWrapper::new(0), marker: PhantomData }
    }

    /// A cell that takes over `data`.
    pub fn from(data: W) -> Self
        requires
            addr_ok(data.addr()),
    {
        RcuWeak { link: LinkWrapper::new(data.into_raw()), marker: PhantomData }
    }

    /// The weak handle held, with the cell's charge.
    pub fn into_weak(self) -> (r: W)
        ensures
            addr_ok(r.addr()),
    {
        W::from_raw(self.link.get_ref())
    }

    /// One attempt to empty the cell. On success the handle that was held is
    /// returned, with the cell's charge.
    pub fn take(&self) -> (r: Result<W, Busy>)
        ensures
            r matches Ok(old) ==> addr_ok(old.addr()),
            r matches Err(b) ==> b == Busy::Contended,
    {
        proof {
            lemma_null_ok();
        }
        match self.link.try_update(0) {
            Some(a) => Ok(W::from_raw(a)),
            None => Err(Busy::Contended),
        }
    }

    /// One attempt to put `data` in the cell. On success the handle that was
    /// held is returned; otherwise `data` comes back.
    pub fn write(&self, data: W) -> (r: Result<W, W>)
        requires
            addr_ok(data.addr()),
        ensures
            r matches Ok(old) ==> addr_ok(old.addr()),
            r matches Err(back) ==> back.addr() == data.addr(),
    {
        let a = data.into_raw();
        match self.link.try_update(a) {
            Some(old) => Ok(W::from_raw(old)),
            None => Err(W::from_raw(a)),
        }
    }

    /// One attempt to put a weak handle to what `data` points at in the cell.
    /// On success the handle that was held is returned.
    pub fn write_arc(&self, data: &W::Strong) -> (r: Result<W, Busy>)
        requires
            addr_ok(data.addr()),
        ensures
            r matches Ok(old) ==> addr_ok(old.addr()),
            r matches Err(b) ==> b == Busy::Contended,
    {
        match self.write(W::downgrade(data)) {
            Ok(old) => Ok(old),
            Err(_) => Err(Busy::Contended),
        }
    }

    /// One attempt to read: a new weak handle to what the cell holds.
    /// `Busy::ReadersFull` where the word cannot take one more reader.
    pub fn read(&self) -> (r: Result<W, Busy>)
        ensures
            r matches Ok(h) ==> addr_ok(h.addr()),
    {
        match self.link.try_inc_ref() {
            Ok(a) => {
                let h = W::clone_raw(a);
                self.link.dec_ref();
                Ok(h)
            },
            Err(b) => Err(b),
        }
    }

    /// One attempt to upgrade what the cell holds to a shared handle, which
    /// is empty where the object is gone.
    pub fn upgrade(&self) -> (r: Result<W::Strong, Busy>)
        ensures
            r matches Ok(h) ==> addr_ok(h.addr()),
    {
        match self.link.try_inc_ref() {
            Ok(a) => {
                let h = W::upgrade_raw(a);
                proof {
                    lemma_null_ok();
                }
                self.link.dec_ref();
                Ok(h)
            },
            Err(b) => Err(b),
        }
    }

    /// Whether the cell points at what `data` points at.
    pub fn arc_eq(&self, data: &W::Strong) -> bool {
        self.link.get_ref() == data.as_ptr()
    }

    /// Whether the cell points at what `data` points at.
    pub fn weak_eq(&self, data: &W) -> bool {
        self.link.get_ref() == data.as_ptr()
    }

    /// Whether two cells point at the same object.
    pub fn ptr_eq(this: &Self, other: &Self) -> bool {
        this.link.get_ref() == other.link.get_ref()
    }
}

} // verus!
