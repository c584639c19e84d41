//! Handles that a cell stores as a raw address.
//!
//! A cell keeps one charge on the object its word points at: the charge of
//! the handle that was turned into that address. Reading makes a new handle
//! next to the cell's charge; replacing hands the cell's charge back as a
//! handle. How a handle keeps its object alive (a shared count, a weak
//! count, nothing) is the handle type's own business.
use vstd::prelude::*;
use crate::link::addr_ok;

verus! {

/// An optional shared handle that can be turned into an address and back.
///
/// Each method that takes or makes a handle moves one charge:
/// - `into_raw` gives the handle's charge to whoever keeps the address;
/// - `from_raw` takes such a charge back as a handle;
/// - `clone_raw` makes a handle with a new charge and leaves the one kept
///   with the address in place.
/// The address of an empty handle is zero. A cell stores only addresses
/// that its word can hold (`addr_ok`): aligned to eight bytes and below
/// 2^56, as every heap allocation of a shared count is on 64-bit targets.
pub trait ArcPointer: Sized {
    /// The address this handle stands for, zero where it is empty.
    spec fn addr(&self) -> u64;

    /// The address, without giving up the charge.
    fn as_ptr(&self) -> (a: u64)
        ensures
            a == self.addr(),
    ;

    /// The address, giving the charge to whoever keeps it.
    fn into_raw(self) -> (a: u64)
        ensures
            a == self.addr(),
    ;

    /// The handle whose charge was kept with `a`.
    fn from_raw(a: u64) -> (h: Self)
        requires
            addr_ok(a),
        ensures
            h.addr() == a,
    ;

    /// A new handle to what `a` stands for, with a charge of its own.
    fn clone_raw(a: u64) -> (h: Self)
        requires
            addr_ok(a),
        ensures
            h.addr() == a,
    ;
}

/// A non-owning handle that may be upgraded to a shared one.
pub trait WeakPointer: ArcPointer {
    /// The shared handle that an upgrade gives.
    type Strong: ArcPointer;

    /// A shared handle to what the weak handle kept with `a` points at,
    /// empty where that is gone. The weak charge stays in place.
    fn upgrade_raw(a: u64) -> (s: Self::Strong)
        requires
            addr_ok(a),
        ensures
            s.addr() == a || s.addr() == 0,
    ;

    /// A weak handle to what `s` points at.
    fn downgrade(s: &Self::Strong) -> (w: Self)
        ensures
            w.addr() == s.addr(),
    ;
}

/// A non-null address; it owns nothing.
#[derive(Debug, Clone, Copy, PartialEq, Eq)]
pub struct Shared {
    pointer: u64,
}

impl Shared {
    #[verifier::type_invariant]
    closed spec fn inv(self) -> bool {
        self.pointer != 0
    }

    /// The address held.
    pub closed spec fn spec_addr(self) -> u64 {
        self.pointer
    }

    /// A `Shared` for `ptr`, or `None` where `ptr` is null.
    pub fn new(ptr: u64) -> (r: Option<Shared>)
        ensures
            r is None <==> ptr == 0,
            r matches Some(s) ==> s.spec_addr() == ptr,
    {
        if ptr == 0 {
            None
        } else {
            Some(Shared { pointer: ptr })
        }
    }

    /// The address held.
    pub fn as_ptr(self) -> (p: u64)
        ensures
            p == self.spec_addr(),
            p != 0,
    {
        proof {
            use_type_invariant(&self);
        }
        self.pointer
    }
}

/// An optional `Shared` is an empty handle or an address; it moves no charge.
impl ArcPointer for Option<Shared> {
    open spec fn addr(&self) -> u64 {
        match self {
            Some(s) => s.spec_addr(),
            None => 0,
        }
    }

    fn as_ptr(&self) -> (a: u64) {
        match self {
            Some(s) => s.as_ptr(),
            None => 0,
        }
    }

    fn into_raw(self) -> (a: u64) {
        self.as_ptr()
    }

    fn from_raw(a: u64) -> (h: Self) {
        Shared::new(a)
    }

    fn clone_raw(a: u64) -> (h: Self) {
        Shared::new(a)
    }
}

/// An address upgrades to itself.
impl WeakPointer for Option<Shared> {
    type Strong = Option<Shared>;

    fn upgrade_raw(a: u64) -> (s: Option<Shared>) {
        Shared::new(a)
    }

    fn downgrade(s: &Option<Shared>) -> (w: Self) {
        *s
    }
}

} // verus!
