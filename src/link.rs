//! The packed link word: one 64-bit atomic that holds a payload address,
//! an inline count of readers in their acquire window, and a writer bit.
//!
//! Layout (least significant bit first):
//! - bits 0..10: readers that have entered and not yet left;
//! - bit 10: the writer bit, held by a writer between `try_lock_read` and
//!   `try_unlock_update`;
//! - bits 11..64: the address shifted left by eight. Addresses are
//!   multiples of eight below 2^56, so no address bit is lost.
//!
//! Every operation here is a single attempt: it observes the word once and
//! makes at most one compare-exchange. What a caller does when an attempt
//! does not go through (retry, back off) is its own policy.
use vstd::prelude::*;
use crate::Busy;
use std::sync::atomic::AtomicU64;
use std::sync::atomic::Ordering;

verus! {

/// How far an address is shifted left inside the word.
pub const LEADING_BITS: u64 = 8;

/// The reader field.
pub const READER_MASK: u64 = 0x3ff;

/// The writer bit.
pub const WRITER_BIT: u64 = 0x400;

/// The reader field and the writer bit together.
pub const REFCOUNT_MASK: u64 = 0x7ff;

/// An address that the word can hold: aligned to eight bytes, with its top
/// eight bits clear.
pub open spec fn addr_ok(a: u64) -> bool {
    a & 7 == 0 && a < 0x0100_0000_0000_0000
}

/// The null address can be held.
pub proof fn lemma_null_ok()
    ensures
        addr_ok(0),
{
    assert(0u64 & 7 == 0) by (bit_vector);
}

/// The address held by a word.
pub open spec fn addr_of(w: u64) -> u64 {
    (w & !0x7ffu64) >> 8u64
}

/// The number of readers inside their acquire window.
pub open spec fn readers_of(w: u64) -> u64 {
    w & 0x3ffu64
}

/// Whether a writer holds the word.
pub open spec fn locked(w: u64) -> bool {
    w & 0x400u64 != 0
}

/// The word made of an address, a reader count and a writer bit.
pub open spec fn word(a: u64, readers: u64, is_locked: bool) -> u64 {
    ((a << 8u64) | (if is_locked { 0x400u64 } else { 0u64 })) | readers
}

/// A word is fully described by its three fields.
pub proof fn lemma_word_fields(w: u64)
    ensures
        w == word(addr_of(w), readers_of(w), locked(w)),
        addr_ok(addr_of(w)),
        readers_of(w) <= READER_MASK,
{
    assert(w == ((((w & !0x7ffu64) >> 8u64) << 8u64) | (if w & 0x400u64 != 0 { 0x400u64 } else {
        0u64
    })) | (w & 0x3ffu64)) by (bit_vector);
    assert(((w & !0x7ffu64) >> 8u64) & 7 == 0) by (bit_vector);
    assert(((w & !0x7ffu64) >> 8u64) < 0x0100_0000_0000_0000) by (bit_vector);
    assert(w & 0x3ffu64 <= 0x3ff) by (bit_vector);
}

/// The fields of a word made from fields are those fields.
pub proof fn lemma_fields_of_word(a: u64, readers: u64, is_locked: bool)
    requires
        addr_ok(a),
        readers <= READER_MASK,
    ensures
        addr_of(word(a, readers, is_locked)) == a,
        readers_of(word(a, readers, is_locked)) == readers,
        locked(word(a, readers, is_locked)) == is_locked,
{
    if is_locked {
        assert(a & 7 == 0 && a < 0x0100_0000_0000_0000 && readers <= 0x3ff ==> ((((a << 8u64)
            | 0x400u64) | readers) & !0x7ffu64) >> 8u64 == a && (((a << 8u64) | 0x400u64)
            | readers) & 0x3ffu64 == readers && (((a << 8u64) | 0x400u64) | readers) & 0x400u64
            != 0) by (bit_vector);
    } else {
        assert(a & 7 == 0 && a < 0x0100_0000_0000_0000 && readers <= 0x3ff ==> ((((a << 8u64)
            | 0u64) | readers) & !0x7ffu64) >> 8u64 == a && (((a << 8u64) | 0u64) | readers)
            & 0x3ffu64 == readers && (((a << 8u64) | 0u64) | readers) & 0x400u64 == 0)
            by (bit_vector);
    }
}

/// Two words with the same fields are the same word.
pub proof fn lemma_word_injective(w1: u64, w2: u64)
    requires
        addr_of(w1) == addr_of(w2),
        readers_of(w1) == readers_of(w2),
        locked(w1) == locked(w2),
    ensures
        w1 == w2,
{
    lemma_word_fields(w1);
    lemma_word_fields(w2);
}

/// The word that holds `addr` with no reader and no writer.
pub fn pack(addr: u64) -> (w: u64)
    requires
        addr_ok(addr),
    ensures
        w == word(addr, 0, false),
        addr_of(w) == addr,
        readers_of(w) == 0,
        !locked(w),
{
    proof {
        lemma_fields_of_word(addr, 0, false);
        assert((addr << 8u64) == ((addr << 8u64) | 0u64) | 0u64) by (bit_vector);
    }
    addr << LEADING_BITS
}

/// The address held by `w`.
pub fn unpack(w: u64) -> (a: u64)
    ensures
        a == addr_of(w),
        addr_ok(a),
{
    proof {
        lemma_word_fields(w);
    }
    (w & !REFCOUNT_MASK) >> LEADING_BITS
}

/// `w` with one more reader, or `None` where the reader field is full.
pub fn enter_reader(w: u64) -> (r: Option<u64>)
    ensures
        r is Some <==> readers_of(w) < READER_MASK,
        r matches Some(n) ==> n == word(addr_of(w), (readers_of(w) + 1) as u64, locked(w)),
{
    proof {
        lemma_word_fields(w);
    }
    if w & READER_MASK < READER_MASK {
        proof {
            lemma_fields_of_word(addr_of(w), (readers_of(w) + 1) as u64, locked(w));
            assert(w & 0x3ffu64 < 0x3ff ==> addr_of((w + 1) as u64) == addr_of(w) && readers_of(
                (w + 1) as u64,
            ) == readers_of(w) + 1 && locked((w + 1) as u64) == locked(w)) by (bit_vector);
            assert(w & 0x3ffu64 < 0x3ff ==> w + 1 <= u64::MAX) by (bit_vector);
            lemma_word_injective(
                (w + 1) as u64,
                word(addr_of(w), (readers_of(w) + 1) as u64, locked(w)),
            );
        }
        Some(w + 1)
    } else {
        None
    }
}

/// The word a plain writer must find to replace the address: the address
/// that `w` holds, with no reader and no writer.
pub fn quiet_word(w: u64) -> (e: u64)
    ensures
        e == word(addr_of(w), 0, false),
        e == w <==> readers_of(w) == 0 && !locked(w),
{
    proof {
        lemma_word_fields(w);
        lemma_fields_of_word(addr_of(w), 0, false);
        assert(addr_of(w & !0x7ffu64) == addr_of(w) && readers_of(w & !0x7ffu64) == 0 && !locked(
            w & !0x7ffu64,
        )) by (bit_vector);
        lemma_word_injective(w & !0x7ffu64, word(addr_of(w), 0, false));
        assert((w & !0x7ffu64) == w <==> (w & 0x3ffu64 == 0 && w & 0x400u64 == 0))
            by (bit_vector);
    }
    w & !REFCOUNT_MASK
}

/// `w` with the writer bit clear: the word a writer must find to take the
/// writer bit. Readers may come and go meanwhile.
pub fn unlocked_word(w: u64) -> (e: u64)
    ensures
        e == word(addr_of(w), readers_of(w), false),
        e == w <==> !locked(w),
{
    proof {
        lemma_word_fields(w);
        lemma_fields_of_word(addr_of(w), readers_of(w), false);
        assert(addr_of(w & !0x400u64) == addr_of(w) && readers_of(w & !0x400u64) == readers_of(w)
            && !locked(w & !0x400u64)) by (bit_vector);
        lemma_word_injective(w & !0x400u64, word(addr_of(w), readers_of(w), false));
        assert((w & !0x400u64) == w <==> w & 0x400u64 == 0) by (bit_vector);
    }
    w & !WRITER_BIT
}

/// `w` with the writer bit set.
pub fn locked_word(w: u64) -> (n: u64)
    ensures
        n == word(addr_of(w), readers_of(w), true),
{
    proof {
        lemma_word_fields(w);
        lemma_fields_of_word(addr_of(w), readers_of(w), true);
        assert(addr_of(w | 0x400u64) == addr_of(w) && readers_of(w | 0x400u64) == readers_of(w)
            && locked(w | 0x400u64)) by (bit_vector);
        lemma_word_injective(w | 0x400u64, word(addr_of(w), readers_of(w), true));
    }
    w | WRITER_BIT
}

/// The word that the writer holding the writer bit must find to install a
/// new address: the address of `w`, the writer bit, and no reader.
pub fn held_quiet_word(w: u64) -> (e: u64)
    ensures
        e == word(addr_of(w), 0, true),
        e == w <==> readers_of(w) == 0 && locked(w),
{
    proof {
        lemma_word_fields(w);
        lemma_fields_of_word(addr_of(w), 0, true);
        assert(addr_of((w & !0x3ffu64) | 0x400u64) == addr_of(w) && readers_of(
            (w & !0x3ffu64) | 0x400u64,
        ) == 0 && locked((w & !0x3ffu64) | 0x400u64)) by (bit_vector);
        lemma_word_injective((w & !0x3ffu64) | 0x400u64, word(addr_of(w), 0, true));
        assert(((w & !0x3ffu64) | 0x400u64) == w <==> (w & 0x3ffu64 == 0 && w & 0x400u64 != 0))
            by (bit_vector);
    }
    w & !READER_MASK | WRITER_BIT
}

} // verus!

verus! {

/// Relies on `std::sync::atomic::fence` with `Acquire`: later reads see what
/// the writers of the words observed so far did before publishing them.
#[verifier::external_body]
fn acquire_fence() {
    std::sync::atomic::fence(Ordering::Acquire)
}

/// What one attempt at `compare_exchange` on a word found.
#[derive(Debug, Clone, Copy, PartialEq, Eq)]
pub enum CasStep {
    /// The word holds `current`: compare the word against `expected` and,
    /// where it matches, store `next`.
    Try { expected: u64, next: u64 },
    /// The word holds another address, the one given.
    Mismatch(u64),
}

/// The decision of `compare_exchange` on an observed word: go on only where
/// the word holds `current`, and then expect that address with no reader and
/// no writer, and install `new` with no reader and no writer.
pub open spec fn cas_decision(w: u64, current: u64, new: u64) -> CasStep {
    if addr_of(w) == current {
        CasStep::Try { expected: word(current, 0, false), next: word(new, 0, false) }
    } else {
        CasStep::Mismatch(addr_of(w))
    }
}

/// `cas_decision`, computed.
pub fn cas_step(w: u64, current: u64, new: u64) -> (r: CasStep)
    requires
        addr_ok(new),
    ensures
        r == cas_decision(w, current, new),
        addr_ok(addr_of(w)),
{
    proof {
        lemma_word_fields(w);
    }
    let a = unpack(w);
    if a == current {
        CasStep::Try { expected: quiet_word(w), next: pack(new) }
    } else {
        CasStep::Mismatch(a)
    }
}

/// What one attempt to enter as a reader on the observed word `w` comes to,
/// where `entered` tells whether the compare-exchange to
/// `enter_reader(w)` went through: the address held, or why not.
pub open spec fn read_outcome(w: u64, entered: bool) -> Result<u64, Busy> {
    if readers_of(w) >= READER_MASK {
        Err(Busy::ReadersFull)
    } else if entered {
        Ok(addr_of(w))
    } else {
        Err(Busy::Contended)
    }
}

/// `read_outcome`, computed.
pub fn read_result(w: u64, entered: bool) -> (r: Result<u64, Busy>)
    ensures
        r == read_outcome(w, entered),
        r matches Ok(a) ==> addr_ok(a),
{
    proof {
        lemma_word_fields(w);
    }
    if w & READER_MASK >= READER_MASK {
        Err(Busy::ReadersFull)
    } else if entered {
        Ok(unpack(w))
    } else {
        Err(Busy::Contended)
    }
}

/// What a failed `compare_exchange` that found `seen` comes to: nothing
/// decided where `seen` holds `current` (readers or a writer were active),
/// otherwise the address found.
pub open spec fn cas_failure(seen: u64, current: u64) -> Result<Result<u64, u64>, Busy> {
    if addr_of(seen) == current {
        Err(Busy::Contended)
    } else {
        Ok(Err(addr_of(seen)))
    }
}

/// `cas_failure`, computed.
pub fn cas_failure_result(seen: u64, current: u64) -> (r: Result<Result<u64, u64>, Busy>)
    ensures
        r == cas_failure(seen, current),
        addr_ok(addr_of(seen)),
{
    let a = unpack(seen);
    if a == current {
        Err(Busy::Contended)
    } else {
        Ok(Err(a))
    }
}

/// The atomic word of a cell.
pub struct LinkWrapper {
    word: AtomicU64,
}

impl LinkWrapper {
    /// A word that holds `addr`, with no reader and no writer.
    pub fn new(addr: u64) -> (l: Self)
        requires
            addr_ok(addr),
    {
        LinkWrapper { word: AtomicU64::new(pack(addr)) }
    }

    /// The address held now.
    pub fn get_ref(&self) -> (a: u64)
        ensures
            addr_ok(a),
    {
        unpack(self.word.load(Ordering::Acquire))
    }

    /// Whether the word holds no address.
    pub fn is_none(&self) -> bool {
        unpack(self.word.load(Ordering::Relaxed)) == 0
    }

    /// One attempt to enter as a reader, decided by `read_outcome` on the
    /// word observed. On success the address held is returned and cannot be
    /// replaced until `dec_ref`; `Busy::ReadersFull` where the reader field
    /// is full, so that entering would overflow it; `Busy::Contended` where
    /// another thread changed the word meanwhile.
    pub fn try_inc_ref(&self) -> (r: Result<u64, Busy>)
        ensures
            r matches Ok(a) ==> addr_ok(a),
    {
        let w = self.word.load(Ordering::Relaxed);
        let entered = match enter_reader(w) {
            Some(n) => self.word.compare_exchange_weak(w, n, Ordering::Acquire, Ordering::Relaxed).is_ok(),
            None => false,
        };
        read_result(w, entered)
    }

    /// Leave as a reader; pairs with a successful `try_inc_ref`.
    pub fn dec_ref(&self) {
        self.word.fetch_sub(1, Ordering::Release);
        acquire_fence();
    }

    /// One attempt to replace the address by `addr`. It goes through only on
    /// a word with no reader and no writer, and returns the address replaced.
    pub fn try_update(&self, addr: u64) -> (r: Option<u64>)
        requires
            addr_ok(addr),
        ensures
            r matches Some(a) ==> addr_ok(a),
    {
        let w = self.word.load(Ordering::Relaxed);
        let expected = quiet_word(w);
        match self.word.compare_exchange_weak(expected, pack(addr), Ordering::Release, Ordering::Relaxed) {
            Ok(_) => {
                acquire_fence();
                Some(unpack(expected))
            },
            Err(_) => None,
        }
    }

    /// One attempt to take the writer bit, which keeps other writers out and
    /// lets readers in. Returns the address held when the bit was taken.
    pub fn try_lock_read(&self) -> (r: Option<u64>)
        ensures
            r matches Some(a) ==> addr_ok(a),
    {
        let w = self.word.load(Ordering::Relaxed);
        let expected = unlocked_word(w);
        match self.word.compare_exchange_weak(expected, locked_word(expected), Ordering::Release, Ordering::Relaxed) {
            Ok(_) => {
                acquire_fence();
                Some(unpack(expected))
            },
            Err(_) => None,
        }
    }

    /// One attempt, by the holder of the writer bit, to install `addr` and
    /// give the bit back. It goes through only once no reader is left, and
    /// returns the address replaced.
    pub fn try_unlock_update(&self, addr: u64) -> (r: Option<u64>)
        requires
            addr_ok(addr),
        ensures
            r matches Some(a) ==> addr_ok(a),
    {
        let w = self.word.load(Ordering::Relaxed);
        let expected = held_quiet_word(w);
        match self.word.compare_exchange_weak(expected, pack(addr), Ordering::Release, Ordering::Relaxed) {
            Ok(_) => {
                acquire_fence();
                Some(unpack(expected))
            },
            Err(_) => None,
        }
    }

    /// One attempt to install `new` where the word holds `current`, decided
    /// by `cas_decision` on the word observed and by `cas_failure` on the
    /// word the compare-exchange found. `Ok(Ok(current))` where it was
    /// installed; `Ok(Err(a))` where the word held another address `a`;
    /// `Err(Busy::Contended)` where readers or a writer were active on a word
    /// holding `current`, so that nothing was decided.
    pub fn try_compare_exchange(
        &self,
        current: u64,
        new: u64,
        success: Ordering,
        failure: Ordering,
    ) -> (r: Result<Result<u64, u64>, Busy>)
        requires
            addr_ok(new),
            !(failure is Release),
            !(failure is AcqRel),
        ensures
            r matches Ok(Ok(a)) ==> a == current && addr_ok(a),
            r matches Ok(Err(a)) ==> a != current && addr_ok(a),
            r matches Err(b) ==> b == Busy::Contended,
    {
        let w = self.word.load(failure);
        match cas_step(w, current, new) {
            CasStep::Try { expected, next } => {
                match self.word.compare_exchange(expected, next, success, failure) {
                    Ok(_) => {
                        acquire_fence();
                        Ok(Ok(current))
                    },
                    Err(seen) => cas_failure_result(seen, current),
                }
            },
            CasStep::Mismatch(a) => Ok(Err(a)),
        }
    }
}

} // verus!
