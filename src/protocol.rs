//! What the link word and the node version word guarantee across several
//! steps, stated over the fields of the words.
use vstd::prelude::*;
use crate::handle::ArcPointer;
use crate::Busy;
use crate::link::{
    addr_of, addr_ok, cas_decision, cas_failure, lemma_fields_of_word, lemma_null_ok,
    lemma_word_fields, locked, readers_of, word, CasStep, READER_MASK,
};
use crate::node_lock::{held, removed};

verus! {

/// On the packed word: a reader that enters and leaves with no writer in
/// between takes the address the word holds, and leaves the word as it
/// found it, so the address it took is still the word's address (which is
/// what `arc_eq` compares against).
pub proof fn law_read_then_arc_eq(w: u64)
    requires
        readers_of(w) < READER_MASK,
    ensures
        ({
            let inside = word(addr_of(w), (readers_of(w) + 1) as u64, locked(w));
            &&& addr_of(inside) == addr_of(w)
            &&& readers_of(inside) > 0
            &&& word(addr_of(inside), (readers_of(inside) - 1) as u64, locked(inside)) == w
        }),
{
    lemma_word_fields(w);
    lemma_fields_of_word(addr_of(w), (readers_of(w) + 1) as u64, locked(w));
}

/// On the packed word: where no reader and no writer are active, the
/// compare-exchange decision expects exactly the word found, and so
/// installs `new`, precisely where the word holds `current`; otherwise it
/// reports the address the word holds. Where readers or a writer are
/// active on a word that holds `current`, the attempt decides nothing
/// (`cas_failure` gives `Busy::Contended`) and is retried.
pub proof fn law_compare_exchange(w: u64, current: u64, new: u64)
    requires
        addr_ok(new),
        readers_of(w) == 0,
        !locked(w),
    ensures
        (cas_decision(w, current, new) matches CasStep::Try { expected, next } && expected == w
            && addr_of(next) == new) <==> addr_of(w) == current,
        addr_of(w) != current ==> cas_decision(w, current, new) == CasStep::Mismatch(addr_of(w)),
        cas_failure(w, current) is Err <==> addr_of(w) == current,
        cas_failure(w, current) matches Err(b) ==> b == Busy::Contended,
{
    lemma_word_fields(w);
    lemma_fields_of_word(new, 0, false);
}

/// On the packed word: where the word holds `current` while readers or a
/// writer are active, the compare-exchange expects a different word, so it
/// cannot go through, and the word it then finds makes the attempt come to
/// `Busy::Contended`: nothing is decided until the word is quiet again.
pub proof fn law_compare_exchange_contended(w: u64, current: u64, new: u64)
    requires
        addr_ok(new),
        addr_of(w) == current,
        readers_of(w) > 0 || locked(w),
    ensures
        cas_decision(w, current, new) matches CasStep::Try { expected, next } && expected != w,
        cas_failure(w, current) == Err::<Result<u64, u64>, Busy>(Busy::Contended),
{
    lemma_word_fields(w);
    lemma_fields_of_word(addr_of(w), 0, false);
}

/// On the packed word: a write on a word with no reader and no writer
/// expects exactly that word, so it goes through; the word it installs
/// holds the address written, and a reader can enter it and take that
/// address.
pub proof fn law_write_then_read(w: u64, x: u64)
    requires
        addr_ok(x),
        readers_of(w) == 0,
        !locked(w),
    ensures
        word(addr_of(w), 0, false) == w,
        addr_of(word(x, 0, false)) == x,
        readers_of(word(x, 0, false)) < READER_MASK,
{
    lemma_word_fields(w);
    lemma_fields_of_word(x, 0, false);
}

/// On the packed word: the word a take installs holds the null address, so
/// `is_none` finds it empty.
pub proof fn law_take_then_is_none()
    ensures
        addr_of(word(0, 0, false)) == 0,
{
    lemma_null_ok();
    lemma_fields_of_word(0, 0, false);
}

/// On the packed word: the word made from a handle's address holds that
/// address, which `into_arc` turns back into a handle.
pub proof fn law_from_then_into<H: ArcPointer>(h: H)
    requires
        addr_ok(h.addr()),
    ensures
        addr_of(word(h.addr(), 0, false)) == h.addr(),
{
    lemma_fields_of_word(h.addr(), 0, false);
}

/// A writer goes through only on a word with no reader inside its window
/// and no other writer: neither a plain write nor the release of an update
/// can replace an address that a reader may still be copying.
pub proof fn law_writers_wait_for_readers(w: u64)
    requires
        readers_of(w) > 0 || locked(w),
    ensures
        word(addr_of(w), 0, false) != w,
{
    lemma_word_fields(w);
    lemma_fields_of_word(addr_of(w), 0, false);
}

/// While one writer holds the writer bit, no other writer can take it or
/// replace the address, and readers can still enter.
pub proof fn law_update_excludes_writers(w: u64)
    requires
        locked(w),
    ensures
        word(addr_of(w), readers_of(w), false) != w,
        word(addr_of(w), 0, false) != w,
        readers_of(w) < READER_MASK ==> locked(
            word(addr_of(w), (readers_of(w) + 1) as u64, locked(w)),
        ),
{
    lemma_word_fields(w);
    lemma_fields_of_word(addr_of(w), readers_of(w), false);
    lemma_fields_of_word(addr_of(w), 0, false);
    if readers_of(w) < READER_MASK {
        lemma_fields_of_word(addr_of(w), (readers_of(w) + 1) as u64, locked(w));
    }
}

/// An update that meets no reader: taking the writer bit keeps the address,
/// and releasing it installs the new address and clears the bit.
pub proof fn law_update_round(w: u64, x: u64)
    requires
        addr_ok(x),
        readers_of(w) == 0,
        !locked(w),
    ensures
        ({
            let held_word = word(addr_of(w), 0, true);
            &&& addr_of(held_word) == addr_of(w)
            &&& word(addr_of(held_word), 0, true) == held_word
            &&& addr_of(word(x, 0, false)) == x
            &&& !locked(word(x, 0, false))
        }),
{
    lemma_word_fields(w);
    lemma_fields_of_word(addr_of(w), 0, true);
    lemma_fields_of_word(x, 0, false);
}

/// A lock cycle on a node leaves it unlocked and present, one version on;
/// a removed node stays removed and can never be locked.
pub proof fn law_node_lock_cycle(v: u64)
    requires
        !removed(v),
        !held(v),
    ensures
        held((v + 2) as u64) && !removed((v + 2) as u64),
        !held(((v + 2) as u64).wrapping_add(2)) && !removed(((v + 2) as u64).wrapping_add(2)),
        removed(((v + 2) as u64).wrapping_add(3)) && !held(((v + 2) as u64).wrapping_add(3)),
{
    assert(v & 1 != 1 && v & 2 != 2 ==> v + 2 <= u64::MAX && ((v + 2) as u64) & 2 == 2 && ((v
        + 2) as u64) & 1 != 1 && ((v + 2) as u64).wrapping_add(2) & 2 != 2 && ((v + 2) as u64).wrapping_add(2) & 1
        != 1 && ((v + 2) as u64).wrapping_add(3) & 1 == 1 && ((v + 2) as u64).wrapping_add(3) & 2 != 2)
        by (bit_vector);
}

} // verus!
