//! The transmit descriptor ring of the Gigabit Ethernet controller.
use vstd::prelude::*;
use crate::bits::{bit32, with_bit32, bits32, with_bits32, get_bit_u32, set_bit_u32, set_bits_u32};
use crate::eth::MTU;

verus! {

/// A transmit descriptor. Word 0 is the buffer address. Word 1 holds the
/// frame length (bits 0 to 13), the last-buffer flag (bit 15), the wrap flag
/// (bit 30, on the last entry of the ring) and the used flag (bit 31, set
/// while the software owns the entry).
#[derive(Clone, Copy, Debug, PartialEq, Eq, Structural)]
pub struct DescEntry {
    pub word0: u32,
    pub word1: u32,
}

impl DescEntry {
    pub fn zeroed() -> (r: Self)
        ensures
            r.word0 == 0,
            r.word1 == 0,
    {
        DescEntry { word0: 0, word1: 0 }
    }
}

/// Number of descriptors
pub const DESCS: usize = 8;

pub open spec fn tx_length(word1: u32) -> u32 {
    bits32(word1, 0, 13)
}

pub open spec fn last_buffer(word1: u32) -> bool {
    bit32(word1, 15)
}

pub open spec fn tx_wrap(word1: u32) -> bool {
    bit32(word1, 30)
}

/// The entry belongs to the software (free to fill).
pub open spec fn tx_used(word1: u32) -> bool {
    bit32(word1, 31)
}

/// Word 1 of a fresh entry: owned by the software, wrap on the last entry,
/// one frame per buffer.
pub open spec fn initial_word1(is_last: bool) -> u32 {
    with_bit32(with_bit32(with_bit32(0, 31, true), 30, is_last), 15, true)
}

/// Word 1 of an entry filled with a frame of `length` bytes: the length, one
/// frame per buffer, wrap on the last entry, and still owned by the
/// software until it is released.
pub open spec fn send_word1(length: u32, is_last: bool) -> u32 {
    with_bit32(with_bit32(with_bit32(with_bits32(0, 0, 13, length), 15, true), 30, is_last), 31, true)
}

/// An entry to fill: its place in the ring and the word 1 to write there.
#[derive(Clone, Copy, Debug, PartialEq, Eq, Structural)]
pub struct TxSlot {
    pub index: usize,
    pub word1: u32,
}

/// The transmit ring: `len` entries (at least two), of which `next` is the
/// one filled next.
pub struct DescList {
    len: usize,
    next: usize,
}

impl DescList {
    #[verifier::type_invariant]
    spec fn inv(self) -> bool {
        1 < self.len && self.next < self.len
    }

    /// The number of entries.
    pub closed spec fn size(self) -> nat {
        self.len as nat
    }

    /// The entry filled next.
    pub closed spec fn next_index(self) -> nat {
        self.next as nat
    }


    /// A ring over `list_len` descriptors and the buffers at
    /// `buffer_addrs` (4-byte aligned), cut to the shorter of the two, with
    /// the entries to write: each points at its buffer, is owned by the
    /// software and holds one frame, and only the last wraps. Sending works
    /// only with two buffers or more.
    pub fn new(list_len: usize, buffer_addrs: &Vec<u32>) -> (r: (DescList, Vec<DescEntry>))
        requires
            list_len >= 2,
            buffer_addrs.len() >= 2,
            forall|i: int|
                0 <= i < buffer_addrs.len() && i < list_len ==> #[trigger] buffer_addrs[i] & 3 == 0,
        ensures
            r.0.size() == (if list_len < buffer_addrs.len() { list_len as int } else { buffer_addrs.len() as int }),
            r.0.next_index() == 0,
            r.1.len() == r.0.size(),
            forall|i: int|
                0 <= i < r.1.len() ==> #[trigger] r.1[i] == (DescEntry {
                    word0: buffer_addrs[i],
                    word1: initial_word1(i == r.1.len() - 1),
                }),
    {
        let n = if list_len < buffer_addrs.len() { list_len } else { buffer_addrs.len() };
        let last = n - 1;
        let mut entries: Vec<DescEntry> = Vec::new();
        let mut i: usize = 0;
        while i < n
            invariant
                n <= buffer_addrs.len(),
                last == n - 1,
                i <= n,
                entries.len() == i,
                forall|j: int|
                    0 <= j < i ==> #[trigger] entries[j] == (DescEntry {
                        word0: buffer_addrs[j],
                        word1: initial_word1(j == n - 1),
                    }),
            decreases n - i,
        {
            let w = set_bit_u32(0, 31, true);
            let w = set_bit_u32(w, 30, i == last);
            let w = set_bit_u32(w, 15, true);
            entries.push(DescEntry { word0: buffer_addrs[i], word1: w });
            i += 1;
        }
        (DescList { len: n, next: 0 }, entries)
    }

    /// The number of entries.
    pub fn len(&self) -> (r: usize)
        ensures
            r == self.size(),
            1 < r,
    {
        proof {
            use_type_invariant(self);
        }
        self.len
    }

    /// The entry filled next.
    pub fn next(&self) -> (r: usize)
        ensures
            r == self.next_index(),
            r < self.size(),
    {
        proof {
            use_type_invariant(self);
        }
        self.next
    }

    /// Claims the next entry for a frame of `length` bytes, given `word1`,
    /// word 1 of that entry as the memory holds it now. While the hardware
    /// still owns it (frames sent faster than the ring drains) the result is
    /// `None` and the ring stays; else the ring moves on by one (wrapping at
    /// the end) and the slot says what to write into the entry, which the
    /// caller hands to the hardware with `release_word1` once the buffer is
    /// filled.
    pub fn send(&mut self, word1: u32, length: usize) -> (r: Option<TxSlot>)
        requires
            length <= MTU,
        ensures
            final(self).size() == old(self).size(),
            !tx_used(word1) ==> r == None::<TxSlot> && final(self).next_index() == old(self).next_index(),
            tx_used(word1) ==> r == Some(TxSlot {
                index: old(self).next_index() as usize,
                word1: send_word1(length as u32, old(self).next_index() == old(self).size() - 1),
            }),
            tx_used(word1) ==> final(self).next_index() == (old(self).next_index() + 1) % old(self).size(),
    {
        proof {
            use_type_invariant(&*self);
        }
        if get_bit_u32(word1, 31) {
            proof {
                crate::bits::lemma_mask_values();
            }
            let index = self.next;
            let w = set_bits_u32(0, 0, 13, length as u32);
            let w = set_bit_u32(w, 15, true);
            let w = set_bit_u32(w, 30, index >= self.len - 1);
            let w = set_bit_u32(w, 31, true);
            let next = if index + 1 >= self.len { 0 } else { index + 1 };
            proof {
                if index + 1 >= self.len {
                    vstd::arithmetic::div_mod::lemma_mod_self_0(self.len as int);
                } else {
                    vstd::arithmetic::div_mod::lemma_small_mod((index + 1) as nat, self.len as nat);
                }
            }
            self.next = next;
            Some(TxSlot { index, word1: w })
        } else {
            None
        }
    }
}

/// Word 1 of a filled entry handed to the hardware: the used flag cleared.
pub fn release_word1(word1: u32) -> (r: u32)
    ensures
        r == with_bit32(word1, 31, false),
{
    set_bit_u32(word1, 31, false)
}

/// A filled entry carries the frame's length, holds one frame, wraps
/// exactly when it is the last, and once released belongs to the hardware
/// with all of that kept.
pub proof fn lemma_send_word1(length: u32, is_last: bool)
    by (bit_vector)
    requires
        length < 0x4000,
    ensures
        tx_used(send_word1(length, is_last)),
        tx_length(send_word1(length, is_last)) == length,
        last_buffer(send_word1(length, is_last)),
        tx_wrap(send_word1(length, is_last)) == is_last,
        !tx_used(with_bit32(send_word1(length, is_last), 31, false)),
        tx_length(with_bit32(send_word1(length, is_last), 31, false)) == length,
        tx_wrap(with_bit32(send_word1(length, is_last), 31, false)) == is_last,
{
}

/// A fresh entry belongs to the software, holds one frame and wraps
/// exactly when it is the last.
pub proof fn lemma_initial_word1(is_last: bool)
    by (bit_vector)
    ensures
        tx_used(initial_word1(is_last)),
        last_buffer(initial_word1(is_last)),
        tx_wrap(initial_word1(is_last)) == is_last,
        tx_length(initial_word1(is_last)) == 0,
{
}

} // verus!
