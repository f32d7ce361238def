//! The receive descriptor ring of the Gigabit Ethernet controller: the
//! descriptors it starts with, which entry the software reads next, and
//! what a descriptor the hardware has filled amounts to.
use vstd::prelude::*;
use crate::bits::{bit32, with_bit32, bits32, with_bits32, get_bit_u32, set_bit_u32, get_bits_u32, set_bits_u32};
use crate::eth::MTU;

verus! {

/// What can go wrong when receiving.
#[derive(Clone, Copy, Debug, PartialEq, Eq, Structural)]
pub enum Error {
    HrespNotOk,
    RxOverrun,
    BufferNotAvail,
    Truncated,
}

/// A receive descriptor. Word 0 holds the used flag (bit 0, set while the
/// software owns the entry), the wrap flag (bit 1, on the last entry of the
/// ring) and the buffer address in 4-byte units (bits 2 to 31). Word 1
/// holds the frame length (bits 0 to 12) and the start- and end-of-frame
/// flags (bits 14 and 15).
#[derive(Clone, Copy, Debug, PartialEq, Eq, Structural)]
pub struct DescEntry {
    pub word0: u32,
    pub word1: u32,
}

impl DescEntry {
    pub fn zeroed() -> (r: Self)
        ensures
            r.word0 == 0,
            r.word1 == 0,
    {
        DescEntry { word0: 0, word1: 0 }
    }
}

/// The entry belongs to the software (the hardware has filled it).
pub open spec fn desc_used(word0: u32) -> bool {
    bit32(word0, 0)
}

/// The entry is the last of the ring.
pub open spec fn desc_wrap(word0: u32) -> bool {
    bit32(word0, 1)
}

/// The buffer address of the entry, in 4-byte units.
pub open spec fn desc_address(word0: u32) -> u32 {
    bits32(word0, 2, 31)
}

/// The length of the received frame.
pub open spec fn frame_length(word1: u32) -> u32 {
    bits32(word1, 0, 12)
}

pub open spec fn start_of_frame(word1: u32) -> bool {
    bit32(word1, 14)
}

pub open spec fn end_of_frame(word1: u32) -> bool {
    bit32(word1, 15)
}

/// Word 0 of a fresh entry: owned by the hardware, wrap on the last entry,
/// the buffer at `addr`.
pub open spec fn initial_word0(addr: u32, is_last: bool) -> u32 {
    with_bits32(with_bit32(with_bit32(0, 0, false), 1, is_last), 2, 31, addr >> 2)
}

/// `n` rounded up to a multiple of the 32-byte cache line.
pub open spec fn round_up_32(n: int) -> int {
    if n % 32 == 0 {
        n
    } else {
        n + (32 - n % 32)
    }
}

/// A received frame: the ring entry that holds it, its length, and how many
/// bytes of its buffer to invalidate in the data cache (the length rounded
/// up to whole cache lines).
#[derive(Clone, Copy, Debug, PartialEq, Eq, Structural)]
pub struct RxFrame {
    pub index: usize,
    pub length: usize,
    pub invalidate: usize,
}

/// The receive ring: `len` entries, of which `next` is the one the software
/// looks at next.
pub struct DescList {
    len: usize,
    next: usize,
}

impl DescList {
    #[verifier::type_invariant]
    spec fn inv(self) -> bool {
        0 < self.len && self.next < self.len
    }

    /// The number of entries.
    pub closed spec fn size(self) -> nat {
        self.len as nat
    }

    /// The entry read next.
    pub closed spec fn next_index(self) -> nat {
        self.next as nat
    }


    /// A ring over the buffers at `buffer_addrs` (4-byte aligned), with the
    /// entries to write into the descriptor memory: every entry is owned by
    /// the hardware and points at its buffer, and only the last wraps.
    pub fn new(buffer_addrs: &Vec<u32>) -> (r: (DescList, Vec<DescEntry>))
        requires
            buffer_addrs.len() >= 1,
            forall|i: int| 0 <= i < buffer_addrs.len() ==> #[trigger] buffer_addrs[i] & 3 == 0,
        ensures
            r.0.size() == buffer_addrs.len(),
            r.0.next_index() == 0,
            r.1.len() == buffer_addrs.len(),
            forall|i: int|
                0 <= i < r.1.len() ==> #[trigger] r.1[i] == (DescEntry {
                    word0: initial_word0(buffer_addrs[i], i == buffer_addrs.len() - 1),
                    word1: 0,
                }),
    {
        let n = buffer_addrs.len();
        let last = n - 1;
        let mut entries: Vec<DescEntry> = Vec::new();
        let mut i: usize = 0;
        while i < n
            invariant
                n == buffer_addrs.len(),
                last == n - 1,
                i <= n,
                entries.len() == i,
                forall|j: int|
                    0 <= j < i ==> #[trigger] entries[j] == (DescEntry {
                        word0: initial_word0(buffer_addrs[j], j == n - 1),
                        word1: 0,
                    }),
            decreases n - i,
        {
            let addr = buffer_addrs[i];
            let w = set_bit_u32(0, 0, false);
            let w = set_bit_u32(w, 1, i == last);
            proof {
                crate::bits::lemma_mask_values();
                assert(addr >> 2u32 <= 0x3fff_ffffu32) by (bit_vector);
            }
            let w = set_bits_u32(w, 2, 31, addr >> 2);
            entries.push(DescEntry { word0: w, word1: 0 });
            i += 1;
        }
        (DescList { len: n, next: 0 }, entries)
    }

    /// The number of entries.
    pub fn len(&self) -> (r: usize)
        ensures
            r == self.size(),
            0 < r,
    {
        proof {
            use_type_invariant(self);
        }
        self.len
    }

    /// The entry the software looks at next.
    pub fn next(&self) -> (r: usize)
        ensures
            r == self.next_index(),
            r < self.size(),
    {
        proof {
            use_type_invariant(self);
        }
        self.next
    }

    /// Looks at `entry`, the descriptor at `next_index()` as the memory
    /// holds it now. An entry the hardware still owns gives `Ok(None)` and
    /// leaves the ring as it is. A filled entry moves the ring on by one
    /// (wrapping at the end) and gives the frame, or `Truncated` when the
    /// frame does not both start and end in it; either way the caller hands
    /// the entry back with `release_word0` once done with the buffer.
    pub fn recv_next(&mut self, entry: DescEntry) -> (r: Result<Option<RxFrame>, Error>)
        requires
            desc_used(entry.word0) ==> frame_length(entry.word1) <= MTU,
        ensures
            final(self).size() == old(self).size(),
            !desc_used(entry.word0) ==> r == Ok::<Option<RxFrame>, Error>(None)
                && final(self).next_index() == old(self).next_index(),
            desc_used(entry.word0) ==> final(self).next_index() == (old(self).next_index() + 1)
                % old(self).size(),
            desc_used(entry.word0) && start_of_frame(entry.word1) && end_of_frame(entry.word1) ==> r
                == Ok::<Option<RxFrame>, Error>(Some(RxFrame {
                    index: old(self).next_index() as usize,
                    length: frame_length(entry.word1) as usize,
                    invalidate: round_up_32(frame_length(entry.word1) as int) as usize,
                })),
            desc_used(entry.word0) && !(start_of_frame(entry.word1) && end_of_frame(entry.word1))
                ==> r == Err::<Option<RxFrame>, Error>(Error::Truncated),
    {
        proof {
            use_type_invariant(&*self);
        }
        if get_bit_u32(entry.word0, 0) {
            proof {
                crate::bits::lemma_mask_values();
            }
            let len = get_bits_u32(entry.word1, 0, 12);
            let diff = len % 0x20;
            let padding = if diff == 0 { 0 } else { 0x20 - diff };
            let index = self.next;
            let next = if index + 1 >= self.len { 0 } else { index + 1 };
            proof {
                if index + 1 >= self.len {
                    vstd::arithmetic::div_mod::lemma_mod_self_0(self.len as int);
                } else {
                    vstd::arithmetic::div_mod::lemma_small_mod((index + 1) as nat, self.len as nat);
                }
            }
            self.next = next;
            if get_bit_u32(entry.word1, 14) && get_bit_u32(entry.word1, 15) {
                Ok(Some(RxFrame { index, length: len as usize, invalidate: (len + padding) as usize }))
            } else {
                Err(Error::Truncated)
            }
        } else {
            Ok(None)
        }
    }
}

/// Word 0 of an entry handed back to the hardware: the used flag cleared.
pub fn release_word0(word0: u32) -> (r: u32)
    ensures
        r == with_bit32(word0, 0, false),
{
    set_bit_u32(word0, 0, false)
}

/// Handing an entry back gives it to the hardware and keeps its buffer and
/// its place at the end of the ring or not.
pub proof fn lemma_release_keeps_buffer(word0: u32)
    by (bit_vector)
    ensures
        !desc_used(with_bit32(word0, 0, false)),
        desc_wrap(with_bit32(word0, 0, false)) == desc_wrap(word0),
        desc_address(with_bit32(word0, 0, false)) == desc_address(word0),
{
}

/// A fresh entry is owned by the hardware, wraps exactly when it is the
/// last, and points at its (aligned) buffer.
pub proof fn lemma_initial_word0(addr: u32, is_last: bool)
    by (bit_vector)
    requires
        addr & 3 == 0,
    ensures
        !desc_used(initial_word0(addr, is_last)),
        desc_wrap(initial_word0(addr, is_last)) == is_last,
        desc_address(initial_word0(addr, is_last)) << 2 == addr,
{
}

/// The bits of the receive status register that decide a receive poll.
#[derive(Clone, Copy, Debug, PartialEq, Eq, Structural)]
pub struct RxStatus {
    pub hresp_not_ok: bool,
    pub rx_overrun: bool,
    pub buffer_not_avail: bool,
    pub frame_recd: bool,
}

/// What a receive poll does next.
#[derive(Clone, Copy, Debug, PartialEq, Eq, Structural)]
pub enum RxStep {
    /// Clear the flag of this error in the status register and report it.
    Fail(Error),
    /// Read the ring with `DescList::recv_next`; if that finds nothing,
    /// clear the frame-received flag.
    ReadRing,
    /// Nothing arrived: check the link instead.
    CheckLink,
}

/// The receive poll's decision from the status register: the errors in the
/// order bus error, overrun, no buffer; then a received frame; else a link
/// check.
pub fn rx_step(status: RxStatus) -> (r: RxStep)
    ensures
        r == (if status.hresp_not_ok {
            RxStep::Fail(Error::HrespNotOk)
        } else if status.rx_overrun {
            RxStep::Fail(Error::RxOverrun)
        } else if status.buffer_not_avail {
            RxStep::Fail(Error::BufferNotAvail)
        } else if status.frame_recd {
            RxStep::ReadRing
        } else {
            RxStep::CheckLink
        }),
{
    if status.hresp_not_ok {
        RxStep::Fail(Error::HrespNotOk)
    } else if status.rx_overrun {
        RxStep::Fail(Error::RxOverrun)
    } else if status.buffer_not_avail {
        RxStep::Fail(Error::BufferNotAvail)
    } else if status.frame_recd {
        RxStep::ReadRing
    } else {
        RxStep::CheckLink
    }
}

} // verus!
