//! I2C bit-banging controller: bus multiplexer settings, bit assembly and
//! the page splitting of EEPROM writes.
use vstd::prelude::*;

verus! {

/// The I2C bus switch on the board.
#[derive(Copy, Clone, Debug, PartialEq, Eq, Structural)]
pub enum I2cMultiplexer {
    PCA9548,
    PCA9547,
}

#[derive(Copy, Clone, Debug, PartialEq, Eq, Structural)]
pub enum Error {
    Nack,
    SCLLow,
    SDALow,
    ArbitrationLost,
    UnknownSwitch,
    PollingTimeout,
    OtherError,
}

impl Error {
    /// The description of the error.
    pub fn message(&self) -> (r: &'static str)
        ensures
            r@ == match *self {
                Error::Nack => "I2C write was not ACKed"@,
                Error::SCLLow => "SCL stuck low"@,
                Error::SDALow => "SDA stuck low"@,
                Error::ArbitrationLost => "SDA arbitration lost"@,
                Error::UnknownSwitch => "Unknown response for PCA954X autodetect"@,
                Error::PollingTimeout => "I2C polling timeout"@,
                Error::OtherError => "other error"@,
            },
    {
        match self {
            Error::Nack => "I2C write was not ACKed",
            Error::SCLLow => "SCL stuck low",
            Error::SDALow => "SDA stuck low",
            Error::ArbitrationLost => "SDA arbitration lost",
            Error::UnknownSwitch => "Unknown response for PCA954X autodetect",
            Error::PollingTimeout => "I2C polling timeout",
            Error::OtherError => "other error",
        }
    }
}

/// The control byte that selects `channel` (0 to 7) on a bus switch, or no
/// channel: one bit per channel on the PCA9548, the channel number with the
/// enable bit `0x08` on the PCA9547.
pub open spec fn switch_setting(pca_type: I2cMultiplexer, channel: Option<u8>) -> u8 {
    match channel {
        None => 0,
        Some(ch) => match pca_type {
            I2cMultiplexer::PCA9548 => (1u8 << ch) as u8,
            I2cMultiplexer::PCA9547 => ch | 0x08u8,
        },
    }
}

/// The control byte written by `pca954x_select`; a channel must be below 8.
pub fn pca954x_setting(pca_type: I2cMultiplexer, channel: Option<u8>) -> (r: u8)
    requires
        channel matches Some(ch) ==> ch < 8,
    ensures
        r == switch_setting(pca_type, channel),
{
    match channel {
        None => 0,
        Some(ch) => match pca_type {
            I2cMultiplexer::PCA9548 => 1u8 << ch,
            I2cMultiplexer::PCA9547 => ch | 0x08,
        },
    }
}

/// The byte whose bits, most significant first, are the SDA samples `s`.
pub open spec fn byte_of_samples(s: Seq<bool>) -> int
    decreases s.len(),
{
    if s.len() == 0 {
        0
    } else {
        2 * byte_of_samples(s.drop_last()) + (if s.last() { 1int } else { 0int })
    }
}

/// The byte received as eight SDA samples, most significant bit first, as
/// the read of an I2C byte assembles it.
pub fn read_bits(samples: [bool; 8]) -> (r: u8)
    ensures
        r as int == byte_of_samples(samples@),
{
    let mut data: u8 = 0;
    let mut i: usize = 0;
    while i < 8
        invariant
            i <= 8,
            data as int == byte_of_samples(samples@.subrange(0, i as int)),
            data as int <= 255,
            (data as int) < pow2_int(i as nat),
        decreases 8 - i,
    {
        proof {
            assert(samples@.subrange(0, i as int + 1).drop_last() =~= samples@.subrange(0, i as int));
            lemma_pow2_int_step(i as nat);
        }
        let bit: u8 = if samples[i] { 1 } else { 0 };
        data = data * 2 + bit;
        i = i + 1;
    }
    assert(samples@.subrange(0, 8) =~= samples@);
    data
}

/// `2^n`.
pub open spec fn pow2_int(n: nat) -> int
    decreases n,
{
    if n == 0 {
        1
    } else {
        2 * pow2_int((n - 1) as nat)
    }
}

proof fn lemma_pow2_int_step(i: nat)
    requires
        i < 8,
    ensures
        pow2_int(i + 1) == 2 * pow2_int(i),
        pow2_int(i) <= 128,
{
    reveal_with_fuel(pow2_int, 8);
    if i == 0 {
    } else if i == 1 {
    } else if i == 2 {
    } else if i == 3 {
    } else if i == 4 {
    } else if i == 5 {
    } else if i == 6 {
    } else {
        assert(i == 7);
    }
}

/// One EEPROM page write: bytes `start..end` of the buffer, sent to the
/// memory address `addr`.
#[derive(Copy, Clone, Debug, PartialEq, Eq, Structural)]
pub struct PageWrite {
    pub addr: u8,
    pub start: usize,
    pub end: usize,
}

/// `w` splits `len` bytes written from memory address `addr` into page
/// writes: consecutive, nonempty, covering the buffer, each within one page
/// of `page_size` bytes and ending at a page boundary or at the end.
pub open spec fn is_page_split(addr: u8, len: usize, page_size: u8, w: Seq<PageWrite>) -> bool {
    &&& (len == 0 <==> w.len() == 0)
    &&& w.len() > 0 ==> w[0].start == 0 && w.last().end == len
    &&& forall|k: int| 0 <= k < w.len() - 1 ==> #[trigger] w[k].end == w[k + 1].start
    &&& forall|k: int|
        0 <= k < w.len() ==> {
            let p = #[trigger] w[k];
            &&& p.start < p.end
            &&& p.addr == addr + p.start
            &&& (addr + p.start) / (page_size as int) == (addr + p.end - 1) / (page_size as int)
            &&& (p.end == len || (addr + p.end) % (page_size as int) == 0)
        }
}

/// The page writes of an EEPROM write of `len` bytes at memory address
/// `addr`: a new write starts at every page boundary, so that no write rolls
/// over within a page. The bytes must fit below address 256.
pub fn page_writes(addr: u8, len: usize, page_size: u8) -> (r: Vec<PageWrite>)
    requires
        page_size > 0,
        addr + len <= 256,
    ensures
        is_page_split(addr, len, page_size, r@),
{
    let mut out: Vec<PageWrite> = Vec::new();
    let mut start: usize = 0;
    let ps = page_size as usize;
    while start < len
        invariant
            start <= len,
            ps == page_size as usize,
            page_size > 0,
            addr + len <= 256,
            (start == 0 <==> out@.len() == 0),
            out@.len() > 0 ==> out@[0].start == 0 && out@.last().end == start,
            forall|k: int| 0 <= k < out@.len() - 1 ==> #[trigger] out@[k].end == out@[k + 1].start,
            forall|k: int|
                0 <= k < out@.len() ==> {
                    let p = #[trigger] out@[k];
                    &&& p.start < p.end
                    &&& p.addr == addr + p.start
                    &&& (addr + p.start) / (page_size as int) == (addr + p.end - 1) / (page_size as int)
                    &&& (p.end == len || (addr + p.end) % (page_size as int) == 0)
                },
        decreases len - start,
    {
        let a = addr as usize + start;
        let to_boundary = ps - a % ps;
        let end = if start + to_boundary < len { start + to_boundary } else { len };
        proof {
            lemma_same_page(a as int, ps as int, (end - start) as int);
        }
        let w = PageWrite { addr: (addr as usize + start) as u8, start, end };
        let ghost before = out@;
        out.push(w);
        proof {
            assert forall|k: int| 0 <= k < out@.len() - 1 implies #[trigger] out@[k].end == out@[k + 1].start by {
                if k < before.len() - 1 {
                    assert(out@[k] == before[k] && out@[k + 1] == before[k + 1]);
                }
            }
            assert forall|k: int| 0 <= k < out@.len() implies {
                let p = #[trigger] out@[k];
                &&& p.start < p.end
                &&& p.addr == addr + p.start
                &&& (addr + p.start) / (page_size as int) == (addr + p.end - 1) / (page_size as int)
                &&& (p.end == len || (addr + p.end) % (page_size as int) == 0)
            } by {
                if k < before.len() {
                    assert(out@[k] == before[k]);
                }
            }
        }
        start = end;
    }
    out
}

/// A run of `n` bytes from `a` that stops at or before the next page
/// boundary stays in one page, and it ends at that boundary when it has
/// the full length to it.
proof fn lemma_same_page(a: int, ps: int, n: int)
    requires
        ps > 0,
        a >= 0,
        1 <= n <= ps - a % ps,
    ensures
        a / ps == (a + n - 1) / ps,
        n == ps - a % ps ==> (a + n) % ps == 0,
{
    let q = a / ps;
    let r = a % ps;
    assert(a == q * ps + r) by (nonlinear_arith)
        requires q == a / ps, r == a % ps, ps > 0;
    assert(0 <= r < ps);
    assert(a + n - 1 == q * ps + (r + n - 1));
    assert(0 <= r + n - 1 < ps);
    assert((a + n - 1) / ps == q) by (nonlinear_arith)
        requires a + n - 1 == q * ps + (r + n - 1), 0 <= r + n - 1 < ps, ps > 0;
    if n == ps - r {
        assert(a + n == (q + 1) * ps) by (nonlinear_arith)
            requires a == q * ps + r, n == ps - r;
        assert((a + n) % ps == 0) by (nonlinear_arith)
            requires a + n == (q + 1) * ps, ps > 0;
    }
}

/// Bit `n` of a byte.
pub open spec fn byte_bit(x: u8, n: u8) -> bool {
    (x >> n) & 1u8 == 1u8
}

/// The SDA drive of the eight bit times of a byte written on the bus, most
/// significant bit first: the line is pulled low (output enabled) for a 0
/// and released for a 1.
pub fn write_bits(data: u8) -> (r: [bool; 8])
    ensures
        forall|i: int| 0 <= i < 8 ==> #[trigger] r@[i] == !byte_bit(data, (7 - i) as u8),
{
    let mut r = [false; 8];
    let mut i: usize = 0;
    while i < 8
        invariant
            i <= 8,
            r@.len() == 8,
            forall|k: int| 0 <= k < i ==> #[trigger] r@[k] == !byte_bit(data, (7 - k) as u8),
        decreases 8 - i,
    {
        let bit = (7 - i) as u8;
        r[i] = (data >> bit) & 1 == 0;
        proof {
            assert(((data >> bit) & 1u8 == 0u8) == !((data >> bit) & 1u8 == 1u8)) by (bit_vector);
        }
        i = i + 1;
    }
    r
}

proof fn lemma_byte_bits(data: u8)
    by (bit_vector)
    ensures
        data as int == (if byte_bit(data, 7) { 128int } else { 0int }) + (if byte_bit(data, 6) { 64int } else { 0int })
            + (if byte_bit(data, 5) { 32int } else { 0int }) + (if byte_bit(data, 4) { 16int } else { 0int })
            + (if byte_bit(data, 3) { 8int } else { 0int }) + (if byte_bit(data, 2) { 4int } else { 0int })
            + (if byte_bit(data, 1) { 2int } else { 0int }) + (if byte_bit(data, 0) { 1int } else { 0int }),
{
}

/// What a write puts on the bus a read takes back: sampling SDA high
/// wherever the writer released the line gives the byte written.
#[verifier::spinoff_prover]
#[verifier::rlimit(40)]
pub proof fn lemma_write_read_roundtrip(data: u8, drive: Seq<bool>)
    requires
        drive.len() == 8,
        forall|i: int| 0 <= i < 8 ==> #[trigger] drive[i] == !byte_bit(data, (7 - i) as u8),
    ensures
        byte_of_samples(Seq::new(8, |i: int| !drive[i])) == data as int,
{
    let s = Seq::new(8, |i: int| !drive[i]);
    lemma_byte_bits(data);
    assert(s.drop_last() =~= s.subrange(0, 7));
    assert(s.subrange(0, 7).drop_last() =~= s.subrange(0, 6));
    assert(s.subrange(0, 6).drop_last() =~= s.subrange(0, 5));
    assert(s.subrange(0, 5).drop_last() =~= s.subrange(0, 4));
    assert(s.subrange(0, 4).drop_last() =~= s.subrange(0, 3));
    assert(s.subrange(0, 3).drop_last() =~= s.subrange(0, 2));
    assert(s.subrange(0, 2).drop_last() =~= s.subrange(0, 1));
    assert(s.subrange(0, 1).drop_last() =~= s.subrange(0, 0));
    assert(byte_of_samples(s.subrange(0, 0)) == 0);
    assert(byte_of_samples(s.subrange(0, 1)) == (if byte_bit(data, 7) { 1int } else { 0int }));
    assert(byte_of_samples(s.subrange(0, 2)) == 2 * byte_of_samples(s.subrange(0, 1)) + (if byte_bit(data, 6) { 1int } else { 0int }));
    assert(byte_of_samples(s.subrange(0, 3)) == 2 * byte_of_samples(s.subrange(0, 2)) + (if byte_bit(data, 5) { 1int } else { 0int }));
    assert(byte_of_samples(s.subrange(0, 4)) == 2 * byte_of_samples(s.subrange(0, 3)) + (if byte_bit(data, 4) { 1int } else { 0int }));
    assert(byte_of_samples(s.subrange(0, 5)) == 2 * byte_of_samples(s.subrange(0, 4)) + (if byte_bit(data, 3) { 1int } else { 0int }));
    assert(byte_of_samples(s.subrange(0, 6)) == 2 * byte_of_samples(s.subrange(0, 5)) + (if byte_bit(data, 2) { 1int } else { 0int }));
    assert(byte_of_samples(s.subrange(0, 7)) == 2 * byte_of_samples(s.subrange(0, 6)) + (if byte_bit(data, 1) { 1int } else { 0int }));
    assert(byte_of_samples(s) == 2 * byte_of_samples(s.subrange(0, 7)) + (if byte_bit(data, 0) { 1int } else { 0int }));
}

} // verus!
