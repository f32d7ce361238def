//! Quad-SPI flash controller, for two Spansion S25FL128S: status register
//! decoding, clock divisors and the register settings of each mode.
use vstd::prelude::*;
use core::marker::PhantomData;
use vstd::std_specs::convert::FromSpecImpl;
use crate::bits::{bit8, with_bit32, get_bit_u8, set_bit_u32};
use crate::regs::Register;

verus! {

pub const FLASH_BAUD_RATE: u32 = 50_000_000;
/// 16 MB
pub const SINGLE_CAPACITY: u32 = 0x1000000;
pub const SECTOR_SIZE: u32 = 0x10000;
pub const PAGE_SIZE: u32 = 0x100;

/// Instruction: Read Identification
pub const INST_RDID: u8 = 0x9F;
/// Instruction: Read
pub const INST_READ: u8 = 0x03;
/// Instruction: Quad I/O Fast Read
pub const INST_4IO_FAST_READ: u8 = 0xEB;
/// Instruction: Write Disable
pub const INST_WRDI: u8 = 0x04;
/// Instruction: Write Enable
pub const INST_WREN: u8 = 0x06;
/// Instruction: Program page
pub const INST_PP: u8 = 0x02;
/// Instruction: Erase 4K Block
pub const INST_BE_4K: u8 = 0x20;

/// A word for the transmit FIFO, of 1 to 4 bytes.
#[derive(Clone, Debug, PartialEq, Eq, Structural)]
pub enum SpiWord {
    W8(u8),
    W16(u16),
    W24(u32),
    W32(u32),
}

impl From<u8> for SpiWord {
    fn from(x: u8) -> (r: Self) {
        SpiWord::W8(x)
    }
}

impl FromSpecImpl<u8> for SpiWord {
    open spec fn obeys_from_spec() -> bool {
        true
    }

    open spec fn from_spec(x: u8) -> Self {
        SpiWord::W8(x)
    }
}

impl From<u16> for SpiWord {
    fn from(x: u16) -> (r: Self) {
        SpiWord::W16(x)
    }
}

impl FromSpecImpl<u16> for SpiWord {
    open spec fn obeys_from_spec() -> bool {
        true
    }

    open spec fn from_spec(x: u16) -> Self {
        SpiWord::W16(x)
    }
}

impl From<u32> for SpiWord {
    fn from(x: u32) -> (r: Self) {
        SpiWord::W32(x)
    }
}

impl FromSpecImpl<u32> for SpiWord {
    open spec fn obeys_from_spec() -> bool {
        true
    }

    open spec fn from_spec(x: u32) -> Self {
        SpiWord::W32(x)
    }
}

/// A one-byte register of the flash chip, read with its instruction code.
pub trait SpiFlashRegister: Sized {
    spec fn code() -> u8;

    spec fn contents(&self) -> u8;

    fn inst_code() -> (r: u8)
        ensures
            r == Self::code(),
    ;

    fn new(src: u8) -> (r: Self)
        ensures
            r.contents() == src,
    ;
}

/// Configuration Register
#[derive(Clone, Copy)]
pub struct CR {
    pub inner: u8,
}

/// Status Register-1
#[derive(Clone, Copy)]
pub struct SR1 {
    pub inner: u8,
}

/// Status Register-2
#[derive(Clone, Copy)]
pub struct SR2 {
    pub inner: u8,
}

/// Bank Address Register
#[derive(Clone, Copy)]
pub struct BA {
    pub inner: u8,
}

impl SpiFlashRegister for CR {
    open spec fn code() -> u8 {
        0x35
    }

    open spec fn contents(&self) -> u8 {
        self.inner
    }

    fn inst_code() -> (r: u8) {
        0x35
    }

    fn new(src: u8) -> (r: Self) {
        CR { inner: src }
    }
}

impl SpiFlashRegister for SR1 {
    open spec fn code() -> u8 {
        0x05
    }

    open spec fn contents(&self) -> u8 {
        self.inner
    }

    fn inst_code() -> (r: u8) {
        0x05
    }

    fn new(src: u8) -> (r: Self) {
        SR1 { inner: src }
    }
}

impl SpiFlashRegister for SR2 {
    open spec fn code() -> u8 {
        0x07
    }

    open spec fn contents(&self) -> u8 {
        self.inner
    }

    fn inst_code() -> (r: u8) {
        0x07
    }

    fn new(src: u8) -> (r: Self) {
        SR2 { inner: src }
    }
}

impl SpiFlashRegister for BA {
    open spec fn code() -> u8 {
        0xB9
    }

    open spec fn contents(&self) -> u8 {
        self.inner
    }

    fn inst_code() -> (r: u8) {
        0xB9
    }

    fn new(src: u8) -> (r: Self) {
        BA { inner: src }
    }
}

impl CR {
    pub fn is_zeroed(&self) -> (r: bool)
        ensures
            r == (self.inner == 0),
    {
        self.inner == 0
    }
}

impl SR2 {
    pub fn is_zeroed(&self) -> (r: bool)
        ensures
            r == (self.inner == 0),
    {
        self.inner == 0
    }
}

impl BA {
    pub fn is_zeroed(&self) -> (r: bool)
        ensures
            r == (self.inner == 0),
    {
        self.inner == 0
    }
}

impl SR1 {
    pub fn is_zeroed(&self) -> (r: bool)
        ensures
            r == (self.inner == 0),
    {
        self.inner == 0
    }

    /// Write In Progress
    pub fn wip(&self) -> (r: bool)
        ensures
            r == bit8(self.inner, 0),
    {
        get_bit_u8(self.inner, 0)
    }

    /// Write Enable Latch
    pub fn wel(&self) -> (r: bool)
        ensures
            r == bit8(self.inner, 1),
    {
        get_bit_u8(self.inner, 1)
    }

    /// Erase Error Occurred
    pub fn e_err(&self) -> (r: bool)
        ensures
            r == bit8(self.inner, 5),
    {
        get_bit_u8(self.inner, 5)
    }

    /// Programming Error Occurred
    pub fn p_err(&self) -> (r: bool)
        ensures
            r == bit8(self.inner, 6),
    {
        get_bit_u8(self.inner, 6)
    }
}

/// Byte `j` (0 to 3), most significant first, of a word.
pub open spec fn word_byte(w: u32, j: int) -> u8 {
    (w >> ((24 - 8 * j) as u32)) as u8
}

/// The bytes of a word sequence, each word most significant byte first.
pub open spec fn bytes_of_words(words: Seq<u32>) -> Seq<u8> {
    Seq::new(4 * words.len(), |i: int| word_byte(words[i / 4], i % 4))
}

/// The bytes of received words, each word most significant byte first, as
/// the flash returns them.
pub fn bytes_transfer(words: &Vec<u32>) -> (r: Vec<u8>)
    requires
        4 * words.len() <= usize::MAX,
    ensures
        r@ == bytes_of_words(words@),
{
    let mut out: Vec<u8> = Vec::new();
    let mut i: usize = 0;
    while i < words.len()
        invariant
            i <= words.len(),
            out@.len() == 4 * i,
            forall|k: int| 0 <= k < 4 * i ==> #[trigger] out@[k] == word_byte(words@[k / 4], k % 4),
        decreases words.len() - i,
    {
        let w = words[i];
        out.push((w >> 24) as u8);
        out.push((w >> 16) as u8);
        out.push((w >> 8) as u8);
        out.push(w as u8);
        proof {
            let b = 4 * i as int;
            assert(out@[b] == word_byte(w, 0));
            assert(out@[b + 1] == word_byte(w, 1));
            assert(out@[b + 2] == word_byte(w, 2));
            assert(w >> 0u32 == w) by (bit_vector);
            assert(out@[b + 3] == word_byte(w, 3));
            assert forall|k: int| 0 <= k < 4 * (i + 1) implies #[trigger] out@[k] == word_byte(words@[k / 4], k % 4) by {
                if k >= b {
                    assert(k / 4 == i);
                    assert(k % 4 == k - b);
                }
            }
        }
        i = i + 1;
    }
    assert(out@ =~= bytes_of_words(words@));
    out
}

/// The transmit data register a FIFO word goes through: TXD0 takes four
/// bytes, TXD1 to TXD3 take one to three bytes left-aligned.
#[derive(Clone, Copy, Debug, PartialEq, Eq, Structural)]
pub enum TxdReg {
    Txd0,
    Txd1,
    Txd2,
    Txd3,
}

/// One write into the transmit FIFO: the register, the value written, the
/// bytes it sends, and whether the FIFO is flushed around it (only TXD0
/// can be used without flushing).
#[derive(Clone, Copy, Debug, PartialEq, Eq, Structural)]
pub struct TxdWrite {
    pub reg: TxdReg,
    pub value: u32,
    pub bytes: usize,
    pub flush: bool,
}

pub open spec fn txd_write_of(w: SpiWord) -> TxdWrite {
    match w {
        SpiWord::W32(x) => TxdWrite { reg: TxdReg::Txd0, value: x, bytes: 4, flush: false },
        SpiWord::W8(x) => TxdWrite { reg: TxdReg::Txd1, value: (x as u32) << 24u32, bytes: 1, flush: true },
        SpiWord::W16(x) => TxdWrite { reg: TxdReg::Txd2, value: (x as u32) << 16u32, bytes: 2, flush: true },
        SpiWord::W24(x) => TxdWrite { reg: TxdReg::Txd3, value: x << 8u32, bytes: 3, flush: true },
    }
}

/// The FIFO write for one word.
pub fn txd_write(w: &SpiWord) -> (r: TxdWrite)
    ensures
        r == txd_write_of(*w),
{
    match w {
        SpiWord::W32(x) => TxdWrite { reg: TxdReg::Txd0, value: *x, bytes: 4, flush: false },
        SpiWord::W8(x) => TxdWrite { reg: TxdReg::Txd1, value: (*x as u32) << 24u32, bytes: 1, flush: true },
        SpiWord::W16(x) => TxdWrite { reg: TxdReg::Txd2, value: (*x as u32) << 16u32, bytes: 2, flush: true },
        SpiWord::W24(x) => TxdWrite { reg: TxdReg::Txd3, value: *x << 8u32, bytes: 3, flush: true },
    }
}

/// The next word of a transfer: the next argument, or a zero word once the
/// arguments run out (to clock in the reply).
pub open spec fn next_arg(args: Seq<SpiWord>) -> SpiWord {
    if args.len() > 0 {
        args[0]
    } else {
        SpiWord::W32(0)
    }
}

pub open spec fn rest_args(args: Seq<SpiWord>) -> Seq<SpiWord> {
    if args.len() > 0 {
        args.drop_first()
    } else {
        args
    }
}

/// The FIFO writes of a transfer of `len` bytes: words are sent until
/// `len` bytes have gone out.
pub open spec fn transfer_plan(args: Seq<SpiWord>, len: int) -> Seq<TxdWrite>
    decreases len,
{
    if len <= 0 {
        Seq::empty()
    } else {
        let t = txd_write_of(next_arg(args));
        if t.bytes >= len {
            seq![t]
        } else {
            seq![t] + transfer_plan(rest_args(args), len - t.bytes)
        }
    }
}

/// The bytes a sequence of FIFO writes sends.
pub open spec fn plan_bytes(p: Seq<TxdWrite>) -> int
    decreases p.len(),
{
    if p.len() == 0 {
        0
    } else {
        p[0].bytes + plan_bytes(p.drop_first())
    }
}

/// A transfer of `len` bytes sends at least `len` bytes and overshoots by
/// less than one word.
pub proof fn lemma_transfer_plan_bytes(args: Seq<SpiWord>, len: int)
    ensures
        len <= 0 ==> plan_bytes(transfer_plan(args, len)) == 0,
        len > 0 ==> len <= plan_bytes(transfer_plan(args, len)) < len + 4,
    decreases len,
{
    if len > 0 {
        let t = txd_write_of(next_arg(args));
        let p = transfer_plan(args, len);
        assert(1 <= t.bytes <= 4);
        assert(p[0] == t);
        if t.bytes >= len {
            assert(p.drop_first() =~= Seq::<TxdWrite>::empty());
            assert(plan_bytes(p.drop_first()) == 0);
        } else {
            let rest = transfer_plan(rest_args(args), len - t.bytes);
            lemma_transfer_plan_bytes(rest_args(args), len - t.bytes);
            assert(p.drop_first() =~= rest);
        }
        assert(plan_bytes(p) == t.bytes + plan_bytes(p.drop_first()));
    }
}

/// The FIFO writes that send `args` (padded with zero words) until `len`
/// bytes have gone out; the transfer pauses while the FIFO is full and
/// flushes around each write that asks for it.
pub fn transfer_writes(args: &Vec<SpiWord>, len: usize) -> (r: Vec<TxdWrite>)
    requires
        len + 4 <= usize::MAX,
    ensures
        r@ == transfer_plan(args@, len as int),
{
    let mut out: Vec<TxdWrite> = Vec::new();
    let mut sent: usize = 0;
    let mut i: usize = 0;
    assert(args@.skip(0) =~= args@);
    while sent < len
        invariant
            len + 4 <= usize::MAX,
            i <= args.len(),
            sent <= len + 3,
            out@ + transfer_plan(args@.skip(i as int), len - sent) == transfer_plan(args@, len as int),
        decreases len + 3 - sent,
    {
        let ghost rest = args@.skip(i as int);
        let t = if i < args.len() {
            txd_write(&args[i])
        } else {
            txd_write(&SpiWord::W32(0))
        };
        proof {
            assert(t == txd_write_of(next_arg(rest)));
            assert(1 <= t.bytes <= 4);
            if i < args.len() {
                assert(rest_args(rest) =~= args@.skip(i + 1));
            } else {
                assert(rest_args(rest) =~= args@.skip(i as int));
            }
            assert(out@.push(t) + transfer_plan(rest_args(rest), len - sent - t.bytes)
                =~= out@ + transfer_plan(rest, len - sent));
        }
        out.push(t);
        sent = sent + t.bytes;
        if i < args.len() {
            i = i + 1;
        }
    }
    proof {
        assert(out@ + transfer_plan(args@.skip(i as int), len - sent) =~= out@);
    }
    out
}

/// The first word of a command: the instruction code in the top byte, the
/// address in the bytes below.
pub open spec fn command_word(inst: u8, offset: u32) -> u32 {
    ((inst as u32) << 24u32) | offset
}

/// The command word of an instruction at an address.
pub fn command(inst: u8, offset: u32) -> (r: u32)
    ensures
        r == command_word(inst, offset),
{
    ((inst as u32) << 24u32) | offset
}

/// The arguments and byte count of a page program at `offset`: the program
/// command, then the data words.
pub fn program_args(offset: u32, data: &Vec<u32>) -> (r: (Vec<SpiWord>, usize))
    requires
        4 + 4 * data.len() <= usize::MAX,
    ensures
        r.1 == 4 + 4 * data.len(),
        r.0@.len() == data.len() + 1,
        r.0@[0] == SpiWord::W32(command_word(INST_PP, offset)),
        forall|i: int| 0 <= i < data.len() ==> #[trigger] r.0@[i + 1] == SpiWord::W32(data@[i]),
{
    let mut args: Vec<SpiWord> = Vec::new();
    args.push(SpiWord::W32(command(INST_PP, offset)));
    let mut i: usize = 0;
    while i < data.len()
        invariant
            i <= data.len(),
            args@.len() == i + 1,
            args@[0] == SpiWord::W32(command_word(INST_PP, offset)),
            forall|j: int| 0 <= j < i ==> #[trigger] args@[j + 1] == SpiWord::W32(data@[j]),
        decreases data.len() - i,
    {
        args.push(SpiWord::W32(data[i]));
        i = i + 1;
    }
    (args, 4 + 4 * data.len())
}

/// The bytes a read of `len` bytes gives from the words received: the
/// command and address take the first six, the data follows.
pub fn read_bytes(words: &Vec<u32>, len: usize) -> (r: Vec<u8>)
    requires
        len + 6 <= 4 * words.len() <= usize::MAX,
    ensures
        r@ == bytes_of_words(words@).subrange(6, 6 + len),
{
    let all = bytes_transfer(words);
    let mut out: Vec<u8> = Vec::new();
    let mut i: usize = 0;
    while i < len
        invariant
            i <= len,
            len + 6 <= all@.len(),
            len + 6 <= usize::MAX,
            all@ == bytes_of_words(words@),
            out@ == all@.subrange(6, 6 + i),
        decreases len - i,
    {
        out.push(all[6 + i]);
        i = i + 1;
        assert(out@ =~= all@.subrange(6, 6 + i));
    }
    out
}

/// The register a read-register transfer returns: the byte after the
/// instruction byte of the words received.
pub fn reg_from_words<R: SpiFlashRegister>(words: &Vec<u32>) -> (r: R)
    requires
        1 <= words.len(),
        4 * words.len() <= usize::MAX,
    ensures
        r.contents() == bytes_of_words(words@)[1],
{
    let bytes = bytes_transfer(words);
    R::new(bytes[1])
}

/// The identification bytes of a RDID transfer: all bytes received after
/// the instruction byte.
pub fn rdid_bytes(words: &Vec<u32>) -> (r: Vec<u8>)
    requires
        4 * words.len() <= usize::MAX,
    ensures
        words.len() > 0 ==> r@ == bytes_of_words(words@).subrange(1, 4 * words.len() as int),
        words.len() == 0 ==> r@.len() == 0,
{
    let bytes = bytes_transfer(words);
    let mut out: Vec<u8> = Vec::new();
    if bytes.len() == 0 {
        return out;
    }
    let mut i: usize = 1;
    while i < bytes.len()
        invariant
            1 <= i <= bytes@.len(),
            bytes@ == bytes_of_words(words@),
            out@ == bytes@.subrange(1, i as int),
        decreases bytes.len() - i,
    {
        out.push(bytes[i]);
        i = i + 1;
        assert(out@ =~= bytes@.subrange(1, i as int));
    }
    out
}

/// The outcome of one round of waiting while status register 1 reads zero:
/// the bytes after the instruction byte are looked at in order, and a zero
/// one starts the round again (`None`); when none is zero, the last one is
/// the register (`None` too when there is none).
pub open spec fn sr1_round(bytes: Seq<u8>) -> Option<u8> {
    if bytes.len() <= 1 || exists|i: int| 1 <= i < bytes.len() && bytes[i] == 0 {
        None
    } else {
        Some(bytes.last())
    }
}

/// One round of the wait while status register 1 reads zero, from the
/// words of a status read transfer.
pub fn sr1_wait_round(words: &Vec<u32>) -> (r: Option<SR1>)
    requires
        4 * words.len() <= usize::MAX,
    ensures
        r matches Some(sr1) ==> sr1_round(bytes_of_words(words@)) == Some(sr1.inner),
        r is None ==> sr1_round(bytes_of_words(words@)) is None,
{
    let bytes = bytes_transfer(words);
    if bytes.len() <= 1 {
        return None;
    }
    let mut i: usize = 1;
    while i < bytes.len()
        invariant
            1 <= i <= bytes@.len(),
            bytes@ == bytes_of_words(words@),
            forall|k: int| 1 <= k < i ==> bytes@[k] != 0,
        decreases bytes.len() - i,
    {
        if bytes[i] == 0 {
            return None;
        }
        i = i + 1;
    }
    Some(SR1 { inner: bytes[bytes.len() - 1] })
}

/// `f` may answer `a` on the register a read gives as `byte`.
pub open spec fn accepts<R: SpiFlashRegister, A, F: Fn(R) -> Option<A>>(f: F, byte: u8, a: Option<A>) -> bool {
    exists|x: R| x.contents() == byte && #[trigger] call_ensures(f, (x,), a)
}

/// `f` may answer something on the register a read gives as `byte`.
pub open spec fn accepts_some<R: SpiFlashRegister, A, F: Fn(R) -> Option<A>>(f: F, byte: u8) -> bool {
    exists|b: A| #[trigger] accepts::<R, A, F>(f, byte, Some(b))
}

/// One round of reading a flash register until `f` accepts it, from the
/// words of a register read transfer: `f` is asked about the register in
/// each byte after the instruction byte, in order; the round fails
/// (`None`) at the first byte it refuses, and otherwise gives its answer on
/// the last byte (`None` too when there is no byte to ask about).
pub fn read_reg_until_round<R, A, F>(words: &Vec<u32>, f: &F) -> (r: Option<A>)
    where
        R: SpiFlashRegister,
        F: Fn(R) -> Option<A>,
    requires
        4 * words.len() <= usize::MAX,
        forall|x: R| #[trigger] call_requires(*f, (x,)),
    ensures
        bytes_of_words(words@).len() <= 1 ==> r is None,
        r is Some ==> forall|k: int| 1 <= k < bytes_of_words(words@).len() - 1
            ==> #[trigger] accepts_some::<R, A, F>(*f, bytes_of_words(words@)[k]),
        r is Some ==> accepts::<R, A, F>(*f, bytes_of_words(words@).last(), r),
        r is None && bytes_of_words(words@).len() > 1 ==> exists|k: int|
            1 <= k < bytes_of_words(words@).len() && #[trigger] accepts::<R, A, F>(*f, bytes_of_words(words@)[k], None),
{
    let bytes = bytes_transfer(words);
    if bytes.len() <= 1 {
        return None;
    }
    let mut i: usize = 1;
    let mut result: Option<A> = None;
    while i < bytes.len()
        invariant
            1 <= i <= bytes@.len(),
            bytes@ == bytes_of_words(words@),
            forall|x: R| #[trigger] call_requires(*f, (x,)),
            forall|k: int| 1 <= k < i - 1 ==> #[trigger] accepts_some::<R, A, F>(*f, bytes@[k]),
            i > 1 ==> result is Some && accepts::<R, A, F>(*f, bytes@[i - 1], result),
        decreases bytes.len() - i,
    {
        let x = R::new(bytes[i]);
        let res = f(x);
        proof {
            assert(accepts::<R, A, F>(*f, bytes@[i as int], res));
        }
        match res {
            None => {
                return None;
            },
            Some(a) => {
                proof {
                    if i > 1 {
                        let prev = result->0;
                        assert(accepts::<R, A, F>(*f, bytes@[i - 1], Some(prev)));
                        assert(accepts_some::<R, A, F>(*f, bytes@[i - 1]));
                    }
                }
                result = Some(a);
            },
        }
        i = i + 1;
    }
    result
}

/// The arguments and byte count of a read of `len` bytes at `offset`: the
/// read command word, and the six bytes of command, address and turnaround
/// before the data.
pub fn read_args(offset: u32, len: usize) -> (r: (Vec<SpiWord>, usize))
    requires
        len + 6 <= usize::MAX,
    ensures
        r.0@ == seq![SpiWord::W32(command_word(INST_READ, offset))],
        r.1 == len + 6,
{
    let mut args: Vec<SpiWord> = Vec::new();
    args.push(SpiWord::W32(command(INST_READ, offset)));
    assert(args@ =~= seq![SpiWord::W32(command_word(INST_READ, offset))]);
    (args, len + 6)
}

/// A one-byte instruction transfer (write enable, write disable).
pub fn instruction_args(inst: u8) -> (r: (Vec<SpiWord>, usize))
    ensures
        r.0@ == seq![SpiWord::W8(inst)],
        r.1 == 1,
{
    let mut args: Vec<SpiWord> = Vec::new();
    args.push(SpiWord::W8(inst));
    assert(args@ =~= seq![SpiWord::W8(inst)]);
    (args, 1)
}

/// Sets the inverted write-protect pin (bit 0 of the quad-SPI GPIO
/// register): `true` while writes are enabled.
pub fn set_wp_n(gpio: &mut Register, on: bool)
    ensures
        final(gpio).value == with_bit32(old(gpio).value, 0, on),
        final(gpio).writes@ == old(gpio).writes@.push(final(gpio).value),
{
    let v = set_bit_u32(gpio.value, 0, on);
    gpio.write(v);
}

/// How an erase or a program went, from status register 1 read after it.
#[derive(Clone, Copy, Debug, PartialEq, Eq, Structural)]
pub enum WriteOutcome {
    EraseError,
    ProgramError,
    InProgress,
    Unconfirmed,
}

/// The outcome of an erase or program from status register 1: an erase
/// error first, then a program error, then a write still in progress.
pub fn write_outcome(sr1: SR1) -> (r: WriteOutcome)
    ensures
        r == (if bit8(sr1.inner, 5) {
            WriteOutcome::EraseError
        } else if bit8(sr1.inner, 6) {
            WriteOutcome::ProgramError
        } else if bit8(sr1.inner, 0) {
            WriteOutcome::InProgress
        } else {
            WriteOutcome::Unconfirmed
        }),
{
    if sr1.e_err() {
        WriteOutcome::EraseError
    } else if sr1.p_err() {
        WriteOutcome::ProgramError
    } else if sr1.wip() {
        WriteOutcome::InProgress
    } else {
        WriteOutcome::Unconfirmed
    }
}

/// The baud rate divider exponent for a clock divider: the least value from
/// 2 to 7 with `2^(1 + b)` at least `divider`, or 7.
pub open spec fn is_baud_rate_div(divider: u32, b: u32) -> bool {
    &&& 2 <= b <= 7
    &&& (b == 7 || clock_division(b) >= divider)
    &&& forall|c: u32| 2 <= c < b ==> #[trigger] clock_division(c) < divider
}

/// The clock division `2^(1 + b)` of baud rate divider exponent `b`.
pub open spec fn clock_division(b: u32) -> u32 {
    1u32 << ((1 + b) as u32)
}

/// Memory-mapped mode
pub struct LinearAddressing;

/// Manual I/O mode
pub struct Manual;

/// The quad-SPI controller registers that the driver writes.
pub struct QspiRegs {
    pub config: Register,
    pub intr_status: Register,
    pub intr_dis: Register,
    pub enable: Register,
    pub tx_thres: Register,
    pub rx_thres: Register,
    pub lqspi_cfg: Register,
    /// What the device must see, oldest first: register writes as (offset
    /// in the block, value), and the points where stale receive data is
    /// drained.
    pub journal: Vec<QspiStep>,
}

/// A step of the controller's journal.
#[derive(Clone, Copy, Debug, PartialEq, Eq, Structural)]
pub enum QspiStep {
    /// Write the value to the register at the offset.
    Write(u32, u32),
    /// Read the receive FIFO until it is empty.
    DrainRx,
}

/// Offsets of the controller registers that the driver writes.
pub const CONFIG_OFFSET: u32 = 0x00;
pub const INTR_STATUS_OFFSET: u32 = 0x04;
pub const INTR_DIS_OFFSET: u32 = 0x0C;
pub const ENABLE_OFFSET: u32 = 0x14;
pub const TX_THRES_OFFSET: u32 = 0x28;
pub const RX_THRES_OFFSET: u32 = 0x2C;
pub const LQSPI_CFG_OFFSET: u32 = 0xA0;

/// The steps of the controller's set-up for the baud rate exponent `b`:
/// disabled, interrupts off, linear mode off, the receive FIFO drained, the
/// stale status cleared, then the configuration and the FIFO thresholds.
pub open spec fn setup_journal(b: u32) -> Seq<QspiStep> {
    seq![
        QspiStep::Write(ENABLE_OFFSET, 0u32),
        QspiStep::Write(INTR_DIS_OFFSET, 0x7Du32),
        QspiStep::Write(LQSPI_CFG_OFFSET, 0u32),
        QspiStep::DrainRx,
        QspiStep::Write(INTR_STATUS_OFFSET, 0x41u32),
        QspiStep::Write(CONFIG_OFFSET, config_value(b)),
        QspiStep::Write(RX_THRES_OFFSET, 1u32),
        QspiStep::Write(TX_THRES_OFFSET, 1u32),
    ]
}

/// Flash Interface Driver
///
/// For 2x Spansion S25FL128SAGMFIR01
pub struct Flash<MODE> {
    pub regs: QspiRegs,
    pub _mode: PhantomData<MODE>,
}

/// The configuration value `configure` writes: master mode (bit 0), baud
/// rate divider exponent `b` (bits 3 to 5), 32-bit FIFO width (bits 6 and
/// 7), hold-B drive (bit 19) and flash interface mode (bit 31).
pub open spec fn config_value(b: u32) -> u32 {
    1u32 | (b << 3u32) | (3u32 << 6u32) | (1u32 << 19u32) | (1u32 << 31u32)
}

/// The linear-mode LQSPI configuration: quad I/O fast read (`0xEB`), 2
/// dummy bytes, mode bits `0xFF`, two memories, linear quad mode.
pub const LINEAR_LQSPI_CFG: u32 = 0xC0FF02EB;

/// The manual-mode LQSPI configuration: plain read (`0x03`), 2 dummy bytes,
/// mode bits `0xFF`, two memories.
pub const MANUAL_LQSPI_CFG: u32 = 0x40FF0203;

impl<MODE> Flash<MODE> {
    fn transition<TO>(self) -> (r: Flash<TO>)
        ensures
            r.regs == self.regs,
    {
        Flash { regs: self.regs, _mode: PhantomData }
    }
}

impl Flash<()> {
    /// The clock divider for the flash clock from the controller's input
    /// clock: the clock over 50 MHz, rounded up.
    pub fn divider(clock: u32) -> (r: u32)
        requires
            clock <= u32::MAX - (FLASH_BAUD_RATE - 1),
        ensures
            r == (FLASH_BAUD_RATE - 1 + clock) / (FLASH_BAUD_RATE as int),
    {
        (FLASH_BAUD_RATE - 1 + clock) / FLASH_BAUD_RATE
    }

    /// The baud rate divider exponent for a clock divider.
    pub fn baud_rate_div(divider: u32) -> (r: u32)
        ensures
            is_baud_rate_div(divider, r),
    {
        let mut baud_rate_div: u32 = 2;
        while baud_rate_div < 7 && (1u32 << (1 + baud_rate_div)) < divider
            invariant
                2 <= baud_rate_div <= 7,
                forall|c: u32| 2 <= c < baud_rate_div ==> #[trigger] clock_division(c) < divider,
            decreases 7 - baud_rate_div,
        {
            assert(clock_division(baud_rate_div) < divider);
            baud_rate_div += 1;
        }
        baud_rate_div
    }

    /// Takes the controller with `regs` and configures it for an input clock
    /// of `clock` Hz: disabled, interrupts off, linear mode off, stale
    /// interrupt status cleared, master flash mode at the fastest baud rate
    /// that the divider allows, FIFO thresholds of one word.
    pub fn new(regs: QspiRegs, clock: u32) -> (r: Self)
        requires
            clock <= u32::MAX - (FLASH_BAUD_RATE - 1),
        ensures
            r.regs.enable.writes@ == regs.enable.writes@.push(0),
            r.regs.intr_dis.writes@ == regs.intr_dis.writes@.push(0x7D),
            r.regs.lqspi_cfg.writes@ == regs.lqspi_cfg.writes@.push(0),
            r.regs.intr_status.writes@ == regs.intr_status.writes@.push(0x41),
            exists|b: u32|
                is_baud_rate_div(((FLASH_BAUD_RATE - 1 + clock) / (FLASH_BAUD_RATE as int)) as u32, b)
                    && r.regs.config.writes@ == regs.config.writes@.push(config_value(b)),
            r.regs.rx_thres.writes@ == regs.rx_thres.writes@.push(1),
            r.regs.tx_thres.writes@ == regs.tx_thres.writes@.push(1),
            r.regs.enable.value == 0,
            r.regs.intr_dis.value == 0x7D,
            r.regs.lqspi_cfg.value == 0,
            r.regs.intr_status.value == 0x41,
            r.regs.rx_thres.value == 1,
            r.regs.tx_thres.value == 1,
            exists|b: u32|
                is_baud_rate_div(((FLASH_BAUD_RATE - 1 + clock) / (FLASH_BAUD_RATE as int)) as u32, b)
                    && r.regs.config.value == config_value(b)
                    && r.regs.journal@ == regs.journal@ + setup_journal(b),
    {
        let ghost orig = regs;
        let mut regs = regs;
        let divider = Self::divider(clock);
        // Disable
        regs.enable.write(0);
        regs.journal.push(QspiStep::Write(ENABLE_OFFSET, 0));
        // Disable all interrupts
        regs.intr_dis.write(0x7D);
        regs.journal.push(QspiStep::Write(INTR_DIS_OFFSET, 0x7D));
        regs.lqspi_cfg.write(0);
        regs.journal.push(QspiStep::Write(LQSPI_CFG_OFFSET, 0));
        regs.journal.push(QspiStep::DrainRx);
        // Clear rx overflow and tx underflow
        regs.intr_status.write(0x41);
        regs.journal.push(QspiStep::Write(INTR_STATUS_OFFSET, 0x41));
        let b = Self::baud_rate_div(divider);
        let c: u32 = 1u32 | (b << 3u32) | (3u32 << 6u32) | (1u32 << 19u32) | (1u32 << 31u32);
        regs.config.write(c);
        regs.journal.push(QspiStep::Write(CONFIG_OFFSET, c));
        assert(divider == ((FLASH_BAUD_RATE - 1 + clock) / (FLASH_BAUD_RATE as int)) as u32);
        assert(is_baud_rate_div(((FLASH_BAUD_RATE - 1 + clock) / (FLASH_BAUD_RATE as int)) as u32, b)
            && regs.config.writes@ == orig.config.writes@.push(config_value(b)));
        regs.rx_thres.write(1);
        regs.journal.push(QspiStep::Write(RX_THRES_OFFSET, 1));
        regs.tx_thres.write(1);
        regs.journal.push(QspiStep::Write(TX_THRES_OFFSET, 1));
        assert(regs.journal@ =~= orig.journal@ + setup_journal(b));
        Flash { regs, _mode: PhantomData }
    }

    /// Switches to memory-mapped quad reads: auto start and chip select,
    /// linear configuration, controller enabled.
    pub fn linear_addressing_mode(self) -> (r: Flash<LinearAddressing>)
        ensures
            r.regs.config.value == with_bit32(with_bit32(with_bit32(self.regs.config.value, 15, false), 10, false), 14, false),
            r.regs.config.writes@ == self.regs.config.writes@.push(r.regs.config.value),
            r.regs.lqspi_cfg.writes@ == self.regs.lqspi_cfg.writes@.push(LINEAR_LQSPI_CFG),
            r.regs.enable.writes@ == self.regs.enable.writes@.push(1),
            r.regs.intr_status == self.regs.intr_status,
            r.regs.intr_dis == self.regs.intr_dis,
            r.regs.tx_thres == self.regs.tx_thres,
            r.regs.rx_thres == self.regs.rx_thres,
            r.regs.lqspi_cfg.value == LINEAR_LQSPI_CFG,
            r.regs.enable.value == 1,
            r.regs.journal@ == self.regs.journal@ + seq![
                QspiStep::Write(CONFIG_OFFSET, r.regs.config.value),
                QspiStep::Write(LQSPI_CFG_OFFSET, LINEAR_LQSPI_CFG),
                QspiStep::Write(ENABLE_OFFSET, 1u32),
            ],
    {
        let mut s = self;
        let c = set_bit_u32(set_bit_u32(set_bit_u32(s.regs.config.value, 15, false), 10, false), 14, false);
        s.regs.config.write(c);
        s.regs.journal.push(QspiStep::Write(CONFIG_OFFSET, c));
        s.regs.lqspi_cfg.write(LINEAR_LQSPI_CFG);
        s.regs.journal.push(QspiStep::Write(LQSPI_CFG_OFFSET, LINEAR_LQSPI_CFG));
        s.regs.enable.write(1);
        s.regs.journal.push(QspiStep::Write(ENABLE_OFFSET, 1));
        proof {
            assert(s.regs.journal@ =~= self.regs.journal@ + seq![
                QspiStep::Write(CONFIG_OFFSET, c),
                QspiStep::Write(LQSPI_CFG_OFFSET, LINEAR_LQSPI_CFG),
                QspiStep::Write(ENABLE_OFFSET, 1u32),
            ]);
        }
        s.transition()
    }

    /// Switches to manual I/O: manual start and chip select, big endian,
    /// manual-mode configuration.
    pub fn manual_mode(self, chip_index: usize) -> (r: Flash<Manual>)
        ensures
            r.regs.config.value == with_bit32(with_bit32(with_bit32(self.regs.config.value, 15, true), 14, true), 26, true),
            r.regs.config.writes@ == self.regs.config.writes@.push(r.regs.config.value),
            r.regs.lqspi_cfg.writes@ == self.regs.lqspi_cfg.writes@.push(MANUAL_LQSPI_CFG),
            r.regs.enable == self.regs.enable,
            r.regs.intr_status == self.regs.intr_status,
            r.regs.intr_dis == self.regs.intr_dis,
            r.regs.tx_thres == self.regs.tx_thres,
            r.regs.rx_thres == self.regs.rx_thres,
            r.regs.lqspi_cfg.value == MANUAL_LQSPI_CFG,
            r.regs.journal@ == self.regs.journal@ + seq![
                QspiStep::Write(CONFIG_OFFSET, r.regs.config.value),
                QspiStep::Write(LQSPI_CFG_OFFSET, MANUAL_LQSPI_CFG),
            ],
    {
        let mut s = self;
        let c = set_bit_u32(set_bit_u32(set_bit_u32(s.regs.config.value, 15, true), 14, true), 26, true);
        s.regs.config.write(c);
        s.regs.journal.push(QspiStep::Write(CONFIG_OFFSET, c));
        s.regs.lqspi_cfg.write(MANUAL_LQSPI_CFG);
        s.regs.journal.push(QspiStep::Write(LQSPI_CFG_OFFSET, MANUAL_LQSPI_CFG));
        proof {
            assert(s.regs.journal@ =~= self.regs.journal@ + seq![
                QspiStep::Write(CONFIG_OFFSET, c),
                QspiStep::Write(LQSPI_CFG_OFFSET, MANUAL_LQSPI_CFG),
            ]);
        }
        s.transition()
    }
}

impl Flash<LinearAddressing> {
    /// Stops linear addressing mode: controller disabled, chip select
    /// de-asserted.
    pub fn stop(self) -> (r: Flash<()>)
        ensures
            r.regs.enable.value == with_bit32(self.regs.enable.value, 0, false),
            r.regs.enable.writes@ == self.regs.enable.writes@.push(r.regs.enable.value),
            r.regs.config.value == with_bit32(self.regs.config.value, 10, true),
            r.regs.config.writes@ == self.regs.config.writes@.push(r.regs.config.value),
            r.regs.lqspi_cfg == self.regs.lqspi_cfg,
            r.regs.intr_status == self.regs.intr_status,
            r.regs.intr_dis == self.regs.intr_dis,
            r.regs.tx_thres == self.regs.tx_thres,
            r.regs.rx_thres == self.regs.rx_thres,
            r.regs.journal@ == self.regs.journal@ + seq![
                QspiStep::Write(ENABLE_OFFSET, r.regs.enable.value),
                QspiStep::Write(CONFIG_OFFSET, r.regs.config.value),
            ],
    {
        let mut s = self;
        let e = set_bit_u32(s.regs.enable.value, 0, false);
        s.regs.enable.write(e);
        s.regs.journal.push(QspiStep::Write(ENABLE_OFFSET, e));
        let c = set_bit_u32(s.regs.config.value, 10, true);
        s.regs.config.write(c);
        s.regs.journal.push(QspiStep::Write(CONFIG_OFFSET, c));
        proof {
            assert(s.regs.journal@ =~= self.regs.journal@ + seq![
                QspiStep::Write(ENABLE_OFFSET, e),
                QspiStep::Write(CONFIG_OFFSET, c),
            ]);
        }
        s.transition()
    }

    /// The memory-mapped size of both flash chips: 32 MiB.
    pub fn size(&self) -> (r: usize)
        ensures
            r == 2 * SINGLE_CAPACITY,
    {
        2 * (SINGLE_CAPACITY as usize)
    }
}

impl Flash<Manual> {
    /// Leaves manual mode; no register changes.
    pub fn stop(self) -> (r: Flash<()>)
        ensures
            r.regs == self.regs,
    {
        self.transition()
    }
}

/// The LQSPI reference clock divisor for an input clock `io_pll` and a
/// target `clock`: the ratio rounded up, kept within 1 to 63.
pub open spec fn lqspi_divisor(clock: u32, io_pll: u32) -> int {
    let d = (clock - 1 + io_pll) / (clock as int);
    if d < 1 {
        1
    } else if d > 63 {
        63
    } else {
        d
    }
}

proof fn lemma_ceil_quotient(c: int, p: int)
    requires
        c > 0,
        p >= 0,
    ensures
        ((c - 1 + p) / c) * c >= p,
        ((c - 1 + p) / c - 1) * c < p,
{
    let x = c - 1 + p;
    vstd::arithmetic::div_mod::lemma_fundamental_div_mod(x, c);
    vstd::arithmetic::div_mod::lemma_mod_bound(x, c);
    let t = x / c;
    let r = x % c;
    assert(t * c == c * t) by (nonlinear_arith);
    assert((t - 1) * c == t * c - c) by (nonlinear_arith);
}

/// The LQSPI divisor is the least one from 1 to 63 that brings the I/O PLL
/// down to at most `clock`: below the cap, the reference clock never
/// exceeds the requested one, and one less would exceed it.
pub proof fn lemma_lqspi_divisor_least(clock: u32, io_pll: u32)
    requires
        clock > 0,
    ensures
        1 <= lqspi_divisor(clock, io_pll) <= 63,
        lqspi_divisor(clock, io_pll) < 63 ==> lqspi_divisor(clock, io_pll) * clock >= io_pll,
        lqspi_divisor(clock, io_pll) > 1 ==> (lqspi_divisor(clock, io_pll) - 1) * clock < io_pll,
{
    lemma_ceil_quotient(clock as int, io_pll as int);
    let q: int = (io_pll + clock - 1) / (clock as int);
    assert(q == (clock - 1 + io_pll) / (clock as int));
    if q < 1 {
        assert(1 * clock >= io_pll) by (nonlinear_arith)
            requires q * clock >= io_pll, q <= 0, clock > 0, io_pll >= 0;
    } else if q > 63 {
        assert(62 * clock < io_pll) by (nonlinear_arith)
            requires (q - 1) * clock < io_pll, q > 63, clock > 0;
    }
}

/// Sets the LQSPI reference clock to about `clock` Hz from the I/O PLL
/// (`io_pll` Hz): source I/O PLL, the divisor, clock active.
pub fn enable_clocks(clock: u32, io_pll: u32, lqspi_clk_ctrl: &mut Register)
    requires
        clock > 0,
        clock - 1 + io_pll <= u32::MAX,
    ensures
        final(lqspi_clk_ctrl).value == ((lqspi_divisor(clock, io_pll) as u32) << 8u32) | 1u32,
        final(lqspi_clk_ctrl).writes@ == old(lqspi_clk_ctrl).writes@.push(final(lqspi_clk_ctrl).value),
{
    let d = (clock - 1 + io_pll) / clock;
    let divisor: u32 = if d < 1 {
        1
    } else if d > 63 {
        63
    } else {
        d
    };
    lqspi_clk_ctrl.write((divisor << 8) | 1);
}

/// The steps of a section of flash writes.
#[derive(Copy, Clone, Debug, PartialEq, Eq, Structural)]
pub enum WritePhase {
    /// Nothing done yet.
    Begin,
    /// Write enable sent.
    WrenSent,
    /// Write enable sent and the write-protect pin released.
    Released,
    /// Status register 1 asked for: its answer decides.
    Checking,
    /// The writes ran.
    Ran,
    /// Write disable sent.
    Disabled,
    /// Finished.
    End,
}

/// What the driver does next around a section of flash writes.
#[derive(Copy, Clone, Debug, PartialEq, Eq, Structural)]
pub enum WriteAction {
    /// Send this one-byte instruction (`instruction_args`).
    Send(u8),
    /// Drive the inverted write-protect pin (`set_wp_n`).
    WriteProtectN(bool),
    /// Read status register 1 until it is non-zero (`sr1_wait_round`).
    ReadStatus,
    /// The write enable latch is set: run the writes.
    Run,
    /// The latch stayed clear: the flash cannot be write-enabled.
    Refuse,
    /// The section is over.
    Finish,
}

/// The next phase and action of a section of flash writes, from the status
/// register 1 value `sr1` that the last `ReadStatus` gave (read only in
/// `Checking`): write enable, the pin released, the latch checked, the
/// writes, write disable, the pin back.
pub open spec fn write_transition(phase: WritePhase, sr1: SR1) -> (WritePhase, WriteAction) {
    match phase {
        WritePhase::Begin => (WritePhase::WrenSent, WriteAction::Send(INST_WREN)),
        WritePhase::WrenSent => (WritePhase::Released, WriteAction::WriteProtectN(true)),
        WritePhase::Released => (WritePhase::Checking, WriteAction::ReadStatus),
        WritePhase::Checking => if bit8(sr1.inner, 1) {
            (WritePhase::Ran, WriteAction::Run)
        } else {
            (WritePhase::End, WriteAction::Refuse)
        },
        WritePhase::Ran => (WritePhase::Disabled, WriteAction::Send(INST_WRDI)),
        WritePhase::Disabled => (WritePhase::End, WriteAction::WriteProtectN(false)),
        WritePhase::End => (WritePhase::End, WriteAction::Finish),
    }
}

/// One step of a section of flash writes.
pub fn write_step(phase: WritePhase, sr1: SR1) -> (r: (WritePhase, WriteAction))
    ensures
        r == write_transition(phase, sr1),
{
    match phase {
        WritePhase::Begin => (WritePhase::WrenSent, WriteAction::Send(INST_WREN)),
        WritePhase::WrenSent => (WritePhase::Released, WriteAction::WriteProtectN(true)),
        WritePhase::Released => (WritePhase::Checking, WriteAction::ReadStatus),
        WritePhase::Checking => if sr1.wel() {
            (WritePhase::Ran, WriteAction::Run)
        } else {
            (WritePhase::End, WriteAction::Refuse)
        },
        WritePhase::Ran => (WritePhase::Disabled, WriteAction::Send(INST_WRDI)),
        WritePhase::Disabled => (WritePhase::End, WriteAction::WriteProtectN(false)),
        WritePhase::End => (WritePhase::End, WriteAction::Finish),
    }
}

/// The actions of a section of flash writes from `Begin`, the status read
/// answering `sr1`.
pub open spec fn write_actions(sr1: SR1) -> Seq<WriteAction> {
    let (p1, a1) = write_transition(WritePhase::Begin, sr1);
    let (p2, a2) = write_transition(p1, sr1);
    let (p3, a3) = write_transition(p2, sr1);
    let (p4, a4) = write_transition(p3, sr1);
    let (p5, a5) = write_transition(p4, sr1);
    let (p6, a6) = write_transition(p5, sr1);
    let (p7, a7) = write_transition(p6, sr1);
    seq![a1, a2, a3, a4, a5, a6, a7]
}

/// Flash writes run only once write enable was sent, the write-protect pin
/// released and the write enable latch seen set; they are always followed by
/// write disable and the pin driven back; a clear latch refuses the section
/// without running anything.
pub proof fn lemma_write_enable_bracket(sr1: SR1)
    ensures
        bit8(sr1.inner, 1) ==> write_actions(sr1) == seq![
            WriteAction::Send(INST_WREN),
            WriteAction::WriteProtectN(true),
            WriteAction::ReadStatus,
            WriteAction::Run,
            WriteAction::Send(INST_WRDI),
            WriteAction::WriteProtectN(false),
            WriteAction::Finish,
        ],
        !bit8(sr1.inner, 1) ==> write_actions(sr1) == seq![
            WriteAction::Send(INST_WREN),
            WriteAction::WriteProtectN(true),
            WriteAction::ReadStatus,
            WriteAction::Refuse,
            WriteAction::Finish,
            WriteAction::Finish,
            WriteAction::Finish,
        ],
{
}

} // verus!
