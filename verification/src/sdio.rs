//! SD host controller: command encoding, error classification and card
//! geometry.
use vstd::prelude::*;
use crate::bits::{bit32, bits32, with_bit32, with_bits32, get_bit_u32, set_bit_u32, set_bits_u32};
use crate::regs::Register;
use vstd::std_specs::convert::FromSpecImpl;

verus! {

/// Command type field of the command register: normal `0b00`, suspend
/// `0b01`, resume `0b10`, abort `0b11`.
#[derive(Copy, Clone, Debug, PartialEq, Eq, Structural)]
pub enum CommandType {
    Normal,
    Suspend,
    Resume,
    Abort,
}

/// Response type field of the command register: none `0b00`, 136 bits
/// `0b01`, 48 bits `0b10`, 48 bits with busy check `0b11`.
#[derive(Copy, Clone, Debug, PartialEq, Eq, Structural)]
pub enum ResponseTypeSelect {
    NoResponse,
    Length136,
    Length48,
    Legnth48Check,
}

pub open spec fn response_code(r: ResponseTypeSelect) -> u32 {
    match r {
        ResponseTypeSelect::NoResponse => 0b00,
        ResponseTypeSelect::Length136 => 0b01,
        ResponseTypeSelect::Length48 => 0b10,
        ResponseTypeSelect::Legnth48Check => 0b11,
    }
}

impl ResponseTypeSelect {
    pub fn code(&self) -> (r: u32)
        ensures
            r == response_code(*self),
    {
        match self {
            ResponseTypeSelect::NoResponse => 0b00,
            ResponseTypeSelect::Length136 => 0b01,
            ResponseTypeSelect::Length48 => 0b10,
            ResponseTypeSelect::Legnth48Check => 0b11,
        }
    }
}

/// Bus voltage field of the host control register: 3.3 V `0b111`, 3.0 V
/// `0b110`, 1.8 V `0b101`.
#[derive(Copy, Clone, Debug, PartialEq, Eq, Structural)]
pub enum BusVoltage {
    /// 3.3V
    V33,
    /// 3.0V, typ.
    V30,
    /// 1.8V, typ.
    V18,
}

pub open spec fn bus_voltage_code(v: BusVoltage) -> u32 {
    match v {
        BusVoltage::V33 => 0b111,
        BusVoltage::V30 => 0b110,
        BusVoltage::V18 => 0b101,
    }
}

impl BusVoltage {
    pub fn code(&self) -> (r: u32)
        ensures
            r == bus_voltage_code(*self),
    {
        match self {
            BusVoltage::V33 => 0b111,
            BusVoltage::V30 => 0b110,
            BusVoltage::V18 => 0b101,
        }
    }
}

/// DMA select field of the host control register: SDMA `0b00`, ADMA1
/// `0b01`, ADMA2 `0b10`, ADMA3 `0b11`.
#[derive(Copy, Clone, Debug, PartialEq, Eq, Structural)]
pub enum DmaSelect {
    SDMA,
    ADMA1,
    ADMA2,
    ADMA3,
}

pub open spec fn dma_select_code(d: DmaSelect) -> u32 {
    match d {
        DmaSelect::SDMA => 0b00,
        DmaSelect::ADMA1 => 0b01,
        DmaSelect::ADMA2 => 0b10,
        DmaSelect::ADMA3 => 0b11,
    }
}

impl DmaSelect {
    pub fn code(&self) -> (r: u32)
        ensures
            r == dma_select_code(*self),
    {
        match self {
            DmaSelect::SDMA => 0b00,
            DmaSelect::ADMA1 => 0b01,
            DmaSelect::ADMA2 => 0b10,
            DmaSelect::ADMA3 => 0b11,
        }
    }
}

/// SDCLK Frequency divisor, d(number) means baseclock divided by (number);
/// its code is half the divisor (`0x00` for D1).
#[derive(Copy, Clone, Debug, PartialEq, Eq, Structural)]
pub enum SdclkFreqDivisor {
    D256,
    D128,
    D64,
    D32,
    D16,
    D8,
    D4,
    D2,
    D1,
}

/// ADMA error state: stop `0b00`, fetch descriptor `0b01`, transfer `0b11`.
#[derive(Copy, Clone, Debug, PartialEq, Eq, Structural)]
pub enum AdmaErrorState {
    StStop,
    StFds,
    StTfr,
}

/// Specification version of the host controller: V1 `0`, V2 `1`.
#[derive(Copy, Clone, Debug, PartialEq, Eq, Structural)]
pub enum SpecificationVersion {
    V1,
    V2,
}

/// SD commands; an application command (ACMD) has `0x80` added to its index.
#[derive(Copy, Clone, PartialEq, Eq, Debug, Structural)]
pub enum SdCmd {
    CMD0,
    CMD1,
    CMD2,
    CMD3,
    CMD4,
    CMD5,
    CMD6,
    ACMD6,
    CMD7,
    CMD8,
    CMD9,
    CMD10,
    CMD11,
    CMD12,
    ACMD13,
    CMD16,
    CMD17,
    CMD18,
    CMD19,
    CMD21,
    CMD23,
    ACMD23,
    CMD24,
    CMD25,
    CMD41,
    ACMD41,
    ACMD42,
    ACMD51,
    CMD52,
    CMD55,
    CMD58,
}

/// The code of a command: its index, plus `0x80` for an application command.
pub open spec fn sd_cmd_code(cmd: SdCmd) -> u8 {
    match cmd {
        SdCmd::CMD0 => 0x00,
        SdCmd::CMD1 => 0x01,
        SdCmd::CMD2 => 0x02,
        SdCmd::CMD3 => 0x03,
        SdCmd::CMD4 => 0x04,
        SdCmd::CMD5 => 0x05,
        SdCmd::CMD6 => 0x06,
        SdCmd::ACMD6 => 0x86,
        SdCmd::CMD7 => 0x07,
        SdCmd::CMD8 => 0x08,
        SdCmd::CMD9 => 0x09,
        SdCmd::CMD10 => 0x0A,
        SdCmd::CMD11 => 0x0B,
        SdCmd::CMD12 => 0x0C,
        SdCmd::ACMD13 => 0x8D,
        SdCmd::CMD16 => 0x10,
        SdCmd::CMD17 => 0x11,
        SdCmd::CMD18 => 0x12,
        SdCmd::CMD19 => 0x13,
        SdCmd::CMD21 => 0x15,
        SdCmd::CMD23 => 0x17,
        SdCmd::ACMD23 => 0x97,
        SdCmd::CMD24 => 0x18,
        SdCmd::CMD25 => 0x19,
        SdCmd::CMD41 => 0x29,
        SdCmd::ACMD41 => 0xA9,
        SdCmd::ACMD42 => 0xAA,
        SdCmd::ACMD51 => 0xB3,
        SdCmd::CMD52 => 0x34,
        SdCmd::CMD55 => 0x37,
        SdCmd::CMD58 => 0x3A,
    }
}

impl SdCmd {
    pub fn code(&self) -> (r: u8)
        ensures
            r == sd_cmd_code(*self),
    {
        match self {
            SdCmd::CMD0 => 0x00,
            SdCmd::CMD1 => 0x01,
            SdCmd::CMD2 => 0x02,
            SdCmd::CMD3 => 0x03,
            SdCmd::CMD4 => 0x04,
            SdCmd::CMD5 => 0x05,
            SdCmd::CMD6 => 0x06,
            SdCmd::ACMD6 => 0x86,
            SdCmd::CMD7 => 0x07,
            SdCmd::CMD8 => 0x08,
            SdCmd::CMD9 => 0x09,
            SdCmd::CMD10 => 0x0A,
            SdCmd::CMD11 => 0x0B,
            SdCmd::CMD12 => 0x0C,
            SdCmd::ACMD13 => 0x8D,
            SdCmd::CMD16 => 0x10,
            SdCmd::CMD17 => 0x11,
            SdCmd::CMD18 => 0x12,
            SdCmd::CMD19 => 0x13,
            SdCmd::CMD21 => 0x15,
            SdCmd::CMD23 => 0x17,
            SdCmd::ACMD23 => 0x97,
            SdCmd::CMD24 => 0x18,
            SdCmd::CMD25 => 0x19,
            SdCmd::CMD41 => 0x29,
            SdCmd::ACMD41 => 0xA9,
            SdCmd::ACMD42 => 0xAA,
            SdCmd::ACMD51 => 0xB3,
            SdCmd::CMD52 => 0x34,
            SdCmd::CMD55 => 0x37,
            SdCmd::CMD58 => 0x3A,
        }
    }
}

/// Whether a command transfers data over the DAT lines: CMD6 on SD cards,
/// CMD8 on other cards, and the block read, write and register commands.
pub open spec fn needs_dat(cmd: SdCmd, is_sd_card: bool) -> bool {
    match cmd {
        SdCmd::CMD6 => is_sd_card,
        SdCmd::CMD8 => !is_sd_card,
        SdCmd::ACMD13 | SdCmd::CMD17 | SdCmd::CMD18 | SdCmd::CMD19 | SdCmd::CMD21 | SdCmd::CMD23
        | SdCmd::ACMD23 | SdCmd::CMD24 | SdCmd::CMD25 | SdCmd::ACMD51 => true,
        _ => false,
    }
}

pub fn require_dat(cmd: SdCmd, is_sd_card: bool) -> (r: bool)
    ensures
        r == needs_dat(cmd, is_sd_card),
{
    match cmd {
        SdCmd::CMD6 => is_sd_card,
        SdCmd::CMD8 => !is_sd_card,
        SdCmd::ACMD13 | SdCmd::CMD17 | SdCmd::CMD18 | SdCmd::CMD19 | SdCmd::CMD21 | SdCmd::CMD23
        | SdCmd::ACMD23 | SdCmd::CMD24 | SdCmd::CMD25 | SdCmd::ACMD51 => true,
        _ => false,
    }
}

/// The response format a command expects: R1, R1b, R2, R3 or R6.
#[derive(Copy, Clone, PartialEq, Eq, Debug, Structural)]
pub enum Resp {
    R1,
    R1b,
    R2,
    R3,
    R6,
}

/// The command register value `w` set up for response format `r`: the
/// response type, and the CRC and index checks the format calls for.
pub open spec fn with_resp(w: u32, r: Resp) -> u32 {
    match r {
        Resp::R1 => with_bit32(with_bit32(with_bits32(w, 16, 17, 0b10), 19, true), 20, true),
        Resp::R1b => with_bit32(with_bit32(with_bits32(w, 16, 17, 0b11), 19, true), 20, true),
        Resp::R2 => with_bit32(with_bits32(w, 16, 17, 0b01), 19, true),
        Resp::R3 => with_bits32(w, 16, 17, 0b10),
        Resp::R6 => with_bit32(with_bit32(with_bits32(w, 16, 17, 0b11), 19, true), 20, true),
    }
}

/// The response format of a command and whether it sets the data-present
/// bit; none for the commands the driver does not configure.
pub open spec fn cmd_format(cmd: SdCmd, is_sd_card: bool) -> Option<(Resp, bool)> {
    match cmd {
        SdCmd::CMD1 => Some((Resp::R3, false)),
        SdCmd::CMD2 => Some((Resp::R2, false)),
        SdCmd::CMD3 => Some((if is_sd_card { Resp::R6 } else { Resp::R1 }, false)),
        SdCmd::CMD5 => Some((Resp::R1b, false)),
        SdCmd::CMD6 => Some(if is_sd_card { (Resp::R1, true) } else { (Resp::R1b, false) }),
        SdCmd::ACMD6 => Some((Resp::R1, false)),
        SdCmd::CMD7 => Some((Resp::R1, false)),
        SdCmd::CMD8 => Some((Resp::R1, !is_sd_card)),
        SdCmd::CMD9 => Some((Resp::R2, false)),
        SdCmd::CMD10 | SdCmd::CMD11 | SdCmd::CMD12 => Some((Resp::R1, false)),
        SdCmd::ACMD13 => Some((Resp::R1, true)),
        SdCmd::CMD16 => Some((Resp::R1, false)),
        SdCmd::CMD17 | SdCmd::CMD18 | SdCmd::CMD19 | SdCmd::CMD21 | SdCmd::CMD23 | SdCmd::ACMD23
        | SdCmd::CMD24 | SdCmd::CMD25 => Some((Resp::R1, true)),
        SdCmd::ACMD41 => Some((Resp::R3, false)),
        SdCmd::ACMD42 => Some((Resp::R1, false)),
        SdCmd::ACMD51 => Some((Resp::R1, true)),
        SdCmd::CMD52 | SdCmd::CMD55 => Some((Resp::R1, false)),
        _ => None,
    }
}

/// The command register value that `set_cmd_reg` produces: the command
/// index (the code's low 6 bits) in bits 24 to 29, then the command's
/// response format and data-present bit.
pub open spec fn cmd_reg_value(cmd: SdCmd, is_sd_card: bool, w: u32) -> u32 {
    let base = with_bits32(w, 24, 29, (sd_cmd_code(cmd) & 0x3F) as u32);
    match cmd_format(cmd, is_sd_card) {
        Some((r, data)) => if data {
            with_bit32(with_resp(base, r), 21, true)
        } else {
            with_resp(base, r)
        },
        None => base,
    }
}

fn resp(w: u32, r: Resp) -> (o: u32)
    ensures
        o == with_resp(w, r),
{
    proof {
        crate::bits::lemma_mask_values();
    }
    match r {
        Resp::R1 => set_bit_u32(set_bit_u32(set_bits_u32(w, 16, 17, ResponseTypeSelect::Length48.code()), 19, true), 20, true),
        Resp::R1b => set_bit_u32(set_bit_u32(set_bits_u32(w, 16, 17, ResponseTypeSelect::Legnth48Check.code()), 19, true), 20, true),
        Resp::R2 => set_bit_u32(set_bits_u32(w, 16, 17, ResponseTypeSelect::Length136.code()), 19, true),
        Resp::R3 => set_bits_u32(w, 16, 17, ResponseTypeSelect::Length48.code()),
        Resp::R6 => set_bit_u32(set_bit_u32(set_bits_u32(w, 16, 17, ResponseTypeSelect::Legnth48Check.code()), 19, true), 20, true),
    }
}

fn format(cmd: SdCmd, is_sd_card: bool) -> (r: Option<(Resp, bool)>)
    ensures
        r == cmd_format(cmd, is_sd_card),
{
    match cmd {
        SdCmd::CMD1 => Some((Resp::R3, false)),
        SdCmd::CMD2 => Some((Resp::R2, false)),
        SdCmd::CMD3 => Some((if is_sd_card { Resp::R6 } else { Resp::R1 }, false)),
        SdCmd::CMD5 => Some((Resp::R1b, false)),
        SdCmd::CMD6 => Some(if is_sd_card { (Resp::R1, true) } else { (Resp::R1b, false) }),
        SdCmd::ACMD6 => Some((Resp::R1, false)),
        SdCmd::CMD7 => Some((Resp::R1, false)),
        SdCmd::CMD8 => Some((Resp::R1, !is_sd_card)),
        SdCmd::CMD9 => Some((Resp::R2, false)),
        SdCmd::CMD10 | SdCmd::CMD11 | SdCmd::CMD12 => Some((Resp::R1, false)),
        SdCmd::ACMD13 => Some((Resp::R1, true)),
        SdCmd::CMD16 => Some((Resp::R1, false)),
        SdCmd::CMD17 | SdCmd::CMD18 | SdCmd::CMD19 | SdCmd::CMD21 | SdCmd::CMD23 | SdCmd::ACMD23
        | SdCmd::CMD24 | SdCmd::CMD25 => Some((Resp::R1, true)),
        SdCmd::ACMD41 => Some((Resp::R3, false)),
        SdCmd::ACMD42 => Some((Resp::R1, false)),
        SdCmd::ACMD51 => Some((Resp::R1, true)),
        SdCmd::CMD52 | SdCmd::CMD55 => Some((Resp::R1, false)),
        _ => None,
    }
}

/// Sets up command register value `w` for `cmd`.
pub fn set_cmd_reg(cmd: SdCmd, is_sd_card: bool, w: u32) -> (r: u32)
    ensures
        r == cmd_reg_value(cmd, is_sd_card, w),
{
    proof {
        crate::bits::lemma_mask_values();
        let c = sd_cmd_code(cmd);
        assert(c & 0x3Fu8 <= 63) by (bit_vector);
    }
    let base = set_bits_u32(w, 24, 29, (cmd.code() & 0x3F) as u32);
    match format(cmd, is_sd_card) {
        Some((r, data)) => if data {
            set_bit_u32(resp(base, r), 21, true)
        } else {
            resp(base, r)
        },
        None => base,
    }
}


#[derive(PartialEq, Eq, Debug, Clone, Copy, Structural)]
pub enum CardType {
    CardNone,
    CardSd,
    CardMmc,
}

#[derive(Debug, PartialEq, Eq, Structural)]
pub enum CmdTransferError {
    CmdInhibited,
    DatLineInhibited,
    CmdTimeout,
    /// Another error, with the interrupt status register value.
    Other(u32),
}

#[derive(Debug, PartialEq, Eq, Structural)]
pub enum CardInitializationError {
    AlreadyInitialized,
    NoCardInserted,
    InitializationFailedOther,
    InitializationFailedCmd(CmdTransferError),
}

impl From<CmdTransferError> for CardInitializationError {
    fn from(error: CmdTransferError) -> (r: Self) {
        CardInitializationError::InitializationFailedCmd(error)
    }
}

impl FromSpecImpl<CmdTransferError> for CardInitializationError {
    open spec fn obeys_from_spec() -> bool {
        true
    }

    open spec fn from_spec(error: CmdTransferError) -> Self {
        CardInitializationError::InitializationFailedCmd(error)
    }
}

/// The SD host controller registers that the driver reads and writes.
pub struct SdioRegs {
    pub present_state: Register,
    pub interrupt_status: Register,
    pub clock_control: Register,
    pub block_size_block_count: Register,
}

/// Basic SDIO Struct with common low-level functions.
pub struct Sdio {
    pub regs: SdioRegs,
    pub input_clk_hz: u32,
    pub card_type: CardType,
    pub card_detect: bool,
}

/// `2^k`.
pub open spec fn two_pow(k: nat) -> nat
    decreases k,
{
    if k == 0 {
        1
    } else {
        2 * two_pow((k - 1) as nat)
    }
}

/// `k` is the least exponent up to 8 for which the input clock over `2^k`
/// is at most `freq`.
pub open spec fn is_clock_exponent(input_clk_hz: u32, freq: u32, k: nat) -> bool {
    &&& k <= 8
    &&& (input_clk_hz as nat) / two_pow(k) <= freq
    &&& forall|j: nat| j < k ==> (input_clk_hz as nat) / #[trigger] two_pow(j) > freq
}

/// The error an interrupt status value reports, if its error summary bit
/// (bit 15) is set: a timeout when no bit from 17 up is set (bit 16 is the
/// command timeout), another error otherwise.
pub open spec fn status_error(status: u32) -> Option<CmdTransferError> {
    if bit32(status, 15) {
        if status & 0xFFFE0000u32 == 0 {
            Some(CmdTransferError::CmdTimeout)
        } else {
            Some(CmdTransferError::Other(status))
        }
    } else {
        None
    }
}

impl Sdio {
    /// Whether a card is in the slot: always when card detection is off,
    /// else the card-inserted bit (bit 16) of the present state register.
    pub fn is_card_inserted(&self) -> (r: bool)
        ensures
            r == (!self.card_detect || bit32(self.regs.present_state.value, 16)),
    {
        !self.card_detect || get_bit_u32(self.regs.present_state.value, 16)
    }

    /// The SDCLK divisor setting for a target frequency: half the least power
    /// of two, up to 256, that brings the input clock to `freq` or below.
    /// There must be one.
    pub fn clock_divisor(input_clk_hz: u32, freq: u32) -> (r: u32)
        requires
            input_clk_hz / 256 <= freq,
        ensures
            exists|k: nat| is_clock_exponent(input_clk_hz, freq, k) && r == two_pow(k) / 2,
    {
        let mut div_cnt: u32 = 1;
        let ghost mut k: nat = 0;
        proof {
            reveal_with_fuel(two_pow, 9);
            assert(two_pow(8) == 256);
        }
        while input_clk_hz / div_cnt > freq
            invariant
                input_clk_hz / 256 <= freq,
                two_pow(8) == 256,
                k <= 8,
                div_cnt == two_pow(k),
                div_cnt >= 1,
                forall|j: nat| j < k ==> (input_clk_hz as nat) / #[trigger] two_pow(j) > freq,
            decreases 8 - k,
        {
            proof {
                if k == 8 {
                    assert(false);
                }
                assert(two_pow(k + 1) == 2 * two_pow(k));
                lemma_two_pow_le(k + 1, 8);
            }
            div_cnt = div_cnt * 2;
            proof {
                k = k + 1;
            }
        }
        assert(is_clock_exponent(input_clk_hz, freq, k));
        div_cnt / 2
    }

    /// Classifies interrupt status `status`: on an error, clears the error
    /// bits (writes `0xF3FF0000`) and returns the error.
    pub fn check_error(&mut self, status: u32) -> (r: Result<(), CmdTransferError>)
        ensures
            match status_error(status) {
                Some(e) => r == Err::<(), CmdTransferError>(e)
                    && final(self).regs.interrupt_status.writes@ == old(self).regs.interrupt_status.writes@.push(0xF3FF0000)
                    && final(self).regs.interrupt_status.value == 0xF3FF0000,
                None => r is Ok && final(self).regs.interrupt_status == old(self).regs.interrupt_status,
            },
            final(self).regs.present_state == old(self).regs.present_state,
            final(self).regs.clock_control == old(self).regs.clock_control,
            final(self).regs.block_size_block_count == old(self).regs.block_size_block_count,
            final(self).input_clk_hz == old(self).input_clk_hz,
            final(self).card_type == old(self).card_type,
            final(self).card_detect == old(self).card_detect,
    {
        if get_bit_u32(status, 15) {
            let err_status = if status & 0xFFFE0000 == 0 {
                CmdTransferError::CmdTimeout
            } else {
                CmdTransferError::Other(status)
            };
            self.regs.interrupt_status.write(0xF3FF0000);
            return Err(err_status);
        }
        Ok(())
    }
}

proof fn lemma_two_pow_le(a: nat, b: nat)
    requires
        a <= b,
    ensures
        two_pow(a) <= two_pow(b),
    decreases b,
{
    if a < b {
        lemma_two_pow_le(a, (b - 1) as nat);
    }
}

/// The CSD structure version (bits 22 and 23 of the last response word).
pub open spec fn csd_structure(csd: Seq<u32>) -> u32 {
    (csd[3] & 0x00C00000u32) >> 22u32
}

/// Version 1 CSD: the device size field (bits 22 to 31 of word 1 and 0 to 1
/// of word 2) plus one, times the multiplier `2^(C_SIZE_MULT + 2)`, times the
/// block length `2^READ_BL_LEN`.
pub open spec fn csd_v1_bytes(csd: Seq<u32>) -> int {
    let blk_len = 1u32 << ((csd[2] & 0x00000F00u32) >> 8u32);
    let mult = 1u32 << ((((csd[1] & 0x00000380u32) >> 7u32) + 2) as u32);
    let device_size = ((csd[1] & 0xFFC00000u32) >> 22u32) | ((csd[2] & 0x00000003u32) << 10u32);
    (device_size + 1) * mult * blk_len
}

/// Version 2 CSD: the device size field (bits 8 to 29 of word 1) plus one,
/// in units of 512 KiB, counted in 512-byte sectors.
pub open spec fn csd_v2_sectors(csd: Seq<u32>) -> int {
    (((csd[1] & 0x3FFFFF00u32) >> 8u32) + 1) * 1024
}

/// The card's sector count, if the CSD structure version is one the driver
/// knows: the byte size over 512 for version 1, the size field for
/// version 2.
pub open spec fn csd_sector_count(csd: Seq<u32>) -> Option<int> {
    if csd_structure(csd) == 0 {
        Some(csd_v1_bytes(csd) / 512)
    } else if csd_structure(csd) == 1 {
        Some(csd_v2_sectors(csd))
    } else {
        None
    }
}

/// The sector count of a card from its CSD register (the four response
/// words of CMD9). The intermediate size must fit in 32 bits, as the
/// computation is done in 32-bit arithmetic.
pub fn sector_count(csd: [u32; 4]) -> (r: Result<u32, CardInitializationError>)
    requires
        csd_structure(csd@) == 0 ==> csd_v1_bytes(csd@) <= u32::MAX,
        csd_structure(csd@) == 1 ==> csd_v2_sectors(csd@) <= u32::MAX,
    ensures
        match csd_sector_count(csd@) {
            Some(n) => r == Ok::<u32, CardInitializationError>(n as u32),
            None => r == Err::<u32, CardInitializationError>(CardInitializationError::InitializationFailedOther),
        },
{
    let w1 = csd[1];
    let w2 = csd[2];
    let w3 = csd[3];
    if ((w3 & 0x00C00000) >> 22) == 0 {
        let b: u32 = (w2 & 0x00000F00) >> 8;
        let m: u32 = (w1 & 0x00000380) >> 7;
        assert(b <= 15 && m <= 7) by (bit_vector)
            requires b == (w2 & 0x00000F00u32) >> 8u32, m == (w1 & 0x00000380u32) >> 7u32;
        let blk_len: u32 = 1 << b;
        let mult: u32 = 1 << (m + 2);
        let lo = (w1 & 0xFFC00000) >> 22;
        let hi = (w2 & 0x00000003) << 10;
        let mut device_size = lo | hi;
        assert(device_size <= 4095 && blk_len >= 1 && mult >= 1 && mult <= 512) by (bit_vector)
            requires
                device_size == lo | hi,
                lo == (w1 & 0xFFC00000u32) >> 22u32,
                hi == (w2 & 0x00000003u32) << 10u32,
                b <= 15,
                m <= 7,
                blk_len == 1u32 << b,
                mult == 1u32 << ((m + 2) as u32),
        ;
        assert(csd_v1_bytes(csd@) == (device_size + 1) * mult * blk_len);
        assert((device_size + 1) * mult <= (device_size + 1) * mult * blk_len) by (nonlinear_arith)
            requires blk_len >= 1, device_size + 1 >= 1, mult >= 1;
        device_size = (device_size + 1) * mult;
        device_size = device_size * blk_len;
        Ok(device_size / 0x200)
    } else if ((w3 & 0x00C00000) >> 22) == 1 {
        Ok((((w1 & 0x3FFFFF00) >> 8) + 1) * 1024)
    } else {
        Err(CardInitializationError::InitializationFailedOther)
    }
}

/// Whether `sector_count` can compute the size of this CSD in its 32-bit
/// arithmetic (where it cannot, the driver stops with an overflow).
pub fn sector_count_fits(csd: [u32; 4]) -> (r: bool)
    ensures
        r == ((csd_structure(csd@) == 0 ==> csd_v1_bytes(csd@) <= u32::MAX)
            && (csd_structure(csd@) == 1 ==> csd_v2_sectors(csd@) <= u32::MAX)),
{
    let w1 = csd[1];
    let w2 = csd[2];
    let w3 = csd[3];
    if ((w3 & 0x00C00000) >> 22) == 0 {
        let b: u32 = (w2 & 0x00000F00) >> 8;
        let m: u32 = (w1 & 0x00000380) >> 7;
        assert(b <= 15 && m <= 7) by (bit_vector)
            requires b == (w2 & 0x00000F00u32) >> 8u32, m == (w1 & 0x00000380u32) >> 7u32;
        let blk_len: u32 = 1 << b;
        let mult: u32 = 1 << (m + 2);
        let lo = (w1 & 0xFFC00000) >> 22;
        let hi = (w2 & 0x00000003) << 10;
        let device_size = lo | hi;
        assert(device_size <= 4095 && blk_len <= 32768 && mult <= 512) by (bit_vector)
            requires
                device_size == lo | hi,
                lo == (w1 & 0xFFC00000u32) >> 22u32,
                hi == (w2 & 0x00000003u32) << 10u32,
                b <= 15,
                m <= 7,
                blk_len == 1u32 << b,
                mult == 1u32 << ((m + 2) as u32),
        ;
        assert(csd_v1_bytes(csd@) == (device_size + 1) * mult * blk_len);
        assert((device_size + 1) * mult <= 4096 * 512) by (nonlinear_arith)
            requires device_size <= 4095, mult <= 512;
        assert((device_size + 1) * mult * blk_len <= 4096 * 512 * 32768) by (nonlinear_arith)
            requires (device_size + 1) * mult <= 4096 * 512, blk_len <= 32768;
        let bytes: u64 = (device_size as u64 + 1) * mult as u64 * blk_len as u64;
        bytes <= 0xFFFF_FFFF
    } else if ((w3 & 0x00C00000) >> 22) == 1 {
        let sectors: u64 = (((w1 & 0x3FFFFF00) >> 8) as u64 + 1) * 1024;
        sectors <= 0xFFFF_FFFF
    } else {
        true
    }
}

/// CMD8 argument: 2.7-3.6 V and the check pattern `0xAA`.
pub const CMD8_VOL_PATTERN: u32 = 0x1AA;
/// OCR: card power-up finished.
pub const RESPOCR_READY: u32 = 0x80000000;
/// ACMD41 / OCR: high capacity support.
pub const ACMD41_HCS: u32 = 0x40000000;
/// ACMD41: 3.2-3.4 V window.
pub const ACMD41_3V3: u32 = 0x00300000;
/// CMD1: high voltage window.
pub const CMD1_HIGH_VOL: u32 = 0x00FF8000;
/// OCR: switching to 1.8 V accepted.
pub const OCR_S18: u32 = 0x01000000;

#[derive(Debug, Copy, Clone, PartialEq, Eq, Structural)]
pub enum CardVersion {
    SdVer1,
    SdVer2,
}

/// The card version from the CMD8 response: version 2 cards echo the check
/// pattern.
pub fn card_version(response: u32) -> (r: CardVersion)
    ensures
        r == (if response != CMD8_VOL_PATTERN { CardVersion::SdVer1 } else { CardVersion::SdVer2 }),
{
    if response != CMD8_VOL_PATTERN {
        CardVersion::SdVer1
    } else {
        CardVersion::SdVer2
    }
}

/// The card type from the outcome of CMD1: only MMC cards answer it.
pub fn card_type_after_cmd1(cmd1_answered: bool) -> (r: CardType)
    ensures
        r == (if cmd1_answered { CardType::CardMmc } else { CardType::CardSd }),
{
    if cmd1_answered {
        CardType::CardMmc
    } else {
        CardType::CardSd
    }
}

/// The flags of an OCR response to ACMD41: (powered up, high capacity,
/// 1.8 V accepted).
pub fn ocr_flags(response: u32) -> (r: (bool, bool, bool))
    ensures
        r == ((response & RESPOCR_READY) != 0, (response & ACMD41_HCS) != 0, (response & OCR_S18) != 0),
{
    ((response & RESPOCR_READY) != 0, (response & ACMD41_HCS) != 0, (response & OCR_S18) != 0)
}

/// The relative card address in a CMD3 response (its upper half, in place).
pub fn relative_card_address(response: u32) -> (r: u32)
    ensures
        r == response & 0xFFFF0000u32,
{
    response & 0xFFFF0000
}

/// Whether the SCR register announces a 4-bit data bus (bit 2 of its second
/// byte).
pub fn supports_4bit(scr: &[u8; 32]) -> (r: bool)
    ensures
        r == (scr@[1] & 0x4u8 != 0),
{
    scr[1] & 0x4 != 0
}

/// The command and transfer-mode value of a block read or write of
/// `block_cnt` 512-byte blocks: one block uses CMD17 (read) or CMD24
/// (write); more use CMD18 or CMD25 with multi-block transfer and an
/// automatic CMD12. Both enable DMA (bit 0) and the block count (bit 1);
/// a read sets the card-to-host direction (bit 4); several blocks set the
/// automatic CMD12 (bit 2) and multi-block (bit 5).
pub open spec fn block_transfer_spec(block_cnt: u16, read: bool) -> (SdCmd, u32) {
    let single = block_cnt == 1;
    let cmd = if read {
        if single { SdCmd::CMD17 } else { SdCmd::CMD18 }
    } else {
        if single { SdCmd::CMD24 } else { SdCmd::CMD25 }
    };
    let mode = with_bit32(with_bit32(0, 0, true), 1, true);
    let mode = if single { mode } else { with_bit32(with_bit32(mode, 2, true), 5, true) };
    let mode = if read { with_bit32(mode, 4, true) } else { mode };
    (cmd, mode)
}

/// The command and transfer mode of a block read (`read`) or write.
pub fn block_transfer(block_cnt: u16, read: bool) -> (r: (SdCmd, u32))
    ensures
        r == block_transfer_spec(block_cnt, read),
{
    let single = block_cnt == 1;
    let cmd = if read {
        if single { SdCmd::CMD17 } else { SdCmd::CMD18 }
    } else {
        if single { SdCmd::CMD24 } else { SdCmd::CMD25 }
    };
    let mode = set_bit_u32(set_bit_u32(0, 0, true), 1, true);
    let mode = if single { mode } else { set_bit_u32(set_bit_u32(mode, 2, true), 5, true) };
    let mode = if read { set_bit_u32(mode, 4, true) } else { mode };
    (cmd, mode)
}

/// The transfer-mode values: `0x13` for one block read, `0x37` for several,
/// `0x03` for one block written, `0x27` for several.
pub proof fn lemma_block_transfer_modes()
    by (bit_vector)
    ensures
        with_bit32(with_bit32(with_bit32(0u32, 0, true), 1, true), 4, true) == 0x13u32,
        with_bit32(with_bit32(with_bit32(with_bit32(with_bit32(0u32, 0, true), 1, true), 2, true), 5, true), 4, true) == 0x37u32,
        with_bit32(with_bit32(0u32, 0, true), 1, true) == 0x03u32,
        with_bit32(with_bit32(with_bit32(with_bit32(0u32, 0, true), 1, true), 2, true), 5, true) == 0x27u32,
{
}

/// The most bytes one ADMA2 descriptor moves; a length field of 0 stands
/// for it.
pub const DESC_MAX_LENGTH: u32 = 65536;

/// An ADMA2 descriptor: its attribute (valid bit 0, end bit 1, interrupt
/// bit 2, transfer action bit 5), its length and the buffer address.
#[derive(Clone, Copy, Debug, PartialEq, Eq, Structural)]
pub struct Adma2Desc32 {
    pub attribute: u16,
    pub length: u16,
    pub address: u32,
}

/// The number of descriptors a transfer of `total` bytes takes: one below
/// 64 KiB, else the 64 KiB pieces rounded up.
pub open spec fn desc_lines(total: int) -> int {
    if total < DESC_MAX_LENGTH {
        1
    } else {
        total / (DESC_MAX_LENGTH as int) + if total % (DESC_MAX_LENGTH as int) == 0 { 0int } else { 1int }
    }
}

/// Attribute of a descriptor that transfers data: valid and transfer
/// action, `0x21`; the last one also ends the table, `0x23`.
pub open spec fn desc_attribute(is_last: bool) -> u16 {
    if is_last {
        0x23
    } else {
        0x21
    }
}

/// The descriptor table for `blk_cnt` blocks of `blk_size` bytes in the
/// buffer at `buffer_addr`: descriptor `i` covers 64 KiB from
/// `buffer_addr + i * 64 KiB` (length field 0), and the last covers what is
/// left and ends the table.
pub open spec fn adma_table_spec(blk_size: u32, blk_cnt: u32, buffer_addr: u32) -> Seq<Adma2Desc32> {
    let total = blk_size * blk_cnt;
    let n = desc_lines(total);
    Seq::new(n as nat, |i: int| Adma2Desc32 {
        attribute: desc_attribute(i == n - 1),
        length: if i == n - 1 { (total - (n - 1) * DESC_MAX_LENGTH) as u16 } else { 0 },
        address: (buffer_addr + i * DESC_MAX_LENGTH) as u32,
    })
}

/// Whether a transfer's descriptor table can be built: its size fits 32
/// bits, it takes at most the table's 32 descriptors, and the addresses
/// stay below 4 GiB (where it cannot, the driver stops with an overflow or
/// an index out of bounds).
pub fn adma_table_fits(blk_size: u32, blk_cnt: u32, buffer_addr: u32) -> (r: bool)
    ensures
        r == (blk_size * blk_cnt <= u32::MAX
            && desc_lines(blk_size * blk_cnt) <= 32
            && buffer_addr + (desc_lines(blk_size * blk_cnt) - 1) * DESC_MAX_LENGTH <= u32::MAX),
{
    assert(blk_size * blk_cnt <= 0xFFFF_FFFFu64 * 0xFFFF_FFFFu64) by (nonlinear_arith);
    let total: u64 = blk_size as u64 * blk_cnt as u64;
    if total > 0xFFFF_FFFF {
        return false;
    }
    let n: u64 = if total < DESC_MAX_LENGTH as u64 {
        1
    } else {
        total / DESC_MAX_LENGTH as u64 + if total % DESC_MAX_LENGTH as u64 == 0 { 0 } else { 1 }
    };
    assert(n == desc_lines(blk_size * blk_cnt));
    n <= 32 && buffer_addr as u64 + (n - 1) * DESC_MAX_LENGTH as u64 <= 0xFFFF_FFFF
}

/// The ADMA2 descriptor table of a transfer, which the controller's
/// 32-entry table holds.
pub fn adma_table(blk_size: u32, blk_cnt: u32, buffer_addr: u32) -> (r: Vec<Adma2Desc32>)
    requires
        blk_size * blk_cnt <= u32::MAX,
        desc_lines(blk_size * blk_cnt) <= 32,
        buffer_addr + (desc_lines(blk_size * blk_cnt) - 1) * DESC_MAX_LENGTH <= u32::MAX,
    ensures
        r@ == adma_table_spec(blk_size, blk_cnt, buffer_addr),
        1 <= r@.len() <= 32,
{
    let total = blk_size * blk_cnt;
    let n: u32 = if total < DESC_MAX_LENGTH {
        1
    } else {
        total / DESC_MAX_LENGTH + if total % DESC_MAX_LENGTH == 0 { 0 } else { 1 }
    };
    assert(n == desc_lines(total as int));
    let ghost spec_table = adma_table_spec(blk_size, blk_cnt, buffer_addr);
    let mut table: Vec<Adma2Desc32> = Vec::new();
    let mut i: u32 = 0;
    while i < n
        invariant
            1 <= n <= 32,
            n == desc_lines(total as int),
            total == blk_size * blk_cnt,
            buffer_addr + (n - 1) * DESC_MAX_LENGTH <= u32::MAX,
            spec_table == adma_table_spec(blk_size, blk_cnt, buffer_addr),
            i <= n,
            table@.len() == i,
            forall|j: int| 0 <= j < i ==> #[trigger] table@[j] == spec_table[j],
        decreases n - i,
    {
        proof {
            assert(i * DESC_MAX_LENGTH <= (n - 1) * DESC_MAX_LENGTH) by (nonlinear_arith)
                requires i <= n - 1;
        }
        let address = buffer_addr + i * DESC_MAX_LENGTH;
        let d = if i == n - 1 {
            proof {
                assert((n - 1) * DESC_MAX_LENGTH <= total) by (nonlinear_arith)
                    requires
                        n == desc_lines(total as int),
                        1 <= n,
                ;
            }
            Adma2Desc32 {
                attribute: 0x23,
                length: (total - (n - 1) * DESC_MAX_LENGTH) as u16,
                address,
            }
        } else {
            Adma2Desc32 { attribute: 0x21, length: 0, address }
        };
        table.push(d);
        i = i + 1;
    }
    assert(table@ =~= spec_table);
    table
}

/// The bus voltage to run at from the capabilities register: 3.3 V (bit
/// 24) first, then 3.0 V (bit 25), then 1.8 V (bit 26); `None` (power
/// field 0) when none is supported.
pub open spec fn bus_voltage_for(capabilities: u32) -> Option<BusVoltage> {
    if bit32(capabilities, 24) {
        Some(BusVoltage::V33)
    } else if bit32(capabilities, 25) {
        Some(BusVoltage::V30)
    } else if bit32(capabilities, 26) {
        Some(BusVoltage::V18)
    } else {
        None
    }
}

/// The bus voltage `init` selects.
pub fn select_bus_voltage(capabilities: u32) -> (r: Option<BusVoltage>)
    ensures
        r == bus_voltage_for(capabilities),
{
    if get_bit_u32(capabilities, 24) {
        Some(BusVoltage::V33)
    } else if get_bit_u32(capabilities, 25) {
        Some(BusVoltage::V30)
    } else if get_bit_u32(capabilities, 26) {
        Some(BusVoltage::V18)
    } else {
        None
    }
}

/// The checks before a command, on the present state register: read once
/// before the command's set-up (`state_cmd`) for the command-line inhibit
/// (bit 0), and once after it (`state_dat`) for the data-line inhibit (bit
/// 1), which matters only for a command that uses the data line (tuning
/// commands CMD19 and CMD21 aside).
pub open spec fn cmd_precheck_spec(state_cmd: u32, state_dat: u32, cmd: SdCmd, is_sd_card: bool) -> Result<(), CmdTransferError> {
    if bit32(state_cmd, 0) {
        Err(CmdTransferError::CmdInhibited)
    } else if cmd != SdCmd::CMD21 && cmd != SdCmd::CMD19 && bit32(state_dat, 1) && needs_dat(cmd, is_sd_card) {
        Err(CmdTransferError::DatLineInhibited)
    } else {
        Ok(())
    }
}

pub fn cmd_precheck(state_cmd: u32, state_dat: u32, cmd: SdCmd, is_sd_card: bool) -> (r: Result<(), CmdTransferError>)
    ensures
        r == cmd_precheck_spec(state_cmd, state_dat, cmd, is_sd_card),
{
    if get_bit_u32(state_cmd, 0) {
        Err(CmdTransferError::CmdInhibited)
    } else if cmd != SdCmd::CMD21 && cmd != SdCmd::CMD19 && get_bit_u32(state_dat, 1) && require_dat(cmd, is_sd_card) {
        Err(CmdTransferError::DatLineInhibited)
    } else {
        Ok(())
    }
}

/// One poll for a command's response.
#[derive(Copy, Clone, Debug, PartialEq, Eq, Structural)]
pub enum CmdPoll {
    /// A tuning command's data is ready: clear buffer-read-ready (bit 5),
    /// then wait for command complete.
    BufferReady,
    /// The command completed.
    Complete,
    /// Poll again.
    Wait,
}

/// What a response poll makes of the interrupt status: for a tuning
/// command a ready buffer (bit 5), then command complete (bit 0), then an
/// error (handled by `check_error`), else another poll.
pub open spec fn cmd_poll_spec(cmd: SdCmd, status: u32) -> CmdPoll {
    if (cmd == SdCmd::CMD21 || cmd == SdCmd::CMD19) && bit32(status, 5) {
        CmdPoll::BufferReady
    } else if bit32(status, 0) {
        CmdPoll::Complete
    } else {
        CmdPoll::Wait
    }
}

pub fn cmd_poll(cmd: SdCmd, status: u32) -> (r: CmdPoll)
    ensures
        r == cmd_poll_spec(cmd, status),
{
    if (cmd == SdCmd::CMD21 || cmd == SdCmd::CMD19) && get_bit_u32(status, 5) {
        CmdPoll::BufferReady
    } else if get_bit_u32(status, 0) {
        CmdPoll::Complete
    } else {
        CmdPoll::Wait
    }
}

/// Whether the block size may change now: no command or data inhibit
/// (bits 0 and 1) and no transfer under way (bits 8 and 9).
pub fn block_size_precheck(state: u32) -> (r: Result<(), CmdTransferError>)
    ensures
        r == (if bit32(state, 0) || bit32(state, 1) || bit32(state, 8) || bit32(state, 9) {
            Err::<(), CmdTransferError>(CmdTransferError::CmdInhibited)
        } else {
            Ok(())
        }),
{
    if get_bit_u32(state, 0) || get_bit_u32(state, 1) || get_bit_u32(state, 8) || get_bit_u32(state, 9) {
        Err(CmdTransferError::CmdInhibited)
    } else {
        Ok(())
    }
}

/// The CMD and DAT0 to DAT3 line levels (bits 24 and 20 to 23) of the
/// present state, as `(cmd, dat0, dat1, dat2, dat3)`.
pub open spec fn line_levels(state: u32) -> (bool, bool, bool, bool, bool) {
    (bit32(state, 24), bit32(state, 20), bit32(state, 21), bit32(state, 22), bit32(state, 23))
}

/// Whether the CMD and DAT0 to DAT3 lines are all low, as the switch to
/// 1.8 V waits for after CMD11; `high` asks whether they are all high, as
/// it waits for once the clock runs again.
pub fn lines_all(state: u32, high: bool) -> (r: bool)
    ensures
        r == (if high {
            line_levels(state) == (true, true, true, true, true)
        } else {
            line_levels(state) == (false, false, false, false, false)
        }),
{
    let c = get_bit_u32(state, 24);
    let d0 = get_bit_u32(state, 20);
    let d1 = get_bit_u32(state, 21);
    let d2 = get_bit_u32(state, 22);
    let d3 = get_bit_u32(state, 23);
    if high {
        c && d0 && d1 && d2 && d3
    } else {
        !c && !d0 && !d1 && !d2 && !d3
    }
}

/// The host controller registers its initialisation writes.
pub struct HostRegs {
    pub control: Register,
    pub clock_control: Register,
    pub interrupt_status_en: Register,
    pub interrupt_signal_en: Register,
    pub block_size_block_count: Register,
    /// Every write to these registers, oldest first, as (offset in the
    /// host controller block, value): the order the device must see them in.
    pub journal: Vec<(u32, u32)>,
}

/// Offsets of the host controller registers written at initialisation.
pub const BLOCK_SIZE_OFFSET: u32 = 0x04;
pub const CONTROL_OFFSET: u32 = 0x28;
pub const INTERRUPT_STATUS_EN_OFFSET: u32 = 0x34;
pub const INTERRUPT_SIGNAL_EN_OFFSET: u32 = 0x38;

/// Host control with the bus voltage field (bits 9 to 11) at `code` and
/// bus power (bit 8) at `power`.
pub open spec fn with_bus_power(control: u32, code: u32, power: bool) -> u32 {
    with_bit32(with_bits32(control, 9, 11, code), 8, power)
}

/// Turns bus power off (voltage field 0), as the initialisation starts.
pub fn power_off(control: &mut Register)
    ensures
        final(control).value == with_bus_power(old(control).value, 0, false),
        final(control).writes@ == old(control).writes@.push(final(control).value),
{
    proof {
        crate::bits::lemma_mask_values();
    }
    let v = set_bit_u32(set_bits_u32(control.value, 9, 11, 0), 8, false);
    control.write(v);
}

/// Turns bus power on at 3.3 V, after the controller's reset.
pub fn power_on_3v3(control: &mut Register)
    ensures
        final(control).value == with_bus_power(old(control).value, bus_voltage_code(BusVoltage::V33), true),
        final(control).writes@ == old(control).writes@.push(final(control).value),
{
    proof {
        crate::bits::lemma_mask_values();
    }
    let v = set_bit_u32(set_bits_u32(control.value, 9, 11, BusVoltage::V33.code()), 8, true);
    control.write(v);
}

/// Stops the SD clock (bit 2) and the internal clock (bit 0) before a
/// frequency change.
pub fn stop_clock(clock_control: &mut Register)
    ensures
        final(clock_control).value == with_bit32(with_bit32(old(clock_control).value, 2, false), 0, false),
        final(clock_control).writes@ == old(clock_control).writes@.push(final(clock_control).value),
{
    let v = set_bit_u32(set_bit_u32(clock_control.value, 2, false), 0, false);
    clock_control.write(v);
}

/// Starts the internal clock (bit 0) with the SDCLK divisor code `divisor`
/// (bits 8 to 15, as `Sdio::clock_divisor` gives it); the caller then waits
/// for it to be stable (bit 1).
pub fn start_internal_clock(clock_control: &mut Register, divisor: u32)
    requires
        divisor <= 255,
    ensures
        final(clock_control).value == with_bit32(with_bits32(old(clock_control).value, 8, 15, divisor), 0, true),
        final(clock_control).writes@ == old(clock_control).writes@.push(final(clock_control).value),
{
    proof {
        crate::bits::lemma_mask_values();
    }
    let v = set_bit_u32(set_bits_u32(clock_control.value, 8, 15, divisor), 0, true);
    clock_control.write(v);
}

/// Turns the SD clock on (bit 2) once the internal clock is stable.
pub fn enable_sd_clock(clock_control: &mut Register)
    ensures
        final(clock_control).value == with_bit32(old(clock_control).value, 2, true),
        final(clock_control).writes@ == old(clock_control).writes@.push(final(clock_control).value),
{
    let v = set_bit_u32(clock_control.value, 2, true);
    clock_control.write(v);
}

/// Interrupt status enable with every status on but the card interrupt
/// (bit 8).
pub open spec fn interrupt_status_en_init() -> u32 {
    with_bit32(0xFFFF_FFFFu32, 8, false)
}

/// The end of the host controller's initialisation, from the capabilities
/// register: the bus voltage it supports (`bus_voltage_for`, field 0 when
/// none), then ADMA2 (`0b10` in bits 3 and 4); every interrupt status but
/// the card interrupt enabled; no interrupt signalled; 512-byte blocks
/// (bits 0 to 11).
pub fn finish_host_init(regs: &mut HostRegs, capabilities: u32)
    ensures
        ({
            let code = match bus_voltage_for(capabilities) {
                Some(v) => bus_voltage_code(v),
                None => 0,
            };
            let c1 = with_bits32(old(regs).control.value, 9, 11, code);
            let c2 = with_bits32(c1, 3, 4, dma_select_code(DmaSelect::ADMA2));
            &&& final(regs).control.writes@ == old(regs).control.writes@.push(c1).push(c2)
            &&& final(regs).control.value == c2
            &&& final(regs).journal@ == old(regs).journal@ + seq![
                (CONTROL_OFFSET, c1),
                (CONTROL_OFFSET, c2),
                (INTERRUPT_STATUS_EN_OFFSET, interrupt_status_en_init()),
                (INTERRUPT_SIGNAL_EN_OFFSET, 0u32),
                (BLOCK_SIZE_OFFSET, with_bits32(old(regs).block_size_block_count.value, 0, 11, 512)),
            ]
        }),
        final(regs).interrupt_status_en.writes@ == old(regs).interrupt_status_en.writes@.push(interrupt_status_en_init()),
        final(regs).interrupt_status_en.value == interrupt_status_en_init(),
        final(regs).interrupt_signal_en.writes@ == old(regs).interrupt_signal_en.writes@.push(0),
        final(regs).interrupt_signal_en.value == 0,
        final(regs).block_size_block_count.writes@ == old(regs).block_size_block_count.writes@.push(
            with_bits32(old(regs).block_size_block_count.value, 0, 11, 512),
        ),
        final(regs).block_size_block_count.value == with_bits32(old(regs).block_size_block_count.value, 0, 11, 512),
        final(regs).clock_control == old(regs).clock_control,
{
    proof {
        crate::bits::lemma_mask_values();
    }
    let code = match select_bus_voltage(capabilities) {
        Some(v) => v.code(),
        None => 0,
    };
    let c1 = set_bits_u32(regs.control.value, 9, 11, code);
    regs.control.write(c1);
    regs.journal.push((CONTROL_OFFSET, c1));
    let c2 = set_bits_u32(c1, 3, 4, DmaSelect::ADMA2.code());
    regs.control.write(c2);
    regs.journal.push((CONTROL_OFFSET, c2));
    let en = set_bit_u32(0xFFFF_FFFF, 8, false);
    regs.interrupt_status_en.write(en);
    regs.journal.push((INTERRUPT_STATUS_EN_OFFSET, en));
    regs.interrupt_signal_en.write(0);
    regs.journal.push((INTERRUPT_SIGNAL_EN_OFFSET, 0));
    let b = set_bits_u32(regs.block_size_block_count.value, 0, 11, 512);
    regs.block_size_block_count.write(b);
    regs.journal.push((BLOCK_SIZE_OFFSET, b));
    proof {
        assert(regs.journal@ =~= old(regs).journal@ + seq![
            (CONTROL_OFFSET, c1),
            (CONTROL_OFFSET, c2),
            (INTERRUPT_STATUS_EN_OFFSET, en),
            (INTERRUPT_SIGNAL_EN_OFFSET, 0u32),
            (BLOCK_SIZE_OFFSET, b),
        ]);
    }
}

/// The interrupt status enable value is `0xFFFF_FEFF`.
pub proof fn lemma_interrupt_status_en_init()
    by (bit_vector)
    ensures
        with_bit32(0xFFFF_FFFFu32, 8, false) == 0xFFFF_FEFFu32,
{
}

proof fn lemma_cmd_fields(x: u32, c: u32)
    by (bit_vector)
    requires
        c < 64,
    ensures
        ({
            let b = with_bits32(x, 24, 29, c);
            &&& bit32(b, 21) == bit32(x, 21)
            &&& b & 0xFFFF == x & 0xFFFF
            &&& bits32(b, 24, 29) == c
        }),
        ({
            let r = with_bit32(with_bit32(with_bits32(x, 16, 17, 0b10), 19, true), 20, true);
            bit32(r, 21) == bit32(x, 21) && r & 0xFFFF == x & 0xFFFF && bits32(r, 24, 29) == bits32(x, 24, 29)
        }),
        ({
            let r = with_bit32(with_bit32(with_bits32(x, 16, 17, 0b11), 19, true), 20, true);
            bit32(r, 21) == bit32(x, 21) && r & 0xFFFF == x & 0xFFFF && bits32(r, 24, 29) == bits32(x, 24, 29)
        }),
        ({
            let r = with_bit32(with_bits32(x, 16, 17, 0b01), 19, true);
            bit32(r, 21) == bit32(x, 21) && r & 0xFFFF == x & 0xFFFF && bits32(r, 24, 29) == bits32(x, 24, 29)
        }),
        ({
            let r = with_bits32(x, 16, 17, 0b10);
            bit32(r, 21) == bit32(x, 21) && r & 0xFFFF == x & 0xFFFF && bits32(r, 24, 29) == bits32(x, 24, 29)
        }),
        ({
            let r = with_bit32(x, 21, true);
            bit32(r, 21) && r & 0xFFFF == x & 0xFFFF && bits32(r, 24, 29) == bits32(x, 24, 29)
        }),
{
}

/// For every command: the value `set_cmd_reg(cmd, is_sd_card, w)` returns
/// (`cmd_reg_value`), from a `w` without the data-present bit (21), has
/// that bit exactly when `require_dat(cmd, is_sd_card)` holds
/// (`needs_dat`), the command index (the code's low six bits) in bits 24 to
/// 29, and the transfer-mode half of `w` (bits 0 to 15) unchanged.
pub proof fn lemma_set_cmd_reg_fields(cmd: SdCmd, is_sd_card: bool, w: u32)
    requires
        !bit32(w, 21),
    ensures
        bit32(cmd_reg_value(cmd, is_sd_card, w), 21) == needs_dat(cmd, is_sd_card),
        bits32(cmd_reg_value(cmd, is_sd_card, w), 24, 29) == (sd_cmd_code(cmd) & 0x3F) as u32,
        cmd_reg_value(cmd, is_sd_card, w) & 0xFFFF == w & 0xFFFF,
{
    let code = sd_cmd_code(cmd);
    let c = (code & 0x3F) as u32;
    assert(code & 0x3F < 64) by (bit_vector);
    lemma_cmd_fields(w, c);
    let base = with_bits32(w, 24, 29, c);
    lemma_cmd_fields(base, c);
    match cmd_format(cmd, is_sd_card) {
        Some((r, data)) => {
            let v = with_resp(base, r);
            lemma_cmd_fields(v, c);
        },
        None => {},
    }
}

} // verus!
