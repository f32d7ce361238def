//! System Level Control registers: field encodings and the register updates
//! that enable and reset peripherals.
use vstd::prelude::*;
use crate::bits::{with_bit32, bits32, with_bits32, set_bit_u32, set_bits_u32};
use crate::regs::Register;

verus! {

/// Clock source of a peripheral clock: I/O PLL `0b00`, ARM PLL `0b10`,
/// DDR PLL `0b11`.
#[derive(Copy, Clone, Debug, PartialEq, Eq, Structural)]
pub enum PllSource {
    IoPll,
    ArmPll,
    DdrPll,
}

pub open spec fn pll_source_code(s: PllSource) -> u32 {
    match s {
        PllSource::IoPll => 0b00,
        PllSource::ArmPll => 0b10,
        PllSource::DdrPll => 0b11,
    }
}

impl PllSource {
    pub fn code(&self) -> (r: u32)
        ensures
            r == pll_source_code(*self),
    {
        match self {
            PllSource::IoPll => 0b00,
            PllSource::ArmPll => 0b10,
            PllSource::DdrPll => 0b11,
        }
    }
}

/// Clock source of the CPU clock: ARM PLL `0b00`, DDR PLL `0b10`, I/O PLL
/// `0b11`.
#[derive(Copy, Clone, Debug, PartialEq, Eq, Structural)]
pub enum ArmPllSource {
    ArmPll,
    DdrPll,
    IoPll,
}

pub open spec fn arm_pll_source_code(s: ArmPllSource) -> u32 {
    match s {
        ArmPllSource::ArmPll => 0b00,
        ArmPllSource::DdrPll => 0b10,
        ArmPllSource::IoPll => 0b11,
    }
}

impl ArmPllSource {
    pub fn code(&self) -> (r: u32)
        ensures
            r == arm_pll_source_code(*self),
    {
        match self {
            ArmPllSource::ArmPll => 0b00,
            ArmPllSource::DdrPll => 0b10,
            ArmPllSource::IoPll => 0b11,
        }
    }
}

/// DDR IOB input type: off `0b00`, VREF differential `0b01`, differential
/// `0b10`, LVCMOS `0b11`.
#[derive(Copy, Clone, Debug, PartialEq, Eq, Structural)]
pub enum DdriobInputType {
    Off,
    /// For SSTL, HSTL
    VrefDifferential,
    Differential,
    Lvcmos,
}

/// DDR IOB DCI type: disabled `0b00`, drive `0b01`, termination `0b11`.
#[derive(Copy, Clone, Debug, PartialEq, Eq, Structural)]
pub enum DdriobDciType {
    /// DDR2/3L Addr and Clock
    Disabled,
    /// LPDDR2
    Drive,
    /// DDR2/3/3L Data and Diff
    Termination,
}

/// DDR IOB output enable: input buffer `0b00`, output buffer `0b11`.
#[derive(Copy, Clone, Debug, PartialEq, Eq, Structural)]
pub enum DdriobOutputEn {
    Ibuf,
    Obuf,
}

/// DDR IOB reference voltage: 0.6 V `0b0001`, 0.675 V `0b0010`, 0.75 V
/// `0b0100`, 0.9 V `0b1000`.
#[derive(Copy, Clone, Debug, PartialEq, Eq, Structural)]
pub enum DdriobVrefSel {
    /// For LPDDR2 with 1.2V IO
    Vref0_6V,
    /// For DDR3L with 1.35V IO
    Vref0_675V,
    /// For DDR3 with 1.5V IO
    Vref0_75V,
    /// For DDR2 with 1.8V IO
    Vref0_9V,
}

/// Level shifter enable: all off `0x0`, PS to PL `0xA`, all on `0xF`.
#[derive(Copy, Clone, Debug, PartialEq, Eq, Structural)]
pub enum LevelShifterEnable {
    DisableAll,
    EnablePsToPl,
    EnableAll,
}

pub open spec fn level_shifter_code(l: LevelShifterEnable) -> u32 {
    match l {
        LevelShifterEnable::DisableAll => 0x0,
        LevelShifterEnable::EnablePsToPl => 0xA,
        LevelShifterEnable::EnableAll => 0xF,
    }
}

impl LevelShifterEnable {
    pub fn code(&self) -> (r: u32)
        ensures
            r == level_shifter_code(*self),
    {
        match self {
            LevelShifterEnable::DisableAll => 0x0,
            LevelShifterEnable::EnablePsToPl => 0xA,
            LevelShifterEnable::EnableAll => 0xF,
        }
    }
}

/// Boot mode pins; their codes are out of order in the reference manual:
/// JTAG `0b000`, NOR `0b010`, NAND `0b100`, quad SPI `0b001`, SD card
/// `0b101`.
#[derive(Copy, Clone, Debug, PartialEq, Eq, Structural)]
pub enum BootModePins {
    Jtag,
    Nor,
    Nand,
    QuadSpi,
    SdCard,
}

pub open spec fn boot_mode_of_code(c: u32) -> Option<BootModePins> {
    if c == 0b000 {
        Some(BootModePins::Jtag)
    } else if c == 0b010 {
        Some(BootModePins::Nor)
    } else if c == 0b100 {
        Some(BootModePins::Nand)
    } else if c == 0b001 {
        Some(BootModePins::QuadSpi)
    } else if c == 0b101 {
        Some(BootModePins::SdCard)
    } else {
        None
    }
}

impl BootModePins {
    /// The boot mode that bits 0 to 2 of the BOOT_MODE register select, if
    /// the code is one of the five defined.
    pub fn from_boot_mode(boot_mode: u32) -> (r: Option<BootModePins>)
        ensures
            r == boot_mode_of_code(bits32(boot_mode, 0, 2)),
    {
        let c = crate::bits::get_bits_u32(boot_mode, 0, 2);
        if c == 0b000 {
            Some(BootModePins::Jtag)
        } else if c == 0b010 {
            Some(BootModePins::Nor)
        } else if c == 0b100 {
            Some(BootModePins::Nand)
        } else if c == 0b001 {
            Some(BootModePins::QuadSpi)
        } else if c == 0b101 {
            Some(BootModePins::SdCard)
        } else {
            None
        }
    }
}

/// MIO pin I/O buffer type: LVCMOS 1.8 V `0b001`, 2.5 V `0b010`, 3.3 V
/// `0b011`, HSTL `0b100`.
#[derive(Copy, Clone, Debug, PartialEq, Eq, Structural)]
pub enum IoBufferType {
    Lvcmos18,
    Lvcmos25,
    Lvcmos33,
    Hstl,
}

pub open spec fn io_buffer_code(t: IoBufferType) -> u32 {
    match t {
        IoBufferType::Lvcmos18 => 0b001,
        IoBufferType::Lvcmos25 => 0b010,
        IoBufferType::Lvcmos33 => 0b011,
        IoBufferType::Hstl => 0b100,
    }
}

impl IoBufferType {
    pub fn code(&self) -> (r: u32)
        ensures
            r == io_buffer_code(*self),
    {
        match self {
            IoBufferType::Lvcmos18 => 0b001,
            IoBufferType::Lvcmos25 => 0b010,
            IoBufferType::Lvcmos33 => 0b011,
            IoBufferType::Hstl => 0b100,
        }
    }
}

/// SLCR lock register (write only).
pub struct SlcrLock(pub Register);

impl SlcrLock {
    /// Writes the lock key `0x767B`.
    pub fn lock(&mut self)
        ensures
            final(self).0.writes@ == old(self).0.writes@.push(0x767B),
            final(self).0.value == 0x767B,
    {
        self.0.write(0x767B);
    }
}

/// SLCR unlock register (write only).
pub struct SlcrUnlock(pub Register);

impl SlcrUnlock {
    /// Writes the unlock key `0xDF0D`.
    pub fn unlock(&mut self)
        ensures
            final(self).0.writes@ == old(self).0.writes@.push(0xDF0D),
            final(self).0.value == 0xDF0D,
    {
        self.0.write(0xDF0D);
    }
}

/// Offsets of the lock and unlock registers in the SLCR block.
pub const SLCR_LOCK_OFFSET: u32 = 0x004;
pub const SLCR_UNLOCK_OFFSET: u32 = 0x008;

/// An SLCR sequence still open: the unlock key first, then writes to
/// registers other than the lock and unlock registers.
pub open spec fn open_section(j: Seq<(u32, u32)>) -> bool {
    &&& j.len() >= 1
    &&& j[0] == (SLCR_UNLOCK_OFFSET, 0xDF0Du32)
    &&& forall|i: int| 1 <= i < j.len() ==> #[trigger] j[i].0 != SLCR_LOCK_OFFSET && j[i].0 != SLCR_UNLOCK_OFFSET
}

/// An SLCR sequence that leaves the block locked again: an open sequence
/// followed by the lock key.
pub open spec fn closed_section(j: Seq<(u32, u32)>) -> bool {
    &&& j.len() >= 2
    &&& open_section(j.drop_last())
    &&& j.last() == (SLCR_LOCK_OFFSET, 0x767Bu32)
}

/// The writes of a stretch of work on the SLCR registers, (offset in the
/// block, value) in order: every register write stands between the unlock
/// and the lock key.
pub struct SlcrSection {
    pub journal: Vec<(u32, u32)>,
}

impl SlcrSection {
    /// Opens a section with the unlock key.
    pub fn begin() -> (r: Self)
        ensures
            r.journal@ == seq![(SLCR_UNLOCK_OFFSET, 0xDF0Du32)],
            open_section(r.journal@),
    {
        let mut journal: Vec<(u32, u32)> = Vec::new();
        journal.push((SLCR_UNLOCK_OFFSET, 0xDF0D));
        SlcrSection { journal }
    }

    /// Writes `v` to the register at `offset`, which is neither the lock
    /// nor the unlock register.
    pub fn put(&mut self, offset: u32, v: u32)
        requires
            open_section(old(self).journal@),
            offset != SLCR_LOCK_OFFSET,
            offset != SLCR_UNLOCK_OFFSET,
        ensures
            final(self).journal@ == old(self).journal@.push((offset, v)),
            open_section(final(self).journal@),
    {
        self.journal.push((offset, v));
    }

    /// Closes the section with the lock key.
    pub fn end(&mut self)
        requires
            open_section(old(self).journal@),
        ensures
            final(self).journal@ == old(self).journal@.push((SLCR_LOCK_OFFSET, 0x767Bu32)),
            closed_section(final(self).journal@),
    {
        self.journal.push((SLCR_LOCK_OFFSET, 0x767B));
        proof {
            assert(self.journal@.drop_last() =~= old(self).journal@);
        }
    }
}

/// `r` after one write that sets bit `n`.
pub open spec fn set_one(old: Register, new: Register, n: u32) -> bool {
    &&& new.value == with_bit32(old.value, n, true)
    &&& new.writes@ == old.writes@.push(new.value)
}

/// `r` after two writes: the first sets bits `a` and `b`, the second clears
/// them again; a reset pulse.
pub open spec fn pulsed(old: Register, new: Register, a: u32, b: u32) -> bool {
    let asserted = with_bit32(with_bit32(old.value, a, true), b, true);
    let released = with_bit32(with_bit32(asserted, a, false), b, false);
    &&& new.value == released
    &&& new.writes@ == old.writes@.push(asserted).push(released)
}

/// AMBA peripheral clock control.
pub struct AperClkCtrl(pub Register);

impl AperClkCtrl {
    fn set(&mut self, n: u32)
        requires
            n < 32,
        ensures
            set_one(old(self).0, final(self).0, n),
    {
        let v = set_bit_u32(self.0.value, n, true);
        self.0.write(v);
    }

    /// Sets UART0_CPU_1XCLKACT (bit 20).
    pub fn enable_uart0(&mut self)
        ensures
            set_one(old(self).0, final(self).0, 20),
    {
        self.set(20)
    }

    /// Sets UART1_CPU_1XCLKACT (bit 21).
    pub fn enable_uart1(&mut self)
        ensures
            set_one(old(self).0, final(self).0, 21),
    {
        self.set(21)
    }

    /// Sets SDI0_CPU_1XCLKACT (bit 10).
    pub fn enable_sdio0(&mut self)
        ensures
            set_one(old(self).0, final(self).0, 10),
    {
        self.set(10)
    }

    /// Sets SDI1_CPU_1XCLKACT (bit 11).
    pub fn enable_sdio1(&mut self)
        ensures
            set_one(old(self).0, final(self).0, 11),
    {
        self.set(11)
    }
}

/// A peripheral reference clock control value with divisor `0x14`, the I/O
/// PLL as source and clock-active bit `n` set.
pub open spec fn ref_clk_enabled(v: u32, n: u32) -> u32 {
    with_bit32(with_bits32(with_bits32(v, 8, 13, 0x14), 4, 5, pll_source_code(PllSource::IoPll)), n, true)
}

fn enable_ref_clk(r: &mut Register, n: u32)
    requires
        n < 2,
    ensures
        final(r).value == ref_clk_enabled(old(r).value, n),
        final(r).writes@ == old(r).writes@.push(final(r).value),
{
    proof {
        crate::bits::lemma_mask_values();
    }
    let a = set_bits_u32(r.value, 8, 13, 0x14);
    let b = set_bits_u32(a, 4, 5, PllSource::IoPll.code());
    let c = set_bit_u32(b, n, true);
    r.write(c);
}

/// SDIO reference clock control.
pub struct SdioClkCtrl(pub Register);

impl SdioClkCtrl {
    pub fn enable_sdio0(&mut self)
        ensures
            final(self).0.value == ref_clk_enabled(old(self).0.value, 0),
            final(self).0.writes@ == old(self).0.writes@.push(final(self).0.value),
    {
        enable_ref_clk(&mut self.0, 0)
    }

    pub fn enable_sdio1(&mut self)
        ensures
            final(self).0.value == ref_clk_enabled(old(self).0.value, 1),
            final(self).0.writes@ == old(self).0.writes@.push(final(self).0.value),
    {
        enable_ref_clk(&mut self.0, 1)
    }
}

/// UART reference clock control.
pub struct UartClkCtrl(pub Register);

impl UartClkCtrl {
    /// Divisor `0x14`, I/O PLL, UART 0 reference clock on.
    pub fn enable_uart0(&mut self)
        ensures
            final(self).0.value == ref_clk_enabled(old(self).0.value, 0),
            final(self).0.writes@ == old(self).0.writes@.push(final(self).0.value),
    {
        enable_ref_clk(&mut self.0, 0)
    }

    /// Divisor `0x14`, I/O PLL, UART 1 reference clock on.
    pub fn enable_uart1(&mut self)
        ensures
            final(self).0.value == ref_clk_enabled(old(self).0.value, 1),
            final(self).0.writes@ == old(self).0.writes@.push(final(self).0.value),
    {
        enable_ref_clk(&mut self.0, 1)
    }
}

fn pulse(r: &mut Register, a: u32, b: u32)
    requires
        a < 32,
        b < 32,
    ensures
        pulsed(*old(r), *final(r), a, b),
{
    let v = set_bit_u32(r.value, a, true);
    let v = set_bit_u32(v, b, true);
    r.write(v);
    let w = set_bit_u32(r.value, a, false);
    let w = set_bit_u32(w, b, false);
    r.write(w);
}

/// SDIO software reset control.
pub struct SdioRstCtrl(pub Register);

impl SdioRstCtrl {
    /// Pulses SDIO0_REF_RST (bit 4) and SDIO0_CPU1X_RST (bit 0).
    pub fn reset_sdio0(&mut self)
        ensures
            pulsed(old(self).0, final(self).0, 4, 0),
    {
        pulse(&mut self.0, 4, 0)
    }

    /// Pulses SDIO1_REF_RST (bit 5) and SDIO1_CPU1X_RST (bit 1).
    pub fn reset_sdio1(&mut self)
        ensures
            pulsed(old(self).0, final(self).0, 5, 1),
    {
        pulse(&mut self.0, 5, 1)
    }
}

/// UART software reset control.
pub struct UartRstCtrl(pub Register);

impl UartRstCtrl {
    /// Pulses UART0_REF_RST (bit 3) and UART0_CPU1X_RST (bit 1).
    pub fn reset_uart0(&mut self)
        ensures
            pulsed(old(self).0, final(self).0, 3, 1),
    {
        pulse(&mut self.0, 3, 1)
    }

    /// Pulses UART1_REF_RST (bit 2) and UART1_CPU1X_RST (bit 0).
    pub fn reset_uart1(&mut self)
        ensures
            pulsed(old(self).0, final(self).0, 2, 0),
    {
        pulse(&mut self.0, 2, 0)
    }
}

/// GPIO software reset control.
pub struct GpioRstCtrl(pub Register);

impl GpioRstCtrl {
    /// Pulses GPIO_CPU1X_RST (bit 0).
    pub fn reset_gpio(&mut self)
        ensures
            pulsed(old(self).0, final(self).0, 0, 0),
    {
        pulse(&mut self.0, 0, 0)
    }
}

/// The registers around loading the programmable logic: FPGA_RST_CTRL
/// (the four fabric output resets, bits 0 to 3) and LVL_SHFTR_EN (the
/// level shifter enable field, bits 0 to 3).
pub struct FpgaRegs {
    pub fpga_rst_ctrl: Register,
    pub lvl_shftr_en: Register,
}

/// The LVL_SHFTR_EN value that selects `l`.
fn level_shifter_value(l: LevelShifterEnable) -> (r: u32)
    ensures
        r == with_bits32(0, 0, 3, level_shifter_code(l)),
{
    proof {
        crate::bits::lemma_mask_values();
    }
    set_bits_u32(0, 0, 3, l.code())
}

/// Before loading a bitstream: the four fabric output resets asserted,
/// then the level shifters turned off and the PS-to-PL ones on again.
pub fn init_preload_fpga(regs: &mut FpgaRegs)
    ensures
        final(regs).fpga_rst_ctrl.writes@ == old(regs).fpga_rst_ctrl.writes@.push(0xF),
        final(regs).fpga_rst_ctrl.value == 0xF,
        final(regs).lvl_shftr_en.writes@ == old(regs).lvl_shftr_en.writes@.push(0x0).push(0xA),
        final(regs).lvl_shftr_en.value == 0xA,
{
    let rst = set_bit_u32(set_bit_u32(set_bit_u32(set_bit_u32(0, 0, true), 1, true), 2, true), 3, true);
    let off = level_shifter_value(LevelShifterEnable::DisableAll);
    let ps_to_pl = level_shifter_value(LevelShifterEnable::EnablePsToPl);
    proof {
        lemma_fpga_values();
    }
    regs.fpga_rst_ctrl.write(rst);
    regs.lvl_shftr_en.write(off);
    regs.lvl_shftr_en.write(ps_to_pl);
}

/// After loading a bitstream: all level shifters on, then the fabric
/// resets released.
pub fn init_postload_fpga(regs: &mut FpgaRegs)
    ensures
        final(regs).lvl_shftr_en.writes@ == old(regs).lvl_shftr_en.writes@.push(0xF),
        final(regs).lvl_shftr_en.value == 0xF,
        final(regs).fpga_rst_ctrl.writes@ == old(regs).fpga_rst_ctrl.writes@.push(0),
        final(regs).fpga_rst_ctrl.value == 0,
{
    let all = level_shifter_value(LevelShifterEnable::EnableAll);
    proof {
        lemma_fpga_values();
    }
    regs.lvl_shftr_en.write(all);
    regs.fpga_rst_ctrl.write(0);
}

proof fn lemma_fpga_values()
    by (bit_vector)
    ensures
        with_bit32(with_bit32(with_bit32(with_bit32(0u32, 0, true), 1, true), 2, true), 3, true) == 0xFu32,
        with_bits32(0u32, 0, 3, 0x0u32) == 0x0u32,
        with_bits32(0u32, 0, 3, 0xAu32) == 0xAu32,
        with_bits32(0u32, 0, 3, 0xFu32) == 0xFu32,
{
}

/// A software reset: the reboot status keeps all but its bits 24 to 27,
/// then PSS_RST_CTRL gets its soft reset bit (0).
pub fn reboot(reboot_status: &mut Register, pss_rst_ctrl: &mut Register)
    ensures
        final(reboot_status).value == old(reboot_status).value & 0xF0FF_FFFF,
        final(reboot_status).writes@ == old(reboot_status).writes@.push(old(reboot_status).value & 0xF0FF_FFFF),
        final(pss_rst_ctrl).value == with_bit32(old(pss_rst_ctrl).value, 0, true),
        final(pss_rst_ctrl).writes@ == old(pss_rst_ctrl).writes@.push(with_bit32(old(pss_rst_ctrl).value, 0, true)),
{
    let v = reboot_status.value & 0xF0FF_FFFF;
    reboot_status.write(v);
    let r = set_bit_u32(pss_rst_ctrl.value, 0, true);
    pss_rst_ctrl.write(r);
}

} // verus!
