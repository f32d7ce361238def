//! Clock frequencies: PLL outputs, the CPU clock divisor and the clocks
//! derived from it.
use vstd::prelude::*;
use crate::bits::{bit32, with_bit32, bits32, with_bits32, get_bit_u32, get_bits_u32, set_bit_u32, set_bits_u32, lemma_mask_values};
use crate::regs::Register;
use crate::slcr::{ArmPllSource, arm_pll_source_code};

verus! {

/// Frequency of the PS reference clock on the ZC706 board, in Hz.
pub const PS_CLK: u32 = 33_333_333;

/// The frequency a PLL control value configures: its feedback divisor
/// (bits 12 to 18) times the reference clock.
pub open spec fn pll_freq(pll_ctrl: u32) -> u32 {
    (bits32(pll_ctrl, 12, 18) * PS_CLK) as u32
}

proof fn lemma_pll_freq_fits(pll_ctrl: u32)
    ensures
        bits32(pll_ctrl, 12, 18) <= 127,
        bits32(pll_ctrl, 12, 18) * PS_CLK <= u32::MAX,
{
    assert(((pll_ctrl >> 12u32) & (((1u32 << 7u32) - 1u32) as u32)) <= 127) by (bit_vector);
    assert(bits32(pll_ctrl, 12, 18) == ((pll_ctrl >> 12u32) & (((1u32 << 7u32) - 1u32) as u32)));
}

/// A PLL.
pub trait ClockSource {
    /// The bit of the PLL status register that reports this PLL locked.
    spec fn lock_bit() -> u32;

    /// The PLL's name.
    spec fn pll_name() -> Seq<char>;

    fn name() -> (r: &'static str)
        ensures
            r@ == Self::pll_name(),
    ;

    /// Whether the PLL status register value reports this PLL locked.
    fn pll_locked(pll_status: u32) -> (r: bool)
        ensures
            r == bit32(pll_status, Self::lock_bit()),
    ;

    /// The configured frequency, from the PLL's control register value.
    fn freq(pll_ctrl: u32) -> (r: u32)
        ensures
            r == pll_freq(pll_ctrl),
    {
        proof {
            lemma_pll_freq_fits(pll_ctrl);
        }
        get_bits_u32(pll_ctrl, 12, 18) * PS_CLK
    }
}

/// ARM PLL: Recommended clock source for the CPUs and the interconnect
pub struct ArmPll;

impl ClockSource for ArmPll {
    open spec fn lock_bit() -> u32 {
        0
    }

    open spec fn pll_name() -> Seq<char> {
        "ARM_PLL"@
    }

    fn name() -> (r: &'static str) {
        "ARM_PLL"
    }

    fn pll_locked(pll_status: u32) -> (r: bool) {
        get_bit_u32(pll_status, 0)
    }
}

/// DDR PLL: Recommended clock for the DDR DRAM controller and AXI_HP interfaces
pub struct DdrPll;

impl ClockSource for DdrPll {
    open spec fn lock_bit() -> u32 {
        1
    }

    open spec fn pll_name() -> Seq<char> {
        "DDR_PLL"@
    }

    fn name() -> (r: &'static str) {
        "DDR_PLL"
    }

    fn pll_locked(pll_status: u32) -> (r: bool) {
        get_bit_u32(pll_status, 1)
    }
}

/// I/O PLL: Recommended clock for I/O peripherals
pub struct IoPll;

impl ClockSource for IoPll {
    open spec fn lock_bit() -> u32 {
        2
    }

    open spec fn pll_name() -> Seq<char> {
        "IO_PLL"@
    }

    fn name() -> (r: &'static str) {
        "IO_PLL"
    }

    fn pll_locked(pll_status: u32) -> (r: bool) {
        get_bit_u32(pll_status, 2)
    }
}

/// For each maximal feedback divisor, in increasing order, the loop
/// parameters `(pll_cp, pll_res, lock_cnt)` that the reference manual gives
/// for PLLs up to that divisor (Zynq-7000 TRM 25.10.4).
pub open spec fn pll_fdiv_lock_param() -> Seq<(u16, (u8, u8, u16))> {
    seq![
        (13u16, (2u8, 6u8, 750u16)),
        (14, (2, 6, 700)),
        (15, (2, 6, 650)),
        (16, (2, 10, 625)),
        (17, (2, 10, 575)),
        (18, (2, 10, 550)),
        (19, (2, 10, 525)),
        (20, (2, 12, 500)),
        (21, (2, 12, 475)),
        (22, (2, 12, 450)),
        (23, (2, 12, 425)),
        (25, (2, 12, 400)),
        (26, (2, 12, 375)),
        (28, (2, 12, 350)),
        (30, (2, 12, 325)),
        (33, (2, 2, 300)),
        (36, (2, 2, 275)),
        (40, (2, 2, 250)),
        (47, (3, 12, 250)),
        (66, (2, 4, 250)),
    ]
}

/// Entry `i` is the first entry of the table whose maximal divisor is at
/// least `fdiv`.
pub open spec fn first_param_for(fdiv: u16, i: int) -> bool {
    let t = pll_fdiv_lock_param();
    &&& 0 <= i < t.len()
    &&& fdiv <= t[i].0
    &&& forall|j: int| 0 <= j < i ==> t[j].0 < fdiv
}

/// The loop parameters `(pll_cp, pll_res, lock_cnt)` for feedback divisor
/// `fdiv`: those of the first table entry that admits it.
pub fn pll_lock_params(fdiv: u16) -> (r: (u8, u8, u16))
    requires
        fdiv <= 66,
    ensures
        exists|i: int| #[trigger] first_param_for(fdiv, i) && r == pll_fdiv_lock_param()[i].1,
{
    let ghost t = pll_fdiv_lock_param();
    let maxes: [u16; 20] = [13, 14, 15, 16, 17, 18, 19, 20, 21, 22, 23, 25, 26, 28, 30, 33, 36, 40, 47, 66];
    let cps: [u8; 20] = [2, 2, 2, 2, 2, 2, 2, 2, 2, 2, 2, 2, 2, 2, 2, 2, 2, 2, 3, 2];
    let ress: [u8; 20] = [6, 6, 6, 10, 10, 10, 10, 12, 12, 12, 12, 12, 12, 12, 12, 2, 2, 2, 12, 4];
    let cnts: [u16; 20] = [750, 700, 650, 625, 575, 550, 525, 500, 475, 450, 425, 400, 375, 350, 325, 300, 275, 250, 250, 250];
    assert(forall|j: int| 0 <= j < 20 ==> #[trigger] t[j] == (maxes@[j], (cps@[j], ress@[j], cnts@[j])));
    let mut i: usize = 0;
    while maxes[i] < fdiv
        invariant
            0 <= i < 20,
            fdiv <= 66,
            t.len() == 20,
            maxes@[19] == 66,
            forall|j: int| 0 <= j < 20 ==> #[trigger] t[j] == (maxes@[j], (cps@[j], ress@[j], cnts@[j])),
            forall|j: int| 0 <= j < i ==> t[j].0 < fdiv,
        decreases 20 - i,
    {
        i = i + 1;
    }
    assert(first_param_for(fdiv, i as int));
    (cps[i], ress[i], cnts[i])
}

/// The PLL setting for a target frequency: the feedback divisor, the target
/// over the reference clock capped at 66, with its loop parameters.
pub fn pll_config(target_freq: u32) -> (r: (u16, (u8, u8, u16)))
    ensures
        r.0 == if target_freq / PS_CLK < 66 { target_freq / PS_CLK } else { 66 },
        exists|i: int| #[trigger] first_param_for(r.0, i) && r.1 == pll_fdiv_lock_param()[i].1,
{
    let q = target_freq / PS_CLK;
    let fdiv: u16 = if q < 66 { q as u16 } else { 66 };
    let p = pll_lock_params(fdiv);
    let r = (fdiv, p);
    assert(r.0 == fdiv && r.1 == p);
    r
}

/// The ratio of the CPU clocks.
#[derive(Copy, Clone, Debug, PartialEq, Eq, Structural)]
pub enum CpuClockMode {
    /// Clocks run in 4:2:2:1 mode
    C421,
    /// Clocks run in 6:3:2:1 mode
    C621,
}

impl CpuClockMode {
    /// The mode that the CLK_621_TRUE register value selects (bit 0).
    pub fn get(clk_621_true: u32) -> (r: Self)
        ensures
            r == (if bit32(clk_621_true, 0) { CpuClockMode::C621 } else { CpuClockMode::C421 }),
    {
        if get_bit_u32(clk_621_true, 0) {
            CpuClockMode::C621
        } else {
            CpuClockMode::C421
        }
    }
}

#[derive(Debug, Clone, Copy)]
pub struct Clocks {
    /// ARM PLL: Recommended clock source for the CPUs and the interconnect
    pub arm: u32,
    /// DDR PLL: Recommended clock for the DDR DRAM controller and AXI_HP interfaces
    pub ddr: u32,
    /// I/O PLL: Recommended clock for I/O peripherals
    pub io: u32,
}

/// A divisor is admissible for the CPU clock: neither 1 nor 3, and at most 63.
pub open spec fn cpu_divisor_allowed(d: int) -> bool {
    2 <= d <= 63 && d != 3
}

/// `d` is the least admissible divisor that brings `pll` down to `target`,
/// or 63 when none does.
pub open spec fn is_cpu_divisor(pll: u32, target: u32, d: int) -> bool {
    &&& cpu_divisor_allowed(d)
    &&& (d == 63 || (pll as int) / d <= target)
    &&& forall|e: int| cpu_divisor_allowed(e) && e < d ==> (pll as int) / e > target
}

/// The CPU clock source selection (bits 4 and 5 of ARM_CLK_CTRL).
pub open spec fn cpu_source(c: Clocks, arm_clk_ctrl: u32) -> u32 {
    let s = bits32(arm_clk_ctrl, 4, 5);
    if s == 0b00 {
        c.arm
    } else if s == 0b10 {
        c.ddr
    } else {
        c.io
    }
}

/// The 6x/4x CPU clock: the selected PLL over the divisor (bits 8 to 13).
pub open spec fn cpu_6x4x_freq(c: Clocks, arm_clk_ctrl: u32) -> u32 {
    (cpu_source(c, arm_clk_ctrl) / bits32(arm_clk_ctrl, 8, 13)) as u32
}

/// ARM_CLK_CTRL is readable as a clock: a defined source and a nonzero
/// divisor.
pub open spec fn arm_clk_ctrl_valid(arm_clk_ctrl: u32) -> bool {
    bits32(arm_clk_ctrl, 4, 5) != 0b01 && bits32(arm_clk_ctrl, 8, 13) != 0
}

/// UART_CLK_CTRL is readable as a clock: a defined source and a nonzero
/// divisor.
pub open spec fn uart_clk_ctrl_valid(uart_clk_ctrl: u32) -> bool {
    bits32(uart_clk_ctrl, 4, 5) != 0b01 && bits32(uart_clk_ctrl, 8, 13) != 0
}

impl Clocks {
    /// The three PLL frequencies, from their control register values.
    pub fn get(arm_pll_ctrl: u32, ddr_pll_ctrl: u32, io_pll_ctrl: u32) -> (r: Self)
        ensures
            r.arm == pll_freq(arm_pll_ctrl),
            r.ddr == pll_freq(ddr_pll_ctrl),
            r.io == pll_freq(io_pll_ctrl),
    {
        Clocks { arm: ArmPll::freq(arm_pll_ctrl), ddr: DdrPll::freq(ddr_pll_ctrl), io: IoPll::freq(io_pll_ctrl) }
    }

    /// The least admissible divisor that brings the ARM PLL frequency
    /// `arm_pll` to `target_freq` or below (63 when none does).
    pub fn cpu_divisor(arm_pll: u32, target_freq: u32) -> (r: u8)
        ensures
            is_cpu_divisor(arm_pll, target_freq, r as int),
    {
        let mut div: u8 = 2;
        while div == 3 || (div < 63 && arm_pll / (div as u32) > target_freq)
            invariant
                2 <= div <= 63,
                forall|e: int| cpu_divisor_allowed(e) && e < div ==> (arm_pll as int) / e > target_freq,
            decreases 63 - div,
        {
            div += 1;
        }
        div
    }

    /// Selects the ARM PLL as CPU clock source, with the least admissible
    /// divisor that brings `arm_pll` to `target_freq` or below.
    pub fn set_cpu_freq(target_freq: u32, arm_pll: u32, arm_clk_ctrl: &mut Register)
        ensures
            exists|d: int|
                is_cpu_divisor(arm_pll, target_freq, d) && final(arm_clk_ctrl).value == with_bits32(
                    with_bits32(old(arm_clk_ctrl).value, 4, 5, arm_pll_source_code(ArmPllSource::ArmPll)),
                    8,
                    13,
                    d as u32,
                ),
            final(arm_clk_ctrl).writes@ == old(arm_clk_ctrl).writes@.push(final(arm_clk_ctrl).value),
    {
        let div = Self::cpu_divisor(arm_pll, target_freq);
        proof {
            crate::bits::lemma_mask_values();
        }
        let a = set_bits_u32(arm_clk_ctrl.value, 4, 5, ArmPllSource::ArmPll.code());
        let b = set_bits_u32(a, 8, 13, div as u32);
        arm_clk_ctrl.write(b);
    }

    fn pll_of(&self, arm_clk_ctrl: u32) -> (r: u32)
        ensures
            r == cpu_source(*self, arm_clk_ctrl),
    {
        let s = get_bits_u32(arm_clk_ctrl, 4, 5);
        if s == 0b00 {
            self.arm
        } else if s == 0b10 {
            self.ddr
        } else {
            self.io
        }
    }

    /// The 6x/4x CPU clock from the ARM_CLK_CTRL register value.
    pub fn cpu_6x4x(&self, arm_clk_ctrl: u32) -> (r: u32)
        requires
            arm_clk_ctrl_valid(arm_clk_ctrl),
        ensures
            r == cpu_6x4x_freq(*self, arm_clk_ctrl),
    {
        let pll = self.pll_of(arm_clk_ctrl);
        pll / get_bits_u32(arm_clk_ctrl, 8, 13)
    }

    /// Half the 6x/4x CPU clock.
    pub fn cpu_3x2x(&self, arm_clk_ctrl: u32) -> (r: u32)
        requires
            arm_clk_ctrl_valid(arm_clk_ctrl),
        ensures
            r == cpu_6x4x_freq(*self, arm_clk_ctrl) / 2,
    {
        self.cpu_6x4x(arm_clk_ctrl) / 2
    }

    /// The 2x CPU clock: a half (4:2:2:1) or a third (6:3:2:1) of the
    /// 6x/4x clock, as CLK_621_TRUE selects.
    pub fn cpu_2x(&self, arm_clk_ctrl: u32, clk_621_true: u32) -> (r: u32)
        requires
            arm_clk_ctrl_valid(arm_clk_ctrl),
        ensures
            r == cpu_6x4x_freq(*self, arm_clk_ctrl) / (if bit32(clk_621_true, 0) { 3u32 } else { 2u32 }),
    {
        match CpuClockMode::get(clk_621_true) {
            CpuClockMode::C421 => self.cpu_6x4x(arm_clk_ctrl) / 2,
            CpuClockMode::C621 => self.cpu_6x4x(arm_clk_ctrl) / 3,
        }
    }

    /// The 1x CPU clock: a quarter (4:2:2:1) or a sixth (6:3:2:1) of the
    /// 6x/4x clock, as CLK_621_TRUE selects.
    pub fn cpu_1x(&self, arm_clk_ctrl: u32, clk_621_true: u32) -> (r: u32)
        requires
            arm_clk_ctrl_valid(arm_clk_ctrl),
        ensures
            r == cpu_6x4x_freq(*self, arm_clk_ctrl) / (if bit32(clk_621_true, 0) { 6u32 } else { 4u32 }),
    {
        match CpuClockMode::get(clk_621_true) {
            CpuClockMode::C421 => self.cpu_6x4x(arm_clk_ctrl) / 4,
            CpuClockMode::C621 => self.cpu_6x4x(arm_clk_ctrl) / 6,
        }
    }

    /// The UART reference clock from the UART_CLK_CTRL register value: the
    /// selected PLL (I/O `0b00`, ARM `0b10`, DDR `0b11`) over the divisor.
    pub fn uart_ref_clk(&self, uart_clk_ctrl: u32) -> (r: u32)
        requires
            uart_clk_ctrl_valid(uart_clk_ctrl),
        ensures
            r == peripheral_ref_clk(*self, uart_clk_ctrl),
    {
        self.ref_clk(uart_clk_ctrl)
    }

    /// The SD reference clock from the SDIO_CLK_CTRL register value, which
    /// has the layout of UART_CLK_CTRL.
    pub fn sdio_ref_clk(&self, sdio_clk_ctrl: u32) -> (r: u32)
        requires
            uart_clk_ctrl_valid(sdio_clk_ctrl),
        ensures
            r == peripheral_ref_clk(*self, sdio_clk_ctrl),
    {
        self.ref_clk(sdio_clk_ctrl)
    }

    fn ref_clk(&self, clk_ctrl: u32) -> (r: u32)
        requires
            uart_clk_ctrl_valid(clk_ctrl),
        ensures
            r == peripheral_ref_clk(*self, clk_ctrl),
    {
        let s = get_bits_u32(clk_ctrl, 4, 5);
        let pll = if s == 0b00 {
            self.io
        } else if s == 0b10 {
            self.arm
        } else {
            self.ddr
        };
        pll / get_bits_u32(clk_ctrl, 8, 13)
    }
}

/// A peripheral reference clock from its clock control value: the selected
/// PLL (I/O `0b00`, ARM `0b10`, DDR `0b11`, bits 4 and 5) over the divisor
/// (bits 8 to 13).
pub open spec fn peripheral_ref_clk(clocks: Clocks, clk_ctrl: u32) -> u32 {
    (if bits32(clk_ctrl, 4, 5) == 0b00 {
        clocks.io
    } else if bits32(clk_ctrl, 4, 5) == 0b10 {
        clocks.arm
    } else {
        clocks.ddr
    }) / bits32(clk_ctrl, 8, 13)
}

/// How far a pair of divisors is from the target product.
pub open spec fn divisor_error(target: int, d0: int, d1: int) -> int {
    let p = d0 * d1;
    if p > target {
        p - target
    } else {
        target - p
    }
}

/// A pair of clock divisors, each from 1 to 62.
pub open spec fn divisor_range(d0: int, d1: int) -> bool {
    1 <= d0 < 63 && 1 <= d1 < 63
}

/// `(a0, a1)` comes before `(b0, b1)` in the order the search visits pairs.
pub open spec fn visited_before(a0: int, a1: int, b0: int, b1: int) -> bool {
    a0 < b0 || (a0 == b0 && a1 < b1)
}

/// `(d0, d1)` is the first pair, in search order, whose product is closest
/// to the target.
pub open spec fn is_best_divisor_pair(target: int, d0: int, d1: int) -> bool {
    &&& divisor_range(d0, d1)
    &&& forall|e0: int, e1: int|
        divisor_range(e0, e1) ==> #[trigger] divisor_error(target, e0, e1) >= divisor_error(target, d0, d1)
    &&& forall|e0: int, e1: int|
        divisor_range(e0, e1) && visited_before(e0, e1, d0, d1) ==> #[trigger] divisor_error(target, e0, e1)
            > divisor_error(target, d0, d1)
}

/// Of all pairs of divisors from 1 to 62, the first, in the order
/// `(1, 1), (1, 2), ..., (62, 62)`, whose product is closest to `target`.
pub fn best_divisor_pair(target: u32) -> (r: (u8, u8))
    ensures
        is_best_divisor_pair(target as int, r.0 as int, r.1 as int),
{
    let ghost t = target as int;
    let mut best0: u32 = 1;
    let mut best1: u32 = 1;
    let mut best_error: u32 = if 1 > target { 1 - target } else { target - 1 };
    let mut divisor0: u32 = 1;
    while divisor0 < 63
        invariant
            1 <= divisor0 <= 63,
            t == target,
            divisor_range(best0 as int, best1 as int),
            best_error as int == divisor_error(t, best0 as int, best1 as int),
            best0 < divisor0 || (best0 == 1 && best1 == 1),
            forall|e0: int, e1: int|
                divisor_range(e0, e1) && e0 < divisor0 ==> #[trigger] divisor_error(t, e0, e1) >= best_error,
            forall|e0: int, e1: int|
                divisor_range(e0, e1) && visited_before(e0, e1, best0 as int, best1 as int)
                    ==> #[trigger] divisor_error(t, e0, e1) > best_error,
        decreases 63 - divisor0,
    {
        let mut divisor1: u32 = 1;
        while divisor1 < 63
            invariant
                1 <= divisor0 < 63,
                1 <= divisor1 <= 63,
                t == target,
                divisor_range(best0 as int, best1 as int),
                best_error as int == divisor_error(t, best0 as int, best1 as int),
                visited_before(best0 as int, best1 as int, divisor0 as int, divisor1 as int)
                    || (best0 == 1 && best1 == 1),
                forall|e0: int, e1: int|
                    divisor_range(e0, e1) && visited_before(e0, e1, divisor0 as int, divisor1 as int)
                        ==> #[trigger] divisor_error(t, e0, e1) >= best_error,
                forall|e0: int, e1: int|
                    divisor_range(e0, e1) && visited_before(e0, e1, best0 as int, best1 as int)
                        ==> #[trigger] divisor_error(t, e0, e1) > best_error,
            decreases 63 - divisor1,
        {
            assert(divisor0 * divisor1 <= 62 * 62) by (nonlinear_arith)
                requires divisor0 < 63, divisor1 < 63;
            let current = divisor0 * divisor1;
            let error = if current > target {
                current - target
            } else {
                target - current
            };
            assert(error as int == divisor_error(t, divisor0 as int, divisor1 as int));
            if best_error > error {
                best0 = divisor0;
                best1 = divisor1;
                best_error = error;
            }
            divisor1 += 1;
        }
        divisor0 += 1;
    }
    (best0 as u8, best1 as u8)
}


/// The feedback divisor for a target frequency: the target over the
/// reference clock, at most 66.
pub open spec fn pll_fdiv(target_freq: u32) -> u16 {
    (if target_freq / PS_CLK < 66 { target_freq / PS_CLK } else { 66 }) as u16
}

/// PLL_CTRL bypassed for reprogramming: power-down off (bit 1), bypass
/// forced (bit 4), feedback divisor `fdiv` (bits 12 to 18).
pub open spec fn pll_bypassed(old: u32, fdiv: u16) -> u32 {
    with_bits32(with_bit32(with_bit32(old, 1, false), 4, true), 12, 18, fdiv as u32)
}

/// PLL_CFG: loop resistor (bits 4 to 7), charge pump (bits 8 to 11) and
/// lock count (bits 12 to 21).
pub open spec fn pll_cfg_value(cp: u8, res: u8, lock_cnt: u16) -> u32 {
    with_bits32(with_bits32(with_bits32(0, 4, 7, res as u32), 8, 11, cp as u32), 12, 21, lock_cnt as u32)
}

/// A write of a PLL reprogramming: to PLL_CTRL or to PLL_CFG.
#[derive(Clone, Copy, Debug, PartialEq, Eq, Structural)]
pub enum PllWrite {
    Ctrl(u32),
    Cfg(u32),
}

/// Programs a PLL for `target_freq` up to the wait for lock (Zynq-7000 TRM
/// 25.10.4): bypass with the new divisor, the loop parameters, then a reset
/// pulse. The result lists the writes across both registers in the order
/// the device must see them. The caller then waits for the lock bit and
/// calls `pll_release_bypass`.
pub fn pll_setup(target_freq: u32, pll_ctrl: &mut Register, pll_cfg: &mut Register) -> (r: Vec<PllWrite>)
    ensures
        ({
            let bypassed = pll_bypassed(old(pll_ctrl).value, pll_fdiv(target_freq));
            r@ == seq![
                PllWrite::Ctrl(bypassed),
                PllWrite::Cfg(final(pll_cfg).value),
                PllWrite::Ctrl(with_bit32(bypassed, 0, true)),
                PllWrite::Ctrl(final(pll_ctrl).value),
            ]
        }),
        ({
            let fdiv = pll_fdiv(target_freq);
            let bypassed = pll_bypassed(old(pll_ctrl).value, fdiv);
            &&& final(pll_ctrl).writes@ == old(pll_ctrl).writes@.push(bypassed).push(with_bit32(bypassed, 0, true)).push(
                with_bit32(with_bit32(bypassed, 0, true), 0, false))
            &&& final(pll_ctrl).value == with_bit32(with_bit32(bypassed, 0, true), 0, false)
            &&& exists|i: int|
                #[trigger] first_param_for(fdiv, i) && final(pll_cfg).writes@ == old(pll_cfg).writes@.push(
                    pll_cfg_value(pll_fdiv_lock_param()[i].1.0, pll_fdiv_lock_param()[i].1.1, pll_fdiv_lock_param()[i].1.2),
                ) && final(pll_cfg).value == pll_cfg_value(
                    pll_fdiv_lock_param()[i].1.0,
                    pll_fdiv_lock_param()[i].1.1,
                    pll_fdiv_lock_param()[i].1.2,
                )
        }),
{
    proof {
        lemma_mask_values();
    }
    let ghost c0 = pll_cfg.writes@;
    let ghost p0 = pll_ctrl.writes@;
    let ghost v0 = pll_ctrl.value;
    let (fdiv, (pll_cp, pll_res, lock_cnt)) = pll_config(target_freq);
    assert(fdiv == pll_fdiv(target_freq));
    let bypassed = set_bits_u32(set_bit_u32(set_bit_u32(pll_ctrl.value, 1, false), 4, true), 12, 18, fdiv as u32);
    pll_ctrl.write(bypassed);
    let mut journal: Vec<PllWrite> = Vec::new();
    journal.push(PllWrite::Ctrl(bypassed));
    let v = set_bits_u32(set_bits_u32(set_bits_u32(0, 4, 7, pll_res as u32), 8, 11, pll_cp as u32), 12, 21, lock_cnt as u32);
    proof {
        let i = choose|i: int| #[trigger] first_param_for(fdiv, i) && (pll_cp, pll_res, lock_cnt) == pll_fdiv_lock_param()[i].1;
        assert(pll_res <= 12 && pll_cp <= 3 && lock_cnt <= 750) by {
            assert(pll_fdiv_lock_param()[i].1.1 <= 12 && pll_fdiv_lock_param()[i].1.0 <= 3 && pll_fdiv_lock_param()[i].1.2 <= 750);
        }
    }
    pll_cfg.write(v);
    journal.push(PllWrite::Cfg(v));
    let r1 = set_bit_u32(pll_ctrl.value, 0, true);
    pll_ctrl.write(r1);
    journal.push(PllWrite::Ctrl(r1));
    let r2 = set_bit_u32(pll_ctrl.value, 0, false);
    pll_ctrl.write(r2);
    journal.push(PllWrite::Ctrl(r2));
    proof {
        let i = choose|i: int| #[trigger] first_param_for(fdiv, i) && (pll_cp, pll_res, lock_cnt) == pll_fdiv_lock_param()[i].1;
        assert(pll_cfg.writes@ == c0.push(
            pll_cfg_value(pll_fdiv_lock_param()[i].1.0, pll_fdiv_lock_param()[i].1.1, pll_fdiv_lock_param()[i].1.2)));
        assert(bypassed == pll_bypassed(v0, fdiv));
        assert(pll_ctrl.writes@ == p0.push(bypassed).push(with_bit32(bypassed, 0, true)).push(
            with_bit32(with_bit32(bypassed, 0, true), 0, false)));
        assert(journal@ =~= seq![PllWrite::Ctrl(bypassed), PllWrite::Cfg(v), PllWrite::Ctrl(r1), PllWrite::Ctrl(r2)]);
    }
    journal
}

/// Ends a PLL reprogramming once the PLL has locked: bypass no longer
/// forced (bit 4) nor qualified (bit 3).
pub fn pll_release_bypass(pll_ctrl: &mut Register)
    ensures
        final(pll_ctrl).value == with_bit32(with_bit32(old(pll_ctrl).value, 4, false), 3, false),
        final(pll_ctrl).writes@ == old(pll_ctrl).writes@.push(final(pll_ctrl).value),
{
    let v = set_bit_u32(set_bit_u32(pll_ctrl.value, 4, false), 3, false);
    pll_ctrl.write(v);
}

/// PLL_CTRL after a set-up for `target_freq` and the release of the
/// bypass, from any value `old`.
pub open spec fn pll_ctrl_after_setup(old: u32, target_freq: u32) -> u32 {
    let bypassed = pll_bypassed(old, pll_fdiv(target_freq));
    with_bit32(with_bit32(with_bit32(with_bit32(bypassed, 0, true), 0, false), 4, false), 3, false)
}

proof fn lemma_pll_ctrl_fields(old: u32, fdiv: u32)
    by (bit_vector)
    requires
        fdiv < 128,
    ensures
        ({
            let v = with_bit32(with_bit32(with_bit32(with_bit32(
                with_bits32(with_bit32(with_bit32(old, 1, false), 4, true), 12, 18, fdiv), 0, true), 0, false), 4, false), 3, false);
            &&& bits32(v, 12, 18) == fdiv
            &&& !bit32(v, 0)
            &&& !bit32(v, 1)
            &&& !bit32(v, 3)
            &&& !bit32(v, 4)
        }),
{
}

/// A PLL set up for `target_freq` (then released from bypass) runs out of
/// reset and power-down, not bypassed, with the feedback divisor
/// `min(target_freq / PS_CLK, 66)`, so that reading its frequency back
/// gives that divisor times `PS_CLK`.
pub proof fn lemma_pll_setup_result(old: u32, target_freq: u32)
    ensures
        bits32(pll_ctrl_after_setup(old, target_freq), 12, 18) == pll_fdiv(target_freq),
        !bit32(pll_ctrl_after_setup(old, target_freq), 0),
        !bit32(pll_ctrl_after_setup(old, target_freq), 1),
        !bit32(pll_ctrl_after_setup(old, target_freq), 3),
        !bit32(pll_ctrl_after_setup(old, target_freq), 4),
        pll_freq(pll_ctrl_after_setup(old, target_freq)) == pll_fdiv(target_freq) * PS_CLK,
{
    let fdiv = pll_fdiv(target_freq);
    assert(fdiv <= 66);
    lemma_pll_ctrl_fields(old, fdiv as u32);
}

} // verus!
