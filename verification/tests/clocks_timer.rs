use libboard_zynq::clocks::{
    best_divisor_pair, pll_config, pll_lock_params, pll_release_bypass, pll_setup, ArmPll, ClockSource, Clocks,
    CpuClockMode, DdrPll, IoPll, PllWrite, PS_CLK,
};
use libboard_zynq::regs::Register;
use libboard_zynq::time::{Microseconds, Milliseconds};
use libboard_zynq::timer::{self, CountDown, GlobalTimer, GlobalTimerRegs};

fn fdiv_ctrl(fdiv: u32) -> u32 {
    fdiv << 12
}

#[test]
fn pll_frequency_is_divisor_times_reference() {
    assert_eq!(ArmPll::freq(fdiv_ctrl(40)), 40 * PS_CLK);
    assert_eq!(ArmPll::freq(fdiv_ctrl(40) | 0x1F), 1_333_333_320);
    assert_eq!(IoPll::freq(fdiv_ctrl(30)), 999_999_990);
    assert_eq!(DdrPll::freq(fdiv_ctrl(127)), 127 * 33_333_333);
    let c = Clocks::get(fdiv_ctrl(40), fdiv_ctrl(32), fdiv_ctrl(30));
    assert_eq!((c.arm, c.ddr, c.io), (1_333_333_320, 1_066_666_656, 999_999_990));
}

#[test]
fn pll_lock_bits() {
    assert!(ArmPll::pll_locked(0b001));
    assert!(!ArmPll::pll_locked(0b110));
    assert!(DdrPll::pll_locked(0b010));
    assert!(IoPll::pll_locked(0b100));
    assert!(!IoPll::pll_locked(0b011));
    assert_eq!(ArmPll::name(), "ARM_PLL");
    assert_eq!(DdrPll::name(), "DDR_PLL");
    assert_eq!(IoPll::name(), "IO_PLL");
}

#[test]
fn pll_parameter_table_lookup() {
    assert_eq!(pll_lock_params(0), (2, 6, 750));
    assert_eq!(pll_lock_params(13), (2, 6, 750));
    assert_eq!(pll_lock_params(24), (2, 12, 400));
    assert_eq!(pll_lock_params(40), (2, 2, 250));
    assert_eq!(pll_lock_params(41), (3, 12, 250));
    assert_eq!(pll_lock_params(66), (2, 4, 250));
    assert_eq!(pll_config(1_333_333_332), (40, (2, 2, 250)));
    assert_eq!(pll_config(3_000_000_000), (66, (2, 4, 250)));
}

#[test]
fn pll_setup_writes() {
    let mut ctrl = Register::new(0x0001_A008 | 0x2);
    let mut cfg = Register::new(0xFFFF_FFFF);
    let order = pll_setup(1_333_333_332, &mut ctrl, &mut cfg);
    // power-down cleared, bypass forced, fdiv 40 in bits 12..18
    let bypassed = (0x0001_A00A & !0x2 & !(0x7F << 12)) | 0x10 | (40 << 12);
    assert_eq!(ctrl.writes, vec![bypassed, bypassed | 1, bypassed]);
    // res 2 (bits 4..7), cp 2 (bits 8..11), lock count 250 (bits 12..21)
    let loop_params = (2 << 4) | (2 << 8) | (250 << 12);
    assert_eq!(cfg.writes, vec![loop_params]);
    assert_eq!(
        order,
        vec![PllWrite::Ctrl(bypassed), PllWrite::Cfg(loop_params), PllWrite::Ctrl(bypassed | 1), PllWrite::Ctrl(bypassed)]
    );
    pll_release_bypass(&mut ctrl);
    assert_eq!(ctrl.value, bypassed & !0x18);
}

#[test]
fn cpu_divisor_search() {
    assert_eq!(Clocks::cpu_divisor(1_333_333_320, 666_666_666), 2);
    // 3 is skipped
    assert_eq!(Clocks::cpu_divisor(1_333_333_320, 400_000_000), 4);
    assert_eq!(Clocks::cpu_divisor(1_333_333_320, 1), 63);
    let mut r = Register::new(0x1F00_3F30);
    Clocks::set_cpu_freq(400_000_000, 1_333_333_320, &mut r);
    assert_eq!(r.value, 0x1F00_0400);
    assert_eq!(r.writes, vec![0x1F00_0400]);
}

#[test]
fn derived_cpu_clocks() {
    let c = Clocks { arm: 1_333_333_320, ddr: 1_066_666_656, io: 999_999_990 };
    let arm_clk_ctrl = 2 << 8;
    assert_eq!(c.cpu_6x4x(arm_clk_ctrl), 666_666_660);
    assert_eq!(c.cpu_3x2x(arm_clk_ctrl), 333_333_330);
    assert_eq!(c.cpu_2x(arm_clk_ctrl, 1), 222_222_220);
    assert_eq!(c.cpu_2x(arm_clk_ctrl, 0), 333_333_330);
    assert_eq!(c.cpu_1x(arm_clk_ctrl, 1), 111_111_110);
    assert_eq!(c.cpu_1x(arm_clk_ctrl, 0), 166_666_665);
    // DDR PLL (0b10) and I/O PLL (0b11) as source
    assert_eq!(c.cpu_6x4x((2 << 8) | (0b10 << 4)), 533_333_328);
    assert_eq!(c.cpu_6x4x((2 << 8) | (0b11 << 4)), 499_999_995);
    assert_eq!(c.uart_ref_clk(0x14 << 8), 49_999_999);
    assert_eq!(c.uart_ref_clk((0x14 << 8) | (0b10 << 4)), 66_666_666);
    // SDIO_CLK_CTRL: I/O PLL over 10, or the DDR PLL over 20
    assert_eq!(c.sdio_ref_clk(0x0A << 8), 99_999_999);
    assert_eq!(c.sdio_ref_clk((0x14 << 8) | (0b11 << 4)), 53_333_332);
    assert_eq!(CpuClockMode::get(1), CpuClockMode::C621);
    assert_eq!(CpuClockMode::get(2), CpuClockMode::C421);
}

#[test]
fn best_divisor_pairs() {
    assert_eq!(best_divisor_pair(67), (2, 33));
    assert_eq!(best_divisor_pair(134), (3, 45));
    assert_eq!(best_divisor_pair(8), (1, 8));
    assert_eq!(best_divisor_pair(0), (1, 1));
    assert_eq!(best_divisor_pair(10_000), (62, 62));
}

fn timer_regs() -> GlobalTimerRegs {
    GlobalTimerRegs {
        counter0: Register::new(7),
        counter1: Register::new(9),
        control: Register::new(0x55),
        journal: Vec::new(),
    }
}

#[test]
fn timer_prescaler_and_start() {
    assert_eq!(timer::prescaler_for(333_333_330), 166);
    assert_eq!(timer::prescaler_for(200_000_000), 200);
    assert_eq!(timer::prescaler_for(1_000_000), 1);
    let mut regs = timer_regs();
    timer::start(&mut regs, 333_333_330);
    assert_eq!(regs.control.writes, vec![0, (165 << 8) | 8 | 1]);
    assert_eq!(regs.counter0.writes, vec![0]);
    assert_eq!(regs.counter1.writes, vec![0]);
    assert_eq!(regs.journal, vec![(0x8, 0), (0x0, 0), (0x4, 0), (0x8, (165 << 8) | 8 | 1)]);
    let t = GlobalTimer::start(timer_regs(), 333_333_330);
    assert_eq!(t.regs.control.value, (165 << 8) | 9);
}

#[test]
fn timer_counter_and_conversions() {
    assert_eq!(timer::get_counter(1, 5, 1), Some(0x1_0000_0005));
    assert_eq!(timer::get_counter(1, 5, 2), None);
    let control = (165 << 8) | 9;
    assert_eq!(timer::get_ms(1_000_000, control, 333_333_330), 498);
    assert_eq!(timer::get_us(1000, control, 333_333_330), 498);
    let t = GlobalTimer::start(timer_regs(), 333_333_330);
    assert_eq!(t.get_time(1_000_000, 333_333_330), Milliseconds(498));
    assert_eq!(t.get_us(1000, 333_333_330), Microseconds(498));
}

#[test]
fn countdown_waits_until_timeout_passed() {
    let mut cd = CountDown { timeout: Milliseconds(0) };
    cd.start(Milliseconds(100), Milliseconds(50));
    assert_eq!(cd.timeout, Milliseconds(150));
    assert!(cd.waiting(Milliseconds(150)));
    assert!(!cd.waiting(Milliseconds(151)));
    let mut cu = CountDown { timeout: Microseconds(0) };
    cu.start(Microseconds(1), Microseconds(2));
    assert!(cu.waiting(Microseconds(3)));
    assert!(!cu.waiting(Microseconds(4)));
}

#[test]
fn durations_add() {
    assert_eq!(Milliseconds(5) + Milliseconds(7), Milliseconds(12));
    assert_eq!(Microseconds(u64::MAX - 1) + Microseconds(1), Microseconds(u64::MAX));
}
