use libboard_zynq::gic::{CPUCore, GicRegisters, InterruptController, InterruptId, InterruptSensitivity, TargetCPU, TargetList};
use libboard_zynq::mio;
use libboard_zynq::mpcore::{ScuControl, ScuInvalidate};
use libboard_zynq::regs::Register;
use libboard_zynq::slcr::{
    AperClkCtrl, BootModePins, GpioRstCtrl, SdioClkCtrl, SdioRstCtrl, SlcrLock, SlcrUnlock, UartClkCtrl, UartRstCtrl,
};

fn zero_gic() -> GicRegisters {
    GicRegisters {
        iccicr: 0,
        iccpmr: 0,
        icciar: 0,
        icceoir: 0,
        icddcr: 0,
        icdiser: [0; 3],
        icdipr: [0; 24],
        icdiptr: [0; 24],
        icdicfr: [0; 6],
        icdsgir: 0,
    }
}

#[test]
fn target_cpu_sets() {
    let both = TargetCPU::none().and(CPUCore::Core0.into()).and(CPUCore::Core1.into());
    assert_eq!(both.bits(), 0b11);
    assert_eq!(TargetCPU::none().bits(), 0);
    let c1: TargetCPU = CPUCore::Core1.into();
    assert_eq!(c1.and(c1).bits(), 0b10);
}

#[test]
fn gic_sgi_routing() {
    let mut gic = InterruptController::new(zero_gic());
    gic.send_sgi(InterruptId(5), TargetList::CPUList(CPUCore::Core1.into()));
    assert_eq!(gic.mpcore.icdsgir, 0x0002_0005);
    gic.send_sgi(InterruptId(3), TargetList::Others);
    // the CPU list is kept, the filter becomes 0b01
    assert_eq!(gic.mpcore.icdsgir, 0x0102_0003);
    gic.send_sgi(InterruptId(0), TargetList::This);
    assert_eq!(gic.mpcore.icdsgir, 0x0202_0000);
}

#[test]
fn gic_enable_interrupt() {
    let mut gic = InterruptController::new(zero_gic());
    gic.enable(InterruptId(40), CPUCore::Core0, InterruptSensitivity::Edge, 10);
    assert_eq!(gic.mpcore.icdiser, [0, 0x100, 0]);
    // core 0 is the CPU-target bit 0b01
    assert_eq!(gic.mpcore.icdiptr[10], 1);
    assert_eq!(gic.mpcore.icdicfr[2], 0x2_0000);
    assert_eq!(gic.mpcore.icdipr[10], 10 << 3);
    assert_eq!(gic.mpcore.iccicr, 3);
    assert_eq!(gic.mpcore.icddcr, 1);
    assert_eq!(gic.mpcore.iccpmr, 0xFF);
    gic.enable(InterruptId(43), CPUCore::Core1, InterruptSensitivity::Level, 31);
    assert_eq!(gic.mpcore.icdiptr[10], 1 | (2 << 24));
    assert_eq!(gic.mpcore.icdipr[10], (10 << 3) | (31 << 27));
    gic.disable_interrupts();
    assert_eq!(gic.mpcore.iccicr, 0);
}

#[test]
fn gic_acknowledge_and_end() {
    let mut regs = zero_gic();
    regs.icciar = 0x0000_1C3F;
    let mut gic = InterruptController::new(regs);
    assert_eq!(gic.get_interrupt_id().0, 0x3F);
    gic.end_interrupt(InterruptId(7));
    assert_eq!(gic.mpcore.icceoir, 7);
    gic.enable_interrupts();
    assert_eq!(gic.mpcore.iccpmr, 0xFF);
}

#[test]
fn slcr_lock_keys() {
    let mut l = SlcrLock(Register::new(0));
    l.lock();
    assert_eq!(l.0.writes, vec![0x767B]);
    let mut u = SlcrUnlock(Register::new(0));
    u.unlock();
    assert_eq!(u.0.writes, vec![0xDF0D]);
}

#[test]
fn slcr_clock_enables() {
    let mut a = AperClkCtrl(Register::new(0));
    a.enable_uart1();
    a.enable_sdio0();
    assert_eq!(a.0.writes, vec![1 << 21, (1 << 21) | (1 << 10)]);
    a.enable_uart0();
    a.enable_sdio1();
    assert_eq!(a.0.value, (1 << 21) | (1 << 20) | (1 << 11) | (1 << 10));
    let mut s = SdioClkCtrl(Register::new(0x0000_3F30));
    s.enable_sdio0();
    assert_eq!(s.0.value, 0x1401);
    s.enable_sdio1();
    assert_eq!(s.0.value, 0x1403);
    let mut u = UartClkCtrl(Register::new(0));
    u.enable_uart1();
    assert_eq!(u.0.writes, vec![0x1402]);
    u.enable_uart0();
    assert_eq!(u.0.value, 0x1403);
}

#[test]
fn slcr_reset_pulses() {
    let mut s = SdioRstCtrl(Register::new(0x100));
    s.reset_sdio0();
    assert_eq!(s.0.writes, vec![0x111, 0x100]);
    s.reset_sdio1();
    assert_eq!(s.0.writes[2..], [0x122, 0x100]);
    let mut u = UartRstCtrl(Register::new(0));
    u.reset_uart0();
    assert_eq!(u.0.writes, vec![0b1010, 0]);
    u.reset_uart1();
    assert_eq!(u.0.writes[2..], [0b0101, 0]);
    let mut g = GpioRstCtrl(Register::new(0));
    g.reset_gpio();
    assert_eq!(g.0.writes, vec![1, 0]);
}

#[test]
fn boot_mode_pins_decode() {
    assert_eq!(BootModePins::from_boot_mode(0b1_0101), Some(BootModePins::SdCard));
    assert_eq!(BootModePins::from_boot_mode(0b001), Some(BootModePins::QuadSpi));
    assert_eq!(BootModePins::from_boot_mode(0b000), Some(BootModePins::Jtag));
    assert_eq!(BootModePins::from_boot_mode(0b011), None);
}

#[test]
fn scu_registers() {
    let mut c = ScuControl(Register::new(0x60));
    c.start();
    assert_eq!(c.0.writes, vec![0x61]);
    let mut i = ScuInvalidate(Register::new(0));
    i.invalidate_all_cores();
    i.invalidate_core1();
    assert_eq!(i.0.writes, vec![0xFFFF, 0xF0]);
}

#[test]
fn mio_pin_setups() {
    let q = mio::setup_signals();
    assert_eq!(q.len(), 13);
    assert_eq!(q[0], (1, 0x1202));
    assert_eq!(q[1], (2, 0x0202));
    assert_eq!(q[6], (0, 0x0202));
    assert_eq!(q[12], (8, 0x1202));
    let s = mio::sdio0_pins();
    assert_eq!(s[0], (40, 0x0380));
    assert_eq!(s[6], (14, 0x1201));
    assert_eq!(mio::i2c0_pins(), vec![(50, 0x3200), (51, 0x3200)]);
    let p = mio::MioPin::zeroed().l2_sel(3).l1_sel(true).speed(true);
    assert_eq!(p.0, 0x11C);
}
