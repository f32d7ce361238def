use libboard_zynq::devc::{self, DevcError, ProgramAction, ProgramPhase};
use libboard_zynq::eth::{self, GemRegs};
use libboard_zynq::flash::{self, SpiWord};
use libboard_zynq::flash::WriteAction::{Finish, ReadStatus, Refuse, Run, Send, WriteProtectN};
use libboard_zynq::phy::{self, PhyIdentifier, ProbeStep, OUI_MARVELL};
use libboard_zynq::regs::Register;
use libboard_zynq::sd_init::{self, SdInitAction, SdInitEvent, SdInitPhase};
use libboard_zynq::sdio::{self, CardInitializationError, CmdTransferError, HostRegs, SdCmd};

fn gem() -> GemRegs {
    GemRegs {
        net_ctrl: Register::new(0xFF),
        net_cfg: Register::new(0),
        dma_cfg: Register::new(0),
        tx_status: Register::new(0),
        rx_qbar: Register::new(0x1000),
        tx_qbar: Register::new(0x2000),
        rx_status: Register::new(0),
        intr_dis: Register::new(0),
        spec_addr1_bot: Register::new(0),
        spec_addr1_top: Register::new(0),
        journal: Vec::new(),
    }
}

#[test]
fn gem_init_values() {
    let mut regs = gem();
    eth::init(&mut regs);
    assert_eq!(regs.net_ctrl.writes, vec![0, 0x20]);
    assert_eq!(regs.rx_status.writes, vec![0xF]);
    assert_eq!(regs.tx_status.writes, vec![0x1FF]);
    assert_eq!(regs.intr_dis.writes, vec![0x07FF_FEFF]);
    assert_eq!(regs.rx_qbar.writes, vec![0]);
    assert_eq!(regs.tx_qbar.writes, vec![0]);
    assert_eq!(
        regs.journal,
        vec![(0x00, 0), (0x00, 0x20), (0x20, 0xF), (0x14, 0x1FF), (0x2C, 0x07FF_FEFF), (0x18, 0), (0x1C, 0)]
    );
}

#[test]
fn gem_configure_values() {
    let mut regs = gem();
    // 111 MHz 1x clock: (111_111_110 / 2_500_000 + 1) / 16 = 2
    eth::configure(&mut regs, [0x00, 0x23, 0xde, 0xea, 0xbe, 0xef], 111_111_110);
    assert_eq!(regs.net_cfg.writes, vec![0x0102_0453 | (2 << 18)]);
    assert_eq!(regs.spec_addr1_top.writes, vec![0x0023]);
    assert_eq!(regs.spec_addr1_bot.writes, vec![0xDEEA_BEEF]);
    // receive buffers of 24 x 64 bytes
    assert_eq!(regs.dma_cfg.writes, vec![0x0018_0F10]);
    assert_eq!((regs.dma_cfg.value >> 16) & 0xFF, 24);
    assert_eq!(regs.net_ctrl.writes, vec![0x10]);
    assert_eq!(
        regs.journal,
        vec![(0x04, 0x0102_0453 | (2 << 18)), (0x8C, 0x0023), (0x88, 0xDEEA_BEEF), (0x10, 0x0018_0F10), (0x00, 0x10)]
    );
}

#[test]
fn phy_probe_steps() {
    let marvell = PhyIdentifier { oui: OUI_MARVELL, model: 36, rev: 0 };
    assert_eq!(phy::probe_step(4, Some(marvell)), ProbeStep::Found(4));
    assert_eq!(phy::probe_step(4, None), ProbeStep::Probe(5));
    assert_eq!(phy::probe_step(31, None), ProbeStep::NotFound);
}

fn step(state: sd_init::SdInitState, event: SdInitEvent) -> (sd_init::SdInitState, SdInitAction) {
    sd_init::sd_init_step(state, event)
}

#[test]
fn sd_init_no_card() {
    let (s, a) = step(sd_init::sd_init_start(), SdInitEvent::Inserted(false));
    assert_eq!(s.phase, SdInitPhase::Done);
    assert_eq!(a, SdInitAction::Finish(Err(CardInitializationError::NoCardInserted)));
}

#[test]
fn sd_init_cmd8_errors() {
    let (s, a) = step(sd_init::sd_init_start(), SdInitEvent::Inserted(true));
    assert_eq!(a, SdInitAction::Send(SdCmd::CMD0, 0));
    let (s, a) = step(s, SdInitEvent::Cmd(Ok(()), [0; 4]));
    assert_eq!(a, SdInitAction::Send(SdCmd::CMD8, 0x1AA));
    // a timeout resets the command line and goes on as a version 1 card
    let (t, a) = step(s, SdInitEvent::Cmd(Err(CmdTransferError::CmdTimeout), [0; 4]));
    assert_eq!(a, SdInitAction::ResetCmdLine);
    let (_, a) = step(t, SdInitEvent::Cmd(Ok(()), [0; 4]));
    assert_eq!(a, SdInitAction::Send(SdCmd::CMD55, 0));
    // any other error ends the initialisation
    let (_, a) = step(s, SdInitEvent::Cmd(Err(CmdTransferError::Other(0x8000_8000)), [0; 4]));
    assert_eq!(
        a,
        SdInitAction::Finish(Err(CardInitializationError::InitializationFailedCmd(CmdTransferError::Other(0x8000_8000))))
    );
}

#[test]
fn sd_init_full_run() {
    let s = sd_init::sd_init_start();
    let (s, _) = step(s, SdInitEvent::Inserted(true));
    let (s, _) = step(s, SdInitEvent::Cmd(Ok(()), [0; 4]));
    let (s, a) = step(s, SdInitEvent::Cmd(Ok(()), [0x1AA, 0, 0, 0]));
    assert_eq!(a, SdInitAction::Send(SdCmd::CMD55, 0));
    let (s, a) = step(s, SdInitEvent::Cmd(Ok(()), [0; 4]));
    assert_eq!(a, SdInitAction::Send(SdCmd::ACMD41, 0x40FF_8000 | 0x0030_0000));
    // still busy: CMD55 again
    let (s, a) = step(s, SdInitEvent::Cmd(Ok(()), [0; 4]));
    assert_eq!(a, SdInitAction::Send(SdCmd::CMD55, 0));
    let (s, _) = step(s, SdInitEvent::Cmd(Ok(()), [0; 4]));
    // ready, high capacity, no 1.8 V
    let (s, a) = step(s, SdInitEvent::Cmd(Ok(()), [0xC000_0000, 0, 0, 0]));
    assert_eq!(a, SdInitAction::Send(SdCmd::CMD2, 0));
    assert!(s.info.hcs);
    let (s, a) = step(s, SdInitEvent::Cmd(Ok(()), [1, 2, 3, 4]));
    assert_eq!(a, SdInitAction::Send(SdCmd::CMD3, 0));
    // no address yet: CMD3 again
    let (s, a) = step(s, SdInitEvent::Cmd(Ok(()), [0x0000_0500, 0, 0, 0]));
    assert_eq!(a, SdInitAction::Send(SdCmd::CMD3, 0));
    let (s, a) = step(s, SdInitEvent::Cmd(Ok(()), [0x1234_0500, 0, 0, 0]));
    assert_eq!(a, SdInitAction::Send(SdCmd::CMD9, 0x1234_0000));
    // version 2 CSD with size field 0x1D
    let (s, a) = step(s, SdInitEvent::Cmd(Ok(()), [0, 0x0000_1D00, 0, 0x0040_0000]));
    assert_eq!(a, SdInitAction::SetClock(25_000_000));
    assert_eq!(s.info.sector_cnt, 30 * 1024);
    let (s, a) = step(s, SdInitEvent::Finished(Ok(())));
    assert_eq!(a, SdInitAction::Send(SdCmd::CMD7, 0x1234_0000));
    let (s, _) = step(s, SdInitEvent::Cmd(Ok(()), [0; 4]));
    let (s, a) = step(s, SdInitEvent::Cmd(Ok(()), [0; 4]));
    assert_eq!(a, SdInitAction::Send(SdCmd::ACMD42, 0));
    let (s, a) = step(s, SdInitEvent::Cmd(Ok(()), [0; 4]));
    assert_eq!(a, SdInitAction::ReadScr);
    let (s, a) = step(s, SdInitEvent::Scr(Ok(()), true));
    assert_eq!(a, SdInitAction::Send(SdCmd::CMD55, 0x1234_0000));
    let (s, a) = step(s, SdInitEvent::Cmd(Ok(()), [0; 4]));
    assert_eq!(a, SdInitAction::Send(SdCmd::ACMD6, 2));
    let (s, a) = step(s, SdInitEvent::Cmd(Ok(()), [0; 4]));
    assert_eq!(a, SdInitAction::EnableWideBus);
    let (s, a) = step(s, SdInitEvent::Finished(Ok(())));
    assert_eq!(a, SdInitAction::SetBlockSize(512));
    let (s, a) = step(s, SdInitEvent::Finished(Ok(())));
    assert_eq!(s.phase, SdInitPhase::Done);
    match a {
        SdInitAction::Finish(Ok(info)) => {
            assert_eq!(info.rel_card_addr, 0x1234_0000);
            assert_eq!(info.card_id, [1, 2, 3, 4]);
            assert!(info.width_4_bit);
        }
        _ => panic!("initialisation did not finish"),
    }
}

#[test]
fn sd_host_init_values() {
    let mut regs = HostRegs {
        control: Register::new(0),
        clock_control: Register::new(0),
        interrupt_status_en: Register::new(0),
        interrupt_signal_en: Register::new(0xFF),
        block_size_block_count: Register::new(0x0001_0200 | 0x7000),
        journal: Vec::new(),
    };
    sdio::finish_host_init(&mut regs, 1 << 24);
    assert_eq!(regs.control.writes, vec![0b111 << 9, (0b111 << 9) | (0b10 << 3)]);
    assert_eq!(regs.interrupt_status_en.writes, vec![0xFFFF_FEFF]);
    assert_eq!(regs.interrupt_signal_en.writes, vec![0]);
    assert_eq!(regs.block_size_block_count.writes, vec![0x0001_7200]);
    assert_eq!(
        regs.journal,
        vec![
            (0x28, 0b111 << 9),
            (0x28, (0b111 << 9) | (0b10 << 3)),
            (0x34, 0xFFFF_FEFF),
            (0x38, 0),
            (0x04, 0x0001_7200),
        ]
    );
    let mut c = Register::new(0xFFFF);
    sdio::power_off(&mut c);
    assert_eq!(c.value, 0xF0FF);
    sdio::power_on_3v3(&mut c);
    assert_eq!(c.value, 0xFFFF);
    let mut clk = Register::new(0x5);
    sdio::stop_clock(&mut clk);
    assert_eq!(clk.value, 0);
    sdio::start_internal_clock(&mut clk, 0x80);
    assert_eq!(clk.value, 0x8001);
    sdio::enable_sd_clock(&mut clk);
    assert_eq!(clk.value, 0x8005);
}

#[test]
fn sd_cmd_reg_data_bit() {
    // block reads use the data lines, CMD7 does not; the mode half stays
    let w = 0x0000_0013;
    let r = sdio::set_cmd_reg(SdCmd::CMD17, true, w);
    assert_eq!(r & (1 << 21), 1 << 21);
    assert_eq!(r & 0xFFFF, 0x13);
    assert_eq!((r >> 24) & 0x3F, 17);
    let r = sdio::set_cmd_reg(SdCmd::CMD7, true, w);
    assert_eq!(r & (1 << 21), 0);
}

#[test]
fn flash_read_and_write_enable() {
    let (args, n) = flash::read_args(0x12_3456, 10);
    assert_eq!(args, vec![SpiWord::W32(0x0312_3456)]);
    assert_eq!(n, 16);
    let (args, n) = flash::instruction_args(flash::INST_WREN);
    assert_eq!(args, vec![SpiWord::W8(0x06)]);
    assert_eq!(n, 1);
    let mut gpio = Register::new(0x10);
    flash::set_wp_n(&mut gpio, true);
    assert_eq!(gpio.value, 0x11);
    flash::set_wp_n(&mut gpio, false);
    assert_eq!(gpio.writes, vec![0x11, 0x10]);
}

#[test]
fn devc_program_order() {
    let (p, a) = devc::program_step(true, ProgramPhase::Begin, Ok(()));
    assert_eq!(a, ProgramAction::ResetPl);
    let (p, a) = devc::program_step(true, p, Ok(()));
    assert_eq!(a, ProgramAction::ReleasePl);
    let (p, a) = devc::program_step(true, p, Ok(()));
    assert_eq!(a, ProgramAction::SendBitstream);
    let (p, a) = devc::program_step(true, p, Ok(()));
    assert_eq!(a, ProgramAction::WaitDone);
    let (p, a) = devc::program_step(true, p, Ok(()));
    assert_eq!(a, ProgramAction::Postload);
    assert_eq!(p, ProgramPhase::End);
    let (_, a) = devc::program_step(true, ProgramPhase::InitHigh, Err(DevcError::ResetTimeout));
    assert_eq!(a, ProgramAction::Fail(DevcError::ResetTimeout));
}

#[test]
fn pll_setup_leaves_divisor() {
    let mut ctrl = Register::new(0x0001_A008 | 0b10011);
    let mut cfg = Register::new(0);
    libboard_zynq::clocks::pll_setup(1_000_000_000, &mut ctrl, &mut cfg);
    libboard_zynq::clocks::pll_release_bypass(&mut ctrl);
    assert_eq!((ctrl.value >> 12) & 0x7F, 30);
    assert_eq!(ctrl.value & 0b11011, 0);
    assert_eq!(cfg.value, (2 << 8) | (12 << 4) | (325 << 12));
}

fn write_run(sr1: u8) -> Vec<flash::WriteAction> {
    let mut phase = flash::WritePhase::Begin;
    let mut actions = Vec::new();
    for _ in 0..7 {
        let (next, action) = flash::write_step(phase, flash::SR1 { inner: sr1 });
        phase = next;
        actions.push(action);
    }
    actions
}

#[test]
fn flash_write_enable_bracket() {
    assert_eq!(
        write_run(0b10),
        vec![Send(0x06), WriteProtectN(true), ReadStatus, Run, Send(0x04), WriteProtectN(false), Finish]
    );
    assert_eq!(
        write_run(0b01),
        vec![Send(0x06), WriteProtectN(true), ReadStatus, Refuse, Finish, Finish, Finish]
    );
}
