use libboard_zynq::clocks::Clocks;
use libboard_zynq::ddr::{ControllerStatus, DdrRam, DdrcRegs, DdriobRegs};
use libboard_zynq::devc::{RFifoTh, WFifoTh};
use libboard_zynq::dmac::{DMAStatus, WakeUpEvent};
use libboard_zynq::eth::{self, LinkAction};
use libboard_zynq::flash::{self, Flash, QspiRegs, QspiStep, SpiFlashRegister, SpiWord, SR1};
use libboard_zynq::i2c::{self, I2cMultiplexer, PageWrite};
use libboard_zynq::phy::{Link, LinkDuplex, LinkSpeed};
use libboard_zynq::ps7_init::{self, InitOp};
use libboard_zynq::regs::Register;
use libboard_zynq::slcr::SlcrSection;
use libboard_zynq::sdio::{self, CardInitializationError, CardType, CardVersion, CmdTransferError, SdCmd, Sdio, SdioRegs};

fn r() -> Register {
    Register::new(0)
}

fn ddrc() -> DdrcRegs {
    DdrcRegs {
        ddrc_ctrl: Register::new(0xF),
        dram_param0: r(),
        dram_param2: r(),
        dram_emr_mr: r(),
        dram_addr_map_bank: r(),
        dram_addr_map_col: r(),
        dram_addr_map_row: r(),
        phy_cmd_timeout_rddata_cpt: Register::new(0xFFFF_FFFF),
        mode_sts: Register::new(1),
        reg_2c: r(),
        dfi_timing: r(),
        phy_init_ratio3: r(),
        reg_65: r(),
        journal: Vec::new(),
    }
}

#[test]
fn ddr_controller_settings() {
    let mut d = DdrRam { regs: ddrc() };
    d.reset_ddrc();
    assert_eq!(d.regs.ddrc_ctrl.writes, vec![0x0, 0x1]);
    assert_eq!(d.regs.dram_param0.writes, vec![0x4159B]);
    assert_eq!(d.regs.dram_param2.writes, vec![0x7202_38E5]);
    assert_eq!(d.regs.dram_emr_mr.writes, vec![0x40930]);
    assert_eq!(d.regs.phy_cmd_timeout_rddata_cpt.writes, vec![0x77F1_7800]);
    assert_eq!(d.regs.reg_2c.writes, vec![0x1CFF_FFFF]);
    assert_eq!(d.regs.dfi_timing.writes, vec![0x200066]);
    assert_eq!(d.regs.phy_init_ratio3.writes, vec![0x3B821]);
    assert_eq!(d.regs.reg_65.writes, vec![0x1FC82]);
    assert_eq!(d.regs.dram_addr_map_bank.writes, vec![0x777]);
    assert_eq!(d.regs.dram_addr_map_col.writes, vec![0xFFF0_0000]);
    assert_eq!(d.regs.dram_addr_map_row.writes, vec![0x0F66_6666]);
    assert_eq!(
        d.regs.journal,
        vec![
            (0x00, 0x0), (0x14, 0x4159B), (0x1C, 0x7202_38E5), (0x30, 0x40930), (0x50, 0x77F1_7800),
            (0xB0, 0x1CFF_FFFF), (0xB8, 0x200066), (0x138, 0x3B821), (0x194, 0x1FC82),
            (0x3C, 0x777), (0x40, 0xFFF0_0000), (0x44, 0x0F66_6666), (0x00, 0x1),
        ]
    );
    assert_eq!(d.status(), ControllerStatus::Normal);
    assert_eq!(d.size(), 1023 * 1024 * 1024);
}

#[test]
fn ddr_status_codes() {
    let mut regs = ddrc();
    regs.mode_sts = Register::new(0xF8);
    assert_eq!(DdrRam { regs }.status(), ControllerStatus::Init);
    let mut regs = ddrc();
    regs.mode_sts = Register::new(7);
    assert_eq!(DdrRam { regs }.status(), ControllerStatus::Powerdown4);
}

#[test]
fn ddr_iob_and_clocks() {
    let mut io = DdriobRegs {
        addr0: r(),
        addr1: r(),
        data0: r(),
        data1: r(),
        diff0: r(),
        diff1: r(),
        clock: r(),
        drive_slew_addr: r(),
        drive_slew_data: r(),
        drive_slew_diff: r(),
        drive_slew_clock: r(),
        ddr_ctrl: Register::new(0x27F),
    };
    DdrRam::configure_iob(&mut io);
    assert_eq!(io.addr0.writes, vec![0x600]);
    assert_eq!(io.data1.writes, vec![0x672]);
    assert_eq!(io.diff0.writes, vec![0x674]);
    assert_eq!(io.clock.writes, vec![0x600]);
    assert_eq!(io.drive_slew_addr.writes, vec![0x0018_C61C]);
    assert_eq!(io.drive_slew_clock.writes, vec![0x00F9_861C]);
    assert_eq!(io.ddr_ctrl.writes, vec![0x209]);
    let mut c = r();
    assert_eq!(DdrRam::clock_setup(&mut c), 1_333_333_332);
    assert_eq!(c.writes, vec![0x0C20_0003]);
}

#[test]
fn ddr_dci_calibration() {
    let clocks = Clocks { arm: 0, ddr: 1_333_333_320, io: 0 };
    assert_eq!(DdrRam::calculate_dci_divisors(&clocks), (3, 45));
    let mut clk = r();
    let mut dci = Register::new(0x0010_0001);
    DdrRam::calibrate_iob_impedance(&clocks, &mut clk, &mut dci);
    assert_eq!(clk.writes, vec![0x02D0_0301]);
    assert_eq!(dci.writes, vec![0x0010_0000, 0x0010_0001, 0x0010_0801, 0x0000_0801, 0x0000_0803]);
}

#[test]
fn sd_command_register() {
    assert_eq!(sdio::set_cmd_reg(SdCmd::CMD17, true, 0), 0x113A_0000);
    assert_eq!(sdio::set_cmd_reg(SdCmd::ACMD41, true, 0), 0x2902_0000);
    assert_eq!(sdio::set_cmd_reg(SdCmd::CMD2, true, 0), 0x0209_0000);
    assert_eq!(sdio::set_cmd_reg(SdCmd::CMD0, true, 0x13), 0x13);
    // CMD3 answers R6 on SD cards, R1 otherwise
    assert_eq!(sdio::set_cmd_reg(SdCmd::CMD3, true, 0), 0x031B_0000);
    assert_eq!(sdio::set_cmd_reg(SdCmd::CMD3, false, 0), 0x031A_0000);
    assert!(sdio::require_dat(SdCmd::CMD6, true));
    assert!(!sdio::require_dat(SdCmd::CMD6, false));
    assert!(!sdio::require_dat(SdCmd::CMD8, true));
    assert!(sdio::require_dat(SdCmd::CMD8, false));
    assert!(sdio::require_dat(SdCmd::ACMD51, true));
    assert!(!sdio::require_dat(SdCmd::CMD0, true));
    assert_eq!(SdCmd::ACMD51.code(), 0xB3);
}

fn sdio_with(present: u32, detect: bool) -> Sdio {
    Sdio {
        regs: SdioRegs {
            present_state: Register::new(present),
            interrupt_status: r(),
            clock_control: r(),
            block_size_block_count: r(),
        },
        input_clk_hz: 100_000_000,
        card_type: CardType::CardNone,
        card_detect: detect,
    }
}

#[test]
fn sd_card_detect_and_errors() {
    assert!(sdio_with(0, false).is_card_inserted());
    assert!(!sdio_with(0, true).is_card_inserted());
    assert!(sdio_with(1 << 16, true).is_card_inserted());
    let mut s = sdio_with(0, true);
    assert_eq!(s.check_error(0x0001), Ok(()));
    assert!(s.regs.interrupt_status.writes.is_empty());
    assert_eq!(s.check_error(0x0001_8000), Err(CmdTransferError::CmdTimeout));
    assert_eq!(s.regs.interrupt_status.writes, vec![0xF3FF_0000]);
    assert_eq!(s.check_error(0x0002_8000), Err(CmdTransferError::Other(0x0002_8000)));
}

#[test]
fn sd_clock_divisor() {
    assert_eq!(Sdio::clock_divisor(100_000_000, 400_000), 128);
    assert_eq!(Sdio::clock_divisor(100_000_000, 25_000_000), 2);
    assert_eq!(Sdio::clock_divisor(100_000_000, 200_000_000), 0);
}

#[test]
fn sd_card_geometry() {
    // version 2: C_SIZE 0x3B37
    assert_eq!(sdio::sector_count([0, 0x003B_3700, 0, 0x0040_0000]), Ok(15_523_840));
    // version 1: C_SIZE 1023, C_SIZE_MULT 7, READ_BL_LEN 9
    assert_eq!(sdio::sector_count([0, 0xFFC0_0380, 0x0000_0900, 0]), Ok(524_288));
    assert_eq!(
        sdio::sector_count([0, 0, 0, 0x0080_0000]),
        Err(CardInitializationError::InitializationFailedOther)
    );
    let e: CardInitializationError = CmdTransferError::CmdInhibited.into();
    assert_eq!(e, CardInitializationError::InitializationFailedCmd(CmdTransferError::CmdInhibited));
}

#[test]
fn sd_card_responses() {
    assert_eq!(sdio::card_version(0x1AA), CardVersion::SdVer2);
    assert_eq!(sdio::card_version(0), CardVersion::SdVer1);
    assert_eq!(sdio::card_type_after_cmd1(true), CardType::CardMmc);
    assert_eq!(sdio::card_type_after_cmd1(false), CardType::CardSd);
    assert_eq!(sdio::ocr_flags(0xC100_0000), (true, true, true));
    assert_eq!(sdio::ocr_flags(0x0030_0000), (false, false, false));
    assert_eq!(sdio::relative_card_address(0x1234_5678), 0x1234_0000);
    let mut scr = [0u8; 32];
    assert!(!sdio::supports_4bit(&scr));
    scr[1] = 0x05;
    assert!(sdio::supports_4bit(&scr));
}

#[test]
fn flash_status_register_bits() {
    let sr = SR1::new(0b0110_0011);
    assert!(sr.wip());
    assert!(sr.wel());
    assert!(sr.e_err());
    assert!(sr.p_err());
    let sr = SR1::new(0b0001_1100);
    assert!(!sr.wip() && !sr.wel() && !sr.e_err() && !sr.p_err());
    assert!(SR1::new(0).is_zeroed());
    assert_eq!(SR1::inst_code(), 0x05);
    assert_eq!(flash::CR::inst_code(), 0x35);
    assert_eq!(flash::SR2::inst_code(), 0x07);
    assert_eq!(flash::BA::inst_code(), 0xB9);
    assert_eq!(SpiWord::from(7u8), SpiWord::W8(7));
    assert_eq!(SpiWord::from(7u16), SpiWord::W16(7));
    assert_eq!(SpiWord::from(7u32), SpiWord::W32(7));
}

#[test]
fn flash_bytes_of_words() {
    assert_eq!(flash::bytes_transfer(&vec![0x0102_0304, 0xAABB_CCDD]), vec![1, 2, 3, 4, 0xAA, 0xBB, 0xCC, 0xDD]);
    assert!(flash::bytes_transfer(&vec![]).is_empty());
}

fn qspi() -> QspiRegs {
    QspiRegs {
        config: r(),
        intr_status: r(),
        intr_dis: r(),
        enable: r(),
        tx_thres: r(),
        rx_thres: r(),
        lqspi_cfg: r(),
        journal: Vec::new(),
    }
}

#[test]
fn flash_dividers() {
    assert_eq!(Flash::divider(200_000_000), 4);
    assert_eq!(Flash::baud_rate_div(4), 2);
    assert_eq!(Flash::baud_rate_div(20), 4);
    assert_eq!(Flash::baud_rate_div(1000), 7);
    let mut c = r();
    flash::enable_clocks(200_000_000, 1_000_000_000, &mut c);
    assert_eq!(c.writes, vec![0x501]);
    let mut c = r();
    flash::enable_clocks(1, 100, &mut c);
    assert_eq!(c.value, (63 << 8) | 1);
}

#[test]
fn flash_modes() {
    let f = Flash::new(qspi(), 200_000_000);
    assert_eq!(f.regs.config.writes, vec![0x8008_00D1]);
    assert_eq!(f.regs.intr_dis.writes, vec![0x7D]);
    assert_eq!(f.regs.intr_status.writes, vec![0x41]);
    assert_eq!(f.regs.enable.writes, vec![0]);
    assert_eq!(
        f.regs.journal,
        vec![
            QspiStep::Write(0x14, 0),
            QspiStep::Write(0x0C, 0x7D),
            QspiStep::Write(0xA0, 0),
            QspiStep::DrainRx,
            QspiStep::Write(0x04, 0x41),
            QspiStep::Write(0x00, 0x8008_00D1),
            QspiStep::Write(0x2C, 1),
            QspiStep::Write(0x28, 1),
        ]
    );
    let f = f.linear_addressing_mode();
    assert_eq!(
        f.regs.journal[8..].to_vec(),
        vec![QspiStep::Write(0x00, 0x8008_00D1), QspiStep::Write(0xA0, 0xC0FF_02EB), QspiStep::Write(0x14, 1)]
    );
    assert_eq!(f.regs.lqspi_cfg.writes, vec![0, 0xC0FF_02EB]);
    assert_eq!(f.regs.config.value, 0x8008_00D1);
    assert_eq!(f.size(), 0x200_0000);
    let f = f.stop();
    assert_eq!(f.regs.config.value, 0x8008_04D1);
    assert_eq!(f.regs.enable.value, 0);
    let m = f.manual_mode(0);
    assert_eq!(m.regs.config.value, 0x8408_C4D1);
    assert_eq!(m.regs.lqspi_cfg.value, 0x40FF_0203);
    let f = m.stop();
    assert_eq!(f.regs.lqspi_cfg.value, 0x40FF_0203);
}

#[test]
fn i2c_switch_and_bits() {
    assert_eq!(i2c::pca954x_setting(I2cMultiplexer::PCA9548, Some(2)), 4);
    assert_eq!(i2c::pca954x_setting(I2cMultiplexer::PCA9548, None), 0);
    assert_eq!(i2c::pca954x_setting(I2cMultiplexer::PCA9547, Some(2)), 0x0A);
    assert_eq!(i2c::read_bits([true, false, true, false, false, false, false, true]), 0xA1);
    assert_eq!(i2c::read_bits([true; 8]), 0xFF);
    assert_eq!(i2c::Error::Nack.message(), "I2C write was not ACKed");
}

#[test]
fn eeprom_page_writes() {
    assert_eq!(
        i2c::page_writes(0x0E, 5, 8),
        vec![PageWrite { addr: 0x0E, start: 0, end: 2 }, PageWrite { addr: 0x10, start: 2, end: 5 }]
    );
    assert_eq!(
        i2c::page_writes(0, 16, 8),
        vec![PageWrite { addr: 0, start: 0, end: 8 }, PageWrite { addr: 8, start: 8, end: 16 }]
    );
    assert!(i2c::page_writes(3, 0, 8).is_empty());
    assert_eq!(i2c::page_writes(250, 6, 16), vec![PageWrite { addr: 250, start: 0, end: 6 }]);
}

#[test]
fn init_table_operations() {
    let w = InitOp::MaskWrite(0x10, 0x0F, 0x05);
    assert_eq!(w.address(), 0x10);
    assert_eq!(w.difference(0xF5), None);
    assert_eq!(w.difference(0x07), Some((0x07, 0x05)));
    assert_eq!(w.written_value(0xF0), 0xF5);
    let p = InitOp::MaskPoll(0x20, 0x3);
    assert_eq!(p.difference(0x3), None);
    assert_eq!(p.difference(0x1), Some((0x1, 0x3)));
    assert!(p.poll_done(0x2));
    assert!(!p.poll_done(0x4));
    assert_eq!(InitOp::MaskDelay(0x30, 5).difference(0), None);
    let ops = vec![InitOp::MaskWrite(0x10, 1, 1), InitOp::MaskPoll(0x20, 1), InitOp::MaskWrite(0x10, 2, 2)];
    assert_eq!(ps7_init::ops_to_report(&ops), vec![1, 2]);
    assert_eq!(ps7_init::get_number_of_cycles_for_delay(1), 333_333);
}

#[test]
fn ethernet_clocks_and_links() {
    assert_eq!(eth::calculate_tx_divisors(eth::TX_1000, 1_000_000_000), (1, 8));
    assert_eq!(eth::calculate_tx_divisors(eth::TX_100, 1_000_000_000), (1, 40));
    assert_eq!(eth::calculate_tx_divisors(eth::TX_10, 1_000_000_000), (2, 50));
    let mut clk = r();
    let mut rclk = r();
    eth::setup_clock(eth::TX_1000, 1_000_000_000, &mut clk, &mut rclk);
    assert_eq!(clk.writes, vec![0x0080_0101]);
    assert_eq!(rclk.writes, vec![1]);
    assert_eq!(eth::mdc_clk_div(111_111_110), 2);
    assert_eq!(eth::mdc_clk_div(u32::MAX), 7);
    assert_eq!(eth::mac_address_halves([0x02, 0x00, 0x5E, 0x10, 0x20, 0x30]), (0x0200, 0x5E10_2030));
    let up = Some(Link { speed: LinkSpeed::S100, duplex: LinkDuplex::Full });
    assert_eq!(
        eth::check_link_change(None, up),
        (up, LinkAction::Configure { tx_clock: 25_000_000, full_duplex: true, gige: false, speed: true })
    );
    assert_eq!(eth::check_link_change(up, None), (up, LinkAction::Keep));
    assert_eq!(eth::check_link_change(None, None), (None, LinkAction::Keep));
}

#[test]
fn dma_and_devc_fields() {
    assert_eq!(DMAStatus::from_register(0xF), Some(DMAStatus::Faulting));
    assert_eq!(DMAStatus::from_register(0x14), Some(DMAStatus::WaitingForEvent));
    assert_eq!(WakeUpEvent::from_register(3 << 4), Some(WakeUpEvent::Event3));
    assert_eq!(WakeUpEvent::from_register(0x10 << 4), None);
    assert_eq!(RFifoTh::from_register(0b10 << 10), Some(RFifoTh::ThreeFourthFull));
    assert_eq!(WFifoTh::from_register(0b11 << 8), Some(WFifoTh::Empty));
    assert_eq!(WFifoTh::Empty.code(), 3);
}

#[test]
fn slcr_section_brackets_writes() {
    let mut s = SlcrSection::begin();
    s.put(0x140, 0x0050_0801);
    s.put(0x138, 0x1);
    s.end();
    assert_eq!(s.journal, vec![(0x008, 0xDF0D), (0x140, 0x0050_0801), (0x138, 0x1), (0x004, 0x767B)]);
}

#[test]
fn flash_read_reg_until_rounds() {
    let nonzero = |r: SR1| if r.inner == 0 { None } else { Some(r.inner) };
    // bytes 0x00 (instruction), 0x03, 0x03, 0x02: all accepted, the last one answers
    assert_eq!(flash::read_reg_until_round(&vec![0x0003_0302], &nonzero), Some(0x02));
    // a refused byte fails the round
    assert_eq!(flash::read_reg_until_round(&vec![0x0003_0002], &nonzero), None);
    assert_eq!(flash::read_reg_until_round(&vec![0x0003_0302, 0x0500_0001], &nonzero), None);
    assert_eq!(flash::read_reg_until_round(&Vec::new(), &nonzero), None);
    let wel = |r: SR1| if r.wel() { Some(true) } else { None };
    assert_eq!(flash::read_reg_until_round(&vec![0x0002_0202], &wel), Some(true));
}
