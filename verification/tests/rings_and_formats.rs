use libboard_zynq::config::{self, WriteTarget};
use libboard_zynq::devc::{self, DevcError, TransferTarget, TransferType};
use libboard_zynq::eth::rx::{self, RxFrame, RxStatus, RxStep};
use libboard_zynq::eth::tx::{self, TxSlot};
use libboard_zynq::flash::{self, SpiWord, TxdReg, TxdWrite, WriteOutcome, SR1};
use libboard_zynq::i2c;
use libboard_zynq::mio;
use libboard_zynq::phy::{self, PhyIdentifier, OUI_MARVELL, OUI_REALTEK};
use libboard_zynq::regs::Register;
use libboard_zynq::slcr::{self, FpgaRegs};
use libboard_zynq::sdio::{self, Adma2Desc32, BusVoltage, CmdPoll, CmdTransferError, SdCmd};

#[test]
fn rx_ring_starts_owned_by_hardware() {
    let (list, entries) = rx::DescList::new(&vec![0x1000, 0x1600, 0x1C00]);
    assert_eq!(list.len(), 3);
    assert_eq!(list.next(), 0);
    assert_eq!(entries[0].word0, 0x1000);
    assert_eq!(entries[1].word0, 0x1600);
    // the last entry wraps
    assert_eq!(entries[2].word0, 0x1C02);
    assert!(entries.iter().all(|e| e.word1 == 0));
}

#[test]
fn rx_ring_receives_and_wraps() {
    let (mut list, _) = rx::DescList::new(&vec![0x1000, 0x1600]);
    // still owned by the hardware
    let idle = rx::DescEntry { word0: 0x1000, word1: 0 };
    assert_eq!(list.recv_next(idle), Ok(None));
    assert_eq!(list.next(), 0);
    // a complete frame of 60 bytes
    let full = rx::DescEntry { word0: 0x1001, word1: (1 << 14) | (1 << 15) | 60 };
    assert_eq!(
        list.recv_next(full),
        Ok(Some(RxFrame { index: 0, length: 60, invalidate: 64 }))
    );
    assert_eq!(list.next(), 1);
    // a frame without its end
    let partial = rx::DescEntry { word0: 0x1603, word1: (1 << 14) | 64 };
    assert_eq!(list.recv_next(partial), Err(rx::Error::Truncated));
    assert_eq!(list.next(), 0);
    // an exact multiple of the cache line needs no padding
    let aligned = rx::DescEntry { word0: 0x1001, word1: (1 << 14) | (1 << 15) | 1536 };
    assert_eq!(
        list.recv_next(aligned),
        Ok(Some(RxFrame { index: 0, length: 1536, invalidate: 1536 }))
    );
    assert_eq!(rx::release_word0(0x1603), 0x1602);
}

#[test]
fn rx_status_priorities() {
    let s = |h, o, b, f| RxStatus { hresp_not_ok: h, rx_overrun: o, buffer_not_avail: b, frame_recd: f };
    assert_eq!(rx::rx_step(s(true, true, true, true)), RxStep::Fail(rx::Error::HrespNotOk));
    assert_eq!(rx::rx_step(s(false, true, true, true)), RxStep::Fail(rx::Error::RxOverrun));
    assert_eq!(rx::rx_step(s(false, false, true, true)), RxStep::Fail(rx::Error::BufferNotAvail));
    assert_eq!(rx::rx_step(s(false, false, false, true)), RxStep::ReadRing);
    assert_eq!(rx::rx_step(s(false, false, false, false)), RxStep::CheckLink);
}

#[test]
fn tx_ring_cut_to_buffers() {
    let (list, entries) = tx::DescList::new(tx::DESCS, &vec![0x2000, 0x2600, 0x2C00]);
    assert_eq!(list.len(), 3);
    assert_eq!(entries.len(), 3);
    assert_eq!(entries[0], tx::DescEntry { word0: 0x2000, word1: 0x8000_8000 });
    assert_eq!(entries[2], tx::DescEntry { word0: 0x2C00, word1: 0xC000_8000 });
}

#[test]
fn tx_ring_sends_and_wraps() {
    let (mut list, _) = tx::DescList::new(2, &vec![0x2000, 0x2600, 0x2C00]);
    assert_eq!(list.len(), 2);
    // owned by the hardware: the ring is full
    assert_eq!(list.send(0x0000_8000, 100), None);
    assert_eq!(
        list.send(0x8000_8000, 100),
        Some(TxSlot { index: 0, word1: 0x8000_8064 })
    );
    assert_eq!(
        list.send(0xC000_8000, 1536),
        Some(TxSlot { index: 1, word1: 0xC000_8600 })
    );
    assert_eq!(
        list.send(0x8000_8000, 1),
        Some(TxSlot { index: 0, word1: 0x8000_8001 })
    );
    assert_eq!(tx::release_word1(0x8000_8064), 0x0000_8064);
}

#[test]
fn eth0_pin_values() {
    let pins = mio::eth0_pins();
    assert_eq!(pins.len(), 14);
    assert_eq!(pins[0], (53, 0x1280));
    assert_eq!(pins[1], (52, 0x1280));
    assert_eq!(pins[2], (16, 0x3902));
    assert_eq!(pins[7], (17, 0x3902));
    assert_eq!(pins[8], (22, 0x1903));
    assert_eq!(pins[13], (23, 0x1903));
}

#[test]
fn phy_identifier_decoding() {
    // Marvell 88E1116R: OUI 0x005043, model 36, revision 0
    assert_eq!(phy::phy_identifier(0x0141, 0x0E40), Some(PhyIdentifier { oui: OUI_MARVELL, model: 36, rev: 0 }));
    // Realtek RTL8211E: OUI 0x000732, model 0b010001, revision 0b0101
    assert_eq!(phy::phy_identifier(0x001C, 0xC915), Some(PhyIdentifier { oui: OUI_REALTEK, model: 0b010001, rev: 0b0101 }));
    assert_eq!(phy::phy_identifier(0xFFFF, 0xFFFF), None);
    assert_eq!(phy::phy_identifier(0, 0), None);
}

#[test]
fn flash_fifo_writes() {
    assert_eq!(
        flash::txd_write(&SpiWord::W8(0x9F)),
        TxdWrite { reg: TxdReg::Txd1, value: 0x9F00_0000, bytes: 1, flush: true }
    );
    assert_eq!(
        flash::txd_write(&SpiWord::W16(0x1234)),
        TxdWrite { reg: TxdReg::Txd2, value: 0x1234_0000, bytes: 2, flush: true }
    );
    assert_eq!(
        flash::txd_write(&SpiWord::W24(0x12_3456)),
        TxdWrite { reg: TxdReg::Txd3, value: 0x1234_5600, bytes: 3, flush: true }
    );
    // a read register transfer: one instruction byte, then zero words
    let plan = flash::transfer_writes(&vec![SpiWord::W8(0x05)], 32);
    assert_eq!(plan.len(), 9);
    assert_eq!(plan[0].reg, TxdReg::Txd1);
    assert!(plan[1..].iter().all(|w| *w == TxdWrite { reg: TxdReg::Txd0, value: 0, bytes: 4, flush: false }));
    assert!(flash::transfer_writes(&vec![SpiWord::W32(1)], 0).is_empty());
}

#[test]
fn flash_commands() {
    assert_eq!(flash::command(flash::INST_READ, 0x12_3456), 0x0312_3456);
    let (args, len) = flash::program_args(0x100, &vec![0xAABB_CCDD, 0x1122_3344]);
    assert_eq!(len, 12);
    assert_eq!(args, vec![SpiWord::W32(0x0200_0100), SpiWord::W32(0xAABB_CCDD), SpiWord::W32(0x1122_3344)]);
    let bytes = flash::read_bytes(&vec![0x0300_0000, 0x0000_4142, 0x4344_0000], 4);
    assert_eq!(bytes, vec![0x41, 0x42, 0x43, 0x44]);
    assert_eq!(flash::write_outcome(SR1 { inner: 0x61 }), WriteOutcome::EraseError);
    assert_eq!(flash::write_outcome(SR1 { inner: 0x41 }), WriteOutcome::ProgramError);
    assert_eq!(flash::write_outcome(SR1 { inner: 0x03 }), WriteOutcome::InProgress);
    assert_eq!(flash::write_outcome(SR1 { inner: 0x02 }), WriteOutcome::Unconfirmed);
}

#[test]
fn sd_block_transfer_modes() {
    assert_eq!(sdio::block_transfer(1, true), (SdCmd::CMD17, 0x13));
    assert_eq!(sdio::block_transfer(8, true), (SdCmd::CMD18, 0x37));
    assert_eq!(sdio::block_transfer(1, false), (SdCmd::CMD24, 0x03));
    assert_eq!(sdio::block_transfer(2, false), (SdCmd::CMD25, 0x27));
}

#[test]
fn adma_tables() {
    // one block fits one descriptor
    assert_eq!(
        sdio::adma_table(512, 1, 0x10_0000),
        vec![Adma2Desc32 { attribute: 0x23, length: 512, address: 0x10_0000 }]
    );
    // 300 blocks: 153600 bytes in three descriptors
    let t = sdio::adma_table(512, 300, 0x10_0000);
    assert_eq!(t.len(), 3);
    assert_eq!(t[0], Adma2Desc32 { attribute: 0x21, length: 0, address: 0x10_0000 });
    assert_eq!(t[1], Adma2Desc32 { attribute: 0x21, length: 0, address: 0x11_0000 });
    assert_eq!(t[2], Adma2Desc32 { attribute: 0x23, length: 22528, address: 0x12_0000 });
    // exactly two full descriptors: the last length field is 0 (64 KiB)
    let t = sdio::adma_table(512, 256, 0);
    assert_eq!(t.len(), 2);
    assert_eq!(t[1], Adma2Desc32 { attribute: 0x23, length: 0, address: 0x1_0000 });
}

#[test]
fn devc_dma_registers() {
    let src = TransferTarget::SliceSrcLast { addr: 0x10_0000, len: 4096 };
    let dest = TransferTarget::PL(4096);
    assert_eq!(devc::initiate_dma(src, dest), (0x10_0001, 0xFFFF_FFFF, 1024, 1024));
    let plan = devc::dma_plan(
        TransferTarget::SliceSrc { addr: 0x20_0000, len: 64 },
        TransferTarget::SliceDestLast { addr: 0x30_0000, len: 64 },
        TransferType::PcapReadback,
    );
    assert_eq!(plan, vec![(0x20_0000, 0xFFFF_FFFF, 16, 0), (0xFFFF_FFFF, 0x30_0001, 0, 16)]);
    assert_eq!(devc::dma_precheck(1 << 31, TransferType::PcapWrite), Err(DevcError::DmaBusy));
    assert_eq!(devc::dma_precheck(0, TransferType::PcapWrite), Err(DevcError::NotInitialized));
    assert_eq!(devc::dma_precheck(0, TransferType::ConcurrentReadWrite), Ok(()));
    assert_eq!(devc::dma_precheck(1 << 4, TransferType::PcapReadback), Ok(()));
    assert_eq!(devc::mctrl_for(0xFF, TransferType::PcapWrite), 0xEF);
    assert_eq!(devc::mctrl_for(0, TransferType::ConcurrentReadWrite), 0x10);
    assert!(devc::has_error(1 << 11));
    assert!(!devc::has_error(1 << 13));
    assert_eq!(devc::wait_step(true, true, 0, DevcError::DmaTimeout), Some(Err(DevcError::DmaTimeout)));
    assert_eq!(devc::wait_step(false, true, 1 << 23, DevcError::DmaTimeout), Some(Ok(())));
    assert_eq!(devc::wait_step(false, false, 1 << 23, DevcError::DmaTimeout), Some(Err(DevcError::Unknown(1 << 23))));
    assert_eq!(devc::wait_step(false, false, 1 << 13, DevcError::DmaTimeout), None);
    assert_eq!(devc::control_pcap(0, true), 0x0C00_0000);
}

#[test]
fn config_text_lookup() {
    let text = b"Foo=Bar\r\nip=192.168.1.50\nIP=10.0.0.1\nmac";
    assert_eq!(config::parse_config(b"IP", text), Some(b"192.168.1.50".to_vec()));
    assert_eq!(config::parse_config(b"foo", text), Some(b"bar".to_vec()));
    assert_eq!(config::parse_config(b"mac", text), None);
    assert_eq!(config::parse_config(b"ip", b""), None);
    let lines = config::split_lines(b"a\r\n\nb\r");
    assert_eq!(lines, vec![b"a".to_vec(), b"".to_vec(), b"b\r".to_vec()]);
}

#[test]
fn config_remove_and_write() {
    let text = b"ip=1\n\nmac=2\r\nIP=3";
    assert_eq!(config::remove_entries(b"ip", text), b"mac=2\n".to_vec());
    let mut new_text = config::remove_entries(b"ip", text);
    new_text.extend(config::config_line(b"ip", b"192.168.1.1"));
    assert_eq!(config::parse_config(b"ip", &new_text), Some(b"192.168.1.1".to_vec()));
    assert_eq!(config::parse_config(b"ip", &config::remove_entries(b"ip", text)), None);
    assert_eq!(config::write_target(b"boot", b"x"), WriteTarget::BootImage);
    assert_eq!(config::write_target(b"ip", b"1.2.3.4"), WriteTarget::TextLine);
    assert_eq!(config::write_target(b"ip", &[0xFF]), WriteTarget::BinaryFile);
    assert_eq!(config::write_target(b"ip", b"a\nb"), WriteTarget::BinaryFile);
    assert!(config::is_str(&[b'a'; 100]));
    assert!(!config::is_str(&[b'a'; 101]));
}

#[test]
fn i2c_write_drive() {
    let drive = i2c::write_bits(0xA5);
    assert_eq!(drive, [false, true, false, true, true, false, true, false]);
    let released: Vec<bool> = drive.iter().map(|d| !d).collect();
    let mut samples = [false; 8];
    samples.copy_from_slice(&released);
    assert_eq!(i2c::read_bits(samples), 0xA5);
}

#[test]
fn sd_command_checks() {
    assert_eq!(sdio::select_bus_voltage(1 << 24 | 1 << 26), Some(BusVoltage::V33));
    assert_eq!(sdio::select_bus_voltage(1 << 25 | 1 << 26), Some(BusVoltage::V30));
    assert_eq!(sdio::select_bus_voltage(1 << 26), Some(BusVoltage::V18));
    assert_eq!(sdio::select_bus_voltage(0), None);
    assert_eq!(BusVoltage::V33.code(), 0b111);
    assert_eq!(BusVoltage::V18.code(), 0b101);
    assert_eq!(sdio::DmaSelect::ADMA2.code(), 0b10);
    assert_eq!(sdio::cmd_precheck(1, 0, SdCmd::CMD0, true), Err(CmdTransferError::CmdInhibited));
    assert_eq!(sdio::cmd_precheck(0, 2, SdCmd::CMD17, true), Err(CmdTransferError::DatLineInhibited));
    assert_eq!(sdio::cmd_precheck(0, 2, SdCmd::CMD19, true), Ok(()));
    assert_eq!(sdio::cmd_precheck(0, 0, SdCmd::CMD17, true), Ok(()));
    assert_eq!(sdio::cmd_poll(SdCmd::CMD19, 0x21), CmdPoll::BufferReady);
    assert_eq!(sdio::cmd_poll(SdCmd::CMD17, 0x21), CmdPoll::Complete);
    assert_eq!(sdio::cmd_poll(SdCmd::CMD17, 0x20), CmdPoll::Wait);
    assert_eq!(sdio::block_size_precheck(1 << 9), Err(CmdTransferError::CmdInhibited));
    assert_eq!(sdio::block_size_precheck(1 << 16), Ok(()));
    assert!(sdio::lines_all(0x01F0_0000, true));
    assert!(!sdio::lines_all(0x00F0_0000, true));
    assert!(sdio::lines_all(0x0000_FFFF, false));
    // a version 2 CSD with the largest size field does not fit 32 bits
    assert!(!sdio::sector_count_fits([0, 0x3FFF_FF00, 0, 0x0040_0000]));
    assert!(sdio::sector_count_fits([0, 0x0000_1D00, 0, 0x0040_0000]));
}

#[test]
fn flash_register_reads() {
    let sr1: SR1 = flash::reg_from_words(&vec![0x0003_0000]);
    assert_eq!(sr1.inner, 0x03);
    assert_eq!(flash::rdid_bytes(&vec![0x0001_2018, 0x4D01_0000]), vec![0x01, 0x20, 0x18, 0x4D, 0x01, 0x00, 0x00]);
    assert!(flash::rdid_bytes(&vec![]).is_empty());
    assert!(flash::sr1_wait_round(&vec![0x0000_0000]).is_none());
    assert_eq!(flash::sr1_wait_round(&vec![0x0002_0202]).map(|s| s.inner), Some(0x02));
    assert!(flash::sr1_wait_round(&vec![0x0002_0002]).is_none());
}

#[test]
fn adma_table_limits() {
    assert!(sdio::adma_table_fits(512, 300, 0x10_0000));
    // 33 descriptors do not fit the table
    assert!(!sdio::adma_table_fits(512, 128 * 33, 0));
    assert!(sdio::adma_table_fits(512, 128 * 32, 0));
    // the size overflows 32 bits
    assert!(!sdio::adma_table_fits(0x1000, 0x10_0000, 0));
    // the last descriptor's address would pass 4 GiB
    assert!(!sdio::adma_table_fits(512, 256, 0xFFFF_8000));
}

#[test]
fn fpga_load_sequences() {
    let mut regs = FpgaRegs { fpga_rst_ctrl: Register::new(0), lvl_shftr_en: Register::new(0xF) };
    slcr::init_preload_fpga(&mut regs);
    assert_eq!(regs.fpga_rst_ctrl.writes, vec![0xF]);
    assert_eq!(regs.lvl_shftr_en.writes, vec![0x0, 0xA]);
    slcr::init_postload_fpga(&mut regs);
    assert_eq!(regs.lvl_shftr_en.writes, vec![0x0, 0xA, 0xF]);
    assert_eq!(regs.fpga_rst_ctrl.writes, vec![0xF, 0x0]);
    let mut status = Register::new(0x0F12_3456);
    let mut rst = Register::new(0x10);
    slcr::reboot(&mut status, &mut rst);
    assert_eq!(status.writes, vec![0x0012_3456]);
    assert_eq!(rst.writes, vec![0x11]);
}
