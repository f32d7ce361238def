use libboard_zynq::phy::{Control, Led0Control, Led1Control, Leds, Link, LinkDuplex, LinkSpeed, PSSR, ExtendedStatus, Phy};
use libboard_zynq::eth::{GemMdio, MdioTransport};

#[test]
fn control_bits_round_trip() {
    let c = Control(0).set_reset(true).set_autoneg_enable(true);
    assert_eq!(c.0, 0x9000);
    assert!(c.reset());
    assert!(c.autoneg_enable());
    assert!(!c.loopback());
    let c = c.set_reset(false);
    assert_eq!(c.0, 0x1000);
    assert!(Control(1 << 6).speed1());
    assert!(Control(1 << 13).speed0());
}

#[test]
fn leds_round_trip() {
    let l = Leds(0xFF00).set_led0(Led0Control::OnCopperLinkOffElse).set_led1(Led1Control::BlinkActivityOffNoActivity);
    assert_eq!(l.0, 0xFF46);
    assert_eq!(l.led0(), Led0Control::OnCopperLinkOffElse);
    assert_eq!(l.led1(), Led1Control::BlinkActivityOffNoActivity);
    assert_eq!(Leds(0x000F).led0(), Led0Control::Mode4);
}

#[test]
fn pssr_link_decoding() {
    // link up (bit 10), full duplex (bit 13), 1000 Mb/s (0b10 in bits 14..15)
    let p = PSSR((1 << 10) | (1 << 13) | (0b10 << 14));
    assert_eq!(p.get_link(), Some(Link { speed: LinkSpeed::S1000, duplex: LinkDuplex::Full }));
    assert_eq!(PSSR(1 << 10).get_link(), Some(Link { speed: LinkSpeed::S10, duplex: LinkDuplex::Half }));
    assert_eq!(PSSR((1 << 10) | (0b11 << 14)).get_link(), None);
    assert_eq!(PSSR(0b01 << 14).get_link(), None);
    assert_eq!(PSSR(0b01 << 14).speed(), Some(LinkSpeed::S100));
}

#[test]
fn extended_status_link() {
    assert_eq!(ExtendedStatus(1 << 13).get_link(), Some(Link { speed: LinkSpeed::S1000, duplex: LinkDuplex::Full }));
    assert_eq!(ExtendedStatus(1 << 14).get_link(), Some(Link { speed: LinkSpeed::S1000, duplex: LinkDuplex::Half }));
    assert_eq!(ExtendedStatus(0).get_link(), None);
}

struct FakeMdio {
    regs: [[u16; 32]; 32],
    ops: Vec<(bool, u8, u8, u16)>,
}

impl MdioTransport for FakeMdio {
    fn shift(&mut self, maint: u32) -> u16 {
        assert_eq!(maint >> 30, 1);
        assert_eq!((maint >> 16) & 3, 0b10);
        let write = (maint >> 28) & 3 == 0b01;
        let addr = ((maint >> 23) & 0x1F) as u8;
        let reg = ((maint >> 18) & 0x1F) as u8;
        if write {
            let data = maint as u16;
            self.regs[addr as usize][reg as usize] = data;
            self.ops.push((true, addr, reg, data));
            0
        } else {
            let v = self.regs[addr as usize][reg as usize];
            self.ops.push((false, addr, reg, v));
            v
        }
    }
}

#[test]
fn phy_restart_autoneg_writes_control() {
    let mut fake = FakeMdio { regs: [[0; 32]; 32], ops: Vec::new() };
    fake.regs[7][0] = 0x0100;
    let mut pa = GemMdio::new(fake);
    let phy = Phy { addr: 7 };
    phy.restart_autoneg(&mut pa);
    assert_eq!(pa.transport.ops, vec![(false, 7, 0, 0x0100), (true, 7, 0, 0x1300)]);
    assert_eq!(phy.get_control(&mut pa).0, 0x1300);
}

#[test]
fn phy_set_leds_writes_led_register() {
    let mut fake = FakeMdio { regs: [[0; 32]; 32], ops: Vec::new() };
    fake.regs[1][0x10] = 0xAB00;
    let mut pa = GemMdio::new(fake);
    let phy = Phy { addr: 1 };
    phy.set_leds(&mut pa);
    assert_eq!(pa.transport.regs[1][0x10], 0xAB46);
}

#[test]
fn phy_maint_frames() {
    // read of register 3 at PHY 7; write of 0x1234 to register 0 at PHY 1
    assert_eq!(libboard_zynq::eth::phy_maint_value(false, 7, 3, 0), 0x638E_0000);
    assert_eq!(libboard_zynq::eth::phy_maint_value(true, 1, 0, 0x1234), 0x5082_1234);
}

#[test]
fn phy_find_first_supported() {
    let mut fake = FakeMdio { regs: [[0xFFFF; 32]; 32], ops: Vec::new() };
    // an unknown PHY at 1, a Realtek of the wrong revision at 3, Marvell at 7 and 9
    fake.regs[1][2] = 0x1234;
    fake.regs[1][3] = 0x5678;
    fake.regs[3][2] = 0x001C;
    fake.regs[3][3] = 0xC910;
    fake.regs[7][2] = 0x0141;
    fake.regs[7][3] = 0x0DD1;
    fake.regs[9][2] = 0x0141;
    fake.regs[9][3] = 0x0E40;
    let mut pa = GemMdio::new(fake);
    assert_eq!(Phy::find(&mut pa).map(|p| p.addr), Some(7));
    // addresses 0 to 7 probed, registers 2 and 3 each, nothing above
    assert_eq!(pa.transport.ops.len(), 16);
    assert_eq!(pa.transport.ops[14], (false, 7, 2, 0x0141));
    assert_eq!(pa.transport.ops[15], (false, 7, 3, 0x0DD1));

    let fake = FakeMdio { regs: [[0xFFFF; 32]; 32], ops: Vec::new() };
    let mut pa = GemMdio::new(fake);
    assert!(Phy::find(&mut pa).is_none());
    assert_eq!(pa.transport.ops.len(), 64);
}
