//! Ethernet PHY management registers and their decoding.
use vstd::prelude::*;
use vstd::std_specs::convert::{FromSpec, FromSpecImpl};
use crate::bits::{bit16, with_bit16, bits16, with_bits16, mask16, get_bit_u16, set_bit_u16, get_bits_u16, set_bits_u16};

verus! {

#[derive(Copy, Clone, Debug, PartialEq, Eq, Structural)]
pub struct Link {
    pub speed: LinkSpeed,
    pub duplex: LinkDuplex,
}

#[derive(Copy, Clone, Debug, PartialEq, Eq, Structural)]
pub enum LinkSpeed {
    S10,
    S100,
    S1000,
}

#[derive(Copy, Clone, Debug, PartialEq, Eq, Structural)]
pub enum LinkDuplex {
    Half,
    Full,
}

/// LED0 modes of the LED control register, in the order of their 4-bit codes.
#[derive(Copy, Clone, Debug, PartialEq, Eq, Structural)]
pub enum Led0Control {
    OnLinkOffNoLink,
    OnLinkBlinkActivityOffNoLink,
    BlinkDependingOnLink,
    OnActivityOffNoActivity,
    BlinkActivityOffNoActivity,
    OnTransmitOffNoTransmit,
    OnCopperLinkOffElse,
    On1000LinkOffElse,
    ForceOff,
    ForceOn,
    ForceHiZ,
    ForceBlink,
    Mode1,
    Mode2,
    Mode3,
    Mode4,
}

/// LED1 modes of the LED control register, in the order of their 4-bit codes.
#[derive(Copy, Clone, Debug, PartialEq, Eq, Structural)]
pub enum Led1Control {
    OnReceiveOffNoReceive,
    OnLinkBlinkActivityOffNoLink,
    OnLinkBlinkReceiveOffNoLink,
    OnActivityOffNoActivity,
    BlinkActivityOffNoActivity,
    On100OrFiberOffElse,
    On1001000LinkOffElse,
    On100LinkOffElse,
    ForceOff,
    ForceOn,
    ForceHiZ,
    ForceBlink,
}

/// The 4-bit code of an LED0 mode.
pub open spec fn led0_code(l: Led0Control) -> u16 {
    match l {
        Led0Control::OnLinkOffNoLink => 0,
        Led0Control::OnLinkBlinkActivityOffNoLink => 1,
        Led0Control::BlinkDependingOnLink => 2,
        Led0Control::OnActivityOffNoActivity => 3,
        Led0Control::BlinkActivityOffNoActivity => 4,
        Led0Control::OnTransmitOffNoTransmit => 5,
        Led0Control::OnCopperLinkOffElse => 6,
        Led0Control::On1000LinkOffElse => 7,
        Led0Control::ForceOff => 8,
        Led0Control::ForceOn => 9,
        Led0Control::ForceHiZ => 10,
        Led0Control::ForceBlink => 11,
        Led0Control::Mode1 => 12,
        Led0Control::Mode2 => 13,
        Led0Control::Mode3 => 14,
        Led0Control::Mode4 => 15,
    }
}

/// The 4-bit code of an LED1 mode.
pub open spec fn led1_code(l: Led1Control) -> u16 {
    match l {
        Led1Control::OnReceiveOffNoReceive => 0,
        Led1Control::OnLinkBlinkActivityOffNoLink => 1,
        Led1Control::OnLinkBlinkReceiveOffNoLink => 2,
        Led1Control::OnActivityOffNoActivity => 3,
        Led1Control::BlinkActivityOffNoActivity => 4,
        Led1Control::On100OrFiberOffElse => 5,
        Led1Control::On1001000LinkOffElse => 6,
        Led1Control::On100LinkOffElse => 7,
        Led1Control::ForceOff => 8,
        Led1Control::ForceOn => 9,
        Led1Control::ForceHiZ => 10,
        Led1Control::ForceBlink => 11,
    }
}

impl Led0Control {
    /// The mode's 4-bit code.
    pub fn code(&self) -> (r: u16)
        ensures
            r == led0_code(*self),
    {
        match self {
            Led0Control::OnLinkOffNoLink => 0,
            Led0Control::OnLinkBlinkActivityOffNoLink => 1,
            Led0Control::BlinkDependingOnLink => 2,
            Led0Control::OnActivityOffNoActivity => 3,
            Led0Control::BlinkActivityOffNoActivity => 4,
            Led0Control::OnTransmitOffNoTransmit => 5,
            Led0Control::OnCopperLinkOffElse => 6,
            Led0Control::On1000LinkOffElse => 7,
            Led0Control::ForceOff => 8,
            Led0Control::ForceOn => 9,
            Led0Control::ForceHiZ => 10,
            Led0Control::ForceBlink => 11,
            Led0Control::Mode1 => 12,
            Led0Control::Mode2 => 13,
            Led0Control::Mode3 => 14,
            Led0Control::Mode4 => 15,
        }
    }
}

impl Led1Control {
    /// The mode's 4-bit code.
    pub fn code(&self) -> (r: u16)
        ensures
            r == led1_code(*self),
    {
        match self {
            Led1Control::OnReceiveOffNoReceive => 0,
            Led1Control::OnLinkBlinkActivityOffNoLink => 1,
            Led1Control::OnLinkBlinkReceiveOffNoLink => 2,
            Led1Control::OnActivityOffNoActivity => 3,
            Led1Control::BlinkActivityOffNoActivity => 4,
            Led1Control::On100OrFiberOffElse => 5,
            Led1Control::On1001000LinkOffElse => 6,
            Led1Control::On100LinkOffElse => 7,
            Led1Control::ForceOff => 8,
            Led1Control::ForceOn => 9,
            Led1Control::ForceHiZ => 10,
            Led1Control::ForceBlink => 11,
        }
    }
}

/// The register number and page of a PHY register type.
pub trait PhyRegister {
    spec fn reg_addr() -> u8;

    spec fn reg_page() -> u8;

    fn addr() -> (r: u8)
        ensures
            r == Self::reg_addr(),
    ;

    fn page() -> (r: u8)
        ensures
            r == Self::reg_page(),
    ;
}

/// Basic Mode Control Register
#[derive(Clone, Copy, Debug)]
pub struct Control(pub u16);

impl Control {
    pub fn speed1(&self) -> (r: bool)
        ensures
            r == bit16(self.0, 6),
    {
        get_bit_u16(self.0, 6)
    }

    pub fn set_speed1(self, value: bool) -> (r: Self)
        ensures
            r.0 == with_bit16(self.0, 6, value),
    {
        Control(set_bit_u16(self.0, 6, value))
    }

    pub fn collision_test(&self) -> (r: bool)
        ensures
            r == bit16(self.0, 7),
    {
        get_bit_u16(self.0, 7)
    }

    pub fn set_collision_test(self, value: bool) -> (r: Self)
        ensures
            r.0 == with_bit16(self.0, 7, value),
    {
        Control(set_bit_u16(self.0, 7, value))
    }

    pub fn duplex(&self) -> (r: bool)
        ensures
            r == bit16(self.0, 8),
    {
        get_bit_u16(self.0, 8)
    }

    pub fn set_duplex(self, value: bool) -> (r: Self)
        ensures
            r.0 == with_bit16(self.0, 8, value),
    {
        Control(set_bit_u16(self.0, 8, value))
    }

    pub fn restart_autoneg(&self) -> (r: bool)
        ensures
            r == bit16(self.0, 9),
    {
        get_bit_u16(self.0, 9)
    }

    pub fn set_restart_autoneg(self, value: bool) -> (r: Self)
        ensures
            r.0 == with_bit16(self.0, 9, value),
    {
        Control(set_bit_u16(self.0, 9, value))
    }

    pub fn isolate(&self) -> (r: bool)
        ensures
            r == bit16(self.0, 10),
    {
        get_bit_u16(self.0, 10)
    }

    pub fn set_isolate(self, value: bool) -> (r: Self)
        ensures
            r.0 == with_bit16(self.0, 10, value),
    {
        Control(set_bit_u16(self.0, 10, value))
    }

    pub fn power_down(&self) -> (r: bool)
        ensures
            r == bit16(self.0, 11),
    {
        get_bit_u16(self.0, 11)
    }

    pub fn set_power_down(self, value: bool) -> (r: Self)
        ensures
            r.0 == with_bit16(self.0, 11, value),
    {
        Control(set_bit_u16(self.0, 11, value))
    }

    pub fn autoneg_enable(&self) -> (r: bool)
        ensures
            r == bit16(self.0, 12),
    {
        get_bit_u16(self.0, 12)
    }

    pub fn set_autoneg_enable(self, value: bool) -> (r: Self)
        ensures
            r.0 == with_bit16(self.0, 12, value),
    {
        Control(set_bit_u16(self.0, 12, value))
    }

    pub fn speed0(&self) -> (r: bool)
        ensures
            r == bit16(self.0, 13),
    {
        get_bit_u16(self.0, 13)
    }

    pub fn set_speed0(self, value: bool) -> (r: Self)
        ensures
            r.0 == with_bit16(self.0, 13, value),
    {
        Control(set_bit_u16(self.0, 13, value))
    }

    pub fn loopback(&self) -> (r: bool)
        ensures
            r == bit16(self.0, 14),
    {
        get_bit_u16(self.0, 14)
    }

    pub fn set_loopback(self, value: bool) -> (r: Self)
        ensures
            r.0 == with_bit16(self.0, 14, value),
    {
        Control(set_bit_u16(self.0, 14, value))
    }

    pub fn reset(&self) -> (r: bool)
        ensures
            r == bit16(self.0, 15),
    {
        get_bit_u16(self.0, 15)
    }

    pub fn set_reset(self, value: bool) -> (r: Self)
        ensures
            r.0 == with_bit16(self.0, 15, value),
    {
        Control(set_bit_u16(self.0, 15, value))
    }
}

impl PhyRegister for Control {
    open spec fn reg_addr() -> u8 {
        0
    }

    open spec fn reg_page() -> u8 {
        0
    }

    fn addr() -> (r: u8) {
        0
    }

    fn page() -> (r: u8) {
        0
    }
}

impl From<u16> for Control {
    fn from(value: u16) -> (r: Self) {
        Control(value)
    }
}

impl FromSpecImpl<u16> for Control {
    open spec fn obeys_from_spec() -> bool {
        true
    }

    open spec fn from_spec(v: u16) -> Self {
        Control(v)
    }
}

impl From<Control> for u16 {
    fn from(value: Control) -> (r: u16) {
        value.0
    }
}

impl FromSpecImpl<Control> for u16 {
    open spec fn obeys_from_spec() -> bool {
        true
    }

    open spec fn from_spec(v: Control) -> u16 {
        v.0
    }
}


/// 1000Base-T Extended Status Register
#[derive(Clone, Copy, Debug)]
pub struct ExtendedStatus(pub u16);

/// The link that the extended status register reports: the first of its
/// capability bits, in the order the register is checked, that is set.
pub open spec fn extended_status_link(x: u16) -> Option<Link> {
    if bit16(x, 12) {
        Some(Link { speed: LinkSpeed::S1000, duplex: LinkDuplex::Half })
    } else if bit16(x, 13) {
        Some(Link { speed: LinkSpeed::S1000, duplex: LinkDuplex::Full })
    } else if bit16(x, 14) {
        Some(Link { speed: LinkSpeed::S1000, duplex: LinkDuplex::Half })
    } else {
        None
    }
}

impl ExtendedStatus {
    pub fn cap_1000base_t_half(&self) -> (r: bool)
        ensures
            r == bit16(self.0, 12),
    {
        get_bit_u16(self.0, 12)
    }

    pub fn cap_1000base_t_full(&self) -> (r: bool)
        ensures
            r == bit16(self.0, 13),
    {
        get_bit_u16(self.0, 13)
    }

    pub fn cap_1000base_x_half(&self) -> (r: bool)
        ensures
            r == bit16(self.0, 14),
    {
        get_bit_u16(self.0, 14)
    }

    /// Reads bit 12, the same bit as `cap_1000base_t_half`.
    pub fn cap_1000base_x_full(&self) -> (r: bool)
        ensures
            r == bit16(self.0, 12),
    {
        get_bit_u16(self.0, 12)
    }

    pub fn get_link(&self) -> (r: Option<Link>)
        ensures
            r == extended_status_link(self.0),
    {
        if self.cap_1000base_t_half() {
            Some(Link { speed: LinkSpeed::S1000, duplex: LinkDuplex::Half })
        } else if self.cap_1000base_t_full() {
            Some(Link { speed: LinkSpeed::S1000, duplex: LinkDuplex::Full })
        } else if self.cap_1000base_x_half() {
            Some(Link { speed: LinkSpeed::S1000, duplex: LinkDuplex::Half })
        } else if self.cap_1000base_x_full() {
            Some(Link { speed: LinkSpeed::S1000, duplex: LinkDuplex::Full })
        } else {
            None
        }
    }
}

impl From<u16> for ExtendedStatus {
    fn from(value: u16) -> (r: Self) {
        ExtendedStatus(value)
    }
}

impl FromSpecImpl<u16> for ExtendedStatus {
    open spec fn obeys_from_spec() -> bool {
        true
    }

    open spec fn from_spec(v: u16) -> Self {
        ExtendedStatus(v)
    }
}

/// The 4-bit field `lo..=lo+3` of `x` is at most 15.
proof fn lemma_nibble_bound(x: u16, lo: u16)
    by (bit_vector)
    requires
        lo <= 12,
    ensures
        bits16(x, lo, (lo + 3) as u16) <= 15,
        mask16(4) == 15,
{
}

/// The LED0 mode with a given 4-bit code.
pub open spec fn led0_of_code(c: u16) -> Led0Control {
    if c == 0 {
        Led0Control::OnLinkOffNoLink
    } else if c == 1 {
        Led0Control::OnLinkBlinkActivityOffNoLink
    } else if c == 2 {
        Led0Control::BlinkDependingOnLink
    } else if c == 3 {
        Led0Control::OnActivityOffNoActivity
    } else if c == 4 {
        Led0Control::BlinkActivityOffNoActivity
    } else if c == 5 {
        Led0Control::OnTransmitOffNoTransmit
    } else if c == 6 {
        Led0Control::OnCopperLinkOffElse
    } else if c == 7 {
        Led0Control::On1000LinkOffElse
    } else if c == 8 {
        Led0Control::ForceOff
    } else if c == 9 {
        Led0Control::ForceOn
    } else if c == 10 {
        Led0Control::ForceHiZ
    } else if c == 11 {
        Led0Control::ForceBlink
    } else if c == 12 {
        Led0Control::Mode1
    } else if c == 13 {
        Led0Control::Mode2
    } else if c == 14 {
        Led0Control::Mode3
    } else {
        Led0Control::Mode4
    }
}

/// The LED1 mode with a given 4-bit code, for codes up to 11.
pub open spec fn led1_of_code(c: u16) -> Led1Control {
    if c == 0 {
        Led1Control::OnReceiveOffNoReceive
    } else if c == 1 {
        Led1Control::OnLinkBlinkActivityOffNoLink
    } else if c == 2 {
        Led1Control::OnLinkBlinkReceiveOffNoLink
    } else if c == 3 {
        Led1Control::OnActivityOffNoActivity
    } else if c == 4 {
        Led1Control::BlinkActivityOffNoActivity
    } else if c == 5 {
        Led1Control::On100OrFiberOffElse
    } else if c == 6 {
        Led1Control::On1001000LinkOffElse
    } else if c == 7 {
        Led1Control::On100LinkOffElse
    } else if c == 8 {
        Led1Control::ForceOff
    } else if c == 9 {
        Led1Control::ForceOn
    } else if c == 10 {
        Led1Control::ForceHiZ
    } else {
        Led1Control::ForceBlink
    }
}

/// LED Control Register
#[derive(Clone, Copy, Debug)]
pub struct Leds(pub u16);

impl Leds {
    pub fn led0(&self) -> (r: Led0Control)
        ensures
            r == led0_of_code(bits16(self.0, 0, 3)),
            led0_code(r) == bits16(self.0, 0, 3),
    {
        proof {
            lemma_nibble_bound(self.0, 0);
        }
        let c = get_bits_u16(self.0, 0, 3);
        match c {
            0 => Led0Control::OnLinkOffNoLink,
            1 => Led0Control::OnLinkBlinkActivityOffNoLink,
            2 => Led0Control::BlinkDependingOnLink,
            3 => Led0Control::OnActivityOffNoActivity,
            4 => Led0Control::BlinkActivityOffNoActivity,
            5 => Led0Control::OnTransmitOffNoTransmit,
            6 => Led0Control::OnCopperLinkOffElse,
            7 => Led0Control::On1000LinkOffElse,
            8 => Led0Control::ForceOff,
            9 => Led0Control::ForceOn,
            10 => Led0Control::ForceHiZ,
            11 => Led0Control::ForceBlink,
            12 => Led0Control::Mode1,
            13 => Led0Control::Mode2,
            14 => Led0Control::Mode3,
            _ => Led0Control::Mode4,
        }
    }

    /// Codes 12 to 15 of the LED1 field name no mode; the register must not
    /// hold one.
    pub fn led1(&self) -> (r: Led1Control)
        requires
            bits16(self.0, 4, 7) <= 11,
        ensures
            r == led1_of_code(bits16(self.0, 4, 7)),
            led1_code(r) == bits16(self.0, 4, 7),
    {
        let c = get_bits_u16(self.0, 4, 7);
        match c {
            0 => Led1Control::OnReceiveOffNoReceive,
            1 => Led1Control::OnLinkBlinkActivityOffNoLink,
            2 => Led1Control::OnLinkBlinkReceiveOffNoLink,
            3 => Led1Control::OnActivityOffNoActivity,
            4 => Led1Control::BlinkActivityOffNoActivity,
            5 => Led1Control::On100OrFiberOffElse,
            6 => Led1Control::On1001000LinkOffElse,
            7 => Led1Control::On100LinkOffElse,
            8 => Led1Control::ForceOff,
            9 => Led1Control::ForceOn,
            10 => Led1Control::ForceHiZ,
            _ => Led1Control::ForceBlink,
        }
    }

    pub fn set_led0(self, setting: Led0Control) -> (r: Self)
        ensures
            r.0 == with_bits16(self.0, 0, 3, led0_code(setting)),
    {
        proof {
            lemma_nibble_bound(self.0, 0);
        }
        Leds(set_bits_u16(self.0, 0, 3, setting.code()))
    }

    pub fn set_led1(self, setting: Led1Control) -> (r: Self)
        ensures
            r.0 == with_bits16(self.0, 4, 7, led1_code(setting)),
    {
        proof {
            lemma_nibble_bound(self.0, 0);
        }
        Leds(set_bits_u16(self.0, 4, 7, setting.code()))
    }
}

/// Writing an LED mode and reading it back gives that mode, and writing one
/// LED's mode leaves the other LED's field as it was.
pub proof fn lemma_leds_roundtrip(x: u16, l0: Led0Control, l1: Led1Control)
    ensures
        bits16(with_bits16(x, 0, 3, led0_code(l0)), 0, 3) == led0_code(l0),
        led0_of_code(led0_code(l0)) == l0,
        bits16(with_bits16(x, 4, 7, led1_code(l1)), 4, 7) == led1_code(l1),
        led1_code(l1) <= 11,
        led1_of_code(led1_code(l1)) == l1,
        bits16(with_bits16(x, 0, 3, led0_code(l0)), 4, 7) == bits16(x, 4, 7),
        bits16(with_bits16(x, 4, 7, led1_code(l1)), 0, 3) == bits16(x, 0, 3),
{
    lemma_nibble_fields(x, led0_code(l0), led1_code(l1));
}

/// Writing one of the two low nibbles and reading either back.
proof fn lemma_nibble_fields(x: u16, c0: u16, c1: u16)
    by (bit_vector)
    requires
        c0 <= 15,
        c1 <= 15,
    ensures
        bits16(with_bits16(x, 0, 3, c0), 0, 3) == c0,
        bits16(with_bits16(x, 4, 7, c1), 4, 7) == c1,
        bits16(with_bits16(x, 0, 3, c0), 4, 7) == bits16(x, 4, 7),
        bits16(with_bits16(x, 4, 7, c1), 0, 3) == bits16(x, 0, 3),
{
}

impl PhyRegister for Leds {
    open spec fn reg_addr() -> u8 {
        0x10
    }

    open spec fn reg_page() -> u8 {
        3
    }

    fn addr() -> (r: u8) {
        0x10
    }

    fn page() -> (r: u8) {
        3
    }
}

impl From<u16> for Leds {
    fn from(value: u16) -> (r: Self) {
        Leds(value)
    }
}

impl FromSpecImpl<u16> for Leds {
    open spec fn obeys_from_spec() -> bool {
        true
    }

    open spec fn from_spec(v: u16) -> Self {
        Leds(v)
    }
}

impl From<Leds> for u16 {
    fn from(value: Leds) -> (r: u16) {
        value.0
    }
}

impl FromSpecImpl<Leds> for u16 {
    open spec fn obeys_from_spec() -> bool {
        true
    }

    open spec fn from_spec(v: Leds) -> u16 {
        v.0
    }
}

/// PHY-Specific Status Register
#[derive(Clone, Copy, Debug)]
pub struct PSSR(pub u16);

/// The speed that bits 14 and 15 of the PHY-specific status register encode.
pub open spec fn pssr_speed(x: u16) -> Option<LinkSpeed> {
    let c = bits16(x, 14, 15);
    if c == 0 {
        Some(LinkSpeed::S10)
    } else if c == 1 {
        Some(LinkSpeed::S100)
    } else if c == 2 {
        Some(LinkSpeed::S1000)
    } else {
        None
    }
}

/// The duplex mode that bit 13 of the PHY-specific status register encodes.
pub open spec fn pssr_duplex(x: u16) -> LinkDuplex {
    if bit16(x, 13) {
        LinkDuplex::Full
    } else {
        LinkDuplex::Half
    }
}

/// The link that the PHY-specific status register reports: none while bit
/// 10 is clear or the speed code is the reserved one.
pub open spec fn pssr_link(x: u16) -> Option<Link> {
    if bit16(x, 10) {
        match pssr_speed(x) {
            Some(speed) => Some(Link { speed, duplex: pssr_duplex(x) }),
            None => None,
        }
    } else {
        None
    }
}

impl PSSR {
    pub fn link(&self) -> (r: bool)
        ensures
            r == bit16(self.0, 10),
    {
        get_bit_u16(self.0, 10)
    }

    pub fn duplex(&self) -> (r: LinkDuplex)
        ensures
            r == pssr_duplex(self.0),
    {
        if get_bit_u16(self.0, 13) {
            LinkDuplex::Full
        } else {
            LinkDuplex::Half
        }
    }

    pub fn speed(&self) -> (r: Option<LinkSpeed>)
        ensures
            r == pssr_speed(self.0),
    {
        match get_bits_u16(self.0, 14, 15) {
            0 => Some(LinkSpeed::S10),
            1 => Some(LinkSpeed::S100),
            2 => Some(LinkSpeed::S1000),
            _ => None,
        }
    }

    pub fn get_link(&self) -> (r: Option<Link>)
        ensures
            r == pssr_link(self.0),
    {
        if self.link() {
            Some(Link { speed: self.speed()?, duplex: self.duplex() })
        } else {
            None
        }
    }
}

impl PhyRegister for PSSR {
    open spec fn reg_addr() -> u8 {
        0x11
    }

    open spec fn reg_page() -> u8 {
        0
    }

    fn addr() -> (r: u8) {
        0x11
    }

    fn page() -> (r: u8) {
        0
    }
}

impl From<u16> for PSSR {
    fn from(value: u16) -> (r: Self) {
        PSSR(value)
    }
}

impl FromSpecImpl<u16> for PSSR {
    open spec fn obeys_from_spec() -> bool {
        true
    }

    open spec fn from_spec(v: u16) -> Self {
        PSSR(v)
    }
}


/// One access of the management interface, as a `PhyAccess` performs it.
#[derive(Copy, Clone, Debug, PartialEq, Eq, Structural)]
pub enum PhyOp {
    Read { addr: u8, reg: u8, value: u16 },
    Write { addr: u8, reg: u8, value: u16 },
}

/// Access to the PHY management (MDIO) interface. `mdio_log` is the
/// sequence of accesses made so far; each method appends its own. PHY and
/// register addresses are 5-bit fields of a management frame.
pub trait PhyAccess {
    /// The accesses made so far, oldest first.
    spec fn mdio_log(&self) -> Seq<PhyOp>;

    fn read_phy(&mut self, addr: u8, reg: u8) -> (r: u16)
        requires
            addr < 32,
            reg < 32,
        ensures
            final(self).mdio_log() == old(self).mdio_log().push(
                PhyOp::Read { addr, reg, value: r },
            ),
    ;

    fn write_phy(&mut self, addr: u8, reg: u8, data: u16)
        requires
            addr < 32,
            reg < 32,
        ensures
            final(self).mdio_log() == old(self).mdio_log().push(
                PhyOp::Write { addr, reg, value: data },
            ),
    ;
}

#[derive(Clone, Copy)]
pub struct Phy {
    pub addr: u8,
}

/// What a PHY's identifier registers say: the vendor's OUI, the model and
/// the revision.
#[derive(Clone, Copy, Debug, PartialEq, Eq, Structural)]
pub struct PhyIdentifier {
    pub oui: u32,
    pub model: u8,
    pub rev: u8,
}

pub const OUI_MARVELL: u32 = 0x005043;
pub const OUI_REALTEK: u32 = 0x000732;
pub const OUI_LANTIQ: u32 = 0x355969;
pub const OUI_ICPLUS: u32 = 0x0090c3;

/// The PHYs this library drives: Marvell 88E1116R (model 36) and 88E1512
/// (model 29), Realtek RTL8211E (model `0b010001`, revision `0b0101`),
/// Intel XWAY PHY11G (Lantiq, model 0) and IC+ IP101G (model 5,
/// revision 4).
pub open spec fn is_supported_phy(id: PhyIdentifier) -> bool {
    ||| id.oui == OUI_MARVELL && id.model == 36
    ||| id.oui == OUI_MARVELL && id.model == 29
    ||| id.oui == OUI_REALTEK && id.model == 0b010001 && id.rev == 0b0101
    ||| id.oui == OUI_LANTIQ && id.model == 0
    ||| id.oui == OUI_ICPLUS && id.model == 5 && id.rev == 4
}

/// The identification at one MDIO address names a supported PHY.
pub open spec fn found_at(ids: Seq<Option<PhyIdentifier>>, a: int) -> bool {
    &&& 0 <= a < ids.len()
    &&& a < 32
    &&& ids[a] matches Some(id) && is_supported_phy(id)
}

/// The PHYs the library drives are found wherever they answer: Marvell
/// 88E1116R and 88E1512 and the Lantiq XWAY PHY11G of any revision, the
/// Realtek RTL8211E of revision `0b0101` and the IC Plus IP101G of revision
/// 4 are supported, so a probe stops at the address where one answers; a
/// PHY of any other vendor is not supported.
pub proof fn lemma_supported_phys(addr: u8, rev: u8, id: PhyIdentifier)
    requires
        addr < 32,
    ensures
        is_supported_phy(PhyIdentifier { oui: OUI_MARVELL, model: 36, rev }),
        is_supported_phy(PhyIdentifier { oui: OUI_MARVELL, model: 29, rev }),
        is_supported_phy(PhyIdentifier { oui: OUI_LANTIQ, model: 0, rev }),
        is_supported_phy(PhyIdentifier { oui: OUI_REALTEK, model: 0b010001, rev: 0b0101 }),
        is_supported_phy(PhyIdentifier { oui: OUI_ICPLUS, model: 5, rev: 4 }),
        probe_step_spec(addr, Some(PhyIdentifier { oui: OUI_MARVELL, model: 36, rev })) == ProbeStep::Found(addr),
        probe_step_spec(addr, Some(PhyIdentifier { oui: OUI_MARVELL, model: 29, rev })) == ProbeStep::Found(addr),
        probe_step_spec(addr, Some(PhyIdentifier { oui: OUI_LANTIQ, model: 0, rev })) == ProbeStep::Found(addr),
        probe_step_spec(addr, Some(PhyIdentifier { oui: OUI_REALTEK, model: 0b010001, rev: 0b0101 }))
            == ProbeStep::Found(addr),
        probe_step_spec(addr, Some(PhyIdentifier { oui: OUI_ICPLUS, model: 5, rev: 4 })) == ProbeStep::Found(addr),
        is_supported_phy(id) ==> id.oui == OUI_MARVELL || id.oui == OUI_REALTEK || id.oui == OUI_LANTIQ
            || id.oui == OUI_ICPLUS,
        // the identifier registers of an RTL8211E and an 88E1116R decode to supported PHYs
        phy_identifier_of(0x001C, 0xC915) == Some(PhyIdentifier { oui: OUI_REALTEK, model: 0b010001, rev: 0b0101 }),
        phy_identifier_of(0x0141, 0x0E40) == Some(PhyIdentifier { oui: OUI_MARVELL, model: 36, rev: 0 }),
{
}

/// Whether `id` names a supported PHY.
pub fn supported_phy(id: PhyIdentifier) -> (r: bool)
    ensures
        r == is_supported_phy(id),
{
    (id.oui == OUI_MARVELL && id.model == 36)
        || (id.oui == OUI_MARVELL && id.model == 29)
        || (id.oui == OUI_REALTEK && id.model == 0b010001 && id.rev == 0b0101)
        || (id.oui == OUI_LANTIQ && id.model == 0)
        || (id.oui == OUI_ICPLUS && id.model == 5 && id.rev == 4)
}

/// The value of the last access in a nonempty log.
pub open spec fn last_value(log: Seq<PhyOp>) -> u16 {
    match log.last() {
        PhyOp::Read { value, .. } => value,
        PhyOp::Write { value, .. } => value,
    }
}

/// What the identifier registers 2 and 3 of a PHY say (IEEE 802.3 clause
/// 22): the OUI from register 2 and the top six bits of register 3, the
/// model (register 3, bits 4 to 9) and the revision (bits 0 to 3). Nothing
/// answers where both read all ones or both read zero.
pub open spec fn phy_identifier_of(id1: u16, id2: u16) -> Option<PhyIdentifier> {
    if (id1 == 0xFFFF && id2 == 0xFFFF) || (id1 == 0 && id2 == 0) {
        None
    } else {
        Some(PhyIdentifier {
            oui: (id1 * 64 + id2 / 1024) as u32,
            model: ((id2 / 16) % 64) as u8,
            rev: (id2 % 16) as u8,
        })
    }
}

/// Decodes the identifier registers 2 (`id1`) and 3 (`id2`).
pub fn phy_identifier(id1: u16, id2: u16) -> (r: Option<PhyIdentifier>)
    ensures
        r == phy_identifier_of(id1, id2),
{
    if (id1 == 0xFFFF && id2 == 0xFFFF) || (id1 == 0 && id2 == 0) {
        None
    } else {
        let oui: u32 = (id1 as u32) * 64 + (id2 as u32) / 1024;
        let model: u8 = ((id2 / 16) % 64) as u8;
        let rev: u8 = (id2 % 16) as u8;
        Some(PhyIdentifier { oui, model, rev })
    }
}

/// Reads the identifier registers of the PHY at `addr` and decodes them.
pub fn identify_phy<PA: PhyAccess>(pa: &mut PA, addr: u8) -> (r: Option<PhyIdentifier>)
    requires
        addr < 32,
    ensures
        exists|id1: u16, id2: u16|
            final(pa).mdio_log() == old(pa).mdio_log().push(PhyOp::Read { addr, reg: 2, value: id1 }).push(
                PhyOp::Read { addr, reg: 3, value: id2 },
            ) && r == phy_identifier_of(id1, id2),
{
    let id1 = pa.read_phy(addr, 2);
    let id2 = pa.read_phy(addr, 3);
    phy_identifier(id1, id2)
}

/// The identifications of addresses `0..raw.len()` from what their
/// identifier registers answered.
pub open spec fn probed_ids(raw: Seq<(u16, u16)>) -> Seq<Option<PhyIdentifier>> {
    Seq::new(raw.len(), |i: int| phy_identifier_of(raw[i].0, raw[i].1))
}

/// The management accesses of probing addresses `0..raw.len()`: registers 2
/// and 3 of each address in turn, answering `raw`.
pub open spec fn probe_log(raw: Seq<(u16, u16)>) -> Seq<PhyOp>
    decreases raw.len(),
{
    if raw.len() == 0 {
        Seq::empty()
    } else {
        let a = (raw.len() - 1) as u8;
        probe_log(raw.drop_last()) + seq![
            PhyOp::Read { addr: a, reg: 2, value: raw.last().0 },
            PhyOp::Read { addr: a, reg: 3, value: raw.last().1 },
        ]
    }
}

proof fn lemma_probe_log_push(raw: Seq<(u16, u16)>, x: (u16, u16))
    ensures
        probe_log(raw.push(x)) == probe_log(raw) + seq![
            PhyOp::Read { addr: raw.len() as u8, reg: 2, value: x.0 },
            PhyOp::Read { addr: raw.len() as u8, reg: 3, value: x.1 },
        ],
{
    assert(raw.push(x).drop_last() =~= raw);
}

/// One step of probing the MDIO bus for a PHY.
#[derive(Clone, Copy, Debug, PartialEq, Eq, Structural)]
pub enum ProbeStep {
    /// A supported PHY answers at this address: stop probing.
    Found(u8),
    /// Probe this address next.
    Probe(u8),
    /// No address is left to probe.
    NotFound,
}

/// What follows the probe of `addr`, whose identifier registers gave `id`:
/// the probe stops at a supported PHY, else goes on to the next address up
/// to 31.
pub open spec fn probe_step_spec(addr: u8, id: Option<PhyIdentifier>) -> ProbeStep {
    if id matches Some(i) && is_supported_phy(i) {
        ProbeStep::Found(addr)
    } else if addr + 1 < 32 {
        ProbeStep::Probe((addr + 1) as u8)
    } else {
        ProbeStep::NotFound
    }
}

/// The probe step after address `addr`; probing starts at address 0.
pub fn probe_step(addr: u8, id: Option<PhyIdentifier>) -> (r: ProbeStep)
    requires
        addr < 32,
    ensures
        r == probe_step_spec(addr, id),
{
    match id {
        Some(i) => {
            if supported_phy(i) {
                return ProbeStep::Found(addr);
            }
        },
        None => {},
    }
    if addr + 1 < 32 {
        ProbeStep::Probe(addr + 1)
    } else {
        ProbeStep::NotFound
    }
}

/// Probing address after address from 0, with `ids[a]` the identification
/// at `a`, stops at the first supported address, and no address above it
/// is probed.
pub proof fn lemma_probe_matches_find(ids: Seq<Option<PhyIdentifier>>, a: u8)
    requires
        ids.len() == 32,
        a < 32,
        forall|b: int| 0 <= b < a ==> !#[trigger] found_at(ids, b),
    ensures
        probe_step_spec(a, ids[a as int]) == ProbeStep::Found(a) <==> found_at(ids, a as int),
        !found_at(ids, a as int) && a + 1 < 32 ==> probe_step_spec(a, ids[a as int]) == ProbeStep::Probe((a + 1) as u8),
        !found_at(ids, a as int) && a == 31 ==> probe_step_spec(a, ids[a as int]) == ProbeStep::NotFound
            && forall|b: int| !#[trigger] found_at(ids, b),
{
}

impl Phy {
    /// Probes MDIO addresses 0 to 31 in order for a supported PHY, reading
    /// the identifier registers of each, and stops at the first one found.
    /// `raw` is what the registers answered at each probed address.
    pub fn find<PA: PhyAccess>(pa: &mut PA) -> (r: Option<Phy>)
        ensures
            exists|raw: Seq<(u16, u16)>| {
                &&& 1 <= raw.len() <= 32
                &&& final(pa).mdio_log() == old(pa).mdio_log() + probe_log(raw)
                &&& forall|b: int| 0 <= b < raw.len() - 1 ==> !#[trigger] found_at(probed_ids(raw), b)
                &&& match r {
                    Some(phy) => phy.addr == raw.len() - 1 && found_at(probed_ids(raw), phy.addr as int),
                    None => raw.len() == 32 && !found_at(probed_ids(raw), 31),
                }
            },
    {
        let mut addr: u8 = 0;
        let ghost mut raw: Seq<(u16, u16)> = Seq::empty();
        loop
            invariant
                addr < 32,
                raw.len() == addr,
                pa.mdio_log() == old(pa).mdio_log() + probe_log(raw),
                forall|b: int| 0 <= b < raw.len() ==> !#[trigger] found_at(probed_ids(raw), b),
            decreases 32 - addr,
        {
            let ghost before = pa.mdio_log();
            let id = identify_phy(pa, addr);
            let ghost prev = raw;
            proof {
                let (id1, id2) = choose|id1: u16, id2: u16|
                    pa.mdio_log() == before.push(PhyOp::Read { addr, reg: 2, value: id1 }).push(
                        PhyOp::Read { addr, reg: 3, value: id2 },
                    ) && id == phy_identifier_of(id1, id2);
                raw = raw.push((id1, id2));
                lemma_probe_log_push(prev, (id1, id2));
                assert(pa.mdio_log() =~= old(pa).mdio_log() + probe_log(raw));
                assert forall|b: int| 0 <= b < prev.len() implies
                    (#[trigger] found_at(probed_ids(raw), b)) == found_at(probed_ids(prev), b) by {
                    assert(probed_ids(raw)[b] == probed_ids(prev)[b]);
                }
                assert(probed_ids(raw)[addr as int] == id);
            }
            match probe_step(addr, id) {
                ProbeStep::Found(a) => {
                    return Some(Phy { addr: a });
                },
                ProbeStep::Probe(next) => {
                    addr = next;
                },
                ProbeStep::NotFound => {
                    return None;
                },
            }
        }
    }

    /// Reads register `PR` of this PHY.
    pub fn read_reg<PA, PR>(&self, pa: &mut PA) -> (r: PR)
        where
            PA: PhyAccess,
            PR: PhyRegister + From<u16>,
        requires
            PR::obeys_from_spec(),
            self.addr < 32,
            PR::reg_addr() < 32,
        ensures
            final(pa).mdio_log().len() == old(pa).mdio_log().len() + 1,
            final(pa).mdio_log().drop_last() == old(pa).mdio_log(),
            final(pa).mdio_log().last() == (PhyOp::Read {
                addr: self.addr,
                reg: PR::reg_addr(),
                value: last_value(final(pa).mdio_log()),
            }),
            r == PR::from_spec(last_value(final(pa).mdio_log())),
    {
        let raw = pa.read_phy(self.addr, PR::addr());
        PR::from(raw)
    }

    /// Reads the control register of this PHY.
    pub fn get_control<PA: PhyAccess>(&self, pa: &mut PA) -> (r: Control)
        requires
            self.addr < 32,
        ensures
            final(pa).mdio_log() == old(pa).mdio_log().push(
                PhyOp::Read { addr: self.addr, reg: 0, value: r.0 },
            ),
    {
        let r: Control = self.read_reg(pa);
        proof {
            assert(final(pa).mdio_log() =~= old(pa).mdio_log().push(
                PhyOp::Read { addr: self.addr, reg: 0, value: r.0 },
            ));
        }
        r
    }

    /// Reads register `PR`, passes it through `f` and writes the result back.
    pub fn modify_reg<PA, PR, F>(&self, pa: &mut PA, f: F)
        where
            PA: PhyAccess,
            PR: PhyRegister + From<u16>,
            u16: From<PR>,
            F: FnOnce(PR) -> PR,
        requires
            PR::obeys_from_spec(),
            <u16 as FromSpec<PR>>::obeys_from_spec(),
            forall|x: PR| f.requires((x,)),
            self.addr < 32,
            PR::reg_addr() < 32,
        ensures
            final(pa).mdio_log().len() == old(pa).mdio_log().len() + 2,
            final(pa).mdio_log().subrange(0, old(pa).mdio_log().len() as int) == old(pa).mdio_log(),
            ({
                let n = old(pa).mdio_log().len() as int;
                let log = final(pa).mdio_log();
                exists|v: u16, w: PR|
                    #![trigger f.ensures((PR::from_spec(v),), w)]
                    log[n] == (PhyOp::Read { addr: self.addr, reg: PR::reg_addr(), value: v })
                    && f.ensures((PR::from_spec(v),), w)
                    && log[n + 1] == (PhyOp::Write {
                        addr: self.addr,
                        reg: PR::reg_addr(),
                        value: <u16 as FromSpec<PR>>::from_spec(w),
                    })
            }),
    {
        let raw = pa.read_phy(self.addr, PR::addr());
        let reg = PR::from(raw);
        let reg = f(reg);
        let out = u16::from(reg);
        pa.write_phy(self.addr, PR::addr(), out);
        proof {
            let n = old(pa).mdio_log().len() as int;
            assert(final(pa).mdio_log()[n] == (PhyOp::Read { addr: self.addr, reg: PR::reg_addr(), value: raw }));
        }
    }
}


/// The log `new` is `old` followed by a read of register `reg` of PHY `addr`
/// and a write of `g` of the value read back to the same register.
pub open spec fn read_then_write(
    old: Seq<PhyOp>,
    new: Seq<PhyOp>,
    addr: u8,
    reg: u8,
    g: spec_fn(u16) -> u16,
) -> bool {
    &&& new.len() == old.len() + 2
    &&& new.subrange(0, old.len() as int) == old
    &&& exists|v: u16|
        #![trigger g(v)]
        new[old.len() as int] == (PhyOp::Read { addr, reg, value: v })
            && new[old.len() as int + 1] == (PhyOp::Write { addr, reg, value: g(v) })
}

/// The control value written by `restart_autoneg`: autonegotiation enabled
/// and restarted.
pub open spec fn autoneg_restarted(v: u16) -> u16 {
    with_bit16(with_bit16(v, 12, true), 9, true)
}

/// The LED value written by `set_leds`: LED0 on while a copper link is up,
/// LED1 blinking on activity.
pub open spec fn leds_configured(v: u16) -> u16 {
    with_bits16(
        with_bits16(v, 0, 3, led0_code(Led0Control::OnCopperLinkOffElse)),
        4,
        7,
        led1_code(Led1Control::BlinkActivityOffNoActivity),
    )
}

impl Phy {
    /// Reads the control register, passes it through `f` and writes it back.
    pub fn modify_control<PA, F>(&self, pa: &mut PA, f: F)
        where
            PA: PhyAccess,
            F: FnOnce(Control) -> Control,
        requires
            forall|x: Control| f.requires((x,)),
            self.addr < 32,
        ensures
            final(pa).mdio_log().len() == old(pa).mdio_log().len() + 2,
            final(pa).mdio_log().subrange(0, old(pa).mdio_log().len() as int) == old(pa).mdio_log(),
            ({
                let n = old(pa).mdio_log().len() as int;
                let log = final(pa).mdio_log();
                exists|v: u16, w: Control|
                    #![trigger f.ensures((Control(v),), w)]
                    log[n] == (PhyOp::Read { addr: self.addr, reg: 0, value: v })
                    && f.ensures((Control(v),), w)
                    && log[n + 1] == (PhyOp::Write { addr: self.addr, reg: 0, value: w.0 })
            }),
    {
        self.modify_reg(pa, f)
    }

    /// Reads the LED register, passes it through `f` and writes it back.
    pub fn modify_leds<PA, F>(&self, pa: &mut PA, f: F)
        where
            PA: PhyAccess,
            F: FnOnce(Leds) -> Leds,
        requires
            forall|x: Leds| f.requires((x,)),
            self.addr < 32,
        ensures
            final(pa).mdio_log().len() == old(pa).mdio_log().len() + 2,
            final(pa).mdio_log().subrange(0, old(pa).mdio_log().len() as int) == old(pa).mdio_log(),
            ({
                let n = old(pa).mdio_log().len() as int;
                let log = final(pa).mdio_log();
                exists|v: u16, w: Leds|
                    #![trigger f.ensures((Leds(v),), w)]
                    log[n] == (PhyOp::Read { addr: self.addr, reg: 0x10, value: v })
                    && f.ensures((Leds(v),), w)
                    && log[n + 1] == (PhyOp::Write { addr: self.addr, reg: 0x10, value: w.0 })
            }),
    {
        self.modify_reg(pa, f)
    }

    /// Enables autonegotiation and restarts it.
    pub fn restart_autoneg<PA: PhyAccess>(&self, pa: &mut PA)
        requires
            self.addr < 32,
        ensures
            read_then_write(old(pa).mdio_log(), final(pa).mdio_log(), self.addr, 0,
                |v: u16| autoneg_restarted(v)),
    {
        let f = |control: Control| -> (r: Control)
            ensures
                r.0 == autoneg_restarted(control.0),
            { control.set_autoneg_enable(true).set_restart_autoneg(true) };
        self.modify_control(pa, f);
        proof {
            let n = old(pa).mdio_log().len() as int;
            let log = final(pa).mdio_log();
            let (v, w) = choose|v: u16, w: Control|
                #![trigger f.ensures((Control(v),), w)]
                log[n] == (PhyOp::Read { addr: self.addr, reg: 0, value: v })
                && f.ensures((Control(v),), w)
                && log[n + 1] == (PhyOp::Write { addr: self.addr, reg: 0, value: w.0 });
            let g = |v: u16| autoneg_restarted(v);
            assert(g(v) == w.0);
        }
    }

    /// Sets LED0 to show a copper link and LED1 to blink on activity.
    pub fn set_leds<PA: PhyAccess>(&self, pa: &mut PA)
        requires
            self.addr < 32,
        ensures
            read_then_write(old(pa).mdio_log(), final(pa).mdio_log(), self.addr, 0x10,
                |v: u16| leds_configured(v)),
    {
        let f = |leds: Leds| -> (r: Leds)
            ensures
                r.0 == leds_configured(leds.0),
            {
                leds.set_led0(Led0Control::OnCopperLinkOffElse)
                    .set_led1(Led1Control::BlinkActivityOffNoActivity)
            };
        self.modify_leds(pa, f);
        proof {
            let n = old(pa).mdio_log().len() as int;
            let log = final(pa).mdio_log();
            let (v, w) = choose|v: u16, w: Leds|
                #![trigger f.ensures((Leds(v),), w)]
                log[n] == (PhyOp::Read { addr: self.addr, reg: 0x10, value: v })
                && f.ensures((Leds(v),), w)
                && log[n + 1] == (PhyOp::Write { addr: self.addr, reg: 0x10, value: w.0 });
            let g = |v: u16| leds_configured(v);
            assert(g(v) == w.0);
        }
    }
}

} // verus!
