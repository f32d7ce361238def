//! Multiplexed I/O pin configuration values and the pin set-ups of the
//! peripherals.
use vstd::prelude::*;
use crate::bits::{with_bit32, with_bits32, set_bit_u32, set_bits_u32};
use crate::slcr::{IoBufferType, io_buffer_code};

verus! {

/// A MIO_PIN register value: tri-state enable (bit 0), the four levels of
/// the pin multiplexer (bits 1, 2, 3 to 4 and 5 to 7), fast speed (bit 8),
/// I/O buffer type (bits 9 to 11), pull-up (bit 12) and receiver disable
/// (bit 13).
#[derive(Clone, Copy, Debug, PartialEq, Eq, Structural)]
pub struct MioPin(pub u32);

impl MioPin {
    pub fn zeroed() -> (r: Self)
        ensures
            r.0 == 0,
    {
        MioPin(0)
    }

    pub fn tri_enable(self, v: bool) -> (r: Self)
        ensures
            r.0 == with_bit32(self.0, 0, v),
    {
        MioPin(set_bit_u32(self.0, 0, v))
    }

    pub fn l0_sel(self, v: bool) -> (r: Self)
        ensures
            r.0 == with_bit32(self.0, 1, v),
    {
        MioPin(set_bit_u32(self.0, 1, v))
    }

    pub fn l1_sel(self, v: bool) -> (r: Self)
        ensures
            r.0 == with_bit32(self.0, 2, v),
    {
        MioPin(set_bit_u32(self.0, 2, v))
    }

    pub fn l2_sel(self, v: u32) -> (r: Self)
        requires
            v < 4,
        ensures
            r.0 == with_bits32(self.0, 3, 4, v),
    {
        proof {
            crate::bits::lemma_mask_values();
        }
        MioPin(set_bits_u32(self.0, 3, 4, v))
    }

    pub fn l3_sel(self, v: u32) -> (r: Self)
        requires
            v < 8,
        ensures
            r.0 == with_bits32(self.0, 5, 7, v),
    {
        proof {
            crate::bits::lemma_mask_values();
        }
        MioPin(set_bits_u32(self.0, 5, 7, v))
    }

    pub fn speed(self, v: bool) -> (r: Self)
        ensures
            r.0 == with_bit32(self.0, 8, v),
    {
        MioPin(set_bit_u32(self.0, 8, v))
    }

    pub fn io_type(self, t: IoBufferType) -> (r: Self)
        ensures
            r.0 == with_bits32(self.0, 9, 11, io_buffer_code(t)),
    {
        proof {
            crate::bits::lemma_mask_values();
        }
        MioPin(set_bits_u32(self.0, 9, 11, t.code()))
    }

    pub fn pullup(self, v: bool) -> (r: Self)
        ensures
            r.0 == with_bit32(self.0, 12, v),
    {
        MioPin(set_bit_u32(self.0, 12, v))
    }

    pub fn disable_rcvr(self, v: bool) -> (r: Self)
        ensures
            r.0 == with_bit32(self.0, 13, v),
    {
        MioPin(set_bit_u32(self.0, 13, v))
    }
}

/// The pin values of the peripheral set-ups, built field by field.
proof fn lemma_pin_values()
    by (bit_vector)
    ensures
        with_bit32(with_bits32(with_bit32(0u32, 1, true), 9, 11, 1), 12, true) == 0x1202u32,
        with_bit32(with_bits32(with_bit32(0u32, 1, true), 9, 11, 1), 12, false) == 0x0202u32,
        with_bit32(with_bits32(with_bits32(0u32, 5, 7, 4), 9, 11, 1), 8, true) == 0x0380u32,
        with_bit32(with_bit32(with_bits32(0u32, 9, 11, 1), 12, true), 0, true) == 0x1201u32,
        with_bit32(with_bit32(with_bits32(with_bits32(0u32, 5, 7, 0), 9, 11, 1), 12, true), 13, true) == 0x3200u32,
        with_bit32(with_bits32(with_bits32(0u32, 5, 7, 4), 9, 11, 1), 12, true) == 0x1280u32,
        with_bit32(with_bit32(with_bits32(with_bit32(with_bit32(0u32, 1, true), 8, true), 9, 11, 4), 12, true), 13, true) == 0x3902u32,
        with_bit32(with_bits32(with_bit32(with_bit32(with_bit32(0u32, 0, true), 1, true), 8, true), 9, 11, 4), 12, true) == 0x1903u32,
{
}

/// A pin routed to the first multiplexer level at 1.8 V, with or without
/// pull-up: `0x0202`, or `0x1202` with pull-up.
pub open spec fn qspi_pin(pullup: bool) -> u32 {
    if pullup {
        0x1202
    } else {
        0x0202
    }
}

fn qspi_pin_value(pullup: bool) -> (r: u32)
    ensures
        r == qspi_pin(pullup),
{
    let v = MioPin::zeroed().l0_sel(true).io_type(IoBufferType::Lvcmos18).pullup(pullup);
    proof { lemma_pin_values(); }
    v.0
}

/// The quad-SPI pin set-up, as (pin, value) writes in order: chip select 0
/// (pin 1), I/O 0 to 3 (pins 2 to 5), clock 0 (pin 6), chip select 1 (pin 0),
/// clock 1 (pin 9), I/O 4 to 7 (pins 10 to 13) and the feedback clock
/// (pin 8).
pub open spec fn qspi_pin_setup() -> Seq<(u8, u32)> {
    seq![
        (1u8, qspi_pin(true)),
        (2u8, qspi_pin(false)),
        (3u8, qspi_pin(false)),
        (4u8, qspi_pin(false)),
        (5u8, qspi_pin(false)),
        (6u8, qspi_pin(false)),
        (0u8, qspi_pin(false)),
        (9u8, qspi_pin(true)),
        (10u8, qspi_pin(true)),
        (11u8, qspi_pin(true)),
        (12u8, qspi_pin(true)),
        (13u8, qspi_pin(true)),
        (8u8, qspi_pin(true)),
    ]
}

/// The quad-SPI flash pin set-up, written before the controller starts.
pub fn setup_signals() -> (r: Vec<(u8, u32)>)
    ensures
        r@ == qspi_pin_setup(),
{
    let mut v: Vec<(u8, u32)> = Vec::new();
    v.push((1, qspi_pin_value(true)));
    v.push((2, qspi_pin_value(false)));
    v.push((3, qspi_pin_value(false)));
    v.push((4, qspi_pin_value(false)));
    v.push((5, qspi_pin_value(false)));
    v.push((6, qspi_pin_value(false)));
    v.push((0, qspi_pin_value(false)));
    v.push((9, qspi_pin_value(true)));
    v.push((10, qspi_pin_value(true)));
    v.push((11, qspi_pin_value(true)));
    v.push((12, qspi_pin_value(true)));
    v.push((13, qspi_pin_value(true)));
    v.push((8, qspi_pin_value(true)));
    assert(v@ =~= qspi_pin_setup());
    v
}

/// An SD0 signal pin: the fourth multiplexer level (`0b100`), 1.8 V, fast:
/// `0x0380`.
pub const SD_PIN: u32 = 0x0380;

/// The ZC706 SD card-detect pin (MIO 14): 1.8 V, pull-up, tri-state:
/// `0x1201`.
pub const SD_CD_PIN: u32 = 0x1201;

/// The SD0 pin set-up on the ZC706, as (pin, value) writes in order: clock,
/// command and data 0 to 3 on pins 40 to 45, then the card-detect pin 14.
pub open spec fn sdio0_pin_setup() -> Seq<(u8, u32)> {
    seq![(40u8, SD_PIN), (41u8, SD_PIN), (42u8, SD_PIN), (43u8, SD_PIN), (44u8, SD_PIN), (45u8, SD_PIN), (14u8, SD_CD_PIN)]
}

/// The SD0 pin set-up on the ZC706; with it, the card-detect routing
/// register SD0_WP_CD_SEL takes `0x000E000F`.
pub fn sdio0_pins() -> (r: Vec<(u8, u32)>)
    ensures
        r@ == sdio0_pin_setup(),
{
    let sd = MioPin::zeroed().l3_sel(0b100).io_type(IoBufferType::Lvcmos18).speed(true);
    proof { lemma_pin_values(); }
    let cd = MioPin::zeroed().io_type(IoBufferType::Lvcmos18).pullup(true).tri_enable(true);
    let mut v: Vec<(u8, u32)> = Vec::new();
    v.push((40, sd.0));
    v.push((41, sd.0));
    v.push((42, sd.0));
    v.push((43, sd.0));
    v.push((44, sd.0));
    v.push((45, sd.0));
    v.push((14, cd.0));
    assert(v@ =~= sdio0_pin_setup());
    v
}

/// An I2C0 pin as GPIO: 1.8 V, pull-up, receiver disabled: `0x3200`.
pub const I2C_PIN: u32 = 0x3200;

/// The I2C0 pin set-up, as (pin, value) writes in order: SCL on pin 50, SDA
/// on pin 51, both as GPIO.
pub fn i2c0_pins() -> (r: Vec<(u8, u32)>)
    ensures
        r@ == seq![(50u8, I2C_PIN), (51u8, I2C_PIN)],
{
    let p = MioPin::zeroed().l3_sel(0).io_type(IoBufferType::Lvcmos18).pullup(true).disable_rcvr(true);
    proof { lemma_pin_values(); }
    let mut v: Vec<(u8, u32)> = Vec::new();
    v.push((50, p.0));
    v.push((51, p.0));
    assert(v@ =~= seq![(50u8, I2C_PIN), (51u8, I2C_PIN)]);
    v
}

/// An Ethernet management pin (MDIO, MDC): the fourth multiplexer level
/// (`0b100`), 1.8 V, pull-up: `0x1280`.
pub const ETH_MGMT_PIN: u32 = 0x1280;

/// An RGMII transmit pin: first multiplexer level, fast, HSTL, pull-up,
/// receiver disabled: `0x3902`.
pub const ETH_TX_PIN: u32 = 0x3902;

/// An RGMII receive pin: tri-state, first multiplexer level, fast, HSTL,
/// pull-up: `0x1903`, the reference manual's value.
pub const ETH_RX_PIN: u32 = 0x1903;

/// The GEM0 pin set-up, as (pin, value) writes in order: MDIO (53), MDC
/// (52), TX clock (16), TX control (21), TXD3 to TXD0 (20 to 17), RX clock
/// (22), RX control (27), RXD3 to RXD0 (26 to 23).
pub open spec fn eth0_pin_setup() -> Seq<(u8, u32)> {
    seq![
        (53u8, ETH_MGMT_PIN),
        (52u8, ETH_MGMT_PIN),
        (16u8, ETH_TX_PIN),
        (21u8, ETH_TX_PIN),
        (20u8, ETH_TX_PIN),
        (19u8, ETH_TX_PIN),
        (18u8, ETH_TX_PIN),
        (17u8, ETH_TX_PIN),
        (22u8, ETH_RX_PIN),
        (27u8, ETH_RX_PIN),
        (26u8, ETH_RX_PIN),
        (25u8, ETH_RX_PIN),
        (24u8, ETH_RX_PIN),
        (23u8, ETH_RX_PIN),
    ]
}

/// The GPIOB_CTRL value that turns on the internal VREF generator (bit 0),
/// written after the GEM0 pins.
pub const GPIOB_VREF_EN: u32 = 1;

/// The GEM0 pin set-up, written before the controller starts.
pub fn eth0_pins() -> (r: Vec<(u8, u32)>)
    ensures
        r@ == eth0_pin_setup(),
{
    let mgmt = MioPin::zeroed().l3_sel(0b100).io_type(IoBufferType::Lvcmos18).pullup(true);
    let tx = MioPin::zeroed().l0_sel(true).speed(true).io_type(IoBufferType::Hstl).pullup(true).disable_rcvr(true);
    let rx = MioPin::zeroed().tri_enable(true).l0_sel(true).speed(true).io_type(IoBufferType::Hstl).pullup(true);
    proof { lemma_pin_values(); }
    let mut v: Vec<(u8, u32)> = Vec::new();
    v.push((53, mgmt.0));
    v.push((52, mgmt.0));
    v.push((16, tx.0));
    v.push((21, tx.0));
    v.push((20, tx.0));
    v.push((19, tx.0));
    v.push((18, tx.0));
    v.push((17, tx.0));
    v.push((22, rx.0));
    v.push((27, rx.0));
    v.push((26, rx.0));
    v.push((25, rx.0));
    v.push((24, rx.0));
    v.push((23, rx.0));
    assert(v@ =~= eth0_pin_setup());
    v
}

} // verus!
