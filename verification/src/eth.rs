//! Gigabit Ethernet controller: transmit clock divisors, management clock,
//! MAC address layout and the reaction to link changes.
use vstd::prelude::*;
use crate::clocks::{best_divisor_pair, is_best_divisor_pair};
use crate::bits::{with_bit32, with_bits32, set_bit_u32, set_bits_u32};
use crate::phy::{Link, LinkSpeed, LinkDuplex, PhyAccess, PhyOp};
use crate::regs::Register;

pub mod rx;
pub mod tx;

verus! {

/// Size of all the buffers
pub const MTU: usize = 1536;
/// Maximum MDC clock
pub const MAX_MDC: u32 = 2_500_000;
/// Transmit clock for 10 Mb/s
pub const TX_10: u32 = 10_000_000;
/// Transmit clock for 100 Mb/s
pub const TX_100: u32 = 25_000_000;
/// Clock for GbE
pub const TX_1000: u32 = 125_000_000;

/// The transmit clock divisor product for a transmit clock: the I/O PLL
/// frequency over the clock, rounded up.
pub open spec fn tx_target(tx_clock: u32, io_pll: u32) -> int {
    (tx_clock - 1 + io_pll) / (tx_clock as int)
}

proof fn lemma_ceil_quotient(c: int, p: int)
    requires
        c > 0,
        p >= 0,
    ensures
        ((c - 1 + p) / c) * c >= p,
        ((c - 1 + p) / c - 1) * c < p,
{
    let x = c - 1 + p;
    vstd::arithmetic::div_mod::lemma_fundamental_div_mod(x, c);
    vstd::arithmetic::div_mod::lemma_mod_bound(x, c);
    let t = x / c;
    let r = x % c;
    assert(t * c == c * t) by (nonlinear_arith);
    assert((t - 1) * c == t * c - c) by (nonlinear_arith);
}

/// The divisor product aimed at is the I/O PLL frequency over the transmit
/// clock rounded up: the least product whose clock does not exceed the
/// requested one, so an exact pair of divisors never makes the transmit
/// clock faster than asked.
pub proof fn lemma_tx_target_rounds_up(tx_clock: u32, io_pll: u32)
    requires
        tx_clock > 0,
    ensures
        tx_target(tx_clock, io_pll) * tx_clock >= io_pll,
        (tx_target(tx_clock, io_pll) - 1) * tx_clock < io_pll,
{
    lemma_ceil_quotient(tx_clock as int, io_pll as int);
}

/// The two transmit clock divisors: the first pair from 1 to 62 whose
/// product is closest to the I/O PLL over the transmit clock, rounded up.
pub fn calculate_tx_divisors(tx_clock: u32, io_pll: u32) -> (r: (u8, u8))
    requires
        tx_clock > 0,
        tx_clock - 1 + io_pll <= u32::MAX,
    ensures
        is_best_divisor_pair(tx_target(tx_clock, io_pll), r.0 as int, r.1 as int),
{
    let target = (tx_clock - 1 + io_pll) / tx_clock;
    best_divisor_pair(target)
}

/// The GEM reference clock control value: clock active (bit 0), I/O PLL
/// source (bits 4 to 6 zero), first divisor in bits 8 to 13, second in bits
/// 20 to 25.
pub open spec fn gem_clk_ctrl_value(d0: u8, d1: u8) -> u32 {
    1u32 | ((d0 as u32) << 8u32) | ((d1 as u32) << 20u32)
}

/// Sets the GEM transmit clock to about `tx_clock` Hz from the I/O PLL at
/// `io_pll` Hz, and enables the receive clock.
pub fn setup_clock(tx_clock: u32, io_pll: u32, gem_clk_ctrl: &mut Register, gem_rclk_ctrl: &mut Register)
    requires
        tx_clock > 0,
        tx_clock - 1 + io_pll <= u32::MAX,
    ensures
        exists|d0: u8, d1: u8|
            is_best_divisor_pair(tx_target(tx_clock, io_pll), d0 as int, d1 as int)
                && final(gem_clk_ctrl).value == gem_clk_ctrl_value(d0, d1),
        final(gem_clk_ctrl).writes@ == old(gem_clk_ctrl).writes@.push(final(gem_clk_ctrl).value),
        final(gem_rclk_ctrl).value == 1,
        final(gem_rclk_ctrl).writes@ == old(gem_rclk_ctrl).writes@.push(1),
{
    let (d0, d1) = calculate_tx_divisors(tx_clock, io_pll);
    gem_clk_ctrl.write(1u32 | ((d0 as u32) << 8u32) | ((d1 as u32) << 20u32));
    gem_rclk_ctrl.write(1);
    assert(is_best_divisor_pair(tx_target(tx_clock, io_pll), d0 as int, d1 as int)
        && gem_clk_ctrl.value == gem_clk_ctrl_value(d0, d1));
}

/// The MDC clock divider field: the 1x CPU clock over the maximal MDC clock,
/// plus one, over 16, at most 7.
pub fn mdc_clk_div(cpu_1x: u32) -> (r: u8)
    ensures
        r as int == if (cpu_1x / MAX_MDC + 1) / 16 < 7 { (cpu_1x / MAX_MDC + 1) / 16 } else { 7 },
        r == mdc_div(cpu_1x),
{
    let d = cpu_1x / MAX_MDC + 1;
    let f = d >> 4;
    assert(f == d / 16) by (bit_vector)
        requires f == d >> 4u32;
    if f < 7 {
        f as u8
    } else {
        7
    }
}

/// The MAC address as the two specific-address registers take it: the first
/// two bytes as the top half, the last four as the bottom word, most
/// significant byte first.
pub fn mac_address_halves(macaddr: [u8; 6]) -> (r: (u16, u32))
    ensures
        r.0 as int == macaddr[0] * 0x100 + macaddr[1],
        r.1 as int == macaddr[2] * 0x1000000 + macaddr[3] * 0x10000 + macaddr[4] * 0x100 + macaddr[5],
{
    let b0 = macaddr[0];
    let b1 = macaddr[1];
    let b2 = macaddr[2];
    let b3 = macaddr[3];
    let b4 = macaddr[4];
    let b5 = macaddr[5];
    let msbs = ((b0 as u16) << 8) | (b1 as u16);
    let lsbs = ((b2 as u32) << 24) | ((b3 as u32) << 16) | ((b4 as u32) << 8) | (b5 as u32);
    assert(msbs as int == b0 * 0x100 + b1 && lsbs as int == b2 * 0x1000000 + b3 * 0x10000 + b4 * 0x100 + b5)
        by (bit_vector)
        requires
            msbs == ((b0 as u16) << 8u16) | (b1 as u16),
            lsbs == ((b2 as u32) << 24u32) | ((b3 as u32) << 16u32) | ((b4 as u32) << 8u32) | (b5 as u32),
    ;
    (msbs, lsbs)
}

/// The transmit clock for a link speed.
pub open spec fn tx_clock_for(speed: LinkSpeed) -> u32 {
    match speed {
        LinkSpeed::S10 => TX_10,
        LinkSpeed::S100 => TX_100,
        LinkSpeed::S1000 => TX_1000,
    }
}

/// What the controller does about a link change.
#[derive(Copy, Clone, Debug, PartialEq, Eq, Structural)]
pub enum LinkAction {
    /// Nothing changed.
    Keep,
    /// A link came up: set the transmit clock and the network
    /// configuration's full duplex, gigabit and 100 Mb/s bits.
    Configure { tx_clock: u32, full_duplex: bool, gige: bool, speed: bool },
    /// The link was lost: restart autonegotiation.
    RestartAutoneg,
}

/// The decision of a link check: the link to remember and the action to
/// take. While a link is known, nothing is checked.
pub open spec fn link_decision(current: Option<Link>, observed: Option<Link>) -> (Option<Link>, LinkAction) {
    if current is Some || current == observed {
        (current, LinkAction::Keep)
    } else {
        match observed {
            Some(link) => (observed, LinkAction::Configure {
                tx_clock: tx_clock_for(link.speed),
                full_duplex: link.duplex == LinkDuplex::Full,
                gige: link.speed == LinkSpeed::S1000,
                speed: link.speed != LinkSpeed::S10,
            }),
            None => (observed, LinkAction::RestartAutoneg),
        }
    }
}

/// Decides on a link change. `current` is the link known so far; when there
/// is one the PHY is not asked and `observed` does not matter, else
/// `observed` is the link the PHY reports.
pub fn check_link_change(current: Option<Link>, observed: Option<Link>) -> (r: (Option<Link>, LinkAction))
    ensures
        r == link_decision(current, observed),
{
    if current.is_some() {
        return (current, LinkAction::Keep);
    }
    if current != observed {
        match observed {
            Some(link) => {
                let tx_clock = match link.speed {
                    LinkSpeed::S10 => TX_10,
                    LinkSpeed::S100 => TX_100,
                    LinkSpeed::S1000 => TX_1000,
                };
                (observed, LinkAction::Configure {
                    tx_clock,
                    full_duplex: link.duplex == LinkDuplex::Full,
                    gige: link.speed == LinkSpeed::S1000,
                    speed: link.speed != LinkSpeed::S10,
                })
            },
            None => (observed, LinkAction::RestartAutoneg),
        }
    } else {
        (current, LinkAction::Keep)
    }
}

/// NET_CFG after a new link: the 100 Mb/s bit (0), full duplex (bit 1) and
/// gigabit (bit 10) as the link gives them, the other bits kept.
pub open spec fn net_cfg_for_link(cfg: u32, full_duplex: bool, gige: bool, speed: bool) -> u32 {
    with_bit32(with_bit32(with_bit32(cfg, 1, full_duplex), 10, gige), 0, speed)
}

/// Sets the speed, duplex and gigabit bits of NET_CFG for a new link, as
/// `LinkAction::Configure` gives them.
pub fn set_link_mode(net_cfg: &mut Register, full_duplex: bool, gige: bool, speed: bool)
    ensures
        final(net_cfg).value == net_cfg_for_link(old(net_cfg).value, full_duplex, gige, speed),
        final(net_cfg).writes@ == old(net_cfg).writes@.push(final(net_cfg).value),
{
    let v = set_bit_u32(set_bit_u32(set_bit_u32(net_cfg.value, 1, full_duplex), 10, gige), 0, speed);
    net_cfg.write(v);
}

/// A link check never asks to restart autonegotiation: it only runs while no
/// link is known, and then a lost link is no change.
pub proof fn lemma_no_restart_without_link(current: Option<Link>, observed: Option<Link>)
    ensures
        link_decision(current, observed).1 != LinkAction::RestartAutoneg,
{
}

/// The MDC clock divider field for a 1x CPU clock (see `mdc_clk_div`).
pub open spec fn mdc_div(cpu_1x: u32) -> u8 {
    (if (cpu_1x / MAX_MDC + 1) / 16 < 7 { (cpu_1x / MAX_MDC + 1) / 16 } else { 7 }) as u8
}

/// The GEM registers that the controller's set-up writes.
pub struct GemRegs {
    pub net_ctrl: Register,
    pub net_cfg: Register,
    pub dma_cfg: Register,
    pub tx_status: Register,
    pub rx_qbar: Register,
    pub tx_qbar: Register,
    pub rx_status: Register,
    pub intr_dis: Register,
    pub spec_addr1_bot: Register,
    pub spec_addr1_top: Register,
    /// Every write to the controller, oldest first, as (offset in the
    /// register block, value): the order in which the device must see them.
    pub journal: Vec<(u32, u32)>,
}

/// Offsets of the controller registers that the driver writes.
pub const NET_CTRL_OFFSET: u32 = 0x00;
pub const NET_CFG_OFFSET: u32 = 0x04;
pub const DMA_CFG_OFFSET: u32 = 0x10;
pub const TX_STATUS_OFFSET: u32 = 0x14;
pub const RX_QBAR_OFFSET: u32 = 0x18;
pub const TX_QBAR_OFFSET: u32 = 0x1C;
pub const RX_STATUS_OFFSET: u32 = 0x20;
pub const INTR_DIS_OFFSET: u32 = 0x2C;
pub const SPEC_ADDR1_BOT_OFFSET: u32 = 0x88;
pub const SPEC_ADDR1_TOP_OFFSET: u32 = 0x8C;

/// The writes of `init`, in order: the controller stopped, its statistics
/// cleared, the status bits cleared, every interrupt disabled and both queue
/// bases zeroed.
pub open spec fn init_journal() -> Seq<(u32, u32)> {
    seq![
        (NET_CTRL_OFFSET, 0u32),
        (NET_CTRL_OFFSET, net_ctrl_clear_stats()),
        (RX_STATUS_OFFSET, rx_status_clear()),
        (TX_STATUS_OFFSET, tx_status_clear()),
        (INTR_DIS_OFFSET, intr_dis_all()),
        (RX_QBAR_OFFSET, 0u32),
        (TX_QBAR_OFFSET, 0u32),
    ]
}

/// The writes of `configure`, in order, for the MAC address halves `top` and
/// `bot` and the MDC divisor code `mdc`: the management port is enabled last.
pub open spec fn configure_journal(mdc: u8, top: u32, bot: u32) -> Seq<(u32, u32)> {
    seq![
        (NET_CFG_OFFSET, net_cfg_value(mdc)),
        (SPEC_ADDR1_TOP_OFFSET, top),
        (SPEC_ADDR1_BOT_OFFSET, bot),
        (DMA_CFG_OFFSET, dma_cfg_value()),
        (NET_CTRL_OFFSET, net_ctrl_mgmt_port()),
    ]
}

/// NET_CTRL with only the statistics-clear bit (5).
pub open spec fn net_ctrl_clear_stats() -> u32 {
    with_bit32(0, 5, true)
}

/// NET_CTRL with only the management port enabled (bit 4).
pub open spec fn net_ctrl_mgmt_port() -> u32 {
    with_bit32(0, 4, true)
}

/// RX_STATUS with the four status flags set, which clears them: no buffer
/// (0), frame received (1), overrun (2), bus error (3).
pub open spec fn rx_status_clear() -> u32 {
    with_bit32(with_bit32(with_bit32(with_bit32(0, 0, true), 1, true), 2, true), 3, true)
}

/// TX_STATUS with its nine status flags (bits 0 to 8) set, which clears
/// them.
pub open spec fn tx_status_clear() -> u32 {
    with_bits32(0, 0, 8, 0x1FF)
}

/// INTR_DIS disabling every interrupt: bits 0 to 7 and 9 to 26.
pub open spec fn intr_dis_all() -> u32 {
    with_bits32(with_bits32(0, 0, 7, 0xFF), 9, 26, 0x3FFFF)
}

/// NET_CFG: 100 Mb/s (bit 0), full duplex (1), copy all frames (4),
/// multicast hash (6), gigabit (10), FCS removal (17), the MDC clock divider
/// (bits 18 to 20) and receive checksum offload (24); broadcasts are
/// received.
pub open spec fn net_cfg_value(mdc: u8) -> u32 {
    let a = with_bit32(with_bit32(with_bit32(0, 1, true), 10, true), 0, true);
    let b = with_bit32(with_bit32(with_bit32(a, 5, false), 6, true), 4, true);
    with_bit32(with_bits32(with_bit32(b, 17, true), 18, 20, mdc as u32), 24, true)
}

/// DMA_CFG: receive buffers of 1536 bytes (24 units of 64, bits 16 to 23),
/// 8 KiB receive packet buffer (bits 8 and 9 at `0b11`), 4 KiB transmit
/// packet buffer (bit 10), transmit checksum offload (bit 11),
/// little-endian management accesses (bit 6 clear) and INCR16 bursts
/// (bits 0 to 4 at `0x10`).
pub open spec fn dma_cfg_value() -> u32 {
    let a = with_bits32(with_bits32(0, 16, 23, 24), 8, 9, 3);
    with_bits32(with_bit32(with_bit32(with_bit32(a, 10, true), 11, true), 6, false), 0, 4, 0x10)
}

proof fn lemma_gem_values(mdc: u32)
    by (bit_vector)
    requires
        mdc < 8,
    ensures
        with_bit32(0u32, 5, true) == 0x20u32,
        with_bit32(0u32, 4, true) == 0x10u32,
        with_bit32(with_bit32(with_bit32(with_bit32(0u32, 0, true), 1, true), 2, true), 3, true) == 0xFu32,
        with_bits32(0u32, 0, 8, 0x1FF) == 0x1FFu32,
        with_bits32(with_bits32(0u32, 0, 7, 0xFF), 9, 26, 0x3FFFF) == 0x07FF_FEFFu32,
        net_cfg_value(mdc as u8) == 0x0102_0453u32 | (mdc << 18u32),
        dma_cfg_value() == 0x0018_0F10u32,
{
}

/// The controller's reset state: NET_CTRL cleared, then the statistics
/// cleared; the receive and transmit status flags cleared; every interrupt
/// disabled; both buffer queue bases cleared.
pub fn init(regs: &mut GemRegs)
    ensures
        final(regs).net_ctrl.writes@ == old(regs).net_ctrl.writes@.push(0).push(net_ctrl_clear_stats()),
        final(regs).net_ctrl.value == net_ctrl_clear_stats(),
        final(regs).rx_status.writes@ == old(regs).rx_status.writes@.push(rx_status_clear()),
        final(regs).rx_status.value == rx_status_clear(),
        final(regs).tx_status.writes@ == old(regs).tx_status.writes@.push(tx_status_clear()),
        final(regs).tx_status.value == tx_status_clear(),
        final(regs).intr_dis.writes@ == old(regs).intr_dis.writes@.push(intr_dis_all()),
        final(regs).intr_dis.value == intr_dis_all(),
        final(regs).rx_qbar.writes@ == old(regs).rx_qbar.writes@.push(0),
        final(regs).rx_qbar.value == 0,
        final(regs).tx_qbar.writes@ == old(regs).tx_qbar.writes@.push(0),
        final(regs).tx_qbar.value == 0,
        final(regs).net_cfg == old(regs).net_cfg,
        final(regs).dma_cfg == old(regs).dma_cfg,
        final(regs).spec_addr1_bot == old(regs).spec_addr1_bot,
        final(regs).spec_addr1_top == old(regs).spec_addr1_top,
        final(regs).journal@ == old(regs).journal@ + init_journal(),
{
    proof {
        lemma_gem_values(0);
    }
    regs.net_ctrl.write(0);
    regs.journal.push((NET_CTRL_OFFSET, 0));
    regs.net_ctrl.write(0x20);
    regs.journal.push((NET_CTRL_OFFSET, 0x20));
    regs.rx_status.write(0xF);
    regs.journal.push((RX_STATUS_OFFSET, 0xF));
    regs.tx_status.write(0x1FF);
    regs.journal.push((TX_STATUS_OFFSET, 0x1FF));
    regs.intr_dis.write(0x07FF_FEFF);
    regs.journal.push((INTR_DIS_OFFSET, 0x07FF_FEFF));
    regs.rx_qbar.write(0);
    regs.journal.push((RX_QBAR_OFFSET, 0));
    regs.tx_qbar.write(0);
    regs.journal.push((TX_QBAR_OFFSET, 0));
    proof {
        assert(regs.journal@ =~= old(regs).journal@ + init_journal());
    }
}

/// The controller's configuration for `macaddr` under a 1x CPU clock of
/// `cpu_1x` Hz: the network configuration, the MAC address (first two bytes
/// in the top register, the last four in the bottom one), the DMA
/// configuration, then the management port enabled.
pub fn configure(regs: &mut GemRegs, macaddr: [u8; 6], cpu_1x: u32)
    ensures
        final(regs).net_cfg.writes@ == old(regs).net_cfg.writes@.push(net_cfg_value(mdc_div(cpu_1x))),
        final(regs).net_cfg.value == net_cfg_value(mdc_div(cpu_1x)),
        final(regs).spec_addr1_top.writes@ == old(regs).spec_addr1_top.writes@.push(
            (macaddr[0] * 0x100 + macaddr[1]) as u32,
        ),
        final(regs).spec_addr1_top.value == (macaddr[0] * 0x100 + macaddr[1]) as u32,
        final(regs).spec_addr1_bot.writes@ == old(regs).spec_addr1_bot.writes@.push(
            (macaddr[2] * 0x1000000 + macaddr[3] * 0x10000 + macaddr[4] * 0x100 + macaddr[5]) as u32,
        ),
        final(regs).spec_addr1_bot.value
            == (macaddr[2] * 0x1000000 + macaddr[3] * 0x10000 + macaddr[4] * 0x100 + macaddr[5]) as u32,
        final(regs).dma_cfg.writes@ == old(regs).dma_cfg.writes@.push(dma_cfg_value()),
        final(regs).dma_cfg.value == dma_cfg_value(),
        final(regs).net_ctrl.writes@ == old(regs).net_ctrl.writes@.push(net_ctrl_mgmt_port()),
        final(regs).net_ctrl.value == net_ctrl_mgmt_port(),
        final(regs).tx_status == old(regs).tx_status,
        final(regs).rx_status == old(regs).rx_status,
        final(regs).intr_dis == old(regs).intr_dis,
        final(regs).rx_qbar == old(regs).rx_qbar,
        final(regs).tx_qbar == old(regs).tx_qbar,
        final(regs).journal@ == old(regs).journal@ + configure_journal(
            mdc_div(cpu_1x),
            (macaddr[0] * 0x100 + macaddr[1]) as u32,
            (macaddr[2] * 0x1000000 + macaddr[3] * 0x10000 + macaddr[4] * 0x100 + macaddr[5]) as u32,
        ),
{
    let mdc = mdc_clk_div(cpu_1x);
    proof {
        lemma_gem_values(mdc as u32);
    }
    let cfg: u32 = 0x0102_0453 | ((mdc as u32) << 18);
    regs.net_cfg.write(cfg);
    regs.journal.push((NET_CFG_OFFSET, cfg));
    let (msbs, lsbs) = mac_address_halves(macaddr);
    regs.spec_addr1_top.write(msbs as u32);
    regs.journal.push((SPEC_ADDR1_TOP_OFFSET, msbs as u32));
    regs.spec_addr1_bot.write(lsbs);
    regs.journal.push((SPEC_ADDR1_BOT_OFFSET, lsbs));
    regs.dma_cfg.write(0x0018_0F10);
    regs.journal.push((DMA_CFG_OFFSET, 0x0018_0F10));
    regs.net_ctrl.write(0x10);
    regs.journal.push((NET_CTRL_OFFSET, 0x10));
    proof {
        assert(regs.journal@ =~= old(regs).journal@ + configure_journal(
            mdc_div(cpu_1x),
            (macaddr[0] * 0x100 + macaddr[1]) as u32,
            (macaddr[2] * 0x1000000 + macaddr[3] * 0x10000 + macaddr[4] * 0x100 + macaddr[5]) as u32,
        ));
    }
}

/// The PHY maintenance value of a clause-22 management frame: data (bits 0
/// to 15), the fixed `0b10` (16 and 17), register (18 to 22), PHY (23 to
/// 27), operation (28 and 29: `0b10` read, `0b01` write) and the clause-22
/// bit (30).
pub open spec fn phy_maint_spec(write: bool, addr: u8, reg: u8, data: u16) -> u32 {
    let a = with_bits32(with_bits32(with_bits32(0, 0, 15, data as u32), 16, 17, 0b10), 18, 22, reg as u32);
    let op = if write { 0b01u32 } else { 0b10u32 };
    with_bit32(with_bits32(with_bits32(a, 23, 27, addr as u32), 28, 29, op), 30, true)
}

/// The PHY maintenance value for one management access.
pub fn phy_maint_value(write: bool, addr: u8, reg: u8, data: u16) -> (r: u32)
    requires
        addr < 32,
        reg < 32,
    ensures
        r == phy_maint_spec(write, addr, reg, data),
{
    proof {
        crate::bits::lemma_mask_values();
    }
    let v = set_bits_u32(0, 0, 15, data as u32);
    let v = set_bits_u32(v, 16, 17, 0b10);
    let v = set_bits_u32(v, 18, 22, reg as u32);
    let v = set_bits_u32(v, 23, 27, addr as u32);
    let v = set_bits_u32(v, 28, 29, if write { 0b01 } else { 0b10 });
    set_bit_u32(v, 30, true)
}

/// One management frame on the MDIO bus: the controller shifts out the
/// PHY maintenance value `maint` and, once the bus is idle again, the data
/// field holds what the PHY answered (for a read).
pub trait MdioTransport {
    fn shift(&mut self, maint: u32) -> u16;
}

/// PHY access through the GEM's management port; `log` records the
/// accesses made.
pub struct GemMdio<T: MdioTransport> {
    pub transport: T,
    pub log: Ghost<Seq<PhyOp>>,
}

impl<T: MdioTransport> GemMdio<T> {
    /// Access through `transport`, with no access made yet.
    pub fn new(transport: T) -> (r: Self)
        ensures
            r.mdio_log() == Seq::<PhyOp>::empty(),
            r.transport == transport,
    {
        GemMdio { transport, log: Ghost(Seq::empty()) }
    }
}

impl<T: MdioTransport> PhyAccess for GemMdio<T> {
    open spec fn mdio_log(&self) -> Seq<PhyOp> {
        self.log@
    }

    /// A read frame; the answer is the data field after it.
    fn read_phy(&mut self, addr: u8, reg: u8) -> (r: u16) {
        let maint = phy_maint_value(false, addr, reg, 0);
        let v = self.transport.shift(maint);
        self.log = Ghost(self.log@.push(PhyOp::Read { addr, reg, value: v }));
        v
    }

    /// A write frame carrying `data`.
    fn write_phy(&mut self, addr: u8, reg: u8, data: u16) {
        let maint = phy_maint_value(true, addr, reg, data);
        let _ = self.transport.shift(maint);
        self.log = Ghost(self.log@.push(PhyOp::Write { addr, reg, value: data }));
    }
}

} // verus!
