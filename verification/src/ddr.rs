//! DDR DRAM controller: calibration clock divisors, controller settings and
//! status decoding.
use vstd::prelude::*;
use crate::bits::{bit32, bits32, with_bit32, with_bits32, get_bits_u32, set_bit_u32, set_bits_u32, lemma_mask_values};
use crate::clocks::{Clocks, best_divisor_pair, is_best_divisor_pair};
use crate::regs::Register;

verus! {

/// Micron MT41J256M8HX-15E: 667 MHz DDR3, as fitted on the ZC706.
pub const DDR_FREQ: u32 = 666_666_666;

/// MT41K256M16HA-125
pub const DCI_FREQ: u32 = 10_000_000;

/// Data bus width of the controller: 32 bits `0b00`, 16 bits `0b01`.
#[derive(Clone, Copy, Debug, PartialEq, Eq, Structural)]
pub enum DataBusWidth {
    Width32bit,
    Width16bit,
}

/// Operating mode of the controller, by its 3-bit code 0 to 7.
#[derive(Debug, Clone, Copy, PartialEq, Eq, Structural)]
pub enum ControllerStatus {
    Init,
    Normal,
    Powerdown,
    SelfRefresh,
    Powerdown1,
    Powerdown2,
    Powerdown3,
    Powerdown4,
}

/// The operating mode with a given code.
pub open spec fn status_of_code(c: u32) -> ControllerStatus {
    if c == 0 {
        ControllerStatus::Init
    } else if c == 1 {
        ControllerStatus::Normal
    } else if c == 2 {
        ControllerStatus::Powerdown
    } else if c == 3 {
        ControllerStatus::SelfRefresh
    } else if c == 4 {
        ControllerStatus::Powerdown1
    } else if c == 5 {
        ControllerStatus::Powerdown2
    } else if c == 6 {
        ControllerStatus::Powerdown3
    } else {
        ControllerStatus::Powerdown4
    }
}

/// The DCI clock divisor product the DDR clock calls for: the DDR clock over
/// the DCI clock, rounded up.
pub open spec fn dci_target(ddr: u32) -> int {
    (DCI_FREQ - 1 + ddr) / (DCI_FREQ as int)
}

/// The memory size of the ZC706 board, in bytes, from 1 MiB up: 1023 MiB.
pub open spec fn ddr_size() -> nat {
    1023 * 1024 * 1024
}

/// The registers of the DDR controller that the driver uses.
pub struct DdrcRegs {
    pub ddrc_ctrl: Register,
    pub dram_param0: Register,
    pub dram_param2: Register,
    pub dram_emr_mr: Register,
    pub dram_addr_map_bank: Register,
    pub dram_addr_map_col: Register,
    pub dram_addr_map_row: Register,
    pub phy_cmd_timeout_rddata_cpt: Register,
    pub mode_sts: Register,
    pub reg_2c: Register,
    pub dfi_timing: Register,
    pub phy_init_ratio3: Register,
    pub reg_65: Register,
    /// Every write to the controller, oldest first, as (offset in the
    /// register block, value): the order in which the device must see them.
    pub journal: Vec<(u32, u32)>,
}

pub struct DdrRam {
    pub regs: DdrcRegs,
}

impl DdrRam {
    /// The DCI clock divisors: of all pairs from 1 to 62, the first whose
    /// product is closest to the DDR clock over the DCI clock, rounded up.
    pub fn calculate_dci_divisors(clocks: &Clocks) -> (r: (u8, u8))
        requires
            clocks.ddr <= u32::MAX - (DCI_FREQ - 1),
        ensures
            is_best_divisor_pair(dci_target(clocks.ddr), r.0 as int, r.1 as int),
    {
        let target: u32 = (DCI_FREQ - 1 + clocks.ddr) / DCI_FREQ;
        best_divisor_pair(target)
    }

    /// The controller's operating mode (bits 0 to 2 of MODE_STS).
    pub fn status(&self) -> (r: ControllerStatus)
        ensures
            r == status_of_code(bits32(self.regs.mode_sts.value, 0, 2)),
    {
        let c = get_bits_u32(self.regs.mode_sts.value, 0, 2);
        if c == 0 {
            ControllerStatus::Init
        } else if c == 1 {
            ControllerStatus::Normal
        } else if c == 2 {
            ControllerStatus::Powerdown
        } else if c == 3 {
            ControllerStatus::SelfRefresh
        } else if c == 4 {
            ControllerStatus::Powerdown1
        } else if c == 5 {
            ControllerStatus::Powerdown2
        } else if c == 6 {
            ControllerStatus::Powerdown3
        } else {
            ControllerStatus::Powerdown4
        }
    }

    /// Usable memory from 1 MiB up; the first megabyte overlaps the on-chip
    /// memory.
    pub fn size(&self) -> (r: usize)
        ensures
            r == ddr_size(),
    {
        1023 * 1024 * 1024
    }
}


/// DRAM_PARAM0 on the ZC706: t_RC `0x1b` (bits 0 to 5), t_RFC(min) `0x56`
/// (bits 6 to 13), post self-refresh gap `0x10` (bits 14 to 20).
pub open spec fn dram_param0_value() -> u32 {
    with_bits32(with_bits32(with_bits32(0, 0, 5, 0x1b), 6, 13, 0x56), 14, 20, 0x10)
}

/// DRAM_PARAM2: write latency 5, RD2WR 7, WR2RD 14, t_XP 4, pad power-down
/// 0, RD2PRE 4, t_RCD 7.
pub open spec fn dram_param2_value() -> u32 {
    with_bits32(with_bits32(with_bits32(with_bits32(with_bits32(with_bits32(with_bits32(
        0, 0, 4, 0x5), 5, 9, 0x7), 10, 14, 0xe), 15, 19, 0x4), 20, 22, 0x0), 23, 27, 0x4), 28, 31, 0x7)
}

/// DRAM_EMR_MR: mode register `0x930`, extended mode register `0x4`.
pub open spec fn dram_emr_mr_value() -> u32 {
    with_bits32(with_bits32(0, 0, 15, 0x930), 16, 31, 0x4)
}

/// PHY_CMD_TIMEOUT_RDDATA_CPT after the update: command-to-data delays 0,
/// write-enable-to-read-enable delay 8, FIFO reset on, fixed read enable,
/// no error-count clear, PHY control reset kept, clock stall level low,
/// 7 data bits for gate and write levelling; other bits as they were.
pub open spec fn phy_cmd_timeout_value(old: u32) -> u32 {
    with_bits32(with_bits32(
        with_bit32(with_bit32(with_bit32(with_bit32(with_bit32(
            with_bits32(with_bits32(with_bits32(old, 0, 3, 0x0), 4, 7, 0x0), 8, 11, 0x8),
            15, false), 16, true), 17, false), 18, false), 19, false),
        24, 27, 0x7), 28, 31, 0x7)
}

/// REG_2C: maximal write and read levelling time `0xfff`, no error flags,
/// write levelling, read DQS gate levelling and read data eye training on.
pub open spec fn reg_2c_value() -> u32 {
    with_bit32(with_bit32(with_bit32(with_bit32(with_bit32(
        with_bits32(with_bits32(0, 0, 11, 0xfff), 12, 23, 0xfff), 24, false), 25, false), 26, true), 27, true), 28, true)
}

/// DFI_TIMING: read data enable 6, minimal update 3, maximal update `0x40`.
pub open spec fn dfi_timing_value() -> u32 {
    with_bits32(with_bits32(with_bits32(0, 0, 4, 0x6), 5, 14, 0x3), 15, 24, 0x40)
}

/// PHY_INIT_RATIO3: write levelling ratio `0x21`, gate levelling ratio
/// `0xee`.
pub open spec fn phy_init_ratio3_value() -> u32 {
    with_bits32(with_bits32(0, 0, 9, 0x21), 10, 19, 0xee)
}

/// REG_65: write and read latency delays 2 and 4, DLL lock difference
/// `0xf`, write levelling, read DQS gate and read data eye levelling used,
/// calibration reset on, control slave delay 0.
pub open spec fn reg_65_value() -> u32 {
    with_bits32(with_bit32(with_bit32(with_bit32(with_bit32(
        with_bits32(with_bits32(with_bits32(0, 0, 4, 0x2), 5, 9, 0x4), 10, 13, 0xf),
        14, true), 15, true), 16, true), 17, false), 18, 19, 0x0)
}

/// DDRC_CTRL with the soft reset bit (bit 0) as given, power-down off
/// (bit 1) and the 32-bit data bus (bits 2 and 3 zero).
pub open spec fn ddrc_ctrl_value(old: u32, run: bool) -> u32 {
    with_bits32(with_bit32(with_bit32(old, 0, run), 1, false), 2, 3, 0)
}

fn fields32(x: u32, lo: u32, hi: u32, v: u32) -> (r: u32)
    requires
        lo <= hi < 32,
        hi - lo < 16,
        v <= crate::bits::mask32((hi - lo + 1) as u32),
    ensures
        r == with_bits32(x, lo, hi, v),
{
    set_bits_u32(x, lo, hi, v)
}

/// Offsets of the controller registers that the driver writes.
pub const DDRC_CTRL_OFFSET: u32 = 0x00;
pub const DRAM_PARAM0_OFFSET: u32 = 0x14;
pub const DRAM_PARAM2_OFFSET: u32 = 0x1C;
pub const DRAM_EMR_MR_OFFSET: u32 = 0x30;
pub const DRAM_ADDR_MAP_BANK_OFFSET: u32 = 0x3C;
pub const DRAM_ADDR_MAP_COL_OFFSET: u32 = 0x40;
pub const DRAM_ADDR_MAP_ROW_OFFSET: u32 = 0x44;
pub const PHY_CMD_TIMEOUT_OFFSET: u32 = 0x50;
pub const REG_2C_OFFSET: u32 = 0xB0;
pub const DFI_TIMING_OFFSET: u32 = 0xB8;
pub const PHY_INIT_RATIO3_OFFSET: u32 = 0x138;
pub const REG_65_OFFSET: u32 = 0x194;

/// The writes of `configure`, in order, from the command-timeout register's
/// previous contents `phy`.
pub open spec fn configure_journal(phy: u32) -> Seq<(u32, u32)> {
    seq![
        (DRAM_PARAM0_OFFSET, dram_param0_value()),
        (DRAM_PARAM2_OFFSET, dram_param2_value()),
        (DRAM_EMR_MR_OFFSET, dram_emr_mr_value()),
        (PHY_CMD_TIMEOUT_OFFSET, phy_cmd_timeout_value(phy)),
        (REG_2C_OFFSET, reg_2c_value()),
        (DFI_TIMING_OFFSET, dfi_timing_value()),
        (PHY_INIT_RATIO3_OFFSET, phy_init_ratio3_value()),
        (REG_65_OFFSET, reg_65_value()),
    ]
}

/// The writes of `reset_ddrc`, in order, from the previous contents `ctrl`
/// of DDRC_CTRL and `phy` of the command-timeout register: the controller
/// put in reset, the settings and address maps, the controller released.
pub open spec fn reset_journal(ctrl: u32, phy: u32) -> Seq<(u32, u32)> {
    let held = ddrc_ctrl_value(ctrl, false);
    seq![(DDRC_CTRL_OFFSET, held)] + configure_journal(phy) + seq![
        (DRAM_ADDR_MAP_BANK_OFFSET, 0x00000777u32),
        (DRAM_ADDR_MAP_COL_OFFSET, 0xFFF00000u32),
        (DRAM_ADDR_MAP_ROW_OFFSET, 0x0F666666u32),
        (DDRC_CTRL_OFFSET, ddrc_ctrl_value(held, true)),
    ]
}

/// The controller is configured only while it is held in reset: the first
/// write of a reset puts DDRC_CTRL's soft-reset bit (bit 0) low, no write in
/// between touches DDRC_CTRL, and only the last write sets the bit again.
pub proof fn lemma_configured_in_reset(ctrl: u32, phy: u32)
    ensures
        reset_journal(ctrl, phy).len() == 13,
        reset_journal(ctrl, phy)[0].0 == DDRC_CTRL_OFFSET,
        !bit32(reset_journal(ctrl, phy)[0].1, 0),
        forall|i: int| 0 < i < 12 ==> #[trigger] reset_journal(ctrl, phy)[i].0 != DDRC_CTRL_OFFSET,
        reset_journal(ctrl, phy)[12].0 == DDRC_CTRL_OFFSET,
        bit32(reset_journal(ctrl, phy)[12].1, 0),
{
    let held = ddrc_ctrl_value(ctrl, false);
    let run = ddrc_ctrl_value(held, true);
    assert(!bit32(with_bits32(with_bit32(with_bit32(ctrl, 0, false), 1, false), 2, 3, 0), 0)) by (bit_vector);
    assert(bit32(with_bits32(with_bit32(with_bit32(held, 0, true), 1, false), 2, 3, 0), 0)) by (bit_vector);
    let j = reset_journal(ctrl, phy);
    assert forall|i: int| 0 < i < 12 implies #[trigger] j[i].0 != DDRC_CTRL_OFFSET by {
        if i <= 8 {
            assert(j[i] == configure_journal(phy)[i - 1]);
        }
    }
}

impl DdrRam {
    /// Sets the DRAM timing, mode and PHY training parameters of the ZC706
    /// memory (the DDR3 settings of the reference manual's 10.6).
    pub fn configure(&mut self)
        ensures
            final(self).regs.dram_param0.writes@ == old(self).regs.dram_param0.writes@.push(dram_param0_value()),
            final(self).regs.dram_param0.value == dram_param0_value(),
            final(self).regs.dram_param2.writes@ == old(self).regs.dram_param2.writes@.push(dram_param2_value()),
            final(self).regs.dram_param2.value == dram_param2_value(),
            final(self).regs.dram_emr_mr.writes@ == old(self).regs.dram_emr_mr.writes@.push(dram_emr_mr_value()),
            final(self).regs.dram_emr_mr.value == dram_emr_mr_value(),
            final(self).regs.phy_cmd_timeout_rddata_cpt.writes@
                == old(self).regs.phy_cmd_timeout_rddata_cpt.writes@.push(
                    phy_cmd_timeout_value(old(self).regs.phy_cmd_timeout_rddata_cpt.value),
                ),
            final(self).regs.phy_cmd_timeout_rddata_cpt.value
                == phy_cmd_timeout_value(old(self).regs.phy_cmd_timeout_rddata_cpt.value),
            final(self).regs.reg_2c.writes@ == old(self).regs.reg_2c.writes@.push(reg_2c_value()),
            final(self).regs.reg_2c.value == reg_2c_value(),
            final(self).regs.dfi_timing.writes@ == old(self).regs.dfi_timing.writes@.push(dfi_timing_value()),
            final(self).regs.dfi_timing.value == dfi_timing_value(),
            final(self).regs.phy_init_ratio3.writes@ == old(self).regs.phy_init_ratio3.writes@.push(phy_init_ratio3_value()),
            final(self).regs.phy_init_ratio3.value == phy_init_ratio3_value(),
            final(self).regs.reg_65.writes@ == old(self).regs.reg_65.writes@.push(reg_65_value()),
            final(self).regs.reg_65.value == reg_65_value(),
            final(self).regs.ddrc_ctrl == old(self).regs.ddrc_ctrl,
            final(self).regs.mode_sts == old(self).regs.mode_sts,
            final(self).regs.dram_addr_map_bank == old(self).regs.dram_addr_map_bank,
            final(self).regs.dram_addr_map_col == old(self).regs.dram_addr_map_col,
            final(self).regs.dram_addr_map_row == old(self).regs.dram_addr_map_row,
            final(self).regs.journal@ == old(self).regs.journal@ + configure_journal(
                old(self).regs.phy_cmd_timeout_rddata_cpt.value,
            ),
    {
        proof {
            lemma_mask_values();
        }
        let v = fields32(fields32(fields32(0, 0, 5, 0x1b), 6, 13, 0x56), 14, 20, 0x10);
        self.regs.dram_param0.write(v);
        self.regs.journal.push((DRAM_PARAM0_OFFSET, v));

        let v = fields32(fields32(fields32(fields32(fields32(fields32(fields32(
            0, 0, 4, 0x5), 5, 9, 0x7), 10, 14, 0xe), 15, 19, 0x4), 20, 22, 0x0), 23, 27, 0x4), 28, 31, 0x7);
        self.regs.dram_param2.write(v);
        self.regs.journal.push((DRAM_PARAM2_OFFSET, v));

        let v = fields32(fields32(0, 0, 15, 0x930), 16, 31, 0x4);
        self.regs.dram_emr_mr.write(v);
        self.regs.journal.push((DRAM_EMR_MR_OFFSET, v));

        let prev = self.regs.phy_cmd_timeout_rddata_cpt.value;
        let v = fields32(fields32(fields32(prev, 0, 3, 0x0), 4, 7, 0x0), 8, 11, 0x8);
        let v = set_bit_u32(set_bit_u32(set_bit_u32(set_bit_u32(set_bit_u32(v, 15, false), 16, true), 17, false), 18, false), 19, false);
        let v = fields32(fields32(v, 24, 27, 0x7), 28, 31, 0x7);
        self.regs.phy_cmd_timeout_rddata_cpt.write(v);
        self.regs.journal.push((PHY_CMD_TIMEOUT_OFFSET, v));

        let v = fields32(fields32(0, 0, 11, 0xfff), 12, 23, 0xfff);
        let v = set_bit_u32(set_bit_u32(set_bit_u32(set_bit_u32(set_bit_u32(v, 24, false), 25, false), 26, true), 27, true), 28, true);
        self.regs.reg_2c.write(v);
        self.regs.journal.push((REG_2C_OFFSET, v));

        let v = fields32(fields32(fields32(0, 0, 4, 0x6), 5, 14, 0x3), 15, 24, 0x40);
        self.regs.dfi_timing.write(v);
        self.regs.journal.push((DFI_TIMING_OFFSET, v));

        let v = fields32(fields32(0, 0, 9, 0x21), 10, 19, 0xee);
        self.regs.phy_init_ratio3.write(v);
        self.regs.journal.push((PHY_INIT_RATIO3_OFFSET, v));

        let v = fields32(fields32(fields32(0, 0, 4, 0x2), 5, 9, 0x4), 10, 13, 0xf);
        let v = set_bit_u32(set_bit_u32(set_bit_u32(set_bit_u32(v, 14, true), 15, true), 16, true), 17, false);
        let v = fields32(v, 18, 19, 0x0);
        self.regs.reg_65.write(v);
        self.regs.journal.push((REG_65_OFFSET, v));
        proof {
            assert(self.regs.journal@ =~= old(self).regs.journal@ + configure_journal(
                old(self).regs.phy_cmd_timeout_rddata_cpt.value,
            ));
        }
    }

    /// Resets the controller around `configure`: controller held in reset
    /// with power-down off and a 32-bit bus, the settings and the ZC706 row,
    /// column and bank address maps written, then the controller released.
    /// The caller then waits until `status` leaves `Init`.
    pub fn reset_ddrc(&mut self)
        ensures
            final(self).regs.ddrc_ctrl.writes@ == old(self).regs.ddrc_ctrl.writes@.push(
                ddrc_ctrl_value(old(self).regs.ddrc_ctrl.value, false),
            ).push(ddrc_ctrl_value(ddrc_ctrl_value(old(self).regs.ddrc_ctrl.value, false), true)),
            final(self).regs.ddrc_ctrl.value
                == ddrc_ctrl_value(ddrc_ctrl_value(old(self).regs.ddrc_ctrl.value, false), true),
            final(self).regs.dram_addr_map_bank.writes@ == old(self).regs.dram_addr_map_bank.writes@.push(0x00000777),
            final(self).regs.dram_addr_map_bank.value == 0x00000777,
            final(self).regs.dram_addr_map_col.writes@ == old(self).regs.dram_addr_map_col.writes@.push(0xFFF00000),
            final(self).regs.dram_addr_map_col.value == 0xFFF00000,
            final(self).regs.dram_addr_map_row.writes@ == old(self).regs.dram_addr_map_row.writes@.push(0x0F666666),
            final(self).regs.dram_addr_map_row.value == 0x0F666666,
            final(self).regs.dram_param0.writes@ == old(self).regs.dram_param0.writes@.push(dram_param0_value()),
            final(self).regs.dram_param0.value == dram_param0_value(),
            final(self).regs.dram_param2.writes@ == old(self).regs.dram_param2.writes@.push(dram_param2_value()),
            final(self).regs.dram_param2.value == dram_param2_value(),
            final(self).regs.dram_emr_mr.writes@ == old(self).regs.dram_emr_mr.writes@.push(dram_emr_mr_value()),
            final(self).regs.dram_emr_mr.value == dram_emr_mr_value(),
            final(self).regs.phy_cmd_timeout_rddata_cpt.writes@
                == old(self).regs.phy_cmd_timeout_rddata_cpt.writes@.push(
                    phy_cmd_timeout_value(old(self).regs.phy_cmd_timeout_rddata_cpt.value),
                ),
            final(self).regs.phy_cmd_timeout_rddata_cpt.value
                == phy_cmd_timeout_value(old(self).regs.phy_cmd_timeout_rddata_cpt.value),
            final(self).regs.reg_2c.writes@ == old(self).regs.reg_2c.writes@.push(reg_2c_value()),
            final(self).regs.reg_2c.value == reg_2c_value(),
            final(self).regs.dfi_timing.writes@ == old(self).regs.dfi_timing.writes@.push(dfi_timing_value()),
            final(self).regs.dfi_timing.value == dfi_timing_value(),
            final(self).regs.phy_init_ratio3.writes@ == old(self).regs.phy_init_ratio3.writes@.push(phy_init_ratio3_value()),
            final(self).regs.phy_init_ratio3.value == phy_init_ratio3_value(),
            final(self).regs.reg_65.writes@ == old(self).regs.reg_65.writes@.push(reg_65_value()),
            final(self).regs.reg_65.value == reg_65_value(),
            final(self).regs.mode_sts == old(self).regs.mode_sts,
            final(self).regs.journal@ == old(self).regs.journal@ + reset_journal(
                old(self).regs.ddrc_ctrl.value,
                old(self).regs.phy_cmd_timeout_rddata_cpt.value,
            ),
    {
        proof {
            lemma_mask_values();
        }
        let held = fields32(set_bit_u32(set_bit_u32(self.regs.ddrc_ctrl.value, 0, false), 1, false), 2, 3, 0);
        self.regs.ddrc_ctrl.write(held);
        self.regs.journal.push((DDRC_CTRL_OFFSET, held));
        self.configure();
        self.regs.dram_addr_map_bank.write(0x00000777);
        self.regs.journal.push((DRAM_ADDR_MAP_BANK_OFFSET, 0x00000777));
        self.regs.dram_addr_map_col.write(0xFFF00000);
        self.regs.journal.push((DRAM_ADDR_MAP_COL_OFFSET, 0xFFF00000));
        self.regs.dram_addr_map_row.write(0x0F666666);
        self.regs.journal.push((DRAM_ADDR_MAP_ROW_OFFSET, 0x0F666666));
        let run = fields32(set_bit_u32(set_bit_u32(self.regs.ddrc_ctrl.value, 0, true), 1, false), 2, 3, 0);
        self.regs.ddrc_ctrl.write(run);
        self.regs.journal.push((DDRC_CTRL_OFFSET, run));
        proof {
            assert(self.regs.journal@ =~= old(self).regs.journal@ + reset_journal(
                old(self).regs.ddrc_ctrl.value,
                old(self).regs.phy_cmd_timeout_rddata_cpt.value,
            ));
        }
    }
}


/// The DDR I/O buffer registers of the SLCR block.
pub struct DdriobRegs {
    pub addr0: Register,
    pub addr1: Register,
    pub data0: Register,
    pub data1: Register,
    pub diff0: Register,
    pub diff1: Register,
    pub clock: Register,
    pub drive_slew_addr: Register,
    pub drive_slew_data: Register,
    pub drive_slew_diff: Register,
    pub drive_slew_clock: Register,
    pub ddr_ctrl: Register,
}

/// A DDRIOB_CONFIG value: input type (bits 1 and 2), termination enable
/// (bit 4), DCI type (bits 5 and 6) and output enable (bits 9 and 10).
pub open spec fn ddriob_config(inp_type: u32, term_en: bool, dci_type: u32, output_en: u32) -> u32 {
    with_bits32(with_bits32(with_bit32(with_bits32(0, 1, 2, inp_type), 4, term_en), 5, 6, dci_type), 9, 10, output_en)
}

/// DDRIOB_DDR_CTRL after the update: internal reference on (bit 0) at
/// 0.75 V (`0b0100` in bits 1 to 4), external references off (bits 5 and
/// 6); other bits as they were.
pub open spec fn ddriob_ddr_ctrl_value(old: u32) -> u32 {
    with_bit32(with_bit32(with_bits32(with_bit32(old, 0, true), 1, 4, 0b0100), 5, false), 6, false)
}

fn ddriob_config_value(inp_type: u32, term_en: bool, dci_type: u32, output_en: u32) -> (r: u32)
    requires
        inp_type < 4,
        dci_type < 4,
        output_en < 4,
    ensures
        r == ddriob_config(inp_type, term_en, dci_type, output_en),
{
    proof {
        lemma_mask_values();
    }
    fields32(fields32(set_bit_u32(fields32(0, 1, 2, inp_type), 4, term_en), 5, 6, dci_type), 9, 10, output_en)
}

/// DCI_CLK_CTRL: clock active (bit 0), divisors in bits 8 to 13 and 20 to 25.
pub open spec fn dci_clk_ctrl_value(d0: u8, d1: u8) -> u32 {
    with_bits32(with_bits32(with_bit32(0, 0, true), 8, 13, d0 as u32), 20, 25, d1 as u32)
}

/// The DDRIOB_DCI_CTRL values of the calibration start, in order: reset
/// released, reset asserted, the DDR3 reference options (NREF_OPT1 and 2
/// zero, NREF_OPT4 one, PREF_OPT1 and 2 zero), update control off, enable
/// on.
pub open spec fn dci_ctrl_steps(old: u32) -> Seq<u32> {
    let v1 = with_bit32(old, 0, false);
    let v2 = with_bit32(v1, 0, true);
    let v3 = with_bits32(with_bits32(with_bits32(with_bits32(with_bits32(v2, 6, 7, 0), 8, 10, 0), 11, 13, 1), 14, 15, 0), 17, 19, 0);
    let v4 = with_bit32(v3, 20, false);
    let v5 = with_bit32(v4, 1, true);
    seq![v1, v2, v3, v4, v5]
}

/// DDR_CLK_CTRL: both DDR clocks active, 3x divisor 2 (bits 20 to 25), 2x
/// divisor 3 (bits 26 to 31).
pub open spec fn ddr_clk_ctrl_value() -> u32 {
    with_bits32(with_bits32(with_bit32(with_bit32(0, 1, true), 0, true), 26, 31, 3), 20, 25, 2)
}

impl DdrRam {
    /// The DDR clock set-up (reference manual 10.6.1): returns the DDR PLL
    /// target frequency, twice the memory clock, and sets both DDR clocks
    /// active with divisors 2 (3x clock) and 3 (2x clock).
    pub fn clock_setup(ddr_clk_ctrl: &mut Register) -> (r: u32)
        ensures
            r == 2 * DDR_FREQ,
            final(ddr_clk_ctrl).writes@ == old(ddr_clk_ctrl).writes@.push(ddr_clk_ctrl_value()),
            final(ddr_clk_ctrl).value == ddr_clk_ctrl_value(),
    {
        proof {
            lemma_mask_values();
        }
        let v = fields32(fields32(set_bit_u32(set_bit_u32(0, 1, true), 0, true), 26, 31, 3), 20, 25, 2);
        ddr_clk_ctrl.write(v);
        2 * DDR_FREQ
    }

    /// The DDR I/O buffer set-up of the ZC706 (reference manual 10.6.3):
    /// address and clock pins as outputs, data and differential pins with
    /// VREF-differential and differential inputs, termination and DCI, the
    /// drive and slew settings, and the internal 0.75 V reference.
    pub fn configure_iob(r: &mut DdriobRegs)
        ensures
            final(r).addr0.writes@ == old(r).addr0.writes@.push(ddriob_config(0, false, 0, 0b11)),
            final(r).addr0.value == ddriob_config(0, false, 0, 0b11),
            final(r).addr1.writes@ == old(r).addr1.writes@.push(ddriob_config(0, false, 0, 0b11)),
            final(r).addr1.value == ddriob_config(0, false, 0, 0b11),
            final(r).data0.writes@ == old(r).data0.writes@.push(ddriob_config(0b01, true, 0b11, 0b11)),
            final(r).data0.value == ddriob_config(0b01, true, 0b11, 0b11),
            final(r).data1.writes@ == old(r).data1.writes@.push(ddriob_config(0b01, true, 0b11, 0b11)),
            final(r).data1.value == ddriob_config(0b01, true, 0b11, 0b11),
            final(r).diff0.writes@ == old(r).diff0.writes@.push(ddriob_config(0b10, true, 0b11, 0b11)),
            final(r).diff0.value == ddriob_config(0b10, true, 0b11, 0b11),
            final(r).diff1.writes@ == old(r).diff1.writes@.push(ddriob_config(0b10, true, 0b11, 0b11)),
            final(r).diff1.value == ddriob_config(0b10, true, 0b11, 0b11),
            final(r).clock.writes@ == old(r).clock.writes@.push(ddriob_config(0, false, 0, 0b11)),
            final(r).clock.value == ddriob_config(0, false, 0, 0b11),
            final(r).drive_slew_addr.writes@ == old(r).drive_slew_addr.writes@.push(0x0018C61C),
            final(r).drive_slew_addr.value == 0x0018C61C,
            final(r).drive_slew_data.writes@ == old(r).drive_slew_data.writes@.push(0x00F9861C),
            final(r).drive_slew_data.value == 0x00F9861C,
            final(r).drive_slew_diff.writes@ == old(r).drive_slew_diff.writes@.push(0x00F9861C),
            final(r).drive_slew_diff.value == 0x00F9861C,
            final(r).drive_slew_clock.writes@ == old(r).drive_slew_clock.writes@.push(0x00F9861C),
            final(r).drive_slew_clock.value == 0x00F9861C,
            final(r).ddr_ctrl.writes@ == old(r).ddr_ctrl.writes@.push(ddriob_ddr_ctrl_value(old(r).ddr_ctrl.value)),
            final(r).ddr_ctrl.value == ddriob_ddr_ctrl_value(old(r).ddr_ctrl.value),
    {
        proof {
            lemma_mask_values();
        }
        let addr_config = ddriob_config_value(0, false, 0, 0b11);
        r.addr0.write(addr_config);
        r.addr1.write(addr_config);
        let data_config = ddriob_config_value(0b01, true, 0b11, 0b11);
        r.data0.write(data_config);
        r.data1.write(data_config);
        let diff_config = ddriob_config_value(0b10, true, 0b11, 0b11);
        r.diff0.write(diff_config);
        r.diff1.write(diff_config);
        r.clock.write(ddriob_config_value(0, false, 0, 0b11));
        r.drive_slew_addr.write(0x0018C61C);
        r.drive_slew_data.write(0x00F9861C);
        r.drive_slew_diff.write(0x00F9861C);
        r.drive_slew_clock.write(0x00F9861C);
        let v = set_bit_u32(set_bit_u32(fields32(set_bit_u32(r.ddr_ctrl.value, 0, true), 1, 4, 0b0100), 5, false), 6, false);
        r.ddr_ctrl.write(v);
    }

    /// Starts the DDR I/O impedance calibration (reference manual 10.6.2):
    /// the DCI clock from the best divisor pair, then the DCI control steps.
    /// The caller then waits for the DONE bit of DDRIOB_DCI_STATUS.
    pub fn calibrate_iob_impedance(clocks: &Clocks, dci_clk_ctrl: &mut Register, ddriob_dci_ctrl: &mut Register)
        requires
            clocks.ddr <= u32::MAX - (DCI_FREQ - 1),
        ensures
            exists|d0: u8, d1: u8|
                is_best_divisor_pair(dci_target(clocks.ddr), d0 as int, d1 as int)
                    && final(dci_clk_ctrl).writes@ == old(dci_clk_ctrl).writes@.push(dci_clk_ctrl_value(d0, d1))
                    && final(dci_clk_ctrl).value == dci_clk_ctrl_value(d0, d1),
            final(ddriob_dci_ctrl).writes@ == old(ddriob_dci_ctrl).writes@ + dci_ctrl_steps(old(ddriob_dci_ctrl).value),
            final(ddriob_dci_ctrl).value == dci_ctrl_steps(old(ddriob_dci_ctrl).value).last(),
    {
        proof {
            lemma_mask_values();
        }
        let ghost c0 = dci_clk_ctrl.writes@;
        let (d0, d1) = Self::calculate_dci_divisors(clocks);
        let v = fields32(fields32(set_bit_u32(0, 0, true), 8, 13, d0 as u32), 20, 25, d1 as u32);
        dci_clk_ctrl.write(v);
        assert(is_best_divisor_pair(dci_target(clocks.ddr), d0 as int, d1 as int)
            && dci_clk_ctrl.writes@ == c0.push(dci_clk_ctrl_value(d0, d1))
            && dci_clk_ctrl.value == dci_clk_ctrl_value(d0, d1));

        let ghost w0 = ddriob_dci_ctrl.writes@;
        let old = ddriob_dci_ctrl.value;
        let v1 = set_bit_u32(old, 0, false);
        ddriob_dci_ctrl.write(v1);
        let v2 = set_bit_u32(v1, 0, true);
        ddriob_dci_ctrl.write(v2);
        let v3 = fields32(fields32(fields32(fields32(fields32(v2, 6, 7, 0), 8, 10, 0), 11, 13, 1), 14, 15, 0), 17, 19, 0);
        ddriob_dci_ctrl.write(v3);
        let v4 = set_bit_u32(v3, 20, false);
        ddriob_dci_ctrl.write(v4);
        let v5 = set_bit_u32(v4, 1, true);
        ddriob_dci_ctrl.write(v5);
        assert(ddriob_dci_ctrl.writes@ =~= w0 + dci_ctrl_steps(old));
    }
}

} // verus!
