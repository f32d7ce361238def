//! ARM Generic Interrupt Controller
use vstd::prelude::*;
use vstd::std_specs::convert::FromSpecImpl;
use crate::bits::{with_bit32, bits32, with_bits32, set_bit_u32, get_bits_u32, set_bits_u32};

verus! {

#[derive(Debug, Clone, Copy)]
pub struct InterruptId(pub u8);

/// A CPU core; its code in a target list is `0b01` for core 0 and `0b10` for
/// core 1.
#[derive(Debug, Clone, Copy, PartialEq, Eq, Structural)]
pub enum CPUCore {
    Core0,
    Core1,
}

/// The code of a core.
pub open spec fn core_code(core: CPUCore) -> u8 {
    match core {
        CPUCore::Core0 => 0b01,
        CPUCore::Core1 => 0b10,
    }
}

impl CPUCore {
    pub fn code(&self) -> (r: u8)
        ensures
            r == core_code(*self),
    {
        match self {
            CPUCore::Core0 => 0b01,
            CPUCore::Core1 => 0b10,
        }
    }
}

/// A set of CPU cores, one bit per core.
#[derive(Debug, Clone, Copy)]
pub struct TargetCPU(u8);

impl TargetCPU {
    /// The bits of the set.
    pub closed spec fn mask(self) -> u8 {
        self.0
    }

    pub fn bits(&self) -> (r: u8)
        ensures
            r == self.mask(),
    {
        self.0
    }

    /// The empty set.
    pub fn none() -> (r: TargetCPU)
        ensures
            r.mask() == 0,
    {
        TargetCPU(0)
    }

    /// The union of two sets.
    pub fn and(self, other: TargetCPU) -> (r: TargetCPU)
        ensures
            r.mask() == self.mask() | other.mask(),
    {
        TargetCPU(self.0 | other.0)
    }
}

/// The union of target sets is commutative, associative and idempotent, and
/// the empty set is its unit.
pub proof fn lemma_target_union(a: u8, b: u8, c: u8)
    by (bit_vector)
    ensures
        a | b == b | a,
        (a | b) | c == a | (b | c),
        a | a == a,
        a | 0u8 == a,
{
}

/// The register index and bit position of an interrupt id, computed with
/// shifts and masks, are its quotient and remainder.
proof fn lemma_id_split(i: u8)
    by (bit_vector)
    ensures
        i >> 5u8 == i / 32,
        i & 0x1Fu8 == i % 32,
        i >> 2u8 == i / 4,
        i & 3u8 == i % 4,
        i >> 4u8 == i / 16,
        i & 0xFu8 == i % 16,
{
}

impl From<CPUCore> for TargetCPU {
    fn from(core: CPUCore) -> (r: Self) {
        TargetCPU(core.code())
    }
}

impl FromSpecImpl<CPUCore> for TargetCPU {
    open spec fn obeys_from_spec() -> bool {
        true
    }

    closed spec fn from_spec(core: CPUCore) -> Self {
        TargetCPU(core_code(core))
    }
}

pub enum TargetList {
    CPUList(TargetCPU),
    Others,
    This,
}

impl From<CPUCore> for TargetList {
    fn from(core: CPUCore) -> (r: Self) {
        TargetList::CPUList(TargetCPU(core.code()))
    }
}

impl FromSpecImpl<CPUCore> for TargetList {
    open spec fn obeys_from_spec() -> bool {
        true
    }

    closed spec fn from_spec(core: CPUCore) -> Self {
        TargetList::CPUList(TargetCPU(core_code(core)))
    }
}

impl From<TargetCPU> for TargetList {
    fn from(cpu: TargetCPU) -> (r: Self) {
        TargetList::CPUList(cpu)
    }
}

impl FromSpecImpl<TargetCPU> for TargetList {
    open spec fn obeys_from_spec() -> bool {
        true
    }

    open spec fn from_spec(cpu: TargetCPU) -> Self {
        TargetList::CPUList(cpu)
    }
}

#[derive(Debug, Clone, Copy, PartialEq, Eq, Structural)]
pub enum InterruptSensitivity {
    Level,
    Edge,
}

/// The contents of the interrupt controller's registers in the mpcore block.
pub struct GicRegisters {
    /// CPU Interface Control Register
    pub iccicr: u32,
    /// Interrupt Priority Mask Register
    pub iccpmr: u32,
    /// Interrupt Acknowledge Register
    pub icciar: u32,
    /// End Of Interrupt Register
    pub icceoir: u32,
    /// Distributor Control Register
    pub icddcr: u32,
    /// Interrupt Set-enable Registers
    pub icdiser: [u32; 3],
    /// Interrupt Priority Registers
    pub icdipr: [u32; 24],
    /// Interrupt Processor Targets Registers
    pub icdiptr: [u32; 24],
    /// Interrupt Configuration Registers
    pub icdicfr: [u32; 6],
    /// Software Generated Interrupt Register
    pub icdsgir: u32,
}

/// The value that `send_sgi` leaves in ICDSGIR.
pub open spec fn sgi_value(old: u32, id: u8, targets: TargetList) -> u32 {
    let routed = match targets {
        TargetList::CPUList(list) => with_bits32(with_bits32(old, 24, 25, 0), 16, 23, list.mask() as u32),
        TargetList::Others => with_bits32(old, 24, 25, 0b01),
        TargetList::This => with_bits32(old, 24, 25, 0b10),
    };
    with_bit32(with_bits32(routed, 0, 3, id as u32), 15, false)
}

/// The 2-bit configuration code of a sensitivity.
pub open spec fn sensitivity_code(s: InterruptSensitivity) -> u32 {
    match s {
        InterruptSensitivity::Level => 0b00,
        InterruptSensitivity::Edge => 0b10,
    }
}

/// ICDIPR word `w` with the priority byte of interrupt `id` replaced by
/// `priority << 3`.
pub open spec fn priority_value(w: u32, id: u8, priority: u8) -> u32 {
    let offset = ((id % 4) * 8) as u32;
    (w & (0xFFFF_FFFFu32 ^ (0xFFu32 << offset))) | ((priority as u32) << ((offset + 3) as u32))
}

pub struct InterruptController {
    pub mpcore: GicRegisters,
}

impl InterruptController {
    pub fn new(mpcore: GicRegisters) -> (r: Self)
        ensures
            r.mpcore == mpcore,
    {
        InterruptController { mpcore }
    }

    /// Clears both interface enable bits of ICCICR.
    pub fn disable_interrupts(&mut self)
        ensures
            final(self).mpcore == (GicRegisters {
                iccicr: with_bit32(with_bit32(old(self).mpcore.iccicr, 1, false), 0, false),
                ..old(self).mpcore
            }),
    {
        let v = set_bit_u32(self.mpcore.iccicr, 1, false);
        self.mpcore.iccicr = set_bit_u32(v, 0, false);
    }

    /// Sets both interface enable bits of ICCICR, enables the secure
    /// distributor and unmasks every priority but the lowest.
    pub fn enable_interrupts(&mut self)
        ensures
            final(self).mpcore == (GicRegisters {
                iccicr: with_bit32(with_bit32(old(self).mpcore.iccicr, 1, true), 0, true),
                icddcr: with_bit32(old(self).mpcore.icddcr, 0, true),
                iccpmr: 0xFF,
                ..old(self).mpcore
            }),
    {
        let v = set_bit_u32(self.mpcore.iccicr, 1, true);
        self.mpcore.iccicr = set_bit_u32(v, 0, true);
        self.mpcore.icddcr = set_bit_u32(self.mpcore.icddcr, 0, true);
        self.mpcore.iccpmr = 0xFF;
    }

    /// Sends software generated interrupt `id`, which must be below 16.
    pub fn send_sgi(&mut self, id: InterruptId, targets: TargetList)
        requires
            id.0 < 16,
        ensures
            final(self).mpcore == (GicRegisters {
                icdsgir: sgi_value(old(self).mpcore.icdsgir, id.0, targets),
                ..old(self).mpcore
            }),
    {
        proof {
            crate::bits::lemma_mask_values();
        }
        let w = self.mpcore.icdsgir;
        let routed = match targets {
            TargetList::CPUList(list) => {
                let a = set_bits_u32(w, 24, 25, 0);
                set_bits_u32(a, 16, 23, list.bits() as u32)
            },
            TargetList::Others => set_bits_u32(w, 24, 25, 0b01),
            TargetList::This => set_bits_u32(w, 24, 25, 0b10),
        };
        let b = set_bits_u32(routed, 0, 3, id.0 as u32);
        self.mpcore.icdsgir = set_bit_u32(b, 15, false);
    }

    /// Enables interrupt `id` for `target_cpu` (its CPU-target bits take the
    /// core's own bit, `0b01` for core 0 and `0b10` for core 1) with the
    /// given sensitivity and priority. Only 5 bits of the priority are used, so it must be below
    /// 32; `id` must be below 96, the interrupts the distributor has.
    pub fn enable(&mut self, id: InterruptId, target_cpu: CPUCore, sensitivity: InterruptSensitivity, priority: u8)
        requires
            priority < 32,
            id.0 < 96,
        ensures
            final(self).mpcore.iccicr == with_bit32(with_bit32(
                with_bit32(with_bit32(old(self).mpcore.iccicr, 1, false), 0, false), 1, true), 0, true),
            final(self).mpcore.icddcr == with_bit32(old(self).mpcore.icddcr, 0, true),
            final(self).mpcore.iccpmr == 0xFF,
            final(self).mpcore.icdiser@ == old(self).mpcore.icdiser@.update(
                (id.0 / 32) as int,
                with_bit32(old(self).mpcore.icdiser[(id.0 / 32) as int], (id.0 % 32) as u32, true),
            ),
            final(self).mpcore.icdiptr@ == old(self).mpcore.icdiptr@.update(
                (id.0 / 4) as int,
                with_bits32(
                    old(self).mpcore.icdiptr[(id.0 / 4) as int],
                    (8 * (id.0 % 4)) as u32,
                    (8 * (id.0 % 4) + 1) as u32,
                    core_code(target_cpu) as u32,
                ),
            ),
            final(self).mpcore.icdicfr@ == old(self).mpcore.icdicfr@.update(
                (id.0 / 16) as int,
                with_bits32(
                    old(self).mpcore.icdicfr[(id.0 / 16) as int],
                    (2 * (id.0 % 16)) as u32,
                    (2 * (id.0 % 16) + 1) as u32,
                    sensitivity_code(sensitivity),
                ),
            ),
            final(self).mpcore.icdipr@ == old(self).mpcore.icdipr@.update(
                (id.0 / 4) as int,
                priority_value(old(self).mpcore.icdipr[(id.0 / 4) as int], id.0, priority),
            ),
            final(self).mpcore.icciar == old(self).mpcore.icciar,
            final(self).mpcore.icceoir == old(self).mpcore.icceoir,
            final(self).mpcore.icdsgir == old(self).mpcore.icdsgir,
    {
        self.disable_interrupts();
        let i = id.0;
        proof {
            lemma_id_split(i);
            crate::bits::lemma_mask_values();
        }

        // enable
        let m = (i >> 5) as usize;
        let n = (i & 0x1F) as u32;
        let v = set_bit_u32(self.mpcore.icdiser[m], n, true);
        self.mpcore.icdiser[m] = v;

        // target cpu
        let m = (i >> 2) as usize;
        let n = (8 * (i & 3)) as u32;
        let v = set_bits_u32(self.mpcore.icdiptr[m], n, n + 1, target_cpu.code() as u32);
        self.mpcore.icdiptr[m] = v;

        // sensitivity
        let m = (i >> 4) as usize;
        let n = (2 * (i & 0xF)) as u32;
        let code: u32 = match sensitivity {
            InterruptSensitivity::Level => 0b00,
            InterruptSensitivity::Edge => 0b10,
        };
        let v = set_bits_u32(self.mpcore.icdicfr[m], n, n + 1, code);
        self.mpcore.icdicfr[m] = v;

        // priority
        let offset: u32 = ((i % 4) * 8) as u32;
        let prio: u32 = (priority as u32) << (offset + 3);
        let mask: u32 = 0xFFFFFFFF ^ (0xFF << offset);
        let idx = (i / 4) as usize;
        let v = (self.mpcore.icdipr[idx] & mask) | prio;
        self.mpcore.icdipr[idx] = v;

        self.enable_interrupts();
    }

    /// Writes `id` to the end-of-interrupt field of ICCEOIR.
    pub fn end_interrupt(&mut self, id: InterruptId)
        ensures
            final(self).mpcore == (GicRegisters {
                icceoir: with_bits32(old(self).mpcore.icceoir, 0, 9, id.0 as u32),
                ..old(self).mpcore
            }),
    {
        proof {
            crate::bits::lemma_mask_values();
        }
        self.mpcore.icceoir = set_bits_u32(self.mpcore.icceoir, 0, 9, id.0 as u32);
    }

    /// The acknowledged interrupt: the low 8 bits of the 10-bit ID field of
    /// ICCIAR.
    pub fn get_interrupt_id(&self) -> (r: InterruptId)
        ensures
            r.0 == bits32(self.mpcore.icciar, 0, 9) as u8,
    {
        InterruptId(get_bits_u32(self.mpcore.icciar, 0, 9) as u8)
    }
}

} // verus!
