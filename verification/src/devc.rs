//! Device configuration interface: FIFO thresholds, the DMA set-up of
//! bitstream transfers, and the checks and waits around them.
use vstd::prelude::*;
use crate::bits::{bit32, with_bit32, bits32, mask32, get_bit_u32, set_bit_u32, get_bits_u32};

verus! {

/// Read FIFO threshold, by its code 0 to 3: one fourth, half, three
/// fourths or completely full.
#[derive(Copy, Clone, Debug, PartialEq, Eq, Structural)]
pub enum RFifoTh {
    OneFourthFull,
    HalfFull,
    ThreeFourthFull,
    Full,
}

pub open spec fn rfifo_th_code(x: RFifoTh) -> u32 {
    match x {
        RFifoTh::OneFourthFull => 0,
        RFifoTh::HalfFull => 1,
        RFifoTh::ThreeFourthFull => 2,
        RFifoTh::Full => 3,
    }
}

impl RFifoTh {
    pub fn code(&self) -> (r: u32)
        ensures
            r == rfifo_th_code(*self),
    {
        match self {
            RFifoTh::OneFourthFull => 0,
            RFifoTh::HalfFull => 1,
            RFifoTh::ThreeFourthFull => 2,
            RFifoTh::Full => 3,
        }
    }

    /// The read FIFO threshold field (bits 10 and 11) of a CFG value.
    pub fn from_register(v: u32) -> (r: Option<RFifoTh>)
        ensures
            r matches Some(x) ==> rfifo_th_code(x) == bits32(v, 10, 11),
            r is None ==> bits32(v, 10, 11) >= 4,
    {
        let c = get_bits_u32(v, 10, 11);
        if c == 0 {
            Some(RFifoTh::OneFourthFull)
        } else if c == 1 {
            Some(RFifoTh::HalfFull)
        } else if c == 2 {
            Some(RFifoTh::ThreeFourthFull)
        } else if c == 3 {
            Some(RFifoTh::Full)
        } else {
            None
        }
    }
}

/// Write FIFO threshold, by its code 0 to 3: one fourth, half, three
/// fourths or completely empty.
#[derive(Copy, Clone, Debug, PartialEq, Eq, Structural)]
pub enum WFifoTh {
    OneFourthEmpty,
    HalfEmpty,
    ThreeFourthEmpty,
    Empty,
}

pub open spec fn wfifo_th_code(x: WFifoTh) -> u32 {
    match x {
        WFifoTh::OneFourthEmpty => 0,
        WFifoTh::HalfEmpty => 1,
        WFifoTh::ThreeFourthEmpty => 2,
        WFifoTh::Empty => 3,
    }
}

impl WFifoTh {
    pub fn code(&self) -> (r: u32)
        ensures
            r == wfifo_th_code(*self),
    {
        match self {
            WFifoTh::OneFourthEmpty => 0,
            WFifoTh::HalfEmpty => 1,
            WFifoTh::ThreeFourthEmpty => 2,
            WFifoTh::Empty => 3,
        }
    }

    /// The write FIFO threshold field (bits 8 and 9) of a CFG value.
    pub fn from_register(v: u32) -> (r: Option<WFifoTh>)
        ensures
            r matches Some(x) ==> wfifo_th_code(x) == bits32(v, 8, 9),
            r is None ==> bits32(v, 8, 9) >= 4,
    {
        let c = get_bits_u32(v, 8, 9);
        if c == 0 {
            Some(WFifoTh::OneFourthEmpty)
        } else if c == 1 {
            Some(WFifoTh::HalfEmpty)
        } else if c == 2 {
            Some(WFifoTh::ThreeFourthEmpty)
        } else if c == 3 {
            Some(WFifoTh::Empty)
        } else {
            None
        }
    }
}

/// How a transfer moves data: into the configuration port, out of it, or
/// through it and back (loop-back).
#[derive(Copy, Clone, Debug, PartialEq, Eq, Structural)]
pub enum TransferType {
    PcapWrite,
    PcapReadback,
    ConcurrentReadWrite,
}

/// An end of a DMA transfer: the programmable logic (with a byte count),
/// or a buffer in memory by address and byte length; the `Last` forms
/// mark the last transfer of a sequence.
#[derive(Copy, Clone, Debug, PartialEq, Eq, Structural)]
pub enum TransferTarget {
    PL(u32),
    SliceSrc { addr: u32, len: u32 },
    SliceSrcLast { addr: u32, len: u32 },
    SliceDest { addr: u32, len: u32 },
    SliceDestLast { addr: u32, len: u32 },
}

/// What goes wrong in the device configuration interface.
#[derive(Copy, Clone, Debug, PartialEq, Eq, Structural)]
pub enum DevcError {
    NotInitialized,
    ResetTimeout,
    DmaBusy,
    DmaTimeout,
    DoneTimeout,
    Unknown(u32),
}

/// The DMA address that stands for the programmable logic.
pub const INVALID_ADDR: u32 = 0xFFFF_FFFF;

/// The address and length (in words) a DMA source register pair takes.
pub open spec fn dma_source(t: TransferTarget) -> (u32, u32) {
    match t {
        TransferTarget::PL(l) => (INVALID_ADDR, l / 4),
        TransferTarget::SliceSrc { addr, len } => (addr, len / 4),
        TransferTarget::SliceDest { addr, len } => (addr, len / 4),
        TransferTarget::SliceSrcLast { addr, len } => (addr | 1, len / 4),
        TransferTarget::SliceDestLast { addr, len } => (addr | 1, len / 4),
    }
}

/// The address and length (in words) a DMA destination register pair
/// takes; a source buffer cannot be one.
pub open spec fn dma_dest(t: TransferTarget) -> (u32, u32) {
    match t {
        TransferTarget::PL(l) => (INVALID_ADDR, l / 4),
        TransferTarget::SliceDestLast { addr, len } => (addr | 1, len / 4),
        TransferTarget::SliceSrcLast { addr, len } => (addr | 1, len / 4),
        TransferTarget::SliceDest { addr, len } => (addr, len / 4),
        TransferTarget::SliceSrc { addr, len } => (addr, len / 4),
    }
}

/// The byte length a target names.
pub open spec fn target_len(t: TransferTarget) -> u32 {
    match t {
        TransferTarget::PL(l) => l,
        TransferTarget::SliceSrc { len, .. } => len,
        TransferTarget::SliceSrcLast { len, .. } => len,
        TransferTarget::SliceDest { len, .. } => len,
        TransferTarget::SliceDestLast { len, .. } => len,
    }
}

/// A transfer the DMA can make: not both ends in the programmable logic,
/// the destination writable, and both lengths within the 27-bit length
/// fields.
pub open spec fn dma_possible(src: TransferTarget, dest: TransferTarget) -> bool {
    &&& !(src is PL && dest is PL)
    &&& !(dest is SliceSrc || dest is SliceSrcLast)
    &&& target_len(src) / 4 <= mask32(27)
    &&& target_len(dest) / 4 <= mask32(27)
}

fn source_regs(t: TransferTarget) -> (r: (u32, u32))
    ensures
        r == dma_source(t),
{
    match t {
        TransferTarget::PL(l) => (INVALID_ADDR, l / 4),
        TransferTarget::SliceSrc { addr, len } => (addr, len / 4),
        TransferTarget::SliceDest { addr, len } => (addr, len / 4),
        TransferTarget::SliceSrcLast { addr, len } => (addr | 1, len / 4),
        TransferTarget::SliceDestLast { addr, len } => (addr | 1, len / 4),
    }
}

/// The values of the DMA source address, destination address, source
/// length and destination length registers for a transfer from `src` to
/// `dest` (lengths in 32-bit words; bit 0 of an address marks the last
/// transfer).
pub fn initiate_dma(src: TransferTarget, dest: TransferTarget) -> (r: (u32, u32, u32, u32))
    requires
        dma_possible(src, dest),
    ensures
        r == (dma_source(src).0, dma_dest(dest).0, dma_source(src).1, dma_dest(dest).1),
{
    let (src_addr, src_len) = source_regs(src);
    let (dest_addr, dest_len) = match dest {
        TransferTarget::PL(l) => (INVALID_ADDR, l / 4),
        TransferTarget::SliceDest { addr, len } => (addr, len / 4),
        TransferTarget::SliceDestLast { addr, len } => (addr | 1, len / 4),
        TransferTarget::SliceSrc { addr, len } => (addr, len / 4),
        TransferTarget::SliceSrcLast { addr, len } => (addr | 1, len / 4),
    };
    (src_addr, dest_addr, src_len, dest_len)
}

/// The checks before a transfer, on the status register: the DMA command
/// queue full (bit 31) makes it `DmaBusy`; a transfer through the
/// configuration port needs the port initialised (bit 4).
pub open spec fn dma_precheck_spec(status: u32, transfer_type: TransferType) -> Result<(), DevcError> {
    if bit32(status, 31) {
        Err(DevcError::DmaBusy)
    } else if transfer_type != TransferType::ConcurrentReadWrite && !bit32(status, 4) {
        Err(DevcError::NotInitialized)
    } else {
        Ok(())
    }
}

pub fn dma_precheck(status: u32, transfer_type: TransferType) -> (r: Result<(), DevcError>)
    ensures
        r == dma_precheck_spec(status, transfer_type),
{
    if get_bit_u32(status, 31) {
        Err(DevcError::DmaBusy)
    } else if transfer_type != TransferType::ConcurrentReadWrite && !get_bit_u32(status, 4) {
        Err(DevcError::NotInitialized)
    } else {
        Ok(())
    }
}

/// The DMA programs of a transfer, in order: a read-back goes out of the
/// source into the configuration port and then from it into the
/// destination; the others are one transfer.
pub open spec fn dma_plan_spec(src: TransferTarget, dest: TransferTarget, transfer_type: TransferType) -> Seq<(u32, u32, u32, u32)> {
    if transfer_type == TransferType::PcapReadback {
        seq![
            (dma_source(src).0, INVALID_ADDR, dma_source(src).1, 0),
            (INVALID_ADDR, dma_dest(dest).0, 0, dma_dest(dest).1),
        ]
    } else {
        seq![(dma_source(src).0, dma_dest(dest).0, dma_source(src).1, dma_dest(dest).1)]
    }
}

/// The register values of the DMA programs of a transfer (each waited on
/// before the next); for a read-back neither end may be the programmable
/// logic.
pub fn dma_plan(src: TransferTarget, dest: TransferTarget, transfer_type: TransferType) -> (r: Vec<(u32, u32, u32, u32)>)
    requires
        transfer_type == TransferType::PcapReadback ==> dma_possible(src, TransferTarget::PL(0))
            && dma_possible(TransferTarget::PL(0), dest),
        transfer_type != TransferType::PcapReadback ==> dma_possible(src, dest),
    ensures
        r@ == dma_plan_spec(src, dest, transfer_type),
{
    let mut v: Vec<(u32, u32, u32, u32)> = Vec::new();
    if transfer_type == TransferType::PcapReadback {
        v.push(initiate_dma(src, TransferTarget::PL(0)));
        v.push(initiate_dma(TransferTarget::PL(0), dest));
    } else {
        v.push(initiate_dma(src, dest));
    }
    assert(v@ =~= dma_plan_spec(src, dest, transfer_type));
    v
}

/// The MCTRL value for a transfer: the loop-back bit (4) set exactly for a
/// concurrent read and write.
pub fn mctrl_for(mctrl: u32, transfer_type: TransferType) -> (r: u32)
    ensures
        r == with_bit32(mctrl, 4, transfer_type == TransferType::ConcurrentReadWrite),
{
    set_bit_u32(mctrl, 4, transfer_type == TransferType::ConcurrentReadWrite)
}

/// The error bits of the interrupt status register: AXI write timeout and
/// error, AXI read timeout and error (bits 23 to 20), receive FIFO overflow
/// (18), DMA command error (15), DMA queue overflow (14) and the
/// PCAP-to-DMA length error (11).
pub open spec fn int_sts_error(int_sts: u32) -> bool {
    bit32(int_sts, 23) || bit32(int_sts, 22) || bit32(int_sts, 21) || bit32(int_sts, 20)
        || bit32(int_sts, 18) || bit32(int_sts, 15) || bit32(int_sts, 14) || bit32(int_sts, 11)
}

/// Whether the interrupt status reports an error.
pub fn has_error(int_sts: u32) -> (r: bool)
    ensures
        r == int_sts_error(int_sts),
{
    get_bit_u32(int_sts, 23) || get_bit_u32(int_sts, 22) || get_bit_u32(int_sts, 21)
        || get_bit_u32(int_sts, 20) || get_bit_u32(int_sts, 18) || get_bit_u32(int_sts, 15)
        || get_bit_u32(int_sts, 14) || get_bit_u32(int_sts, 11)
}

/// The error bits are those of the mask `0x00F4C800`.
pub proof fn lemma_error_mask(int_sts: u32)
    by (bit_vector)
    ensures
        int_sts_error(int_sts) == (int_sts & 0x00F4C800u32 != 0),
{
}

/// All interrupt status bits, which `clear_interrupts` writes back to
/// clear them.
pub const INT_STS_ALL: u32 = 0xF8F7_F87F;

/// One poll of a timed wait: a timeout gives `err`; else the condition met
/// ends the wait, and an error in the interrupt status ends it with that
/// status; `None` polls again.
pub open spec fn wait_step_spec(expired: bool, condition: bool, int_sts: u32, err: DevcError) -> Option<Result<(), DevcError>> {
    if expired {
        Some(Err(err))
    } else if condition {
        Some(Ok(()))
    } else if int_sts_error(int_sts) {
        Some(Err(DevcError::Unknown(int_sts)))
    } else {
        None
    }
}

pub fn wait_step(expired: bool, condition: bool, int_sts: u32, err: DevcError) -> (r: Option<Result<(), DevcError>>)
    ensures
        r == wait_step_spec(expired, condition, int_sts, err),
{
    if expired {
        Some(Err(err))
    } else if condition {
        Some(Ok(()))
    } else if has_error(int_sts) {
        Some(Err(DevcError::Unknown(int_sts)))
    } else {
        None
    }
}

/// The CONTROL value with the configuration port in PCAP mode for partial
/// reconfiguration (bits 26 and 27) on or off, as `enable` and `disable`
/// set it.
pub fn control_pcap(control: u32, on: bool) -> (r: u32)
    ensures
        r == with_bit32(with_bit32(control, 26, on), 27, on),
{
    set_bit_u32(set_bit_u32(control, 26, on), 27, on)
}

/// The steps of loading a bitstream into the programmable logic.
#[derive(Copy, Clone, Debug, PartialEq, Eq, Structural)]
pub enum ProgramPhase {
    /// Nothing done yet.
    Begin,
    /// Interrupts cleared, the PL prepared for loading and PROG_B pulsed
    /// low: waiting for INIT to go low.
    InitLow,
    /// PROG_B released: waiting for INIT to go high.
    InitHigh,
    /// The bitstream's DMA to the configuration port under way.
    Dma,
    /// Waiting for DONE.
    Done,
    /// Finished.
    End,
}

/// What the driver does next while loading a bitstream.
#[derive(Copy, Clone, Debug, PartialEq, Eq, Structural)]
pub enum ProgramAction {
    /// Clear the interrupt status, run the pre-load set-up of the PL, set
    /// PROG_B and clear it; then wait (with the timeout) for INIT low,
    /// failing with `ResetTimeout`.
    ResetPl,
    /// Set PROG_B; then wait for INIT high, failing with `ResetTimeout`.
    ReleasePl,
    /// Clear the configuration reset interrupts (bits 27 and 3), then move
    /// the bitstream as `SliceSrcLast` to the PL with `dma_plan` under
    /// `PcapWrite`.
    SendBitstream,
    /// Wait for DONE, failing with `DoneTimeout`.
    WaitDone,
    /// Run the post-load set-up of the PL; the load succeeded.
    Postload,
    /// The load ended with this error.
    Fail(DevcError),
}

/// The next phase and action of a bitstream load, from the outcome of the
/// last action (`Ok(())` to begin).
pub open spec fn program_transition(phase: ProgramPhase, outcome: Result<(), DevcError>) -> (ProgramPhase, ProgramAction) {
    match outcome {
        Err(e) => (ProgramPhase::End, ProgramAction::Fail(e)),
        Ok(()) => match phase {
            ProgramPhase::Begin => (ProgramPhase::InitLow, ProgramAction::ResetPl),
            ProgramPhase::InitLow => (ProgramPhase::InitHigh, ProgramAction::ReleasePl),
            ProgramPhase::InitHigh => (ProgramPhase::Dma, ProgramAction::SendBitstream),
            ProgramPhase::Dma => (ProgramPhase::Done, ProgramAction::WaitDone),
            ProgramPhase::Done | ProgramPhase::End => (ProgramPhase::End, ProgramAction::Postload),
        },
    }
}

/// One step of a bitstream load; the configuration interface must be
/// enabled (`enabled`).
pub fn program_step(enabled: bool, phase: ProgramPhase, outcome: Result<(), DevcError>) -> (r: (ProgramPhase, ProgramAction))
    requires
        enabled,
        phase != ProgramPhase::End,
    ensures
        r == program_transition(phase, outcome),
{
    match outcome {
        Err(e) => (ProgramPhase::End, ProgramAction::Fail(e)),
        Ok(()) => match phase {
            ProgramPhase::Begin => (ProgramPhase::InitLow, ProgramAction::ResetPl),
            ProgramPhase::InitLow => (ProgramPhase::InitHigh, ProgramAction::ReleasePl),
            ProgramPhase::InitHigh => (ProgramPhase::Dma, ProgramAction::SendBitstream),
            ProgramPhase::Dma => (ProgramPhase::Done, ProgramAction::WaitDone),
            ProgramPhase::Done | ProgramPhase::End => (ProgramPhase::End, ProgramAction::Postload),
        },
    }
}

/// The load succeeds only through every step in order: from `Begin`, the
/// actions are the reset, the release, the bitstream, the wait for DONE and
/// the post-load set-up, and any error ends it with that error.
pub proof fn lemma_program_order(e: DevcError)
    ensures
        program_transition(ProgramPhase::Begin, Ok(())) == (ProgramPhase::InitLow, ProgramAction::ResetPl),
        program_transition(ProgramPhase::InitLow, Ok(())) == (ProgramPhase::InitHigh, ProgramAction::ReleasePl),
        program_transition(ProgramPhase::InitHigh, Ok(())) == (ProgramPhase::Dma, ProgramAction::SendBitstream),
        program_transition(ProgramPhase::Dma, Ok(())) == (ProgramPhase::Done, ProgramAction::WaitDone),
        program_transition(ProgramPhase::Done, Ok(())) == (ProgramPhase::End, ProgramAction::Postload),
        forall|p: ProgramPhase| #[trigger] program_transition(p, Err(e)) == (ProgramPhase::End, ProgramAction::Fail(e)),
{
}

} // verus!
