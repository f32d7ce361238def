//! The SD card initialisation protocol as a state machine: each step takes
//! the outcome of the last action and names the next one, so that the
//! driver only sends commands and reports what came back.
use vstd::prelude::*;
use crate::sdio::{
    card_version, csd_sector_count, csd_structure, csd_v1_bytes, csd_v2_sectors, sector_count,
    CardInitializationError, CardVersion, CmdTransferError, SdCmd, ACMD41_3V3, ACMD41_HCS, CMD8_VOL_PATTERN,
    OCR_S18, RESPOCR_READY,
};

verus! {

/// What the initialisation has learnt of the card.
#[derive(Clone, Copy, Debug, PartialEq, Eq)]
pub struct CardInfo {
    pub card_version: CardVersion,
    pub hcs: bool,
    pub switch_1v8: bool,
    pub card_id: [u32; 4],
    pub rel_card_addr: u32,
    pub sector_cnt: u32,
    pub width_4_bit: bool,
}

/// The step of the initialisation that waits for an outcome.
#[derive(Clone, Copy, Debug, PartialEq, Eq, Structural)]
pub enum SdInitPhase {
    /// Waiting to know whether a card is in the slot.
    Start,
    /// CMD0 (go idle) sent.
    Cmd0,
    /// CMD8 (interface condition) sent.
    Cmd8,
    /// The command line reset after a CMD8 timeout.
    ResetCmd,
    /// CMD55 sent ahead of ACMD41.
    Acmd41Prefix,
    /// ACMD41 (operating condition) sent.
    Acmd41,
    /// Switching the bus to 1.8 V.
    SwitchVoltage,
    /// CMD2 (card identification) sent.
    Cmd2,
    /// CMD3 (relative address) sent.
    Cmd3,
    /// CMD9 (card-specific data) sent.
    Cmd9,
    /// Raising the SD clock to 25 MHz.
    SetClock,
    /// CMD7 (select card) sent.
    Cmd7,
    /// CMD55 sent ahead of ACMD42.
    Acmd42Prefix,
    /// ACMD42 (pull-up off) sent.
    Acmd42,
    /// Reading the SCR register.
    ReadScr,
    /// CMD55 sent ahead of ACMD6.
    Acmd6Prefix,
    /// ACMD6 (4-bit bus) sent.
    Acmd6,
    /// Switching the host to a 4-bit bus.
    WideBus,
    /// Setting the block size to 512.
    SetBlockSize,
    /// Finished.
    Done,
}

#[derive(Clone, Copy, Debug, PartialEq, Eq)]
pub struct SdInitState {
    pub phase: SdInitPhase,
    pub info: CardInfo,
}

/// The outcome of the last action.
#[derive(Debug, PartialEq, Eq)]
pub enum SdInitEvent {
    /// Whether a card is in the slot (answers `Start`).
    Inserted(bool),
    /// A command's outcome and the four response words (answers a sent
    /// command, and the command line reset).
    Cmd(Result<(), CmdTransferError>, [u32; 4]),
    /// The outcome of a voltage switch, a clock change, the 4-bit host
    /// switch or a block size change.
    Finished(Result<(), CmdTransferError>),
    /// The outcome of the SCR read and whether the card has a 4-bit bus.
    Scr(Result<(), CmdTransferError>, bool),
}

/// The next action of the driver.
#[derive(Debug, PartialEq, Eq)]
pub enum SdInitAction {
    Send(SdCmd, u32),
    ResetCmdLine,
    SwitchVoltage,
    SetClock(u32),
    ReadScr,
    EnableWideBus,
    SetBlockSize(u16),
    Finish(Result<CardInfo, CardInitializationError>),
}

/// Whether `event` is the kind of outcome `phase` waits for.
pub open spec fn event_fits(phase: SdInitPhase, event: SdInitEvent) -> bool {
    match phase {
        SdInitPhase::Start => event is Inserted,
        SdInitPhase::SwitchVoltage | SdInitPhase::SetClock | SdInitPhase::WideBus | SdInitPhase::SetBlockSize => event is Finished,
        SdInitPhase::ReadScr => event is Scr,
        SdInitPhase::Done => false,
        _ => event is Cmd,
    }
}

/// The information before any answer.
pub open spec fn initial_info() -> CardInfo {
    CardInfo {
        card_version: CardVersion::SdVer1,
        hcs: false,
        switch_1v8: false,
        card_id: [0, 0, 0, 0],
        rel_card_addr: 0,
        sector_cnt: 0,
        width_4_bit: false,
    }
}

/// The argument of ACMD41: high capacity, 3.2 to 3.4 V, and the voltage
/// window bits 15 to 23.
pub open spec fn acmd41_arg() -> u32 {
    ACMD41_HCS | ACMD41_3V3 | (0x1FFu32 << 15u32)
}

pub open spec fn fail(info: CardInfo, e: CardInitializationError) -> (SdInitState, SdInitAction) {
    (SdInitState { phase: SdInitPhase::Done, info }, SdInitAction::Finish(Err(e)))
}

pub open spec fn go(phase: SdInitPhase, info: CardInfo, action: SdInitAction) -> (SdInitState, SdInitAction) {
    (SdInitState { phase, info }, action)
}

/// After a command that must succeed: `next` on success, else the
/// initialisation fails with the command's error.
pub open spec fn after_cmd(
    info: CardInfo,
    r: Result<(), CmdTransferError>,
    next: (SdInitState, SdInitAction),
) -> (SdInitState, SdInitAction) {
    match r {
        Ok(()) => next,
        Err(e) => fail(info, CardInitializationError::InitializationFailedCmd(e)),
    }
}

/// The protocol: no command before a card is known to be inserted; CMD0;
/// CMD8, whose timeout (a version 1 card) resets the command line and
/// whose other errors fail; CMD55 and ACMD41 until the card reports power
/// up, noting high capacity and a switch to 1.8 V when the card accepts it;
/// CMD2 for the card id; CMD3 until the relative address is nonzero; CMD9
/// for the sector count; the 25 MHz clock; CMD7; CMD55 and ACMD42; the SCR
/// read and, for a 4-bit card, CMD55, ACMD6 and the host's 4-bit bus; the
/// block size 512.
pub open spec fn sd_init_transition(state: SdInitState, event: SdInitEvent) -> (SdInitState, SdInitAction) {
    let info = state.info;
    let rca = info.rel_card_addr;
    match (state.phase, event) {
        (SdInitPhase::Start, SdInitEvent::Inserted(present)) => if present {
            go(SdInitPhase::Cmd0, info, SdInitAction::Send(SdCmd::CMD0, 0))
        } else {
            fail(info, CardInitializationError::NoCardInserted)
        },
        (SdInitPhase::Cmd0, SdInitEvent::Cmd(r, _)) => after_cmd(
            info,
            r,
            go(SdInitPhase::Cmd8, info, SdInitAction::Send(SdCmd::CMD8, CMD8_VOL_PATTERN)),
        ),
        (SdInitPhase::Cmd8, SdInitEvent::Cmd(r, resp)) => match r {
            Err(CmdTransferError::CmdTimeout) => go(SdInitPhase::ResetCmd, info, SdInitAction::ResetCmdLine),
            Err(e) => fail(info, CardInitializationError::InitializationFailedCmd(e)),
            Ok(()) => go(
                SdInitPhase::Acmd41Prefix,
                CardInfo { card_version: card_version_of(resp[0]), ..info },
                SdInitAction::Send(SdCmd::CMD55, 0),
            ),
        },
        (SdInitPhase::ResetCmd, SdInitEvent::Cmd(_, resp)) => go(
            SdInitPhase::Acmd41Prefix,
            CardInfo { card_version: card_version_of(resp[0]), ..info },
            SdInitAction::Send(SdCmd::CMD55, 0),
        ),
        (SdInitPhase::Acmd41Prefix, SdInitEvent::Cmd(r, _)) => after_cmd(
            info,
            r,
            go(SdInitPhase::Acmd41, info, SdInitAction::Send(SdCmd::ACMD41, acmd41_arg())),
        ),
        (SdInitPhase::Acmd41, SdInitEvent::Cmd(r, resp)) => after_cmd(
            info,
            r,
            if resp[0] & RESPOCR_READY == 0 {
                go(SdInitPhase::Acmd41Prefix, info, SdInitAction::Send(SdCmd::CMD55, 0))
            } else if resp[0] & OCR_S18 != 0 {
                go(
                    SdInitPhase::SwitchVoltage,
                    CardInfo { hcs: resp[0] & ACMD41_HCS != 0, switch_1v8: true, ..info },
                    SdInitAction::SwitchVoltage,
                )
            } else {
                go(
                    SdInitPhase::Cmd2,
                    CardInfo { hcs: resp[0] & ACMD41_HCS != 0, ..info },
                    SdInitAction::Send(SdCmd::CMD2, 0),
                )
            },
        ),
        (SdInitPhase::SwitchVoltage, SdInitEvent::Finished(r)) => after_cmd(
            info,
            r,
            go(SdInitPhase::Cmd2, info, SdInitAction::Send(SdCmd::CMD2, 0)),
        ),
        (SdInitPhase::Cmd2, SdInitEvent::Cmd(r, resp)) => after_cmd(
            info,
            r,
            go(SdInitPhase::Cmd3, CardInfo { card_id: resp, rel_card_addr: 0, ..info }, SdInitAction::Send(SdCmd::CMD3, 0)),
        ),
        (SdInitPhase::Cmd3, SdInitEvent::Cmd(r, resp)) => after_cmd(
            info,
            r,
            if resp[0] & 0xFFFF0000u32 == 0 {
                go(SdInitPhase::Cmd3, info, SdInitAction::Send(SdCmd::CMD3, 0))
            } else {
                let a = resp[0] & 0xFFFF0000u32;
                go(SdInitPhase::Cmd9, CardInfo { rel_card_addr: a, ..info }, SdInitAction::Send(SdCmd::CMD9, a))
            },
        ),
        (SdInitPhase::Cmd9, SdInitEvent::Cmd(r, csd)) => after_cmd(
            info,
            r,
            match csd_sector_count(csd@) {
                Some(n) => go(
                    SdInitPhase::SetClock,
                    CardInfo { sector_cnt: n as u32, ..info },
                    SdInitAction::SetClock(25_000_000),
                ),
                None => fail(info, CardInitializationError::InitializationFailedOther),
            },
        ),
        (SdInitPhase::SetClock, SdInitEvent::Finished(r)) => after_cmd(
            info,
            r,
            go(SdInitPhase::Cmd7, info, SdInitAction::Send(SdCmd::CMD7, rca)),
        ),
        (SdInitPhase::Cmd7, SdInitEvent::Cmd(r, _)) => after_cmd(
            info,
            r,
            go(SdInitPhase::Acmd42Prefix, info, SdInitAction::Send(SdCmd::CMD55, rca)),
        ),
        (SdInitPhase::Acmd42Prefix, SdInitEvent::Cmd(r, _)) => after_cmd(
            info,
            r,
            go(SdInitPhase::Acmd42, info, SdInitAction::Send(SdCmd::ACMD42, 0)),
        ),
        (SdInitPhase::Acmd42, SdInitEvent::Cmd(r, _)) => after_cmd(
            info,
            r,
            go(SdInitPhase::ReadScr, info, SdInitAction::ReadScr),
        ),
        (SdInitPhase::ReadScr, SdInitEvent::Scr(r, wide)) => after_cmd(
            info,
            r,
            if wide {
                go(SdInitPhase::Acmd6Prefix, info, SdInitAction::Send(SdCmd::CMD55, rca))
            } else {
                go(SdInitPhase::SetBlockSize, info, SdInitAction::SetBlockSize(512))
            },
        ),
        (SdInitPhase::Acmd6Prefix, SdInitEvent::Cmd(r, _)) => after_cmd(
            info,
            r,
            go(SdInitPhase::Acmd6, CardInfo { width_4_bit: true, ..info }, SdInitAction::Send(SdCmd::ACMD6, 0x2)),
        ),
        (SdInitPhase::Acmd6, SdInitEvent::Cmd(r, _)) => after_cmd(
            info,
            r,
            go(SdInitPhase::WideBus, info, SdInitAction::EnableWideBus),
        ),
        (SdInitPhase::WideBus, SdInitEvent::Finished(r)) => after_cmd(
            info,
            r,
            go(SdInitPhase::SetBlockSize, info, SdInitAction::SetBlockSize(512)),
        ),
        (SdInitPhase::SetBlockSize, SdInitEvent::Finished(r)) => after_cmd(
            info,
            r,
            (SdInitState { phase: SdInitPhase::Done, info }, SdInitAction::Finish(Ok(info))),
        ),
        _ => fail(info, CardInitializationError::InitializationFailedOther),
    }
}

/// The card version a CMD8 response shows.
pub open spec fn card_version_of(response: u32) -> CardVersion {
    if response != CMD8_VOL_PATTERN {
        CardVersion::SdVer1
    } else {
        CardVersion::SdVer2
    }
}

/// The state the initialisation starts in.
pub fn sd_init_start() -> (r: SdInitState)
    ensures
        r == (SdInitState { phase: SdInitPhase::Start, info: initial_info() }),
{
    SdInitState {
        phase: SdInitPhase::Start,
        info: CardInfo {
            card_version: CardVersion::SdVer1,
            hcs: false,
            switch_1v8: false,
            card_id: [0, 0, 0, 0],
            rel_card_addr: 0,
            sector_cnt: 0,
            width_4_bit: false,
        },
    }
}

fn fail_exec(info: CardInfo, e: CardInitializationError) -> (r: (SdInitState, SdInitAction))
    ensures
        r == fail(info, e),
{
    (SdInitState { phase: SdInitPhase::Done, info }, SdInitAction::Finish(Err(e)))
}

fn go_exec(phase: SdInitPhase, info: CardInfo, action: SdInitAction) -> (r: (SdInitState, SdInitAction))
    ensures
        r == go(phase, info, action),
{
    (SdInitState { phase, info }, action)
}

/// One step of the initialisation: from the state and the outcome of the
/// last action, the next state and action. The card's CSD must give a size
/// that 32-bit arithmetic holds (`sector_count_fits`).
#[verifier::spinoff_prover]
#[verifier::rlimit(100)]
pub fn sd_init_step(state: SdInitState, event: SdInitEvent) -> (r: (SdInitState, SdInitAction))
    requires
        event_fits(state.phase, event),
        state.phase == SdInitPhase::Cmd9 ==> (event matches SdInitEvent::Cmd(Ok(()), csd) ==> (
            (csd_structure(csd@) == 0 ==> csd_v1_bytes(csd@) <= u32::MAX)
            && (csd_structure(csd@) == 1 ==> csd_v2_sectors(csd@) <= u32::MAX))),
    ensures
        r == sd_init_transition(state, event),
{
    let info = state.info;
    let rca = info.rel_card_addr;
    match (state.phase, event) {
        (SdInitPhase::Start, SdInitEvent::Inserted(present)) => if present {
            go_exec(SdInitPhase::Cmd0, info, SdInitAction::Send(SdCmd::CMD0, 0))
        } else {
            fail_exec(info, CardInitializationError::NoCardInserted)
        },
        (SdInitPhase::Cmd0, SdInitEvent::Cmd(r, _)) => match r {
            Err(e) => fail_exec(info, CardInitializationError::InitializationFailedCmd(e)),
            Ok(()) => go_exec(SdInitPhase::Cmd8, info, SdInitAction::Send(SdCmd::CMD8, CMD8_VOL_PATTERN)),
        },
        (SdInitPhase::Cmd8, SdInitEvent::Cmd(r, resp)) => match r {
            Err(CmdTransferError::CmdTimeout) => go_exec(SdInitPhase::ResetCmd, info, SdInitAction::ResetCmdLine),
            Err(e) => fail_exec(info, CardInitializationError::InitializationFailedCmd(e)),
            Ok(()) => go_exec(
                SdInitPhase::Acmd41Prefix,
                CardInfo { card_version: card_version(resp[0]), ..info },
                SdInitAction::Send(SdCmd::CMD55, 0),
            ),
        },
        (SdInitPhase::ResetCmd, SdInitEvent::Cmd(_, resp)) => go_exec(
            SdInitPhase::Acmd41Prefix,
            CardInfo { card_version: card_version(resp[0]), ..info },
            SdInitAction::Send(SdCmd::CMD55, 0),
        ),
        (SdInitPhase::Acmd41Prefix, SdInitEvent::Cmd(r, _)) => match r {
            Err(e) => fail_exec(info, CardInitializationError::InitializationFailedCmd(e)),
            Ok(()) => go_exec(
                SdInitPhase::Acmd41,
                info,
                SdInitAction::Send(SdCmd::ACMD41, ACMD41_HCS | ACMD41_3V3 | (0x1FFu32 << 15u32)),
            ),
        },
        (SdInitPhase::Acmd41, SdInitEvent::Cmd(r, resp)) => match r {
            Err(e) => fail_exec(info, CardInitializationError::InitializationFailedCmd(e)),
            Ok(()) => if resp[0] & RESPOCR_READY == 0 {
                go_exec(SdInitPhase::Acmd41Prefix, info, SdInitAction::Send(SdCmd::CMD55, 0))
            } else if resp[0] & OCR_S18 != 0 {
                go_exec(
                    SdInitPhase::SwitchVoltage,
                    CardInfo { hcs: resp[0] & ACMD41_HCS != 0, switch_1v8: true, ..info },
                    SdInitAction::SwitchVoltage,
                )
            } else {
                go_exec(
                    SdInitPhase::Cmd2,
                    CardInfo { hcs: resp[0] & ACMD41_HCS != 0, ..info },
                    SdInitAction::Send(SdCmd::CMD2, 0),
                )
            },
        },
        (SdInitPhase::SwitchVoltage, SdInitEvent::Finished(r)) => match r {
            Err(e) => fail_exec(info, CardInitializationError::InitializationFailedCmd(e)),
            Ok(()) => go_exec(SdInitPhase::Cmd2, info, SdInitAction::Send(SdCmd::CMD2, 0)),
        },
        (SdInitPhase::Cmd2, SdInitEvent::Cmd(r, resp)) => match r {
            Err(e) => fail_exec(info, CardInitializationError::InitializationFailedCmd(e)),
            Ok(()) => go_exec(
                SdInitPhase::Cmd3,
                CardInfo { card_id: resp, rel_card_addr: 0, ..info },
                SdInitAction::Send(SdCmd::CMD3, 0),
            ),
        },
        (SdInitPhase::Cmd3, SdInitEvent::Cmd(r, resp)) => match r {
            Err(e) => fail_exec(info, CardInitializationError::InitializationFailedCmd(e)),
            Ok(()) => if resp[0] & 0xFFFF0000u32 == 0 {
                go_exec(SdInitPhase::Cmd3, info, SdInitAction::Send(SdCmd::CMD3, 0))
            } else {
                let a = resp[0] & 0xFFFF0000u32;
                go_exec(SdInitPhase::Cmd9, CardInfo { rel_card_addr: a, ..info }, SdInitAction::Send(SdCmd::CMD9, a))
            },
        },
        (SdInitPhase::Cmd9, SdInitEvent::Cmd(r, csd)) => match r {
            Err(e) => fail_exec(info, CardInitializationError::InitializationFailedCmd(e)),
            Ok(()) => match sector_count(csd) {
                Ok(n) => go_exec(
                    SdInitPhase::SetClock,
                    CardInfo { sector_cnt: n, ..info },
                    SdInitAction::SetClock(25_000_000),
                ),
                Err(_) => fail_exec(info, CardInitializationError::InitializationFailedOther),
            },
        },
        (SdInitPhase::SetClock, SdInitEvent::Finished(r)) => match r {
            Err(e) => fail_exec(info, CardInitializationError::InitializationFailedCmd(e)),
            Ok(()) => go_exec(SdInitPhase::Cmd7, info, SdInitAction::Send(SdCmd::CMD7, rca)),
        },
        (SdInitPhase::Cmd7, SdInitEvent::Cmd(r, _)) => match r {
            Err(e) => fail_exec(info, CardInitializationError::InitializationFailedCmd(e)),
            Ok(()) => go_exec(SdInitPhase::Acmd42Prefix, info, SdInitAction::Send(SdCmd::CMD55, rca)),
        },
        (SdInitPhase::Acmd42Prefix, SdInitEvent::Cmd(r, _)) => match r {
            Err(e) => fail_exec(info, CardInitializationError::InitializationFailedCmd(e)),
            Ok(()) => go_exec(SdInitPhase::Acmd42, info, SdInitAction::Send(SdCmd::ACMD42, 0)),
        },
        (SdInitPhase::Acmd42, SdInitEvent::Cmd(r, _)) => match r {
            Err(e) => fail_exec(info, CardInitializationError::InitializationFailedCmd(e)),
            Ok(()) => go_exec(SdInitPhase::ReadScr, info, SdInitAction::ReadScr),
        },
        (SdInitPhase::ReadScr, SdInitEvent::Scr(r, wide)) => match r {
            Err(e) => fail_exec(info, CardInitializationError::InitializationFailedCmd(e)),
            Ok(()) => if wide {
                go_exec(SdInitPhase::Acmd6Prefix, info, SdInitAction::Send(SdCmd::CMD55, rca))
            } else {
                go_exec(SdInitPhase::SetBlockSize, info, SdInitAction::SetBlockSize(512))
            },
        },
        (SdInitPhase::Acmd6Prefix, SdInitEvent::Cmd(r, _)) => match r {
            Err(e) => fail_exec(info, CardInitializationError::InitializationFailedCmd(e)),
            Ok(()) => go_exec(
                SdInitPhase::Acmd6,
                CardInfo { width_4_bit: true, ..info },
                SdInitAction::Send(SdCmd::ACMD6, 0x2),
            ),
        },
        (SdInitPhase::Acmd6, SdInitEvent::Cmd(r, _)) => match r {
            Err(e) => fail_exec(info, CardInitializationError::InitializationFailedCmd(e)),
            Ok(()) => go_exec(SdInitPhase::WideBus, info, SdInitAction::EnableWideBus),
        },
        (SdInitPhase::WideBus, SdInitEvent::Finished(r)) => match r {
            Err(e) => fail_exec(info, CardInitializationError::InitializationFailedCmd(e)),
            Ok(()) => go_exec(SdInitPhase::SetBlockSize, info, SdInitAction::SetBlockSize(512)),
        },
        (SdInitPhase::SetBlockSize, SdInitEvent::Finished(r)) => match r {
            Err(e) => fail_exec(info, CardInitializationError::InitializationFailedCmd(e)),
            Ok(()) => (SdInitState { phase: SdInitPhase::Done, info }, SdInitAction::Finish(Ok(info))),
        },
        _ => fail_exec(info, CardInitializationError::InitializationFailedOther),
    }
}

/// The phases after the relative address is known.
pub open spec fn has_address(phase: SdInitPhase) -> bool {
    match phase {
        SdInitPhase::Cmd9 | SdInitPhase::SetClock | SdInitPhase::Cmd7 | SdInitPhase::Acmd42Prefix
        | SdInitPhase::Acmd42 | SdInitPhase::ReadScr | SdInitPhase::Acmd6Prefix | SdInitPhase::Acmd6
        | SdInitPhase::WideBus | SdInitPhase::SetBlockSize => true,
        _ => false,
    }
}

/// What holds of every state the initialisation reaches from its start:
/// from CMD9 on the card has a nonzero relative address.
pub open spec fn init_inv(state: SdInitState) -> bool {
    has_address(state.phase) ==> state.info.rel_card_addr != 0
}

/// Each step keeps the invariant, and a successful initialisation hands
/// out a card with a nonzero relative address. No command goes out before
/// the card is known to be present, and a CMD8 error other than a timeout
/// ends the initialisation with that error.
pub proof fn lemma_sd_init_steps(state: SdInitState, event: SdInitEvent)
    requires
        init_inv(state),
    ensures
        init_inv(sd_init_transition(state, event).0),
        sd_init_transition(state, event).1 matches SdInitAction::Finish(Ok(info)) ==> info.rel_card_addr != 0,
        state.phase == SdInitPhase::Start && event == SdInitEvent::Inserted(false)
            ==> sd_init_transition(state, event).1 == SdInitAction::Finish(Err(CardInitializationError::NoCardInserted)),
        state.phase == SdInitPhase::Cmd8 ==> (event matches SdInitEvent::Cmd(Err(e), _) ==> (e != CmdTransferError::CmdTimeout
            ==> sd_init_transition(state, event).1 == SdInitAction::Finish(Err(CardInitializationError::InitializationFailedCmd(e))))),
{
}

/// Once the card has a relative address, every command addressed to a
/// card (CMD7, and CMD55 ahead of an application command) carries that
/// address: after CMD7 the CMD55 ahead of ACMD42 goes to the card's
/// address, after a 4-bit SCR so does the CMD55 ahead of ACMD6, and CMD7
/// selects the card by its address.
pub proof fn lemma_sd_init_addressed_commands(state: SdInitState, event: SdInitEvent)
    requires
        has_address(state.phase),
    ensures
        sd_init_transition(state, event).1 matches SdInitAction::Send(cmd, arg)
            ==> ((cmd == SdCmd::CMD55 || cmd == SdCmd::CMD7) ==> arg == state.info.rel_card_addr),
        state.phase == SdInitPhase::Cmd7 && (event matches SdInitEvent::Cmd(Ok(()), _)) ==> {
            &&& sd_init_transition(state, event).0.phase == SdInitPhase::Acmd42Prefix
            &&& sd_init_transition(state, event).1 == SdInitAction::Send(SdCmd::CMD55, state.info.rel_card_addr)
        },
        state.phase == SdInitPhase::ReadScr && event == SdInitEvent::Scr(Ok(()), true) ==> {
            &&& sd_init_transition(state, event).0.phase == SdInitPhase::Acmd6Prefix
            &&& sd_init_transition(state, event).1 == SdInitAction::Send(SdCmd::CMD55, state.info.rel_card_addr)
        },
        state.phase == SdInitPhase::SetClock && event == SdInitEvent::Finished(Ok(())) ==> {
            &&& sd_init_transition(state, event).0.phase == SdInitPhase::Cmd7
            &&& sd_init_transition(state, event).1 == SdInitAction::Send(SdCmd::CMD7, state.info.rel_card_addr)
        },
{
}

/// The start state meets the invariant.
pub proof fn lemma_sd_init_start()
    ensures
        init_inv(SdInitState { phase: SdInitPhase::Start, info: initial_info() }),
{
}

} // verus!
