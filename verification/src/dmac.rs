//! DMA controller channel status fields.
use vstd::prelude::*;
use crate::bits::{bits32, get_bits_u32};

verus! {

/// The event a waiting channel waits for, by its code 0 to 15.
#[derive(Copy, Clone, Debug, PartialEq, Eq, Structural)]
pub enum WakeUpEvent {
    Event0,
    Event1,
    Event2,
    Event3,
    Event4,
    Event5,
    Event6,
    Event7,
    Event8,
    Event9,
    Event10,
    Event11,
    Event12,
    Event13,
    Event14,
    Event15,
}

pub open spec fn wakeup_event_code(x: WakeUpEvent) -> u32 {
    match x {
        WakeUpEvent::Event0 => 0,
        WakeUpEvent::Event1 => 1,
        WakeUpEvent::Event2 => 2,
        WakeUpEvent::Event3 => 3,
        WakeUpEvent::Event4 => 4,
        WakeUpEvent::Event5 => 5,
        WakeUpEvent::Event6 => 6,
        WakeUpEvent::Event7 => 7,
        WakeUpEvent::Event8 => 8,
        WakeUpEvent::Event9 => 9,
        WakeUpEvent::Event10 => 10,
        WakeUpEvent::Event11 => 11,
        WakeUpEvent::Event12 => 12,
        WakeUpEvent::Event13 => 13,
        WakeUpEvent::Event14 => 14,
        WakeUpEvent::Event15 => 15,
    }
}

impl WakeUpEvent {
    pub fn code(&self) -> (r: u32)
        ensures
            r == wakeup_event_code(*self),
    {
        match self {
            WakeUpEvent::Event0 => 0,
            WakeUpEvent::Event1 => 1,
            WakeUpEvent::Event2 => 2,
            WakeUpEvent::Event3 => 3,
            WakeUpEvent::Event4 => 4,
            WakeUpEvent::Event5 => 5,
            WakeUpEvent::Event6 => 6,
            WakeUpEvent::Event7 => 7,
            WakeUpEvent::Event8 => 8,
            WakeUpEvent::Event9 => 9,
            WakeUpEvent::Event10 => 10,
            WakeUpEvent::Event11 => 11,
            WakeUpEvent::Event12 => 12,
            WakeUpEvent::Event13 => 13,
            WakeUpEvent::Event14 => 14,
            WakeUpEvent::Event15 => 15,
        }
    }

    /// The wake-up event field (bits 4 to 8) of a channel status value, when it names one.
    pub fn from_register(v: u32) -> (r: Option<WakeUpEvent>)
        ensures
            r matches Some(x) ==> wakeup_event_code(x) == bits32(v, 4, 8),
            r is None ==> bits32(v, 4, 8) >= 16,
    {
        let c = get_bits_u32(v, 4, 8);
        if c == 0 {
            Some(WakeUpEvent::Event0)
        } else if c == 1 {
            Some(WakeUpEvent::Event1)
        } else if c == 2 {
            Some(WakeUpEvent::Event2)
        } else if c == 3 {
            Some(WakeUpEvent::Event3)
        } else if c == 4 {
            Some(WakeUpEvent::Event4)
        } else if c == 5 {
            Some(WakeUpEvent::Event5)
        } else if c == 6 {
            Some(WakeUpEvent::Event6)
        } else if c == 7 {
            Some(WakeUpEvent::Event7)
        } else if c == 8 {
            Some(WakeUpEvent::Event8)
        } else if c == 9 {
            Some(WakeUpEvent::Event9)
        } else if c == 10 {
            Some(WakeUpEvent::Event10)
        } else if c == 11 {
            Some(WakeUpEvent::Event11)
        } else if c == 12 {
            Some(WakeUpEvent::Event12)
        } else if c == 13 {
            Some(WakeUpEvent::Event13)
        } else if c == 14 {
            Some(WakeUpEvent::Event14)
        } else if c == 15 {
            Some(WakeUpEvent::Event15)
        } else {
            None
        }
    }
}

/// A channel's state, by its code 0 to 15.
#[derive(Copy, Clone, Debug, PartialEq, Eq, Structural)]
pub enum DMAStatus {
    Stopped,
    Executing,
    CacheMiss,
    UpdatingPc,
    WaitingForEvent,
    Reserved0,
    Reserved1,
    Reserved2,
    Reserved3,
    Reserved4,
    Reserved5,
    Reserved6,
    Reserved7,
    Reserved8,
    Reserved9,
    Faulting,
}

pub open spec fn dma_status_code(x: DMAStatus) -> u32 {
    match x {
        DMAStatus::Stopped => 0,
        DMAStatus::Executing => 1,
        DMAStatus::CacheMiss => 2,
        DMAStatus::UpdatingPc => 3,
        DMAStatus::WaitingForEvent => 4,
        DMAStatus::Reserved0 => 5,
        DMAStatus::Reserved1 => 6,
        DMAStatus::Reserved2 => 7,
        DMAStatus::Reserved3 => 8,
        DMAStatus::Reserved4 => 9,
        DMAStatus::Reserved5 => 10,
        DMAStatus::Reserved6 => 11,
        DMAStatus::Reserved7 => 12,
        DMAStatus::Reserved8 => 13,
        DMAStatus::Reserved9 => 14,
        DMAStatus::Faulting => 15,
    }
}

impl DMAStatus {
    pub fn code(&self) -> (r: u32)
        ensures
            r == dma_status_code(*self),
    {
        match self {
            DMAStatus::Stopped => 0,
            DMAStatus::Executing => 1,
            DMAStatus::CacheMiss => 2,
            DMAStatus::UpdatingPc => 3,
            DMAStatus::WaitingForEvent => 4,
            DMAStatus::Reserved0 => 5,
            DMAStatus::Reserved1 => 6,
            DMAStatus::Reserved2 => 7,
            DMAStatus::Reserved3 => 8,
            DMAStatus::Reserved4 => 9,
            DMAStatus::Reserved5 => 10,
            DMAStatus::Reserved6 => 11,
            DMAStatus::Reserved7 => 12,
            DMAStatus::Reserved8 => 13,
            DMAStatus::Reserved9 => 14,
            DMAStatus::Faulting => 15,
        }
    }

    /// The status field (bits 0 to 3) of a channel status value.
    pub fn from_register(v: u32) -> (r: Option<DMAStatus>)
        ensures
            r matches Some(x) ==> dma_status_code(x) == bits32(v, 0, 3),
            r is None ==> bits32(v, 0, 3) >= 16,
    {
        let c = get_bits_u32(v, 0, 3);
        if c == 0 {
            Some(DMAStatus::Stopped)
        } else if c == 1 {
            Some(DMAStatus::Executing)
        } else if c == 2 {
            Some(DMAStatus::CacheMiss)
        } else if c == 3 {
            Some(DMAStatus::UpdatingPc)
        } else if c == 4 {
            Some(DMAStatus::WaitingForEvent)
        } else if c == 5 {
            Some(DMAStatus::Reserved0)
        } else if c == 6 {
            Some(DMAStatus::Reserved1)
        } else if c == 7 {
            Some(DMAStatus::Reserved2)
        } else if c == 8 {
            Some(DMAStatus::Reserved3)
        } else if c == 9 {
            Some(DMAStatus::Reserved4)
        } else if c == 10 {
            Some(DMAStatus::Reserved5)
        } else if c == 11 {
            Some(DMAStatus::Reserved6)
        } else if c == 12 {
            Some(DMAStatus::Reserved7)
        } else if c == 13 {
            Some(DMAStatus::Reserved8)
        } else if c == 14 {
            Some(DMAStatus::Reserved9)
        } else if c == 15 {
            Some(DMAStatus::Faulting)
        } else {
            None
        }
    }
}

} // verus!
