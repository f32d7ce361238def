//! The global timer: prescaler choice, counter assembly and conversion of
//! counts to time.
use vstd::prelude::*;
use crate::bits::{bit32, bits32, get_bits_u32};
use crate::regs::Register;
use crate::time::{Milliseconds, Microseconds};

verus! {

/// Halves `n` until it is at most 256.
pub open spec fn halve_to_256(n: u32) -> u32
    decreases n,
{
    if n > 256 {
        halve_to_256(n / 2)
    } else {
        n
    }
}

proof fn lemma_halve_to_256_range(n: u32)
    requires
        n >= 1,
    ensures
        1 <= halve_to_256(n) <= 256,
    decreases n,
{
    if n > 256 {
        lemma_halve_to_256_range(n / 2);
    }
}

/// The prescaler that brings the 3x/2x CPU clock to about 1 MHz: the clock
/// in MHz, halved until it is at most 256.
pub fn prescaler_for(cpu_3x2x: u32) -> (r: u32)
    ensures
        r == halve_to_256(cpu_3x2x / 1_000_000),
        cpu_3x2x >= 1_000_000 ==> 1 <= r <= 256,
{
    let mut prescaler = cpu_3x2x / 1_000_000;
    proof {
        if cpu_3x2x >= 1_000_000 {
            lemma_halve_to_256_range(prescaler);
        }
    }
    while prescaler > 256
        invariant
            halve_to_256(prescaler) == halve_to_256(cpu_3x2x / 1_000_000),
        decreases prescaler,
    {
        prescaler /= 2;
    }
    prescaler
}

/// Offsets of the global timer registers from the low counter word.
pub const COUNTER0_OFFSET: u32 = 0x0;
pub const COUNTER1_OFFSET: u32 = 0x4;
pub const CONTROL_OFFSET: u32 = 0x8;

/// The global timer registers of the mpcore block.
pub struct GlobalTimerRegs {
    pub counter0: Register,
    pub counter1: Register,
    pub control: Register,
    /// Every write to the block, oldest first, as (offset from the low
    /// counter word, value): the order in which the device must see them.
    pub journal: Vec<(u32, u32)>,
}

/// The writes of a timer start in the order the device sees them: the timer
/// disabled first, then both counters cleared while it stands, then the
/// control value that runs it.
pub open spec fn start_journal(p: u32) -> Seq<(u32, u32)> {
    seq![
        (CONTROL_OFFSET, 0u32),
        (COUNTER0_OFFSET, 0u32),
        (COUNTER1_OFFSET, 0u32),
        (CONTROL_OFFSET, started_control(p)),
    ]
}

/// The control value that starts the timer with prescaler `p`: `p - 1` in
/// bits 8 to 15, auto-increment (bit 3) and enable (bit 0).
pub open spec fn started_control(p: u32) -> u32 {
    (((p - 1) as u32) << 8u32) | 8u32 | 1u32
}

/// The writes of a timer start: the control register cleared, both counters
/// cleared, then the control register set to run with prescaler `p`.
pub open spec fn timer_started(old: GlobalTimerRegs, new: GlobalTimerRegs, p: u32) -> bool {
    &&& new.control.writes@ == old.control.writes@.push(0).push(started_control(p))
    &&& new.control.value == started_control(p)
    &&& new.counter0.writes@ == old.counter0.writes@.push(0)
    &&& new.counter0.value == 0
    &&& new.counter1.writes@ == old.counter1.writes@.push(0)
    &&& new.counter1.value == 0
    &&& new.journal@ == old.journal@ + start_journal(p)
}

/// A timer start clears the counters only while the timer stands: the first
/// write turns the enable bit (bit 0) off, the counter writes follow, and
/// only the last write turns the enable bit on again.
pub proof fn lemma_counters_cleared_while_stopped(p: u32)
    requires
        1 <= p <= 256,
    ensures
        start_journal(p).len() == 4,
        start_journal(p)[0].0 == CONTROL_OFFSET && !bit32(start_journal(p)[0].1, 0),
        start_journal(p)[1].0 == COUNTER0_OFFSET && start_journal(p)[1].1 == 0,
        start_journal(p)[2].0 == COUNTER1_OFFSET && start_journal(p)[2].1 == 0,
        start_journal(p)[3].0 == CONTROL_OFFSET && bit32(start_journal(p)[3].1, 0),
{
    let q: u32 = (p - 1) as u32;
    assert(!bit32(0u32, 0)) by (bit_vector);
    assert(bit32((q << 8u32) | 8u32 | 1u32, 0)) by (bit_vector);
}

/// Stops the timer, clears the counters and restarts it with a prescaler
/// that matches the 3x/2x CPU clock `cpu_3x2x`, which must be at least
/// 1 MHz.
pub fn start(regs: &mut GlobalTimerRegs, cpu_3x2x: u32)
    requires
        cpu_3x2x >= 1_000_000,
    ensures
        timer_started(*old(regs), *final(regs), halve_to_256(cpu_3x2x / 1_000_000)),
{
    regs.control.write(0);
    regs.journal.push((CONTROL_OFFSET, 0));
    regs.counter0.write(0);
    regs.journal.push((COUNTER0_OFFSET, 0));
    regs.counter1.write(0);
    regs.journal.push((COUNTER1_OFFSET, 0));
    let prescaler = prescaler_for(cpu_3x2x);
    let p: u32 = prescaler - 1;
    let run: u32 = (p << 8) | 8 | 1;
    regs.control.write(run);
    regs.journal.push((CONTROL_OFFSET, run));
    proof {
        assert(regs.journal@ =~= old(regs).journal@ + start_journal(prescaler));
    }
}

/// The 64-bit count from a read of the high word, the low word and the high
/// word again: none when the two high words differ, as the low word wrapped
/// between the reads.
pub fn get_counter(c1_pre: u32, c0: u32, c1_post: u32) -> (r: Option<u64>)
    ensures
        c1_pre == c1_post ==> r == Some((c1_pre * 0x1_0000_0000 + c0) as u64),
        c1_pre != c1_post ==> r.is_none(),
{
    if c1_pre == c1_post {
        let v = ((c1_pre as u64) << 32) | (c0 as u64);
        assert(((c1_pre as u64) << 32u64) | (c0 as u64) == c1_pre * 0x1_0000_0000 + c0) by (bit_vector);
        Some(v)
    } else {
        None
    }
}

/// The prescaler field (bits 8 to 15) of the timer control value.
pub open spec fn control_prescaler(control: u32) -> u32 {
    bits32(control, 8, 15)
}

proof fn lemma_prescaler_bound(control: u32)
    ensures
        control_prescaler(control) <= 255,
{
    assert(((control >> 8u32) & (((1u32 << 8u32) - 1u32) as u32)) <= 255) by (bit_vector);
}

/// Milliseconds since start: the count times the prescaler plus one, over
/// the 3x/2x CPU clock in kHz.
pub open spec fn count_to_ms(counter: u64, control: u32, cpu_3x2x: u32) -> int {
    (counter * (control_prescaler(control) + 1)) / ((cpu_3x2x / 1000) as int)
}

/// Microseconds since start: a million times the count times the prescaler
/// plus one, over the 3x/2x CPU clock in Hz.
pub open spec fn count_to_us(counter: u64, control: u32, cpu_3x2x: u32) -> int {
    (1_000_000 * counter * (control_prescaler(control) + 1)) / (cpu_3x2x as int)
}

/// Converts a count to milliseconds. The clock must be at least 1 kHz and
/// the scaled count must fit in 64 bits.
pub fn get_ms(counter: u64, control: u32, cpu_3x2x: u32) -> (r: u64)
    requires
        cpu_3x2x >= 1000,
        counter * (control_prescaler(control) + 1) <= u64::MAX,
    ensures
        r == count_to_ms(counter, control, cpu_3x2x),
{
    proof {
        lemma_prescaler_bound(control);
    }
    let prescaler = get_bits_u32(control, 8, 15) as u64;
    counter * (prescaler + 1) / (cpu_3x2x as u64 / 1000)
}

/// Converts a count to microseconds. The clock must be nonzero and the
/// scaled count must fit in 64 bits.
pub fn get_us(counter: u64, control: u32, cpu_3x2x: u32) -> (r: u64)
    requires
        cpu_3x2x > 0,
        1_000_000 * counter * (control_prescaler(control) + 1) <= u64::MAX,
    ensures
        r == count_to_us(counter, control, cpu_3x2x),
{
    proof {
        lemma_prescaler_bound(control);
        assert(1_000_000 * counter <= 1_000_000 * counter * (control_prescaler(control) + 1)) by (nonlinear_arith)
            requires control_prescaler(control) + 1 >= 1;
    }
    let prescaler = get_bits_u32(control, 8, 15) as u64;
    1_000_000 * counter * (prescaler + 1) / cpu_3x2x as u64
}

/// "uptime"
pub struct GlobalTimer {
    pub regs: GlobalTimerRegs,
}

impl GlobalTimer {
    /// The timer, restarted as `start` does.
    pub fn start(regs: GlobalTimerRegs, cpu_3x2x: u32) -> (r: GlobalTimer)
        requires
            cpu_3x2x >= 1_000_000,
        ensures
            timer_started(regs, r.regs, halve_to_256(cpu_3x2x / 1_000_000)),
    {
        let mut regs = regs;
        start(&mut regs, cpu_3x2x);
        GlobalTimer { regs }
    }

    /// The time of count `counter`, under this timer's prescaler.
    pub fn get_time(&self, counter: u64, cpu_3x2x: u32) -> (r: Milliseconds)
        requires
            cpu_3x2x >= 1000,
            counter * (control_prescaler(self.regs.control.value) + 1) <= u64::MAX,
        ensures
            r.0 == count_to_ms(counter, self.regs.control.value, cpu_3x2x),
    {
        Milliseconds(get_ms(counter, self.regs.control.value, cpu_3x2x))
    }

    /// The time of count `counter` in microseconds, under this timer's
    /// prescaler.
    pub fn get_us(&self, counter: u64, cpu_3x2x: u32) -> (r: Microseconds)
        requires
            cpu_3x2x > 0,
            1_000_000 * counter * (control_prescaler(self.regs.control.value) + 1) <= u64::MAX,
        ensures
            r.0 == count_to_us(counter, self.regs.control.value, cpu_3x2x),
    {
        Microseconds(get_us(counter, self.regs.control.value, cpu_3x2x))
    }
}


/// A count-down with timeout `timeout` is still waiting at time `now`
/// while `now` has not passed the timeout.
pub open spec fn still_waiting(timeout: u64, now: u64) -> bool {
    now <= timeout
}

/// A count-down started at `t0` for `count` waits exactly until `t0 +
/// count` has passed, and as the timer never runs backwards, once it stops
/// waiting it keeps not waiting until it is started again. (A start whose
/// timeout would not fit in 64 bits overflows, and is not allowed.)
pub proof fn lemma_countdown_expires_once(t0: u64, count: u64, now1: u64, now2: u64)
    requires
        t0 + count <= u64::MAX,
        now1 <= now2,
    ensures
        still_waiting((t0 + count) as u64, now1) == (now1 <= t0 + count),
        !still_waiting((t0 + count) as u64, now1) ==> !still_waiting((t0 + count) as u64, now2),
{
}

/// A count-down against the global timer: waiting while the current time
/// has not passed the timeout.
pub struct CountDown<U> {
    pub timeout: U,
}

impl CountDown<Milliseconds> {
    /// Starts counting `count` from the time `now`; the timeout must fit.
    pub fn start(&mut self, now: Milliseconds, count: Milliseconds)
        requires
            now.0 + count.0 <= u64::MAX,
        ensures
            final(self).timeout.0 == now.0 + count.0,
    {
        self.timeout = now + count;
    }

    /// Whether the time `now` has not yet passed the timeout.
    pub fn waiting(&self, now: Milliseconds) -> (r: bool)
        ensures
            r == still_waiting(self.timeout.0, now.0),
    {
        now.0 <= self.timeout.0
    }
}

impl CountDown<Microseconds> {
    /// Starts counting `count` from the time `now`; the timeout must fit.
    pub fn start(&mut self, now: Microseconds, count: Microseconds)
        requires
            now.0 + count.0 <= u64::MAX,
        ensures
            final(self).timeout.0 == now.0 + count.0,
    {
        self.timeout = now + count;
    }

    /// Whether the time `now` has not yet passed the timeout.
    pub fn waiting(&self, now: Microseconds) -> (r: bool)
        ensures
            r == still_waiting(self.timeout.0, now.0),
    {
        now.0 <= self.timeout.0
    }
}

} // verus!
