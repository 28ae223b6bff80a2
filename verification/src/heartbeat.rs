//! The foreground loop's heartbeat: a wrapping counter and an indicator that
//! changes level once per tick.
//!
//! The loop shares nothing with the interrupt handler. Each cycle it calls
//! [`Heartbeat::tick`], drives the indicator to the level the [`Beat`] names,
//! emits the report if there is one, and waits for the pause.

use vstd::prelude::*;

verus! {

/// The pause between two ticks, in milliseconds.
pub const CADENCE_MS: u16 = 500;

/// The heartbeat's state between ticks.
#[derive(Clone, Copy, Debug, PartialEq, Eq)]
pub struct Pulse {
    /// The number of ticks so far, modulo 2^32.
    pub count: u32,
    /// Whether the indicator is on.
    pub lit: bool,
}

/// What the loop does in one cycle.
#[derive(Clone, Copy, Debug, PartialEq, Eq)]
pub struct Beat {
    /// The level to drive the indicator to.
    pub lit: bool,
    /// The counter value to emit on the diagnostic channel, on every second
    /// tick.
    pub report: Option<u32>,
    /// How long to wait before the next tick, in milliseconds.
    pub pause_ms: u16,
}

impl Pulse {
    /// The state at boot: no tick yet, the indicator off.
    pub open spec fn initial() -> Pulse {
        Pulse { count: 0, lit: false }
    }

    /// The state one tick later: the counter one further, modulo 2^32, and
    /// the indicator at the other level.
    pub open spec fn next(self) -> Pulse {
        Pulse { count: ((self.count + 1) % 0x1_0000_0000) as u32, lit: !self.lit }
    }

    /// What the tick that led to this state asks of the loop. The counter is
    /// reported when it is even.
    pub open spec fn beat(self) -> Beat {
        Beat {
            lit: self.lit,
            report: if self.count % 2 == 0 {
                Some(self.count)
            } else {
                None
            },
            pause_ms: CADENCE_MS,
        }
    }

    /// The state `ticks` ticks later.
    pub open spec fn after(self, ticks: nat) -> Pulse
        decreases ticks,
    {
        if ticks == 0 {
            self
        } else {
            self.after((ticks - 1) as nat).next()
        }
    }
}

/// Every tick counts once: after any number of ticks the counter has grown
/// by exactly that number, modulo 2^32, and the indicator has changed level
/// once per tick.
pub proof fn lemma_every_tick_counts(pulse: Pulse, ticks: nat)
    ensures
        pulse.after(ticks).count == (pulse.count + ticks) % 0x1_0000_0000,
        pulse.after(ticks).lit == (pulse.lit != (ticks % 2 == 1)),
    decreases ticks,
{
    if ticks > 0 {
        lemma_every_tick_counts(pulse, (ticks - 1) as nat);
    }
}

/// The counter wraps without a fault: the tick after 2^32 - 1 leads to 0, and
/// 2^32 ticks lead back to the same count.
pub proof fn lemma_counter_wraps(pulse: Pulse)
    ensures
        pulse.count == u32::MAX ==> pulse.next().count == 0,
        pulse.count < u32::MAX ==> pulse.next().count == pulse.count + 1,
        pulse.after(0x1_0000_0000).count == pulse.count,
{
    lemma_every_tick_counts(pulse, 0x1_0000_0000);
}

/// The foreground loop's counter and indicator.
#[derive(Debug)]
pub struct Heartbeat {
    count: u32,
    lit: bool,
}

impl View for Heartbeat {
    type V = Pulse;

    closed spec fn view(&self) -> Pulse {
        Pulse { count: self.count, lit: self.lit }
    }
}

impl Heartbeat {
    /// The heartbeat at boot.
    pub fn new() -> (heartbeat: Heartbeat)
        ensures
            heartbeat@ == Pulse::initial(),
    {
        Heartbeat { count: 0, lit: false }
    }

    /// A heartbeat that has counted to `count` and has its indicator at
    /// `lit`.
    pub fn starting_at(count: u32, lit: bool) -> (heartbeat: Heartbeat)
        ensures
            heartbeat@ == (Pulse { count, lit }),
    {
        Heartbeat { count, lit }
    }

    /// The number of ticks so far, modulo 2^32.
    pub fn count(&self) -> (count: u32)
        ensures
            count == self@.count,
    {
        self.count
    }

    /// Whether the indicator is on.
    pub fn is_lit(&self) -> (lit: bool)
        ensures
            lit == self@.lit,
    {
        self.lit
    }

    /// One cycle of the loop: changes the indicator's level and counts the
    /// tick, wrapping at 2^32.
    pub fn tick(&mut self) -> (beat: Beat)
        ensures
            final(self)@ == old(self)@.next(),
            beat == final(self)@.beat(),
    {
        self.lit = !self.lit;
        self.count = self.count.wrapping_add(1);
        let count: u32 = self.count;
        assert(count & 1 == count % 2) by (bit_vector);
        let report = if (count & 1) == 0 {
            Some(count)
        } else {
            None
        };
        Beat { lit: self.lit, report, pause_ms: CADENCE_MS }
    }
}

} // verus!
