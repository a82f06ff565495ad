//! Model of the counter/compare register block of a TIMER peripheral.
//!
//! A [`TimerPeriph`] value is the capability descriptor for one physical
//! timer instance: it holds, as plain values, every register the driver
//! reads or writes, together with the interrupt vector associated with the
//! instance. The register-level interface (write-1-to-trigger tasks, the
//! compare event, the shortcuts, the compare registers) is exposed as
//! methods whose contracts state exactly what each access does; the
//! hardware's counting itself is carried by the simulated clock
//! ([`TimerPeriph::tick`] and [`TimerPeriph::advance`]).

use vstd::prelude::*;

verus! {

/// State of one counter/compare timer peripheral, as plain values.
///
/// `cc0` holds the compare target of the active countdown; `cc1` is the
/// scratch capture destination used only by counter reads. `compare0_clear`
/// and `compare0_stop` are the two shortcuts from the compare-0 event to the
/// clear and stop tasks: both are armed for one-shot operation and both are
/// left off for periodic operation.
#[derive(Clone, Copy, PartialEq, Eq, Structural, Debug)]
pub struct TimerPeriph {
    /// Interrupt vector associated with this instance.
    pub vector: u16,
    /// Prescaler exponent; 4 divides the 16 MHz base clock down to 1 MHz.
    pub prescaler: u8,
    /// Whether the counter is configured for the full 32-bit width.
    pub bitmode32: bool,
    /// Shortcut: clear the counter when the compare-0 event fires.
    pub compare0_clear: bool,
    /// Shortcut: stop the counter when the compare-0 event fires.
    pub compare0_stop: bool,
    /// Compare target for the active countdown.
    pub cc0: u32,
    /// Scratch capture destination for counter reads.
    pub cc1: u32,
    /// Live counter value.
    pub counter: u32,
    /// Compare-0 event flag; set by a match, cleared by writing the event.
    pub event_compare0: bool,
    /// Whether the counter is counting.
    pub running: bool,
    /// Peripheral-local interrupt enable for the compare-0 event.
    pub inten_compare0: bool,
}

/// One tick of the peripheral's clock: a running counter increments
/// (wrapping at the 32-bit width); when the new value equals the compare
/// target the compare-0 event fires and the armed shortcuts act (clear the
/// counter, stop counting). A stopped counter does not move.
pub open spec fn tick_spec(p: TimerPeriph) -> TimerPeriph {
    if !p.running {
        p
    } else {
        let next: u32 = if p.counter == u32::MAX { 0u32 } else { (p.counter + 1) as u32 };
        if next == p.cc0 {
            TimerPeriph {
                counter: if p.compare0_clear { 0u32 } else { next },
                event_compare0: true,
                running: !p.compare0_stop,
                ..p
            }
        } else {
            TimerPeriph { counter: next, ..p }
        }
    }
}

/// `n` ticks of the peripheral's clock.
pub open spec fn advance_spec(p: TimerPeriph, n: nat) -> TimerPeriph
    decreases n,
{
    if n == 0 {
        p
    } else {
        advance_spec(tick_spec(p), (n - 1) as nat)
    }
}

/// Number of ticks after which a countdown started with target `c` first
/// matches: `c` itself, except that a target of zero is only reached when
/// the 32-bit counter wraps all the way around.
pub open spec fn match_ticks(c: u32) -> int {
    if c == 0 {
        0x1_0000_0000
    } else {
        c as int
    }
}

impl TimerPeriph {
    /// A peripheral in its reset state, associated with interrupt `vector`.
    pub fn new(vector: u16) -> (p: TimerPeriph)
        ensures
            p == (TimerPeriph {
                vector,
                prescaler: 0u8,
                bitmode32: false,
                compare0_clear: false,
                compare0_stop: false,
                cc0: 0u32,
                cc1: 0u32,
                counter: 0u32,
                event_compare0: false,
                running: false,
                inten_compare0: false,
            }),
    {
        TimerPeriph {
            vector,
            prescaler: 0,
            bitmode32: false,
            compare0_clear: false,
            compare0_stop: false,
            cc0: 0,
            cc1: 0,
            counter: 0,
            event_compare0: false,
            running: false,
            inten_compare0: false,
        }
    }

    /// Write the shortcut register: arm or disarm the compare-0 → clear and
    /// compare-0 → stop shortcuts.
    pub fn write_shorts(&mut self, compare0_clear: bool, compare0_stop: bool)
        ensures
            *final(self) == (TimerPeriph { compare0_clear, compare0_stop, ..*old(self) }),
    {
        self.compare0_clear = compare0_clear;
        self.compare0_stop = compare0_stop;
    }

    /// Write the prescaler register.
    pub fn write_prescaler(&mut self, prescaler: u8)
        ensures
            *final(self) == (TimerPeriph { prescaler, ..*old(self) }),
    {
        self.prescaler = prescaler;
    }

    /// Write the bit-width register, selecting the full 32-bit counter.
    pub fn write_bitmode_32(&mut self)
        ensures
            *final(self) == (TimerPeriph { bitmode32: true, ..*old(self) }),
    {
        self.bitmode32 = true;
    }

    /// Write the compare-0 register.
    pub fn write_cc0(&mut self, value: u32)
        ensures
            *final(self) == (TimerPeriph { cc0: value, ..*old(self) }),
    {
        self.cc0 = value;
    }

    /// Read the capture register `cc1`.
    pub fn read_cc1(&self) -> (r: u32)
        ensures
            r == self.cc1,
    {
        self.cc1
    }

    /// Read the compare-0 event flag.
    pub fn read_event_compare0(&self) -> (r: bool)
        ensures
            r == self.event_compare0,
    {
        self.event_compare0
    }

    /// Write the compare-0 event register, clearing the flag.
    pub fn clear_event_compare0(&mut self)
        ensures
            *final(self) == (TimerPeriph { event_compare0: false, ..*old(self) }),
    {
        self.event_compare0 = false;
    }

    /// Trigger the start task: the counter begins (or keeps) counting.
    pub fn task_start(&mut self)
        ensures
            *final(self) == (TimerPeriph { running: true, ..*old(self) }),
    {
        self.running = true;
    }

    /// Trigger the stop task: the counter stops where it is.
    pub fn task_stop(&mut self)
        ensures
            *final(self) == (TimerPeriph { running: false, ..*old(self) }),
    {
        self.running = false;
    }

    /// Trigger the clear task: the counter is reset to zero.
    pub fn task_clear(&mut self)
        ensures
            *final(self) == (TimerPeriph { counter: 0u32, ..*old(self) }),
    {
        self.counter = 0;
    }

    /// Trigger the capture-1 task: snapshot the live counter into `cc1`
    /// without disturbing counting.
    pub fn task_capture1(&mut self)
        ensures
            *final(self) == (TimerPeriph { cc1: old(self).counter, ..*old(self) }),
    {
        self.cc1 = self.counter;
    }

    /// Set the peripheral-local interrupt enable for the compare-0 event.
    pub fn intenset_compare0(&mut self)
        ensures
            *final(self) == (TimerPeriph { inten_compare0: true, ..*old(self) }),
    {
        self.inten_compare0 = true;
    }

    /// Clear the peripheral-local interrupt enable for the compare-0 event.
    pub fn intenclr_compare0(&mut self)
        ensures
            *final(self) == (TimerPeriph { inten_compare0: false, ..*old(self) }),
    {
        self.inten_compare0 = false;
    }

    /// One tick of the simulated clock.
    pub fn tick(&mut self)
        ensures
            *final(self) == tick_spec(*old(self)),
    {
        if self.running {
            let next: u32 = if self.counter == u32::MAX {
                0
            } else {
                self.counter + 1
            };
            if next == self.cc0 {
                self.counter = if self.compare0_clear {
                    0
                } else {
                    next
                };
                self.event_compare0 = true;
                if self.compare0_stop {
                    self.running = false;
                }
            } else {
                self.counter = next;
            }
        }
    }

    /// Advance the simulated clock by `ticks` ticks.
    pub fn advance(&mut self, ticks: u32)
        ensures
            *final(self) == advance_spec(*old(self), ticks as nat),
    {
        let mut i: u32 = 0;
        while i < ticks
            invariant
                i <= ticks,
                *self == advance_spec(*old(self), i as nat),
            decreases ticks - i,
        {
            proof {
                crate::lemmas::lemma_advance_one_more(*old(self), i as nat);
            }
            self.tick();
            i = i + 1;
        }
    }
}

} // verus!
