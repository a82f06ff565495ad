//! The countdown-timer driver.
//!
//! A [`Timer`] owns one [`TimerPeriph`] exclusively and turns it into a
//! timing primitive: `start` programs a countdown, `wait` polls it without
//! blocking, `delay` spins until it completes, `cancel` aborts it in place,
//! and `read` captures the live counter without disturbing it. The timer is
//! always run at a 1 MHz tick with the full 32-bit counter width.

use vstd::prelude::*;

use crate::irq::InterruptController;
use crate::periph::match_ticks;
use crate::periph::TimerPeriph;

verus! {

/// Ticks counted per second at the fixed 1 MHz rate.
pub const TICKS_PER_SECOND: u32 = 1_000_000;

/// Prescaler exponent dividing the 16 MHz base clock down to 1 MHz.
pub const PRESCALER_1MHZ: u8 = 4;

/// Countdown mode of a timer.
#[derive(Clone, Copy, PartialEq, Eq, Structural, Debug)]
pub enum Mode {
    /// The counter clears and stops by itself on a compare match.
    OneShot,
    /// The counter free-runs past a compare match until cancelled.
    Periodic,
}

/// Outcome of one non-blocking poll of a countdown.
#[derive(Clone, Copy, PartialEq, Eq, Structural, Debug)]
pub enum WaitResult {
    /// The countdown has not matched yet; poll again.
    Pending,
    /// The countdown matched; reported once per started countdown.
    Complete,
}

/// Error of a cancellation. Cancellation cannot currently fail; the slot
/// exists so that a backend with a failure mode can keep the interface.
#[derive(Clone, Copy, PartialEq, Eq, Structural, Debug)]
pub struct CancelError;

/// Registers as one-shot construction leaves them: both compare-0 shortcuts
/// armed, a 1 MHz tick, the full 32-bit width.
pub open spec fn one_shot_config(p: TimerPeriph) -> TimerPeriph {
    TimerPeriph {
        compare0_clear: true,
        compare0_stop: true,
        prescaler: PRESCALER_1MHZ,
        bitmode32: true,
        ..p
    }
}

/// Registers as periodic construction leaves them: both compare-0 shortcuts
/// off, a 1 MHz tick, the full 32-bit width.
pub open spec fn periodic_config(p: TimerPeriph) -> TimerPeriph {
    TimerPeriph {
        compare0_clear: false,
        compare0_stop: false,
        prescaler: PRESCALER_1MHZ,
        bitmode32: true,
        ..p
    }
}

/// Registers right after `start(cycles)`: stale event cleared, target
/// programmed, counter cleared, counting.
pub open spec fn started_state(p: TimerPeriph, cycles: u32) -> TimerPeriph {
    TimerPeriph {
        event_compare0: false,
        cc0: cycles,
        counter: 0u32,
        running: true,
        ..p
    }
}

/// Registers right after `cancel`: stopped where it was, event cleared.
pub open spec fn cancelled_state(p: TimerPeriph) -> TimerPeriph {
    TimerPeriph { running: false, event_compare0: false, ..p }
}

/// Registers right after `read`: the live counter captured into the scratch
/// register, nothing else touched.
pub open spec fn captured_state(p: TimerPeriph) -> TimerPeriph {
    TimerPeriph { cc1: p.counter, ..p }
}

/// Driver for one timer instance: the exclusively owned peripheral and the
/// mode it was configured for.
pub struct Timer {
    /// The owned peripheral.
    pub periph: TimerPeriph,
    /// The configured countdown mode.
    pub mode: Mode,
}

impl Timer {
    /// Well-formedness: the fixed tick rate and counter width are programmed
    /// and the compare-0 shortcuts agree with the mode. Constructors
    /// establish it and every operation preserves it.
    pub open spec fn wf(self) -> bool {
        &&& self.periph.prescaler == PRESCALER_1MHZ
        &&& self.periph.bitmode32
        &&& self.periph.compare0_clear == (self.mode is OneShot)
        &&& self.periph.compare0_stop == (self.mode is OneShot)
    }

    /// Configure `periph` for one-shot operation and take ownership of it.
    pub fn one_shot(periph: TimerPeriph) -> (t: Timer)
        ensures
            t.mode is OneShot,
            t.periph == one_shot_config(periph),
            t.wf(),
    {
        let mut p = periph;
        p.write_shorts(true, true);
        p.write_prescaler(PRESCALER_1MHZ);
        p.write_bitmode_32();
        Timer { periph: p, mode: Mode::OneShot }
    }

    /// Configure `periph` for one-shot operation; same as `one_shot`.
    pub fn new(periph: TimerPeriph) -> (t: Timer)
        ensures
            t.mode is OneShot,
            t.periph == one_shot_config(periph),
            t.wf(),
    {
        Timer::one_shot(periph)
    }

    /// Configure `periph` for periodic operation and take ownership of it.
    pub fn periodic(periph: TimerPeriph) -> (t: Timer)
        ensures
            t.mode is Periodic,
            t.periph == periodic_config(periph),
            t.wf(),
    {
        let mut p = periph;
        p.write_shorts(false, false);
        p.write_prescaler(PRESCALER_1MHZ);
        p.write_bitmode_32();
        Timer { periph: p, mode: Mode::Periodic }
    }

    /// Convert to periodic operation, consuming the timer. Only the
    /// compare-0 shortcuts are reprogrammed; no other register is touched.
    pub fn into_periodic(self) -> (t: Timer)
        ensures
            t.mode is Periodic,
            t.periph == (TimerPeriph {
                compare0_clear: false,
                compare0_stop: false,
                ..self.periph
            }),
            self.wf() ==> t.wf(),
    {
        let mut p = self.periph;
        p.write_shorts(false, false);
        Timer { periph: p, mode: Mode::Periodic }
    }

    /// Convert to one-shot operation, consuming the timer. Only the
    /// compare-0 shortcuts are reprogrammed; no other register is touched.
    pub fn into_oneshot(self) -> (t: Timer)
        ensures
            t.mode is OneShot,
            t.periph == (TimerPeriph {
                compare0_clear: true,
                compare0_stop: true,
                ..self.periph
            }),
            self.wf() ==> t.wf(),
    {
        let mut p = self.periph;
        p.write_shorts(true, true);
        Timer { periph: p, mode: Mode::OneShot }
    }

    /// Release the raw peripheral, consuming the timer.
    pub fn free(self) -> (p: TimerPeriph)
        ensures
            p == self.periph,
    {
        self.periph
    }

    /// Start a countdown of `cycles` ticks, superseding any previous one.
    ///
    /// Any stale compare event from an earlier countdown that was never
    /// observed is cleared first, so the new countdown cannot report
    /// completion prematurely; then the target is programmed, the counter
    /// cleared, and counting started. All 32-bit targets are valid at the
    /// fixed 32-bit width.
    pub fn start(&mut self, cycles: u32)
        ensures
            final(self).periph == started_state(old(self).periph, cycles),
            final(self).mode == old(self).mode,
            old(self).wf() ==> final(self).wf(),
    {
        self.periph.clear_event_compare0();
        self.periph.write_cc0(cycles);
        self.periph.task_clear();
        self.periph.task_start();
    }

    /// Poll the countdown without blocking.
    ///
    /// Returns `Complete` exactly when the compare event has fired since the
    /// last `start`, `wait` that returned `Complete`, or `cancel`; in that
    /// case the event is consumed, so the next poll is `Pending` again until
    /// a new match. Otherwise returns `Pending` and changes nothing.
    pub fn wait(&mut self) -> (r: WaitResult)
        ensures
            r == WaitResult::Complete <==> old(self).periph.event_compare0,
            final(self).periph == (TimerPeriph {
                event_compare0: false,
                ..old(self).periph
            }),
            final(self).mode == old(self).mode,
            old(self).wf() ==> final(self).wf(),
    {
        if !self.periph.read_event_compare0() {
            return WaitResult::Pending;
        }
        self.periph.clear_event_compare0();
        WaitResult::Complete
    }

    /// Stop the countdown where it is and clear the compare event, so that
    /// `wait` reports `Pending` until a new `start`. Infallible.
    pub fn cancel(&mut self) -> (r: Result<(), CancelError>)
        ensures
            r is Ok,
            final(self).periph == cancelled_state(old(self).periph),
            final(self).mode == old(self).mode,
            old(self).wf() ==> final(self).wf(),
    {
        self.periph.task_stop();
        self.periph.clear_event_compare0();
        Ok(())
    }

    /// Capture the live counter into the scratch register and return it,
    /// without stopping, resetting, or otherwise perturbing the countdown.
    pub fn read(&mut self) -> (r: u32)
        ensures
            r == old(self).periph.counter,
            final(self).periph == captured_state(old(self).periph),
            final(self).mode == old(self).mode,
            old(self).wf() ==> final(self).wf(),
    {
        self.periph.task_capture1();
        self.periph.read_cc1()
    }

    /// Advance the simulated clock of the owned peripheral by `ticks`.
    pub fn advance(&mut self, ticks: u32)
        ensures
            final(self).periph == crate::periph::advance_spec(
                old(self).periph,
                ticks as nat,
            ),
            final(self).mode == old(self).mode,
            old(self).wf() ==> final(self).wf(),
    {
        self.periph.advance(ticks);
        proof {
            crate::lemmas::lemma_advance_preserves_config(old(self).periph, ticks as nat);
        }
    }

    /// Start a countdown of `cycles` ticks and busy-wait until it completes,
    /// consuming the completion. Each poll lets the simulated clock advance
    /// one tick, standing for the time a poll takes while the hardware
    /// counts. This is the only blocking operation: it spins, it never
    /// suspends.
    pub fn delay(&mut self, cycles: u32)
        ensures
            final(self).periph == (TimerPeriph {
                counter: if old(self).periph.compare0_clear { 0u32 } else { cycles },
                cc0: cycles,
                event_compare0: false,
                running: !old(self).periph.compare0_stop,
                ..old(self).periph
            }),
            final(self).mode == old(self).mode,
            old(self).wf() ==> final(self).wf(),
    {
        self.start(cycles);
        let ghost started = self.periph;
        let ghost m = self.mode;
        let ghost mut ticked: int = 0;
        let mut status = self.wait();
        while status == WaitResult::Pending
            invariant
                self.mode == m,
                0 <= ticked <= match_ticks(started.cc0),
                started.running,
                !started.event_compare0,
                started.counter == 0,
                status == WaitResult::Pending ==> (self.periph == (TimerPeriph {
                    counter: ticked as u32,
                    ..started
                }) && ticked < match_ticks(started.cc0)),
                status == WaitResult::Complete ==> self.periph == (TimerPeriph {
                    counter: if started.compare0_clear { 0u32 } else { started.cc0 },
                    event_compare0: false,
                    running: !started.compare0_stop,
                    ..started
                }),
            decreases match_ticks(started.cc0) - ticked,
        {
            self.periph.tick();
            proof {
                ticked = ticked + 1;
            }
            status = self.wait();
        }
    }

    /// Set the peripheral-local interrupt enable for the compare event, so
    /// that a match fires this instance's vector. Masking at the interrupt
    /// controller is the caller's responsibility; to have it done here, use
    /// `enable_interrupt_with`.
    pub fn enable_interrupt(&mut self)
        ensures
            final(self).periph == (TimerPeriph {
                inten_compare0: true,
                ..old(self).periph
            }),
            final(self).mode == old(self).mode,
            old(self).wf() ==> final(self).wf(),
    {
        self.periph.intenset_compare0();
    }

    /// Set the peripheral-local interrupt enable for the compare event and
    /// also unmask this instance's vector at the given controller. The two
    /// enable levels are independent; this is the variant that writes both.
    pub fn enable_interrupt_with(&mut self, controller: &mut InterruptController)
        requires
            old(self).periph.vector < old(controller)@.len(),
        ensures
            final(self).periph == (TimerPeriph {
                inten_compare0: true,
                ..old(self).periph
            }),
            final(self).mode == old(self).mode,
            final(controller)@ == old(controller)@.update(
                old(self).periph.vector as int,
                true,
            ),
            old(self).wf() ==> final(self).wf(),
    {
        self.periph.intenset_compare0();
        controller.unmask(self.periph.vector);
    }

    /// Clear the peripheral-local interrupt enable for the compare event.
    /// Masking at the interrupt controller is left to the caller; to have it
    /// done here, use `disable_interrupt_with`.
    pub fn disable_interrupt(&mut self)
        ensures
            final(self).periph == (TimerPeriph {
                inten_compare0: false,
                ..old(self).periph
            }),
            final(self).mode == old(self).mode,
            old(self).wf() ==> final(self).wf(),
    {
        self.periph.intenclr_compare0();
    }

    /// Clear the peripheral-local interrupt enable for the compare event and
    /// also mask this instance's vector at the given controller.
    pub fn disable_interrupt_with(&mut self, controller: &mut InterruptController)
        requires
            old(self).periph.vector < old(controller)@.len(),
        ensures
            final(self).periph == (TimerPeriph {
                inten_compare0: false,
                ..old(self).periph
            }),
            final(self).mode == old(self).mode,
            final(controller)@ == old(controller)@.update(
                old(self).periph.vector as int,
                false,
            ),
            old(self).wf() ==> final(self).wf(),
    {
        self.periph.intenclr_compare0();
        controller.mask(self.periph.vector);
    }
}

} // verus!
