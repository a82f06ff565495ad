use countdown_timer::irq::InterruptController;
use countdown_timer::periph::TimerPeriph;
use countdown_timer::timer::Mode;
use countdown_timer::timer::Timer;
use countdown_timer::timer::WaitResult;

#[test]
fn cancel_then_wait_is_pending_from_any_state() {
    // Freshly started.
    let mut a = Timer::one_shot(TimerPeriph::new(8));
    a.start(100);
    assert!(a.cancel().is_ok());
    assert_eq!(a.wait(), WaitResult::Pending);

    // Matched but never observed.
    let mut b = Timer::one_shot(TimerPeriph::new(8));
    b.start(5);
    b.advance(9);
    assert!(b.cancel().is_ok());
    assert_eq!(b.wait(), WaitResult::Pending);

    // Already completed and consumed.
    let mut c = Timer::periodic(TimerPeriph::new(9));
    c.start(5);
    c.advance(5);
    assert_eq!(c.wait(), WaitResult::Complete);
    assert!(c.cancel().is_ok());
    assert_eq!(c.wait(), WaitResult::Pending);

    // Never started at all.
    let mut d = Timer::one_shot(TimerPeriph::new(8));
    assert!(d.cancel().is_ok());
    assert_eq!(d.wait(), WaitResult::Pending);
}

#[test]
fn cancel_stops_counter_in_place() {
    let mut t = Timer::periodic(TimerPeriph::new(9));
    t.start(100);
    t.advance(40);
    assert!(t.cancel().is_ok());
    assert_eq!(t.read(), 40);
    t.advance(50);
    assert_eq!(t.read(), 40);
    assert_eq!(t.wait(), WaitResult::Pending);
}

#[test]
fn read_does_not_perturb_countdown() {
    // Same countdown twice, once read mid-flight, once left alone.
    let mut read_one = Timer::one_shot(TimerPeriph::new(8));
    let mut unread = Timer::one_shot(TimerPeriph::new(8));
    read_one.start(100);
    unread.start(100);
    read_one.advance(50);
    unread.advance(50);
    assert_eq!(read_one.read(), 50);
    read_one.advance(50);
    unread.advance(50);
    assert_eq!(read_one.wait(), WaitResult::Complete);
    assert_eq!(unread.wait(), WaitResult::Complete);
    assert_eq!(read_one.read(), unread.read());
}

#[test]
fn conversion_leaves_no_residual_target() {
    // A one-shot timer that has run a countdown, converted to periodic.
    let mut a = Timer::one_shot(TimerPeriph::new(9));
    a.start(3);
    a.advance(10);
    let mut converted = a.into_periodic();
    assert_eq!(converted.mode, Mode::Periodic);
    converted.start(7);

    // A fresh periodic timer on an untouched peripheral.
    let mut fresh = Timer::periodic(TimerPeriph::new(9));
    fresh.start(7);

    // Identical behaviour: the old target of 3 has left no trace.
    converted.advance(3);
    fresh.advance(3);
    assert_eq!(converted.wait(), WaitResult::Pending);
    assert_eq!(fresh.wait(), WaitResult::Pending);
    converted.advance(4);
    fresh.advance(4);
    assert_eq!(converted.wait(), WaitResult::Complete);
    assert_eq!(fresh.wait(), WaitResult::Complete);
    assert_eq!(converted.read(), fresh.read());
    assert_eq!(converted.free(), fresh.free());
}

#[test]
fn conversion_to_one_shot_arms_auto_stop() {
    let t = Timer::periodic(TimerPeriph::new(9));
    let mut converted = t.into_oneshot();
    assert_eq!(converted.mode, Mode::OneShot);
    converted.start(4);
    converted.advance(4);
    assert_eq!(converted.wait(), WaitResult::Complete);
    assert_eq!(converted.read(), 0);
    let p = converted.free();
    assert!(!p.running);
}

#[test]
fn free_returns_configured_peripheral() {
    let t = Timer::one_shot(TimerPeriph::new(12));
    let p = t.free();
    assert_eq!(p.vector, 12);
    assert_eq!(p.prescaler, 4);
    assert!(p.bitmode32);
    assert!(p.compare0_clear);
    assert!(p.compare0_stop);
}

#[test]
fn interrupt_enable_levels_are_independent() {
    let mut nvic = InterruptController::new(64);
    let mut t = Timer::one_shot(TimerPeriph::new(8));

    // Peripheral-local enable only: the controller is untouched.
    t.enable_interrupt();
    assert!(!nvic.is_unmasked(8));

    // Both levels at once.
    t.enable_interrupt_with(&mut nvic);
    assert!(nvic.is_unmasked(8));
    assert!(!nvic.is_unmasked(9));

    // Symmetric disabling.
    t.disable_interrupt_with(&mut nvic);
    assert!(!nvic.is_unmasked(8));
    let p = t.free();
    assert!(!p.inten_compare0);
}

#[test]
fn interrupt_local_bit_reaches_peripheral() {
    let mut t = Timer::periodic(TimerPeriph::new(10));
    t.enable_interrupt();
    let mut p = t.free();
    assert!(p.inten_compare0);
    let mut t2 = Timer::periodic(p);
    t2.disable_interrupt();
    p = t2.free();
    assert!(!p.inten_compare0);
}

#[test]
fn controller_starts_fully_masked() {
    let nvic = InterruptController::new(16);
    assert_eq!(nvic.line_count(), 16);
    for v in 0..16u16 {
        assert!(!nvic.is_unmasked(v));
    }
}
