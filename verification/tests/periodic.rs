use countdown_timer::periph::TimerPeriph;
use countdown_timer::timer::Mode;
use countdown_timer::timer::Timer;
use countdown_timer::timer::WaitResult;

#[test]
fn periodic_five_hundred_ticks() {
    let mut t = Timer::periodic(TimerPeriph::new(9));
    assert_eq!(t.mode, Mode::Periodic);
    t.start(500);
    t.advance(499);
    assert_eq!(t.wait(), WaitResult::Pending);
    t.advance(1);
    assert_eq!(t.wait(), WaitResult::Complete);
    // The counter keeps running past the target without re-arming.
    assert_eq!(t.read(), 500);
    t.advance(10);
    assert_eq!(t.read(), 510);
    assert_eq!(t.wait(), WaitResult::Pending);
    // A second start is required for another completion.
    t.start(500);
    t.advance(499);
    assert_eq!(t.wait(), WaitResult::Pending);
    t.advance(1);
    assert_eq!(t.wait(), WaitResult::Complete);
}

#[test]
fn periodic_event_outlives_match_until_polled() {
    let mut t = Timer::periodic(TimerPeriph::new(9));
    t.start(5);
    t.advance(20);
    assert_eq!(t.read(), 20);
    assert_eq!(t.wait(), WaitResult::Complete);
    assert_eq!(t.wait(), WaitResult::Pending);
}

#[test]
fn periodic_no_second_complete_without_restart() {
    let mut t = Timer::periodic(TimerPeriph::new(9));
    t.start(5);
    t.advance(5);
    assert_eq!(t.wait(), WaitResult::Complete);
    t.advance(100_000);
    assert_eq!(t.wait(), WaitResult::Pending);
}

#[test]
fn delay_leaves_periodic_counting() {
    let mut t = Timer::periodic(TimerPeriph::new(9));
    t.delay(300);
    assert_eq!(t.read(), 300);
    t.advance(5);
    assert_eq!(t.read(), 305);
    let p = t.free();
    assert!(p.running);
}
