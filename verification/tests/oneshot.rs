use countdown_timer::periph::TimerPeriph;
use countdown_timer::timer::Mode;
use countdown_timer::timer::Timer;
use countdown_timer::timer::WaitResult;
use countdown_timer::timer::TICKS_PER_SECOND;

#[test]
fn one_shot_thousand_ticks() {
    let mut t = Timer::one_shot(TimerPeriph::new(8));
    assert_eq!(t.mode, Mode::OneShot);
    t.start(1000);
    t.advance(999);
    assert_eq!(t.wait(), WaitResult::Pending);
    t.advance(1);
    assert_eq!(t.wait(), WaitResult::Complete);
    assert_eq!(t.wait(), WaitResult::Pending);
    t.advance(5000);
    assert_eq!(t.wait(), WaitResult::Pending);
}

#[test]
fn one_shot_counter_stops_after_match() {
    let mut t = Timer::one_shot(TimerPeriph::new(8));
    t.start(1000);
    t.advance(1000);
    assert_eq!(t.wait(), WaitResult::Complete);
    // The counter auto-cleared and auto-stopped: reads no longer change.
    assert_eq!(t.read(), 0);
    t.advance(777);
    assert_eq!(t.read(), 0);
    let p = t.free();
    assert!(!p.running);
}

#[test]
fn one_shot_counts_up_while_pending() {
    let mut t = Timer::one_shot(TimerPeriph::new(8));
    t.start(3);
    assert_eq!(t.wait(), WaitResult::Pending);
    t.advance(2);
    assert_eq!(t.read(), 2);
    assert_eq!(t.wait(), WaitResult::Pending);
    t.advance(1);
    assert_eq!(t.wait(), WaitResult::Complete);
    assert_eq!(t.wait(), WaitResult::Pending);
}

#[test]
fn restart_clears_stale_event() {
    let mut t = Timer::one_shot(TimerPeriph::new(8));
    // First countdown matches but is never observed via wait.
    t.start(5);
    t.advance(9);
    // The second countdown must not report completion prematurely.
    t.start(7);
    assert_eq!(t.wait(), WaitResult::Pending);
    t.advance(6);
    assert_eq!(t.wait(), WaitResult::Pending);
    t.advance(1);
    assert_eq!(t.wait(), WaitResult::Complete);
}

#[test]
fn target_zero_matches_only_on_wrap() {
    let mut t = Timer::one_shot(TimerPeriph::new(8));
    t.start(0);
    assert_eq!(t.wait(), WaitResult::Pending);
    t.advance(100_000);
    assert_eq!(t.wait(), WaitResult::Pending);
    assert_eq!(t.read(), 100_000);
}

#[test]
fn largest_target_stays_pending() {
    let mut t = Timer::one_shot(TimerPeriph::new(8));
    t.start(u32::MAX);
    t.advance(1000);
    assert_eq!(t.wait(), WaitResult::Pending);
    assert_eq!(t.read(), 1000);
}

#[test]
fn delay_blocks_until_complete() {
    let mut t = Timer::one_shot(TimerPeriph::new(8));
    t.delay(250);
    // The completion was consumed by delay itself.
    assert_eq!(t.wait(), WaitResult::Pending);
    assert_eq!(t.read(), 0);
    let p = t.free();
    assert!(!p.running);
    assert_eq!(p.cc0, 250);
}

#[test]
fn new_constructs_one_shot() {
    let mut t = Timer::new(TimerPeriph::new(8));
    assert_eq!(t.mode, Mode::OneShot);
    t.start(2);
    t.advance(2);
    assert_eq!(t.wait(), WaitResult::Complete);
    assert_eq!(t.read(), 0);
}

#[test]
fn tick_rate_is_one_megahertz() {
    assert_eq!(TICKS_PER_SECOND, 1_000_000);
}
