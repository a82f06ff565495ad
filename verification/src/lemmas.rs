//! Laws of the countdown protocol, proved over the simulated clock.
//!
//! Each public lemma states one guarantee of the driver in terms of the
//! state shapes its operations ensure (`started_state`, `cancelled_state`,
//! `captured_state`, the construction configurations) and the clock
//! (`advance_spec`): what every poll of a countdown reports, that starting
//! anew clears stale completions, that cancellation silences `wait`, that
//! reads are free of side effects on the outcome, and that mode conversion
//! leaves no residue behind.

use vstd::prelude::*;

use crate::periph::advance_spec;
use crate::periph::match_ticks;
use crate::periph::tick_spec;
use crate::periph::TimerPeriph;
use crate::timer::cancelled_state;
use crate::timer::captured_state;
use crate::timer::periodic_config;
use crate::timer::started_state;
use crate::timer::PRESCALER_1MHZ;

verus! {

/// Advancing one tick further is one more application of `tick_spec`.
pub proof fn lemma_advance_one_more(p: TimerPeriph, n: nat)
    ensures
        advance_spec(p, n + 1) == tick_spec(advance_spec(p, n)),
    decreases n,
{
    assert(advance_spec(p, n + 1) == advance_spec(tick_spec(p), n));
    if n == 0 {
        assert(advance_spec(tick_spec(p), 0) == tick_spec(p));
        assert(advance_spec(p, 0) == p);
    } else {
        lemma_advance_one_more(tick_spec(p), (n - 1) as nat);
        assert(advance_spec(p, n) == advance_spec(tick_spec(p), (n - 1) as nat));
    }
}

/// Advancing by `m + n` ticks is advancing by `m`, then by `n`.
pub proof fn lemma_advance_add(p: TimerPeriph, m: nat, n: nat)
    ensures
        advance_spec(p, m + n) == advance_spec(advance_spec(p, m), n),
    decreases m,
{
    if m > 0 {
        lemma_advance_add(tick_spec(p), (m - 1) as nat, n);
    }
}

/// The clock only ever moves the counter, the event flag, and the running
/// state: configuration (vector, prescaler, bit width, shortcuts), the
/// compare target, the capture scratch register, and the interrupt enable
/// all survive any advance untouched.
pub proof fn lemma_advance_preserves_config(p: TimerPeriph, n: nat)
    ensures
        advance_spec(p, n).vector == p.vector,
        advance_spec(p, n).prescaler == p.prescaler,
        advance_spec(p, n).bitmode32 == p.bitmode32,
        advance_spec(p, n).compare0_clear == p.compare0_clear,
        advance_spec(p, n).compare0_stop == p.compare0_stop,
        advance_spec(p, n).cc0 == p.cc0,
        advance_spec(p, n).cc1 == p.cc1,
        advance_spec(p, n).inten_compare0 == p.inten_compare0,
    decreases n,
{
    if n > 0 {
        lemma_advance_preserves_config(tick_spec(p), (n - 1) as nat);
    }
}

/// A stopped counter does not move, however far the clock advances: every
/// register keeps its value until some task is triggered.
pub proof fn lemma_stopped_unchanged(p: TimerPeriph, n: nat)
    requires
        !p.running,
    ensures
        advance_spec(p, n) == p,
    decreases n,
{
    if n > 0 {
        lemma_stopped_unchanged(tick_spec(p), (n - 1) as nat);
    }
}

/// A running counter that stays on the near side of the compare target
/// simply counts: `n` ticks move the counter by `n` and fire no event, as
/// long as the count neither wraps nor crosses the target from below.
pub proof fn lemma_no_match_run(p: TimerPeriph, n: nat)
    requires
        p.running,
        p.counter + n < 0x1_0000_0000,
        p.cc0 <= p.counter || p.counter + n < p.cc0,
    ensures
        advance_spec(p, n) == (TimerPeriph { counter: (p.counter + n) as u32, ..p }),
    decreases n,
{
    if n > 0 {
        lemma_no_match_run(tick_spec(p), (n - 1) as nat);
    }
}

/// The one-shot countdown law. After `start(cycles)` on a one-shot timer
/// (both compare-0 shortcuts armed), every poll of `wait` reports `Pending`
/// while fewer than `match_ticks(cycles)` ticks have elapsed — the event
/// flag stays clear and the counter reads back the elapsed ticks — and from
/// `match_ticks(cycles)` ticks on the peripheral sits in one fixed state:
/// event fired, counter cleared to zero, counting stopped. `wait` therefore
/// reports `Complete` exactly once there (consuming the event pins the
/// stopped state at `Pending` for good), and `read` no longer changes.
pub proof fn lemma_one_shot_countdown(p: TimerPeriph, cycles: u32, n: nat)
    requires
        p.compare0_clear,
        p.compare0_stop,
    ensures
        n < match_ticks(cycles) ==> advance_spec(started_state(p, cycles), n)
            == (TimerPeriph { counter: n as u32, ..started_state(p, cycles) }),
        n >= match_ticks(cycles) ==> advance_spec(started_state(p, cycles), n)
            == (TimerPeriph {
            counter: 0u32,
            event_compare0: true,
            running: false,
            ..started_state(p, cycles)
        }),
{
    let s = started_state(p, cycles);
    let t = match_ticks(cycles);
    if n < t {
        lemma_no_match_run(s, n);
    } else {
        lemma_no_match_run(s, (t - 1) as nat);
        lemma_advance_one_more(s, (t - 1) as nat);
        assert(advance_spec(s, t as nat) == (TimerPeriph {
            counter: 0u32,
            event_compare0: true,
            running: false,
            ..s
        }));
        lemma_advance_add(s, t as nat, (n - t) as nat);
        lemma_stopped_unchanged(advance_spec(s, t as nat), (n - t) as nat);
    }
}

/// The periodic countdown law. After `start(cycles)` on a periodic timer
/// (both compare-0 shortcuts off), polls report `Pending` while fewer than
/// `match_ticks(cycles)` ticks have elapsed, and at exactly that many the
/// event has fired while the counter has kept counting — it stands at the
/// target and keeps running rather than re-arming.
pub proof fn lemma_periodic_countdown(p: TimerPeriph, cycles: u32, n: nat)
    requires
        !p.compare0_clear,
        !p.compare0_stop,
    ensures
        n < match_ticks(cycles) ==> advance_spec(started_state(p, cycles), n)
            == (TimerPeriph { counter: n as u32, ..started_state(p, cycles) }),
        n == match_ticks(cycles) ==> advance_spec(started_state(p, cycles), n)
            == (TimerPeriph {
            counter: cycles,
            event_compare0: true,
            running: true,
            ..started_state(p, cycles)
        }),
{
    let s = started_state(p, cycles);
    let t = match_ticks(cycles);
    if n < t {
        lemma_no_match_run(s, n);
    } else if n == t {
        lemma_no_match_run(s, (t - 1) as nat);
        lemma_advance_one_more(s, (t - 1) as nat);
    }
}

/// Once a periodic completion has been consumed, no further completion is
/// reported until the counter naturally wraps: from the state `wait` leaves
/// right after `Complete` (counter at the target, event consumed, still
/// counting, no clear shortcut), the event flag stays clear for every
/// advance short of a full 32-bit wrap, while the counter free-runs past
/// the target, wrapping modulo the counter width.
pub proof fn lemma_periodic_quiet_until_wrap(p: TimerPeriph, n: nat)
    requires
        p.running,
        !p.event_compare0,
        !p.compare0_clear,
        p.counter == p.cc0,
        n < 0x1_0000_0000,
    ensures
        !advance_spec(p, n).event_compare0,
        advance_spec(p, n).running,
        advance_spec(p, n).counter == ((p.cc0 + n) % 0x1_0000_0000) as u32,
{
    if p.counter + n < 0x1_0000_0000 {
        lemma_no_match_run(p, n);
    } else {
        // The count reaches the top of the 32-bit range, wraps to zero
        // without matching (the target is not zero here, else the count
        // could not wrap within n ticks), and climbs again, stopping short
        // of the target.
        let top = (0x1_0000_0000 - 1 - p.cc0) as nat;
        lemma_no_match_run(p, top);
        lemma_advance_one_more(p, top);
        let wrapped = advance_spec(p, top + 1);
        assert(wrapped == (TimerPeriph { counter: 0u32, ..p }));
        let rest = (n - top - 1) as nat;
        lemma_no_match_run(wrapped, rest);
        lemma_advance_add(p, top + 1, rest);
    }
}

/// The counterpart of the quiet law: a consumed periodic completion does
/// come back at exactly one full wrap of the 32-bit counter — after
/// 2^32 ticks the peripheral is back in the same state with the event flag
/// set once more.
pub proof fn lemma_periodic_rearms_at_wrap(p: TimerPeriph)
    requires
        p.running,
        !p.event_compare0,
        !p.compare0_clear,
        !p.compare0_stop,
        p.counter == p.cc0,
    ensures
        advance_spec(p, 0x1_0000_0000) == (TimerPeriph { event_compare0: true, ..p }),
{
    let last = (0x1_0000_0000 - 1) as nat;
    lemma_periodic_quiet_until_wrap(p, last);
    lemma_advance_preserves_config(p, last);
    lemma_advance_one_more(p, last);
    let q = advance_spec(p, last);
    assert(q == (TimerPeriph { counter: q.counter, ..p }));
    if p.cc0 == 0 {
        assert(q.counter == 0xffff_ffffu32);
    } else {
        assert(q.counter == p.cc0 - 1);
    }
    assert(tick_spec(q) == (TimerPeriph { event_compare0: true, ..p }));
}

/// Starting anew clears stale completions. Whatever countdown ran before
/// and however far it got — matched and never observed included — a fresh
/// `start` leaves no poll before the new target reporting `Complete`: the
/// event flag is clear at every tick short of the new match.
pub proof fn lemma_restart_clears_stale_event(
    p: TimerPeriph,
    first: u32,
    ran: nat,
    second: u32,
    n: nat,
)
    requires
        n < match_ticks(second),
    ensures
        !advance_spec(
            started_state(advance_spec(started_state(p, first), ran), second),
            n,
        ).event_compare0,
{
    lemma_no_match_run(
        started_state(advance_spec(started_state(p, first), ran), second),
        n,
    );
}

/// Cancellation silences `wait` regardless of prior state: right after
/// `cancel` the event flag is clear, and it stays clear — the whole
/// peripheral stays put — however far the clock advances, until a new
/// `start`.
pub proof fn lemma_cancel_then_wait_pending(p: TimerPeriph, n: nat)
    ensures
        !cancelled_state(p).event_compare0,
        advance_spec(cancelled_state(p), n) == cancelled_state(p),
{
    lemma_stopped_unchanged(cancelled_state(p), n);
}

/// The clock never looks at the capture register: replacing `cc1` commutes
/// with advancing, so two states that differ only in `cc1` stay in lockstep
/// forever.
pub proof fn lemma_advance_ignores_cc1(p: TimerPeriph, scratch: u32, n: nat)
    ensures
        advance_spec(TimerPeriph { cc1: scratch, ..p }, n)
            == (TimerPeriph { cc1: scratch, ..advance_spec(p, n) }),
    decreases n,
{
    if n > 0 {
        assert(tick_spec(TimerPeriph { cc1: scratch, ..p })
            == (TimerPeriph { cc1: scratch, ..tick_spec(p) }));
        lemma_advance_ignores_cc1(tick_spec(p), scratch, (n - 1) as nat);
    }
}

/// `read` never resets, stops, or alters a countdown's outcome: after a
/// capture, the peripheral advances exactly as it would have unread — same
/// counter, same event flag, same running state at every future tick — with
/// only the scratch capture register holding the snapshot.
pub proof fn lemma_read_preserves_countdown(p: TimerPeriph, n: nat)
    ensures
        advance_spec(captured_state(p), n)
            == (TimerPeriph { cc1: p.counter, ..advance_spec(p, n) }),
        advance_spec(captured_state(p), n).event_compare0
            == advance_spec(p, n).event_compare0,
{
    lemma_advance_ignores_cc1(p, p.counter, n);
}

/// Mode conversion leaves no residual compare target — nor any residue at
/// all: converting a well-formed one-shot timer to periodic and starting a
/// countdown puts the peripheral in exactly the state that releasing it,
/// constructing a fresh periodic timer on it, and starting the same
/// countdown would.
pub proof fn lemma_convert_equals_fresh_periodic(q: TimerPeriph, cycles: u32)
    requires
        q.prescaler == PRESCALER_1MHZ,
        q.bitmode32,
    ensures
        started_state(
            TimerPeriph { compare0_clear: false, compare0_stop: false, ..q },
            cycles,
        ) == started_state(periodic_config(q), cycles),
{
}

} // verus!
