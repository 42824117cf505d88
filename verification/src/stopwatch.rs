//! The stopwatch: a start/stop toggle, the elapsed time split into whole
//! seconds and milliseconds, a clock face, and the time shown before the last
//! stop.
//!
//! Instants are nanosecond readings of the stopwatch's own [`Clock`]. The
//! functions that end in `_at` take the reading as an argument and are exact;
//! `new`, `reset` and `tick` read the clock and then do the same.

use crate::clock::Clock;
use vstd::prelude::*;

verus! {

/// Nanoseconds in one second.
pub const NANOS_PER_SEC: u64 = 1_000_000_000;

/// Nanoseconds in one millisecond.
pub const NANOS_PER_MILLI: u64 = 1_000_000;

/// The time from `earlier` to `later`, or zero when `later` comes first
/// (the saturating difference of two clock readings).
pub open spec fn gap(earlier: u64, later: u64) -> nat {
    if later >= earlier { (later - earlier) as nat } else { 0 }
}

/// Whole seconds in `nanos` nanoseconds.
pub open spec fn whole_seconds(nanos: nat) -> nat {
    nanos / (NANOS_PER_SEC as nat)
}

/// Milliseconds of `nanos` past its last whole second.
pub open spec fn sub_millis(nanos: nat) -> nat {
    (nanos % (NANOS_PER_SEC as nat)) / (NANOS_PER_MILLI as nat)
}

/// The seconds hand: the total seconds taken modulo 2^16 (a 16-bit
/// truncation), then modulo 60.
pub open spec fn face_second(secs: nat) -> nat {
    (secs % 0x10000) % 60
}

/// The minutes hand: whole minutes modulo 60.
pub open spec fn face_minute(secs: nat) -> nat {
    (secs / 60) % 60
}

/// The hours hand: whole hours taken modulo 2^16 (a 16-bit truncation), then
/// modulo 24.
pub open spec fn face_hour(secs: nat) -> nat {
    ((secs / 60 / 60) % 0x10000) % 24
}

pub struct Stopwatch {
    pub second: u16,
    pub minute: u16,
    pub hour: u16,
    /// Clock reading at which the current run started (moved forward while
    /// paused).
    pub start_time: u64,
    /// Clock reading of the previous tick.
    pub current_time: u64,
    pub seconds: u64,
    pub milliseconds: u32,
    pub last_seconds: u64,
    pub last_milliseconds: u32,
    pub is_running: bool,
    /// The clock that `new`, `reset` and `tick` read.
    pub clock: Clock,
}

impl Stopwatch {
    /// The state that `tick_at(now)` leads to from `self`.
    pub open spec fn ticked(self, now: u64) -> Stopwatch {
        if self.is_running {
            let elapsed: nat = gap(self.start_time, self.current_time);
            let secs: nat = whole_seconds(elapsed);
            Stopwatch {
                seconds: secs as u64,
                milliseconds: sub_millis(elapsed) as u32,
                second: face_second(secs) as u16,
                minute: face_minute(secs) as u16,
                hour: face_hour(secs) as u16,
                current_time: now,
                ..self
            }
        } else {
            Stopwatch {
                start_time: (self.start_time + gap(self.current_time, now)) as u64,
                current_time: now,
                ..self
            }
        }
    }

    /// The state that `reset_at(now)` leads to from `self`.
    pub open spec fn reset_to(self, now: u64) -> Stopwatch {
        Stopwatch {
            last_seconds: if self.is_running { self.seconds } else { self.last_seconds },
            last_milliseconds: if self.is_running {
                self.milliseconds
            } else {
                self.last_milliseconds
            },
            is_running: !self.is_running,
            start_time: now,
            current_time: now,
            second: 0,
            minute: 0,
            hour: 0,
            seconds: 0,
            milliseconds: 0,
            ..self
        }
    }

    /// Whether a tick at `now` can be taken without the start reading
    /// overflowing (it only moves while paused).
    pub open spec fn can_tick_at(self, now: u64) -> bool {
        self.is_running || self.start_time + gap(self.current_time, now) <= u64::MAX
    }

    /// `self` with its clock replaced by `clock`.
    pub open spec fn with_clock(self, clock: Clock) -> Stopwatch {
        Stopwatch { clock, ..self }
    }

    /// The start reading, the current reading and the clock's latest reading
    /// come in that order.
    pub open spec fn readings_ordered(self) -> bool {
        self.start_time <= self.current_time && self.current_time <= self.clock.latest()
    }

    /// What a tick that read `now` from the clock leads to: `now` is no
    /// earlier than the clock's latest reading and becomes it, and the
    /// stopwatch takes the tick at `now` where it can, otherwise stays.
    pub open spec fn tick_outcome(self, next: Stopwatch, now: u64) -> bool {
        &&& now >= self.clock.latest()
        &&& next.clock.latest() == now
        &&& if self.can_tick_at(now) {
            next == self.ticked(now).with_clock(next.clock)
        } else {
            next == self.with_clock(next.clock)
        }
    }

    /// What a reset that read `now` from the clock leads to: `now` is no
    /// earlier than the clock's latest reading and becomes it, and the
    /// stopwatch is reset at `now`.
    pub open spec fn reset_outcome(self, next: Stopwatch, now: u64) -> bool {
        &&& now >= self.clock.latest()
        &&& next.clock.latest() == now
        &&& next == self.reset_to(now).with_clock(next.clock)
    }

    /// A stopped stopwatch with all counters at zero, reading its fresh clock
    /// for the start and current instants.
    pub fn new() -> (s: Stopwatch)
        ensures
            s.second == 0,
            s.minute == 0,
            s.hour == 0,
            s.seconds == 0,
            s.milliseconds == 0,
            s.last_seconds == 0,
            s.last_milliseconds == 0,
            !s.is_running,
            s.readings_ordered(),
    {
        let mut clock = Clock::start();
        let start_time: u64 = clock.now_nanos();
        let current_time: u64 = clock.now_nanos();
        Stopwatch {
            second: 0,
            minute: 0,
            hour: 0,
            start_time,
            current_time,
            seconds: 0,
            milliseconds: 0,
            last_seconds: 0,
            last_milliseconds: 0,
            is_running: false,
            clock,
        }
    }

    /// Starts or stops the stopwatch at clock reading `now`. Stopping keeps
    /// the time shown as the last time; either way the counters go back to
    /// zero and both instants become `now`.
    pub fn reset_at(&mut self, now: u64)
        ensures
            *final(self) == old(self).reset_to(now),
    {
        if self.is_running {
            self.last_seconds = self.seconds;
            self.last_milliseconds = self.milliseconds;
        }
        self.is_running = !self.is_running;
        self.start_time = now;
        self.current_time = now;
        self.second = 0;
        self.hour = 0;
        self.minute = 0;
        self.seconds = 0;
        self.milliseconds = 0;
    }

    /// `reset_at` at the current reading of the stopwatch's clock.
    pub fn reset(&mut self)
        ensures
            exists|now: u64| #[trigger] old(self).reset_outcome(*final(self), now),
            final(self).readings_ordered(),
    {
        let ghost before = *self;
        let now: u64 = self.clock.now_nanos();
        self.reset_at(now);
        assert(before.reset_outcome(*self, now));
    }

    /// Advances the stopwatch to clock reading `now`.
    ///
    /// Running, it shows the time from the start of the run to the previous
    /// tick; paused, it moves the start forward by the time since the
    /// previous tick so that the paused time is not counted. Either way the
    /// current instant becomes `now`.
    pub fn tick_at(&mut self, now: u64)
        requires
            old(self).can_tick_at(now),
        ensures
            *final(self) == old(self).ticked(now),
            old(self).is_running ==> final(self).second < 60 && final(self).minute < 60
                && final(self).hour < 24 && final(self).milliseconds < 1000,
    {
        if !self.is_running {
            let paused: u64 = if now >= self.current_time { now - self.current_time } else { 0 };
            self.start_time = self.start_time + paused;
            self.current_time = now;
            return ;
        }
        let elapsed: u64 = if self.current_time >= self.start_time {
            self.current_time - self.start_time
        } else {
            0
        };
        let seconds: u64 = elapsed / NANOS_PER_SEC;
        let milliseconds: u32 = ((elapsed % NANOS_PER_SEC) / NANOS_PER_MILLI) as u32;
        self.seconds = seconds;
        self.milliseconds = milliseconds;
        let minutes: u64 = seconds / 60;
        let hours: u64 = minutes / 60;
        let truncated_seconds: u16 = #[verifier::truncate] (seconds as u16);
        let truncated_hours: u16 = #[verifier::truncate] (hours as u16);
        assert(truncated_seconds == seconds % 0x10000) by (bit_vector)
            requires
                truncated_seconds == seconds as u16,
        ;
        assert(truncated_hours == hours % 0x10000) by (bit_vector)
            requires
                truncated_hours == hours as u16,
        ;
        self.second = truncated_seconds % 60;
        self.minute = (minutes % 60) as u16;
        self.hour = truncated_hours % 24;
        self.current_time = now;
    }

    /// `tick_at` at the current reading of the stopwatch's clock. Where a
    /// paused tick at that reading would move the start past the largest
    /// reading, the stopwatch is left unchanged.
    pub fn tick(&mut self)
        ensures
            exists|now: u64| #[trigger] old(self).tick_outcome(*final(self), now),
            old(self).readings_ordered() ==> final(self).readings_ordered(),
    {
        let ghost before = *self;
        let now: u64 = self.clock.now_nanos();
        let can = self.is_running || (now < self.current_time || now - self.current_time
            <= u64::MAX - self.start_time);
        assert(can == before.can_tick_at(now));
        if can {
            self.tick_at(now);
        }
        assert(before.tick_outcome(*self, now));
    }
}


/// While the elapsed time is under 2^16 seconds, a running tick shows a clock
/// face that adds up to the whole seconds shown.
pub proof fn lemma_face_adds_up(s: Stopwatch, now: u64)
    requires
        s.is_running,
        whole_seconds(gap(s.start_time, s.current_time)) < 0x10000,
    ensures
        s.ticked(now).hour * 3600 + s.ticked(now).minute * 60 + s.ticked(now).second
            == s.ticked(now).seconds,
{
    let secs: nat = whole_seconds(gap(s.start_time, s.current_time));
    assert(secs / 60 / 60 < 24) by (nonlinear_arith)
        requires
            secs < 0x10000,
    ;
    assert((secs / 60 / 60) * 3600 + ((secs / 60) % 60) * 60 + secs % 60 == secs)
        by (nonlinear_arith)
        requires
            secs >= 0,
    ;
}

/// A paused stopwatch does not count the time that passes: a tick forward in
/// time keeps the span from the start reading to the current reading.
pub proof fn lemma_paused_tick_keeps_span(s: Stopwatch, now: u64)
    requires
        !s.is_running,
        s.start_time <= s.current_time <= now,
        s.can_tick_at(now),
    ensures
        gap(s.ticked(now).start_time, s.ticked(now).current_time) == gap(
            s.start_time,
            s.current_time,
        ),
        !s.ticked(now).is_running,
        s.ticked(now).seconds == s.seconds,
{
}

/// Stopping keeps the time shown as the last time; starting keeps the last
/// time as it was; two resets restore the running state.
pub proof fn lemma_reset_keeps_last_time(s: Stopwatch, a: u64, b: u64)
    ensures
        s.is_running ==> s.reset_to(a).last_seconds == s.seconds
            && s.reset_to(a).last_milliseconds == s.milliseconds,
        !s.is_running ==> s.reset_to(a).last_seconds == s.last_seconds
            && s.reset_to(a).last_milliseconds == s.last_milliseconds,
        s.reset_to(a).reset_to(b).is_running == s.is_running,
        s.reset_to(a).seconds == 0 && s.reset_to(a).milliseconds == 0,
{
}

/// A run started at `t0` and ticked at `t1` and then at `t2` shows the whole
/// seconds and milliseconds from `t0` to `t1`: the display lags one tick.
pub proof fn lemma_run_shows_previous_tick(s: Stopwatch, t0: u64, t1: u64, t2: u64)
    requires
        !s.is_running,
        t0 <= t1,
    ensures
        s.reset_to(t0).is_running,
        s.reset_to(t0).ticked(t1).ticked(t2).seconds == (t1 - t0) / (NANOS_PER_SEC as int),
        s.reset_to(t0).ticked(t1).ticked(t2).milliseconds == ((t1 - t0) % (
        NANOS_PER_SEC as int)) / (NANOS_PER_MILLI as int),
{
}

/// The time a stopwatch shows, in whole milliseconds.
pub open spec fn shown_millis(s: Stopwatch) -> int {
    s.seconds * 1000 + s.milliseconds
}

/// The whole seconds and milliseconds of a span, taken together, are its
/// whole milliseconds.
proof fn lemma_shown_is_whole_millis(nanos: nat)
    ensures
        whole_seconds(nanos) * 1000 + sub_millis(nanos) == nanos / (NANOS_PER_MILLI as nat),
{
    let q = nanos / 1_000_000_000;
    let r = nanos % 1_000_000_000;
    assert(nanos == q * 1_000_000_000 + r && r < 1_000_000_000) by (nonlinear_arith)
        requires
            q == nanos / 1_000_000_000,
            r == nanos % 1_000_000_000,
    ;
    assert((q * 1_000_000_000 + r) / 1_000_000 == q * 1000 + r / 1_000_000) by (nonlinear_arith)
        requires
            r < 1_000_000_000,
    ;
}

proof fn lemma_whole_millis_grow(a: nat, b: nat)
    requires
        a <= b,
    ensures
        a / (NANOS_PER_MILLI as nat) <= b / (NANOS_PER_MILLI as nat),
{
    assert(a / 1_000_000 <= b / 1_000_000) by (nonlinear_arith)
        requires
            a <= b,
    ;
}

/// With readings in order, a tick at any reading no earlier than the clock's
/// latest can be taken.
pub proof fn lemma_ordered_tick_is_taken(s: Stopwatch, now: u64)
    requires
        s.readings_ordered(),
        now >= s.clock.latest(),
    ensures
        s.can_tick_at(now),
{
}

/// While running, a tick at a reading no earlier than the previous tick, and
/// any tick after it, never show less time, and the start of the run stays
/// where it was.
pub proof fn lemma_running_display_never_goes_back(s: Stopwatch, n1: u64, n2: u64)
    requires
        s.is_running,
        s.current_time <= n1,
    ensures
        shown_millis(s.ticked(n1).ticked(n2)) >= shown_millis(s.ticked(n1)),
        s.ticked(n1).start_time == s.start_time,
        s.ticked(n1).ticked(n2).start_time == s.start_time,
        s.ticked(n1).ticked(n2).is_running,
{
    let e1 = gap(s.start_time, s.current_time);
    let e2 = gap(s.start_time, n1);
    lemma_shown_is_whole_millis(e1);
    lemma_shown_is_whole_millis(e2);
    lemma_whole_millis_grow(e1, e2);
}

/// Two ticks in a row of a running stopwatch whose previous tick is no later
/// than its clock's latest reading: the second shows no less time than the
/// first, and the start of the run stays where it was.
pub proof fn lemma_two_ticks_never_go_back(
    s: Stopwatch,
    t1: Stopwatch,
    n1: u64,
    t2: Stopwatch,
    n2: u64,
)
    requires
        s.is_running,
        s.current_time <= s.clock.latest(),
        s.tick_outcome(t1, n1),
        t1.tick_outcome(t2, n2),
    ensures
        shown_millis(t2) >= shown_millis(t1),
        t1.start_time == s.start_time,
        t2.start_time == s.start_time,
        t2.is_running,
{
    lemma_running_display_never_goes_back(s, n1, n2);
}

} // verus!
