//! The tap-tempo tracker: a window of the most recent footstep taps, the
//! speed multiplier being cycled through, and blood-moon mode.
//!
//! Taps are nanosecond readings of the tracker's own [`Clock`]; `tap_at` takes
//! the reading as an argument, `tap` reads the clock. The walking speed itself
//! is computed in floating point from [`BpmTracker::cadence`] outside this
//! library.

use crate::clock::Clock;
use crate::stopwatch::gap;
use std::collections::VecDeque;
use vstd::prelude::*;

verus! {

/// How many of the most recent taps are kept.
pub const TAP_WINDOW: usize = 5;

/// The speed multipliers in percent, in the order they are cycled through.
pub open spec fn multiplier_table() -> Seq<u32> {
    seq![50u32, 75u32, 100u32, 125u32, 150u32]
}

/// The multiplier after `index` in the cycle.
pub open spec fn next_multiplier_index(index: nat) -> nat {
    (index + 1) % 5
}

/// The tap window after a tap at `now`: the tap is appended and, when that
/// makes more than five, the oldest is dropped.
pub open spec fn recent_taps(taps: Seq<u64>, now: u64) -> Seq<u64> {
    let s = taps.push(now);
    if s.len() > TAP_WINDOW { s.drop_first() } else { s }
}

/// The tap window after taps at each reading of `nows` in turn.
pub open spec fn taps_after(taps: Seq<u64>, nows: Seq<u64>) -> Seq<u64>
    decreases nows.len(),
{
    if nows.len() == 0 {
        taps
    } else {
        recent_taps(taps_after(taps, nows.drop_last()), nows.last())
    }
}

/// The number of steps between the first and last tap of the window and the
/// nanoseconds between them; `None` with fewer than two taps or when no time
/// separates the first and the last.
pub open spec fn cadence_of(taps: Seq<u64>) -> Option<(u64, u64)> {
    if taps.len() < 2 {
        None
    } else if gap(taps[0], taps.last()) == 0 {
        None
    } else {
        Some(((taps.len() - 1) as u64, gap(taps[0], taps.last()) as u64))
    }
}

pub struct BpmTracker {
    taps: VecDeque<u64>,
    offset: i64,
    multipliers: [u32; 5],
    multiplier_index: usize,
    blood_mode: bool,
    clock: Clock,
}

impl BpmTracker {
    #[verifier::type_invariant]
    spec fn well_formed(self) -> bool {
        &&& self.taps@.len() <= TAP_WINDOW
        &&& self.multiplier_index < 5
        &&& self.multipliers@ == multiplier_table()
    }

    /// The tap window, oldest first.
    pub closed spec fn taps(self) -> Seq<u64> {
        self.taps@
    }

    /// The position of the current multiplier in the cycle.
    pub closed spec fn multiplier_index(self) -> nat {
        self.multiplier_index as nat
    }

    /// Whether blood-moon mode is on.
    pub closed spec fn blood_mode(self) -> bool {
        self.blood_mode
    }

    /// The tempo offset in hundredths of a beat per minute.
    pub closed spec fn offset(self) -> int {
        self.offset as int
    }

    /// The latest reading of the tracker's clock.
    pub closed spec fn clock_latest(self) -> u64 {
        self.clock.latest()
    }

    /// The taps come in time order, none later than the clock's latest
    /// reading.
    pub open spec fn taps_in_order(self) -> bool {
        &&& forall|i: int, j: int|
            0 <= i <= j < self.taps().len() ==> #[trigger] self.taps()[i] <= #[trigger] self.taps()[j]
        &&& forall|i: int| 0 <= i < self.taps().len() ==> #[trigger] self.taps()[i] <= self.clock_latest()
    }

    /// No taps, no offset, the 100 % multiplier, blood-moon mode off.
    pub fn new() -> (t: BpmTracker)
        ensures
            t.taps() == Seq::<u64>::empty(),
            t.offset() == 0,
            t.multiplier_index() == 2,
            !t.blood_mode(),
            t.clock_latest() == 0,
            t.taps_in_order(),
    {
        BpmTracker {
            taps: VecDeque::with_capacity(TAP_WINDOW),
            offset: 0,
            multipliers: [50, 75, 100, 125, 150],
            multiplier_index: 2,
            blood_mode: false,
            clock: Clock::start(),
        }
    }

    /// Moves to the next speed multiplier, wrapping after the last.
    pub fn cycle_multiplier(&mut self)
        ensures
            final(self).multiplier_index() == next_multiplier_index(old(self).multiplier_index()),
            final(self).multiplier_index() < 5,
            final(self).taps() == old(self).taps(),
            final(self).blood_mode() == old(self).blood_mode(),
            final(self).offset() == old(self).offset(),
            final(self).clock_latest() == old(self).clock_latest(),
    {
        proof {
            use_type_invariant(&*self);
        }
        self.multiplier_index = (self.multiplier_index + 1) % 5;
    }

    /// Turns blood-moon mode on or off.
    pub fn toggle_blood_moon(&mut self)
        ensures
            final(self).blood_mode() == !old(self).blood_mode(),
            final(self).taps() == old(self).taps(),
            final(self).multiplier_index() == old(self).multiplier_index(),
            final(self).offset() == old(self).offset(),
            final(self).clock_latest() == old(self).clock_latest(),
    {
        proof {
            use_type_invariant(&*self);
        }
        self.blood_mode = !self.blood_mode;
    }

    /// The current speed multiplier in percent.
    pub fn get_speed_multiplier(&self) -> (percent: u32)
        ensures
            percent == multiplier_table()[self.multiplier_index() as int],
    {
        proof {
            use_type_invariant(self);
        }
        self.multipliers[self.multiplier_index]
    }

    pub fn is_blood_mode(&self) -> (b: bool)
        ensures
            b == self.blood_mode(),
    {
        self.blood_mode
    }

    /// The tempo offset in hundredths of a beat per minute.
    pub fn get_offset(&self) -> (offset: i64)
        ensures
            offset == self.offset(),
    {
        self.offset
    }

    /// Records a tap at clock reading `now`, keeping only the five most recent.
    pub fn tap_at(&mut self, now: u64)
        ensures
            final(self).taps() == recent_taps(old(self).taps(), now),
            final(self).taps().len() <= TAP_WINDOW,
            final(self).multiplier_index() == old(self).multiplier_index(),
            final(self).blood_mode() == old(self).blood_mode(),
            final(self).offset() == old(self).offset(),
            final(self).clock_latest() == old(self).clock_latest(),
    {
        proof {
            use_type_invariant(&*self);
        }
        let mut taps: VecDeque<u64> = VecDeque::new();
        std::mem::swap(&mut taps, &mut self.taps);
        taps.push_back(now);
        if taps.len() > TAP_WINDOW {
            let _ = taps.pop_front();
        }
        std::mem::swap(&mut taps, &mut self.taps);
    }

    /// Records a tap at the current reading of the tracker's clock. The
    /// reading is no earlier than the clock's latest and becomes it, so taps
    /// in time order stay in time order.
    pub fn tap(&mut self)
        ensures
            exists|now: u64|
                now >= old(self).clock_latest() && final(self).clock_latest() == now
                    && #[trigger] recent_taps(old(self).taps(), now) == final(self).taps(),
            old(self).taps_in_order() ==> final(self).taps_in_order(),
            final(self).multiplier_index() == old(self).multiplier_index(),
            final(self).blood_mode() == old(self).blood_mode(),
            final(self).offset() == old(self).offset(),
    {
        proof {
            use_type_invariant(&*self);
        }
        let ghost before = self.taps();
        // The tracker's clock is read outside the tracker, a fresh clock
        // holding its place meanwhile.
        let mut clock = Clock::start();
        std::mem::swap(&mut clock, &mut self.clock);
        let now: u64 = clock.now_nanos();
        std::mem::swap(&mut clock, &mut self.clock);
        self.tap_at(now);
        assert(self.taps() == recent_taps(before, now));
        proof {
            if old(self).taps_in_order() {
                lemma_tap_keeps_order(before, old(self).clock_latest(), now);
            }
        }
    }

    /// Called on every frame; the tracker has nothing to do then.
    pub fn tick(&mut self)
        ensures
            final(self).taps() == old(self).taps(),
            final(self).multiplier_index() == old(self).multiplier_index(),
            final(self).blood_mode() == old(self).blood_mode(),
            final(self).offset() == old(self).offset(),
            final(self).clock_latest() == old(self).clock_latest(),
    {
    }

    /// The steps and nanoseconds that the tap window spans, from which the
    /// tempo is computed; `None` where the tempo is taken as zero.
    pub fn cadence(&self) -> (c: Option<(u64, u64)>)
        ensures
            c == cadence_of(self.taps()),
            c is Some <==> (self.taps().len() >= 2 && self.taps()[0] < self.taps().last()),
            c matches Some((steps, span)) ==> steps == self.taps().len() - 1 && span
                == self.taps().last() - self.taps()[0],
    {
        proof {
            use_type_invariant(self);
        }
        let n: usize = self.taps.len();
        if n < 2 {
            return None;
        }
        let first: u64 = self.taps[0];
        let last: u64 = self.taps[n - 1];
        let span: u64 = if last >= first { last - first } else { 0 };
        if span == 0 {
            return None;
        }
        Some(((n - 1) as u64, span))
    }
}


/// Taps in time order, none later than `latest`, stay in time order after a
/// tap at a reading `now` no earlier than `latest`, none later than `now`.
pub proof fn lemma_tap_keeps_order(taps: Seq<u64>, latest: u64, now: u64)
    requires
        forall|i: int, j: int| 0 <= i <= j < taps.len() ==> #[trigger] taps[i] <= #[trigger] taps[j],
        forall|i: int| 0 <= i < taps.len() ==> #[trigger] taps[i] <= latest,
        latest <= now,
    ensures
        forall|i: int, j: int|
            0 <= i <= j < recent_taps(taps, now).len() ==> #[trigger] recent_taps(taps, now)[i]
                <= #[trigger] recent_taps(taps, now)[j],
        forall|i: int|
            0 <= i < recent_taps(taps, now).len() ==> #[trigger] recent_taps(taps, now)[i] <= now,
{
    let s = taps.push(now);
    assert forall|i: int, j: int| 0 <= i <= j < s.len() implies #[trigger] s[i] <= #[trigger] s[j] by {
        if j == taps.len() {
            if i < taps.len() {
                assert(s[i] == taps[i]);
            }
        } else {
            assert(s[i] == taps[i] && s[j] == taps[j]);
        }
    }
    assert forall|i: int| 0 <= i < s.len() implies #[trigger] s[i] <= now by {
        if i < taps.len() {
            assert(s[i] == taps[i]);
        }
    }
    if s.len() > TAP_WINDOW {
        let d = s.drop_first();
        assert forall|i: int, j: int| 0 <= i <= j < d.len() implies #[trigger] d[i] <= #[trigger] d[j] by {
            assert(d[i] == s[i + 1] && d[j] == s[j + 1]);
        }
        assert forall|i: int| 0 <= i < d.len() implies #[trigger] d[i] <= now by {
            assert(d[i] == s[i + 1]);
        }
    }
}

/// The cadence of a tap window counts the steps between its taps, one fewer
/// than the taps, and spans the time from the first tap to the last; there is
/// one exactly when there are at least two taps and the last is later than
/// the first.
pub proof fn lemma_cadence_counts_steps(taps: Seq<u64>)
    requires
        taps.len() <= TAP_WINDOW,
    ensures
        cadence_of(taps) is Some <==> (taps.len() >= 2 && taps[0] < taps.last()),
        cadence_of(taps) matches Some((steps, span)) ==> steps + 1 == taps.len() && taps[0]
            + span == taps.last(),
{
}

/// Cycling the multiplier five times comes back to the same multiplier.
pub proof fn lemma_five_cycles_return(index: nat)
    requires
        index < 5,
    ensures
        next_multiplier_index(
            next_multiplier_index(
                next_multiplier_index(next_multiplier_index(next_multiplier_index(index))),
            ),
        ) == index,
{
}

/// Every multiplier position names one of the five multipliers, from 50 % to
/// 150 %.
pub proof fn lemma_multiplier_in_table(index: nat)
    requires
        index < 5,
    ensures
        50 <= multiplier_table()[index as int] <= 150,
        multiplier_table()[index as int] % 25 == 0,
{
}

/// Toggling blood-moon mode twice restores it.
pub proof fn lemma_blood_moon_toggles_back(a: BpmTracker, b: BpmTracker, c: BpmTracker)
    requires
        b.blood_mode() == !a.blood_mode(),
        c.blood_mode() == !b.blood_mode(),
    ensures
        c.blood_mode() == a.blood_mode(),
{
}

/// The tap window only ever holds the most recent taps: starting from a window
/// of at most five taps, after a run of taps it holds the last five (or fewer)
/// of the earlier window followed by the run.
pub proof fn lemma_window_keeps_latest(taps: Seq<u64>, nows: Seq<u64>)
    requires
        taps.len() <= TAP_WINDOW,
    ensures
        taps_after(taps, nows) == (taps + nows).subrange(
            if taps.len() + nows.len() > TAP_WINDOW {
                taps.len() + nows.len() - TAP_WINDOW
            } else {
                0
            },
            (taps.len() + nows.len()) as int,
        ),
    decreases nows.len(),
{
    if nows.len() == 0 {
        assert(taps + nows =~= taps);
        assert(taps.subrange(0, taps.len() as int) =~= taps);
    } else {
        lemma_window_keeps_latest(taps, nows.drop_last());
        let all = taps + nows;
        assert(taps + nows.drop_last() =~= all.drop_last());
        let n: nat = all.len();
        let prev_start: int = if n - 1 > TAP_WINDOW { n - 1 - TAP_WINDOW } else { 0 };
        let prev = all.drop_last().subrange(prev_start, n - 1);
        assert(prev.push(nows.last()) =~= all.subrange(prev_start, n as int));
        if prev.len() + 1 > TAP_WINDOW {
            assert(prev.push(nows.last()).drop_first() =~= all.subrange(
                n - TAP_WINDOW,
                n as int,
            ));
        }
    }
}

} // verus!
