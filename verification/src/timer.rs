//! A stateful, pausable timer.
//!
//! A `Timer` credits time toward a fixed target duration while it is
//! running and freezes that credit while it is paused. It never reads a
//! clock itself: every time-dependent operation takes `now_ms`, the
//! host's current reading of a monotonic clock in milliseconds. A
//! reading earlier than the recorded start of the current run is
//! treated as zero additional credit, so no operation here can panic.

use vstd::prelude::*;

verus! {

/// A stateful timer. All time values are milliseconds.
#[derive(Clone, Copy, Debug, PartialEq, Eq)]
pub struct Timer {
    /// The total duration of this timer.
    pub duration: u64,
    /// The amount of time which has been accumulated.
    /// This only increases when the timer is paused.
    pub accumulated_time: u64,
    /// The monotonic-clock reading at which this timer was started;
    /// `None` while the timer is paused (or was never started).
    pub start_timestamp: Option<u64>,
}

impl Timer {
    /// Time credited by the current run: how far `now_ms` lies past the
    /// recorded start, or zero while paused (or if the reading is older
    /// than the recorded start).
    pub open spec fn run_credit(self, now_ms: u64) -> int {
        match self.start_timestamp {
            Some(start) => if now_ms >= start { now_ms - start } else { 0 },
            None => 0,
        }
    }

    /// Total active time of this interval at reading `now_ms`.
    pub open spec fn spec_elapsed(self, now_ms: u64) -> int {
        self.accumulated_time + self.run_credit(now_ms)
    }

    /// Time left until the target is reached; zero once elapsed time
    /// meets or exceeds the target (saturating, never negative).
    pub open spec fn spec_remaining(self, now_ms: u64) -> int {
        if self.spec_elapsed(now_ms) >= self.duration {
            0
        } else {
            self.duration - self.spec_elapsed(now_ms)
        }
    }

    pub open spec fn spec_has_started(self, now_ms: u64) -> bool {
        self.spec_elapsed(now_ms) > 0
    }

    pub open spec fn spec_is_over(self, now_ms: u64) -> bool {
        self.spec_elapsed(now_ms) >= self.duration
    }

    pub open spec fn spec_is_running(self) -> bool {
        self.start_timestamp is Some
    }

    /// A timer counts as paused only once it has accumulated some time:
    /// a freshly built, never-started timer is neither running nor
    /// paused. (While not running, elapsed time is exactly
    /// `accumulated_time`, so no clock reading is needed here.)
    pub open spec fn spec_is_paused(self) -> bool {
        self.start_timestamp is None && self.accumulated_time > 0
    }

    /// The timer a fresh construction yields: full target, no credit,
    /// not running.
    pub open spec fn spec_from_duration(duration_ms: u64) -> Timer {
        Timer { duration: duration_ms, accumulated_time: 0, start_timestamp: None }
    }

    /// The timer `start` yields: unchanged while already running,
    /// otherwise running since `now_ms`.
    pub open spec fn spec_start(self, now_ms: u64) -> Timer {
        if self.start_timestamp is Some {
            self
        } else {
            Timer { start_timestamp: Some(now_ms), ..self }
        }
    }

    /// The timer `pause` yields: the current run's credit folded into
    /// `accumulated_time`, no longer running. Meaningful when the total
    /// fits in `u64` (the cast truncates otherwise).
    pub open spec fn spec_pause(self, now_ms: u64) -> Timer {
        Timer {
            duration: self.duration,
            accumulated_time: self.spec_elapsed(now_ms) as u64,
            start_timestamp: None,
        }
    }

    pub fn from_duration(duration_ms: u64) -> (t: Timer)
        ensures
            t == Timer::spec_from_duration(duration_ms),
    {
        Timer { duration: duration_ms, accumulated_time: 0, start_timestamp: None }
    }

    /// Begin (or resume) the current run at reading `now_ms`.
    /// Idempotent: a no-op while already running. Never touches
    /// `accumulated_time`.
    pub fn start(&mut self, now_ms: u64)
        ensures
            *final(self) == old(self).spec_start(now_ms),
            final(self).duration == old(self).duration,
            final(self).accumulated_time == old(self).accumulated_time,
            final(self).spec_is_running(),
    {
        if self.start_timestamp.is_none() {
            self.start_timestamp = Some(now_ms);
        }
    }

    /// Freeze the current run at reading `now_ms`, crediting its span
    /// to `accumulated_time`. Idempotent: a no-op while already paused.
    pub fn pause(&mut self, now_ms: u64)
        requires
            old(self).spec_elapsed(now_ms) <= u64::MAX,
        ensures
            *final(self) == old(self).spec_pause(now_ms),
            final(self).duration == old(self).duration,
            final(self).accumulated_time == old(self).spec_elapsed(now_ms),
            !final(self).spec_is_running(),
    {
        if let Some(start_timestamp) = self.start_timestamp {
            let elapsed: u64 = if now_ms >= start_timestamp {
                now_ms - start_timestamp
            } else {
                0
            };
            self.accumulated_time = self.accumulated_time + elapsed;
        }
        self.start_timestamp = None;
    }

    /// Change the target duration without resetting accumulated credit
    /// or the run state (used when preferences change mid-interval).
    pub fn set_duration(&mut self, new_duration_ms: u64)
        ensures
            final(self).duration == new_duration_ms,
            final(self).accumulated_time == old(self).accumulated_time,
            final(self).start_timestamp == old(self).start_timestamp,
    {
        self.duration = new_duration_ms;
    }

    /// Total active time at reading `now_ms`: accumulated credit plus,
    /// while running, the span of the current run.
    pub fn elapsed(&self, now_ms: u64) -> (e: u64)
        requires
            self.spec_elapsed(now_ms) <= u64::MAX,
        ensures
            e == self.spec_elapsed(now_ms),
    {
        let current_elapsed: u64 = match self.start_timestamp {
            Some(start_timestamp) => {
                if now_ms >= start_timestamp {
                    now_ms - start_timestamp
                } else {
                    0
                }
            }
            None => 0,
        };
        self.accumulated_time + current_elapsed
    }

    /// Time left until the target: `duration - elapsed`, saturating at
    /// zero, so never negative however far elapsed time overshoots.
    pub fn remaining_time(&self, now_ms: u64) -> (r: u64)
        requires
            self.spec_elapsed(now_ms) <= u64::MAX,
        ensures
            r == self.spec_remaining(now_ms),
    {
        let e = self.elapsed(now_ms);
        if self.duration >= e {
            self.duration - e
        } else {
            0
        }
    }

    pub fn has_started(&self, now_ms: u64) -> (r: bool)
        requires
            self.spec_elapsed(now_ms) <= u64::MAX,
        ensures
            r == self.spec_has_started(now_ms),
    {
        self.elapsed(now_ms) > 0
    }

    pub fn is_over(&self, now_ms: u64) -> (r: bool)
        requires
            self.spec_elapsed(now_ms) <= u64::MAX,
        ensures
            r == self.spec_is_over(now_ms),
    {
        self.elapsed(now_ms) >= self.duration
    }

    pub fn is_running(&self) -> (r: bool)
        ensures
            r == self.spec_is_running(),
    {
        self.start_timestamp.is_some()
    }

    pub fn is_paused(&self) -> (r: bool)
        ensures
            r == self.spec_is_paused(),
    {
        self.start_timestamp.is_none() && self.accumulated_time > 0
    }
}

impl Default for Timer {
    /// A timer with target zero, never started.
    fn default() -> (t: Self)
        ensures
            t == Timer::spec_from_duration(0),
    {
        Timer::from_duration(0)
    }
}

/// The character for one decimal digit.
pub open spec fn spec_digit_char(d: nat) -> char {
    if d == 0 { '0' }
    else if d == 1 { '1' }
    else if d == 2 { '2' }
    else if d == 3 { '3' }
    else if d == 4 { '4' }
    else if d == 5 { '5' }
    else if d == 6 { '6' }
    else if d == 7 { '7' }
    else if d == 8 { '8' }
    else { '9' }
}

/// The decimal rendering of `n`, most significant digit first, with no
/// leading zeros (a lone `0` for zero itself).
pub open spec fn spec_decimal(n: nat) -> Seq<char>
    decreases n,
{
    if n < 10 {
        seq![spec_digit_char(n)]
    } else {
        spec_decimal(n / 10) + seq![spec_digit_char(n % 10)]
    }
}

/// The decimal rendering of `n`, zero-padded on the left to at least
/// two characters.
pub open spec fn spec_padded2(n: nat) -> Seq<char> {
    if n < 10 {
        seq!['0'] + spec_decimal(n)
    } else {
        spec_decimal(n)
    }
}

/// The clock-style rendering of a second count: whole minutes and
/// leftover seconds, each zero-padded to two digits, separated by a
/// colon.
pub open spec fn spec_clock_display(total_seconds: nat) -> Seq<char> {
    spec_padded2(total_seconds / 60) + seq![':'] + spec_padded2(total_seconds % 60)
}

fn digit_str(d: u64) -> (r: &'static str)
    requires
        d < 10,
    ensures
        r@ == seq![spec_digit_char(d as nat)],
{
    proof {
        reveal_strlit("0");
        reveal_strlit("1");
        reveal_strlit("2");
        reveal_strlit("3");
        reveal_strlit("4");
        reveal_strlit("5");
        reveal_strlit("6");
        reveal_strlit("7");
        reveal_strlit("8");
        reveal_strlit("9");
    }
    let r: &'static str = if d == 0 { "0" }
    else if d == 1 { "1" }
    else if d == 2 { "2" }
    else if d == 3 { "3" }
    else if d == 4 { "4" }
    else if d == 5 { "5" }
    else if d == 6 { "6" }
    else if d == 7 { "7" }
    else if d == 8 { "8" }
    else { "9" };
    proof {
        assert(r@ =~= seq![spec_digit_char(d as nat)]);
    }
    r
}

fn push_decimal(s: &mut String, n: u64)
    ensures
        final(s)@ == old(s)@ + spec_decimal(n as nat),
    decreases n,
{
    if n < 10 {
        s.append(digit_str(n));
    } else {
        push_decimal(s, n / 10);
        s.append(digit_str(n % 10));
        proof {
            assert(final(s)@ =~= old(s)@ + spec_decimal(n as nat));
        }
    }
}

fn push_padded2(s: &mut String, n: u64)
    ensures
        final(s)@ == old(s)@ + spec_padded2(n as nat),
{
    if n < 10 {
        proof {
            reveal_strlit("0");
        }
        s.append("0");
        push_decimal(s, n);
        proof {
            assert(final(s)@ =~= old(s)@ + spec_padded2(n as nat));
        }
    } else {
        push_decimal(s, n);
    }
}

impl Timer {
    /// The remaining time at reading `now_ms`, rendered as zero-padded
    /// whole minutes and seconds, `"MM:SS"` (more digits of minutes
    /// when they do not fit in two).
    pub fn display_string(&self, now_ms: u64) -> (r: String)
        requires
            self.spec_elapsed(now_ms) <= u64::MAX,
        ensures
            r@ == spec_clock_display((self.spec_remaining(now_ms) / 1000) as nat),
    {
        let total_seconds = self.remaining_time(now_ms) / 1000;
        let mut s = String::new();
        push_padded2(&mut s, total_seconds / 60);
        proof {
            reveal_strlit(":");
        }
        s.append(":");
        push_padded2(&mut s, total_seconds % 60);
        proof {
            assert(s@ =~= spec_clock_display((self.spec_remaining(now_ms) / 1000) as nat));
        }
        s
    }
}

/// A freshly created timer with target `d` has its whole target
/// remaining, has not started, and is over exactly when `d` is zero —
/// at every clock reading.
pub proof fn lemma_fresh_timer(duration_ms: u64, now_ms: u64)
    ensures
        Timer::spec_from_duration(duration_ms).spec_remaining(now_ms) == duration_ms,
        !Timer::spec_from_duration(duration_ms).spec_has_started(now_ms),
        Timer::spec_from_duration(duration_ms).spec_is_over(now_ms) == (duration_ms == 0),
        !Timer::spec_from_duration(duration_ms).spec_is_running(),
        !Timer::spec_from_duration(duration_ms).spec_is_paused(),
{
}

/// Remaining time saturates: it is never negative, never exceeds the
/// target, and is exactly zero once elapsed time meets or exceeds the
/// target — however far it overshoots.
pub proof fn lemma_remaining_saturates(t: Timer, now_ms: u64)
    ensures
        t.spec_remaining(now_ms) >= 0,
        t.spec_remaining(now_ms) <= t.duration,
        t.spec_elapsed(now_ms) >= t.duration ==> t.spec_remaining(now_ms) == 0,
        t.spec_elapsed(now_ms) < t.duration ==> t.spec_remaining(now_ms)
            == t.duration - t.spec_elapsed(now_ms),
{
}

/// Starting twice in a row is a no-op, and so is pausing twice in a
/// row: the second operation changes nothing, whatever its reading.
pub proof fn lemma_start_pause_idempotent(t: Timer, now1: u64, now2: u64)
    requires
        t.spec_elapsed(now1) <= u64::MAX,
    ensures
        t.spec_start(now1).spec_start(now2) == t.spec_start(now1),
        t.spec_pause(now1).spec_pause(now2) == t.spec_pause(now1),
{
}

/// Elapsed time never decreases over the lifetime of a timer: it grows
/// with the clock while the timer sits untouched, and neither pausing
/// nor starting at the current reading changes it.
pub proof fn lemma_elapsed_monotonic(t: Timer, now1: u64, now2: u64)
    requires
        now1 <= now2,
        t.spec_elapsed(now1) <= u64::MAX,
    ensures
        t.spec_elapsed(now1) <= t.spec_elapsed(now2),
        t.spec_start(now1).spec_elapsed(now1) == t.spec_elapsed(now1),
        t.spec_pause(now1).spec_elapsed(now2) == t.spec_elapsed(now1),
{
}

/// One pause/resume round trip credits exactly the active span.
/// Starting a paused timer at `s`, pausing it at `s + t`, then resuming
/// at any later reading `r` and "waiting zero": the accumulated credit
/// grows by exactly `t`, and the elapsed time at the instant of
/// resumption is that same credit. Since the initial accumulated credit
/// is arbitrary, applying this across each run in turn shows that the
/// elapsed time over any number of pause/resume cycles is the sum of
/// the active-run spans.
pub proof fn lemma_pause_resume_round_trip(t0: Timer, s: u64, t: u64, r: u64)
    requires
        !t0.spec_is_running(),
        t0.accumulated_time + t <= u64::MAX,
        s + t <= u64::MAX,
    ensures
        ({
            let paused = t0.spec_start(s).spec_pause((s + t) as u64);
            &&& paused.accumulated_time == t0.accumulated_time + t
            &&& paused.spec_start(r).spec_elapsed(r) == t0.accumulated_time + t
            &&& paused.duration == t0.duration
        }),
{
}

} // verus!

