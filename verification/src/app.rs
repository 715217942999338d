//! The session state machine: which interval is active, how long it
//! should run, and which interval comes next.

use vstd::prelude::*;
use crate::timer::Timer;

verus! {

/// The interval the session is currently in.
#[derive(Clone, Copy, Debug, PartialEq, Eq, Structural)]
pub enum State {
    Idle,
    Task,
    ShortBreak,
    LongBreak,
}

impl State {
    pub open spec fn spec_is_break(self) -> bool {
        self is ShortBreak || self is LongBreak
    }

    pub fn is_break(&self) -> (r: bool)
        ensures
            r == self.spec_is_break(),
    {
        match self {
            State::ShortBreak | State::LongBreak => true,
            _ => false,
        }
    }

    /// A short human-readable name for the state.
    pub fn display_name(&self) -> (r: &'static str)
        ensures
            self is Idle ==> r@ == "Idle"@,
            self is Task ==> r@ == "Task period"@,
            self is ShortBreak ==> r@ == "Short break"@,
            self is LongBreak ==> r@ == "Long break"@,
    {
        match self {
            State::Idle => "Idle",
            State::Task => "Task period",
            State::ShortBreak => "Short break",
            State::LongBreak => "Long break",
        }
    }
}

impl Default for State {
    fn default() -> (r: Self)
        ensures
            r is Idle,
    {
        State::Idle
    }
}

/// Preferences set by the user. Mutated only between intervals by the
/// host; the host validates them (all durations positive,
/// `num_short_breaks` at least one) before handing them in.
#[derive(Clone, Copy, Debug, PartialEq, Eq, Structural)]
pub struct Preferences {
    /// Duration of a task interval in milliseconds.
    pub task_duration_ms: u64,
    /// Duration of a short break in milliseconds.
    pub short_break_duration_ms: u64,
    /// Duration of a long break in milliseconds.
    pub long_break_duration_ms: u64,
    /// Number of short breaks before a long break.
    pub num_short_breaks: u32,
}

impl Preferences {
    /// Validity as the host must guarantee it: positive durations and
    /// at least one short break per cycle.
    pub open spec fn wf(self) -> bool {
        &&& self.task_duration_ms > 0
        &&& self.short_break_duration_ms > 0
        &&& self.long_break_duration_ms > 0
        &&& self.num_short_breaks >= 1
    }

    /// The configured duration of each state's interval; `Idle` times
    /// nothing and gets zero.
    pub open spec fn spec_preferred_duration(self, state: State) -> u64 {
        match state {
            State::Idle => 0,
            State::Task => self.task_duration_ms,
            State::ShortBreak => self.short_break_duration_ms,
            State::LongBreak => self.long_break_duration_ms,
        }
    }

    pub fn preferred_duration(&self, state: State) -> (d: u64)
        ensures
            d == self.spec_preferred_duration(state),
    {
        match state {
            State::Idle => 0,
            State::Task => self.task_duration_ms,
            State::ShortBreak => self.short_break_duration_ms,
            State::LongBreak => self.long_break_duration_ms,
        }
    }

    /// The default preferences: 25-minute tasks, 5-minute short breaks,
    /// 15-minute long breaks, three short breaks per cycle.
    pub open spec fn spec_default() -> Preferences {
        Preferences {
            task_duration_ms: 1_500_000,
            short_break_duration_ms: 300_000,
            long_break_duration_ms: 900_000,
            num_short_breaks: 3,
        }
    }
}

impl Default for Preferences {
    /// 25-minute tasks, 5-minute short breaks, 15-minute long breaks,
    /// three short breaks per cycle.
    fn default() -> (r: Self)
        ensures
            r == Preferences::spec_default(),
            r.wf(),
    {
        Preferences {
            task_duration_ms: 1_500_000,
            short_break_duration_ms: 300_000,
            long_break_duration_ms: 900_000,
            num_short_breaks: 3,
        }
    }
}

/// The session core: the current state, the timer for its interval, and
/// the count of short breaks taken since the last long break.
pub struct TimeFloApp {
    /// User-defined preferences.
    pub preferences: Preferences,
    /// The current state of the session.
    pub state: State,
    /// The timer of the current interval.
    pub timer: Timer,
    /// Number of short breaks which have occurred since the last long
    /// break, or the start of the session.
    pub short_break_counter: u32,
    /// Whether entering `Task` starts its timer at once. When false
    /// (the default), a task waits for an explicit begin/resume from
    /// the host; break intervals always start at once either way.
    pub auto_start_task: bool,
}

impl TimeFloApp {
    /// The session invariant: valid preferences, and the short-break
    /// counter never beyond the configured count.
    pub open spec fn wf(self) -> bool {
        &&& self.preferences.wf()
        &&& self.short_break_counter <= self.preferences.num_short_breaks
    }

    /// Whether entering `state` starts its timer at once: breaks
    /// always, a task only under the `auto_start_task` policy.
    pub open spec fn spec_auto_starts(self, state: State) -> bool {
        state.spec_is_break() || (state is Task && self.auto_start_task)
    }

    /// The state the cycle enters next: from `Task` a short break while
    /// the counter is below the configured count, else a long break;
    /// from everywhere else (including `Idle`, which is never
    /// re-entered) a task.
    pub open spec fn spec_next_state(self) -> State {
        match self.state {
            State::Task => {
                if self.short_break_counter < self.preferences.num_short_breaks {
                    State::ShortBreak
                } else {
                    State::LongBreak
                }
            }
            _ => State::Task,
        }
    }

    pub fn next_state(&self) -> (r: State)
        ensures
            r == self.spec_next_state(),
    {
        match self.state {
            State::Task => {
                if self.short_break_counter < self.preferences.num_short_breaks {
                    State::ShortBreak
                } else {
                    State::LongBreak
                }
            }
            _ => State::Task,
        }
    }

    /// Enter `state` with a fresh timer sized to its configured
    /// duration, starting it at `now_ms` when the state auto-starts;
    /// entering a short break counts it, entering a long break resets
    /// the count.
    pub fn change_state(&mut self, state: State, now_ms: u64)
        requires
            state is ShortBreak ==> old(self).short_break_counter < u32::MAX,
        ensures
            final(self).state == state,
            final(self).preferences == old(self).preferences,
            final(self).auto_start_task == old(self).auto_start_task,
            final(self).timer.duration == old(self).preferences.spec_preferred_duration(state),
            final(self).timer.accumulated_time == 0,
            final(self).timer.start_timestamp == (if old(self).spec_auto_starts(state) {
                Some(now_ms)
            } else {
                None::<u64>
            }),
            state is ShortBreak ==> final(self).short_break_counter
                == old(self).short_break_counter + 1,
            state is LongBreak ==> final(self).short_break_counter == 0,
            !state.spec_is_break() ==> final(self).short_break_counter
                == old(self).short_break_counter,
    {
        self.state = state;
        self.timer = Timer::from_duration(self.preferences.preferred_duration(state));

        // if a break (or a task under the auto-start policy), start the
        // timer immediately
        if state.is_break() || (matches!(state, State::Task) && self.auto_start_task) {
            self.timer.start(now_ms);
        }

        // update break counter
        match state {
            State::ShortBreak => {
                self.short_break_counter = self.short_break_counter + 1;
            }
            State::LongBreak => {
                self.short_break_counter = 0;
            }
            _ => {}
        }
    }

    /// Re-size the active timer to the configured duration of the
    /// current state, keeping its accumulated credit and run state
    /// (called when preferences have changed).
    pub fn update_preferences(&mut self)
        ensures
            final(self).timer.duration
                == old(self).preferences.spec_preferred_duration(old(self).state),
            final(self).timer.accumulated_time == old(self).timer.accumulated_time,
            final(self).timer.start_timestamp == old(self).timer.start_timestamp,
            final(self).preferences == old(self).preferences,
            final(self).state == old(self).state,
            final(self).short_break_counter == old(self).short_break_counter,
            final(self).auto_start_task == old(self).auto_start_task,
    {
        // update timer duration according to preferences
        let d = self.preferences.preferred_duration(self.state);
        self.timer.set_duration(d);
    }

    /// What one transition does to the pair of state and short-break
    /// counter, under `n` configured short breaks per cycle: the model
    /// that `advance` implements.
    pub open spec fn cycle_step(st: State, count: u32, n: u32) -> (State, u32) {
        let next = if st is Task {
            if count < n {
                State::ShortBreak
            } else {
                State::LongBreak
            }
        } else {
            State::Task
        };
        let next_count = if next is ShortBreak {
            (count + 1) as u32
        } else if next is LongBreak {
            0u32
        } else {
            count
        };
        (next, next_count)
    }

    /// `k` transitions of the cycle model in a row.
    pub open spec fn cycle_iter(st: State, count: u32, n: u32, k: nat) -> (State, u32)
        decreases k,
    {
        if k == 0 {
            (st, count)
        } else {
            let (s1, c1) = Self::cycle_step(st, count, n);
            Self::cycle_iter(s1, c1, n, (k - 1) as nat)
        }
    }

    /// Iterating one more transition is one transition applied to the
    /// result of iterating.
    proof fn lemma_cycle_iter_snoc(st: State, count: u32, n: u32, k: nat)
        ensures
            Self::cycle_iter(st, count, n, k + 1) == ({
                let (s1, c1) = Self::cycle_iter(st, count, n, k);
                Self::cycle_step(s1, c1, n)
            }),
        decreases k,
    {
        let (s1, c1) = Self::cycle_step(st, count, n);
        assert(Self::cycle_iter(st, count, n, k + 1) == Self::cycle_iter(s1, c1, n, k));
        if k == 0 {
            assert(Self::cycle_iter(s1, c1, n, 0) == (s1, c1));
        } else {
            Self::lemma_cycle_iter_snoc(s1, c1, n, (k - 1) as nat);
            assert(Self::cycle_iter(s1, c1, n, ((k - 1) as nat) + 1) == Self::cycle_iter(
                s1,
                c1,
                n,
                k,
            ));
        }
    }

    /// Iterating `k1 + k2` transitions is iterating `k2` from the
    /// result of iterating `k1`.
    proof fn lemma_cycle_iter_add(st: State, count: u32, n: u32, k1: nat, k2: nat)
        ensures
            Self::cycle_iter(st, count, n, k1 + k2) == ({
                let (s1, c1) = Self::cycle_iter(st, count, n, k1);
                Self::cycle_iter(s1, c1, n, k2)
            }),
        decreases k1,
    {
        if k1 > 0 {
            let (s1, c1) = Self::cycle_step(st, count, n);
            Self::lemma_cycle_iter_add(s1, c1, n, (k1 - 1) as nat, k2);
        }
    }

    /// The short-break counter never exceeds the configured count: from
    /// any state whose counter is within the bound, it stays within the
    /// bound over any number of transitions — with `n` configured short
    /// breaks it never reaches `n + 1`.
    pub proof fn lemma_counter_bounded(st: State, count: u32, n: u32, k: nat)
        requires
            count <= n,
        ensures
            Self::cycle_iter(st, count, n, k).1 <= n,
        decreases k,
    {
        if k > 0 {
            let (s1, c1) = Self::cycle_step(st, count, n);
            Self::lemma_counter_bounded(s1, c1, n, (k - 1) as nat);
        }
    }

    /// Every transition into a long break resets the short-break
    /// counter to zero.
    pub proof fn lemma_long_break_resets(st: State, count: u32, n: u32)
        ensures
            Self::cycle_step(st, count, n).0 is LongBreak ==> Self::cycle_step(st, count, n).1
                == 0,
    {
    }

    /// The order of the cycle: starting from a task with the counter at
    /// zero, the transitions alternate between short breaks and tasks,
    /// the `i`-th short break arriving after `2i - 1` transitions with
    /// the counter at `i`, for each `i` up to the configured count.
    pub proof fn lemma_cycle_order(n: u32, i: u32)
        requires
            1 <= i <= n,
        ensures
            Self::cycle_iter(State::Task, 0, n, (2 * i - 1) as nat) == (State::ShortBreak, i),
            Self::cycle_iter(State::Task, 0, n, (2 * i) as nat) == (State::Task, i),
        decreases i,
    {
        if i == 1 {
            let (s1, c1) = Self::cycle_step(State::Task, 0, n);
            assert(s1 == State::ShortBreak && c1 == 1u32);
            assert(Self::cycle_iter(s1, c1, n, 0) == (s1, c1));
            Self::lemma_cycle_iter_snoc(State::Task, 0, n, 1);
        } else {
            Self::lemma_cycle_order(n, (i - 1) as u32);
            Self::lemma_cycle_iter_snoc(State::Task, 0, n, (2 * i - 2) as nat);
            Self::lemma_cycle_iter_snoc(State::Task, 0, n, (2 * i - 1) as nat);
        }
    }

    /// One full cycle: the first transition out of `Idle` enters a task
    /// with the counter at zero; from a fresh task, after the `n`
    /// alternating short breaks and tasks, transition `2n + 1` enters
    /// the long break with the counter reset to zero, and transition
    /// `2n + 2` returns to a fresh task with the counter at zero.
    pub proof fn lemma_full_cycle(n: u32)
        requires
            n >= 1,
        ensures
            Self::cycle_iter(State::Idle, 0, n, 1) == (State::Task, 0u32),
            Self::cycle_iter(State::Task, 0, n, (2 * n + 1) as nat) == (State::LongBreak, 0u32),
            Self::cycle_iter(State::Task, 0, n, (2 * n + 2) as nat) == (State::Task, 0u32),
    {
        let (s1, c1) = Self::cycle_step(State::Idle, 0, n);
        assert(Self::cycle_iter(s1, c1, n, 0) == (s1, c1));
        Self::lemma_cycle_order(n, n);
        Self::lemma_cycle_iter_snoc(State::Task, 0, n, (2 * n) as nat);
        Self::lemma_cycle_iter_snoc(State::Task, 0, n, (2 * n + 1) as nat);
    }

    /// The cycle repeats: from a fresh task, the pair of state and
    /// counter after `2n + 2 + k` transitions is what it is after `k`.
    pub proof fn lemma_cycle_repeats(n: u32, k: nat)
        requires
            n >= 1,
        ensures
            Self::cycle_iter(State::Task, 0, n, (2 * n + 2) as nat + k) == Self::cycle_iter(
                State::Task,
                0,
                n,
                k,
            ),
    {
        Self::lemma_full_cycle(n);
        Self::lemma_cycle_iter_add(State::Task, 0, n, (2 * n + 2) as nat, k);
    }

    /// Move to the next state of the cycle with a fresh timer, exactly
    /// as `cycle_step` describes the state and counter.
    pub fn advance(&mut self, now_ms: u64)
        ensures
            (final(self).state, final(self).short_break_counter) == Self::cycle_step(
                old(self).state,
                old(self).short_break_counter,
                old(self).preferences.num_short_breaks,
            ),
            final(self).preferences == old(self).preferences,
            final(self).auto_start_task == old(self).auto_start_task,
            final(self).timer.duration
                == old(self).preferences.spec_preferred_duration(final(self).state),
            final(self).timer.accumulated_time == 0,
            final(self).timer.start_timestamp == (if old(self).spec_auto_starts(
                final(self).state,
            ) {
                Some(now_ms)
            } else {
                None::<u64>
            }),
            old(self).wf() ==> final(self).wf(),
    {
        let next = self.next_state();
        self.change_state(next, now_ms);
    }

    /// Skip the rest of the current interval: advance unconditionally,
    /// whether or not the active timer is over.
    pub fn skip(&mut self, now_ms: u64)
        ensures
            (final(self).state, final(self).short_break_counter) == Self::cycle_step(
                old(self).state,
                old(self).short_break_counter,
                old(self).preferences.num_short_breaks,
            ),
            final(self).preferences == old(self).preferences,
            final(self).auto_start_task == old(self).auto_start_task,
            final(self).timer.duration
                == old(self).preferences.spec_preferred_duration(final(self).state),
            final(self).timer.accumulated_time == 0,
            final(self).timer.start_timestamp == (if old(self).spec_auto_starts(
                final(self).state,
            ) {
                Some(now_ms)
            } else {
                None::<u64>
            }),
            old(self).wf() ==> final(self).wf(),
    {
        self.advance(now_ms);
    }

    /// Host-driven poll. If an interval is active and its timer has
    /// reached its target, advance to the next state and report the
    /// completion, so the host can alert the user exactly once;
    /// otherwise change nothing. `Idle` has no active interval and is
    /// never advanced by a poll.
    pub fn tick(&mut self, now_ms: u64) -> (completed: bool)
        requires
            old(self).timer.spec_elapsed(now_ms) <= u64::MAX,
        ensures
            completed == (!(old(self).state is Idle) && old(self).timer.spec_is_over(now_ms)),
            !completed ==> *final(self) == *old(self),
            completed ==> (final(self).state, final(self).short_break_counter)
                == Self::cycle_step(
                old(self).state,
                old(self).short_break_counter,
                old(self).preferences.num_short_breaks,
            ),
            completed ==> final(self).timer.accumulated_time == 0
                && final(self).timer.duration == old(self).preferences.spec_preferred_duration(
                final(self).state,
            ),
            final(self).preferences == old(self).preferences,
            final(self).auto_start_task == old(self).auto_start_task,
            old(self).wf() ==> final(self).wf(),
    {
        if !matches!(self.state, State::Idle) && self.timer.is_over(now_ms) {
            self.advance(now_ms);
            true
        } else {
            false
        }
    }

    /// Pause the active timer; a no-op in `Idle`, where no interval is
    /// running.
    pub fn pause_active(&mut self, now_ms: u64)
        requires
            old(self).timer.spec_elapsed(now_ms) <= u64::MAX,
        ensures
            final(self).state == old(self).state,
            final(self).preferences == old(self).preferences,
            final(self).short_break_counter == old(self).short_break_counter,
            final(self).auto_start_task == old(self).auto_start_task,
            old(self).state is Idle ==> final(self).timer == old(self).timer,
            !(old(self).state is Idle) ==> final(self).timer == old(self).timer.spec_pause(
                now_ms,
            ),
    {
        if !matches!(self.state, State::Idle) {
            self.timer.pause(now_ms);
        }
    }

    /// Start or resume the active timer; a no-op in `Idle`, where no
    /// interval is running.
    pub fn resume_active(&mut self, now_ms: u64)
        ensures
            final(self).state == old(self).state,
            final(self).preferences == old(self).preferences,
            final(self).short_break_counter == old(self).short_break_counter,
            final(self).auto_start_task == old(self).auto_start_task,
            old(self).state is Idle ==> final(self).timer == old(self).timer,
            !(old(self).state is Idle) ==> final(self).timer == old(self).timer.spec_start(
                now_ms,
            ),
    {
        if !matches!(self.state, State::Idle) {
            self.timer.start(now_ms);
        }
    }

    /// Replace the preferences and re-size the active timer to the new
    /// duration of the current state, without losing accumulated
    /// progress.
    pub fn apply_new_preferences(&mut self, prefs: Preferences)
        ensures
            final(self).preferences == prefs,
            final(self).timer.duration == prefs.spec_preferred_duration(old(self).state),
            final(self).timer.accumulated_time == old(self).timer.accumulated_time,
            final(self).timer.start_timestamp == old(self).timer.start_timestamp,
            final(self).state == old(self).state,
            final(self).short_break_counter == old(self).short_break_counter,
            final(self).auto_start_task == old(self).auto_start_task,
    {
        self.preferences = prefs;
        self.update_preferences();
    }
}

impl Default for TimeFloApp {
    /// A fresh session: default preferences, `Idle`, a zero timer, no
    /// short breaks taken, tasks gated behind an explicit begin.
    fn default() -> (r: Self)
        ensures
            r.preferences == Preferences::spec_default(),
            r.state is Idle,
            r.timer == Timer::spec_from_duration(0),
            r.short_break_counter == 0,
            !r.auto_start_task,
            r.wf(),
    {
        TimeFloApp {
            preferences: Preferences::default(),
            state: State::default(),
            timer: Timer::default(),
            short_break_counter: 0,
            auto_start_task: false,
        }
    }
}

} // verus!
