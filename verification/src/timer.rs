//! A countdown timer driven by readings of the monotonic clock.

use std::time::Instant;
use vstd::prelude::*;

verus! {

/// Milliseconds in a span of `hours`, `minutes` and `seconds`.
pub open spec fn duration_ms(hours: nat, minutes: nat, seconds: nat) -> nat {
    (hours * 3600 + minutes * 60 + seconds) * 1000
}

/// The countdown that a [`Timer`] stands for. The clock reading that a
/// running timer counts from is no part of it: contracts speak of that
/// reading through [`Timer::resumed_at`].
pub struct TimerState {
    /// Whether the countdown is running.
    pub running: bool,
    /// The configured length of the countdown, in milliseconds.
    pub initial_ms: nat,
    /// The time left as of the last reconciliation, in milliseconds.
    pub remaining_ms: nat,
}

impl TimerState {
    /// The time left never exceeds the configured length.
    pub open spec fn well_formed(self) -> bool {
        self.remaining_ms <= self.initial_ms
    }

    /// A countdown as configured, before it was ever started.
    pub open spec fn configured(hours: nat, minutes: nat, seconds: nat) -> TimerState {
        TimerState {
            running: false,
            initial_ms: duration_ms(hours, minutes, seconds),
            remaining_ms: duration_ms(hours, minutes, seconds),
        }
    }

    /// The countdown after a request to start: it runs, with the time left
    /// as it was.
    pub open spec fn started(self) -> TimerState {
        TimerState { running: true, ..self }
    }

    /// The countdown after `ms` milliseconds were seen to pass: a running one
    /// loses them, stopping at zero; one that is not running keeps its time.
    pub open spec fn elapsed(self, ms: nat) -> TimerState {
        if self.running {
            TimerState {
                remaining_ms: if ms >= self.remaining_ms {
                    0
                } else {
                    (self.remaining_ms - ms) as nat
                },
                ..self
            }
        } else {
            self
        }
    }

    /// The countdown after a request to pause that saw `ms` milliseconds
    /// pass since the last reconciliation.
    pub open spec fn paused(self, ms: nat) -> TimerState {
        TimerState { running: false, ..self.elapsed(ms) }
    }

    /// The countdown after a request to stop: at rest, with its full
    /// configured length left.
    pub open spec fn stopped(self) -> TimerState {
        TimerState { running: false, remaining_ms: self.initial_ms, ..self }
    }

    /// The hours field of the time left. It wraps at 60, as the minutes and
    /// seconds fields do.
    pub open spec fn hours_shown(self) -> nat {
        self.remaining_ms / 3_600_000 % 60
    }

    /// The minutes field of the time left.
    pub open spec fn minutes_shown(self) -> nat {
        self.remaining_ms / 60_000 % 60
    }

    /// The seconds field of the time left.
    pub open spec fn seconds_shown(self) -> nat {
        self.remaining_ms / 1000 % 60
    }

    /// The countdown after each of `readings` was seen to pass, one after
    /// another.
    pub open spec fn elapsed_each(self, readings: Seq<nat>) -> TimerState
        decreases readings.len(),
    {
        if readings.len() == 0 {
            self
        } else {
            self.elapsed(readings[0]).elapsed_each(readings.skip(1))
        }
    }
}

/// A configured countdown is at rest with its whole length left, and the
/// length is that of the hours, minutes and seconds given.
pub proof fn lemma_configured_is_full(hours: nat, minutes: nat, seconds: nat)
    ensures
        !TimerState::configured(hours, minutes, seconds).running,
        TimerState::configured(hours, minutes, seconds).remaining_ms
            == TimerState::configured(hours, minutes, seconds).initial_ms,
        TimerState::configured(hours, minutes, seconds).initial_ms
            == hours * 3_600_000 + minutes * 60_000 + seconds * 1000,
        TimerState::configured(hours, minutes, seconds).well_formed(),
{
}

/// Every step keeps the time left within the configured length and leaves
/// the configured length alone.
pub proof fn lemma_steps_keep_well_formed(state: TimerState, ms: nat)
    requires
        state.well_formed(),
    ensures
        state.started().well_formed(),
        state.elapsed(ms).well_formed(),
        state.paused(ms).well_formed(),
        state.stopped().well_formed(),
        state.started().initial_ms == state.initial_ms,
        state.elapsed(ms).initial_ms == state.initial_ms,
        state.paused(ms).initial_ms == state.initial_ms,
        state.stopped().initial_ms == state.initial_ms,
{
}

/// Stopping puts the full configured time back and halts the countdown,
/// whatever state it was in.
pub proof fn lemma_stop_restores_initial(state: TimerState)
    ensures
        state.stopped().remaining_ms == state.initial_ms,
        !state.stopped().running,
        state.stopped().initial_ms == state.initial_ms,
{
}

/// A timer that is started and then sees `delta` milliseconds pass has
/// `delta` less left, or nothing if it had less than `delta`: the time left
/// neither goes below zero nor wraps around.
pub proof fn lemma_started_counts_down(state: TimerState, delta: nat)
    ensures
        state.started().elapsed(delta).running,
        delta <= state.remaining_ms ==> state.started().elapsed(delta).remaining_ms
            == state.remaining_ms - delta,
        delta > state.remaining_ms ==> state.started().elapsed(delta).remaining_ms == 0,
        state.started().elapsed(delta).remaining_ms <= state.remaining_ms,
{
}

/// Time seen in two parts counts as much as the same time seen at once.
pub proof fn lemma_elapsed_adds_up(state: TimerState, first: nat, second: nat)
    ensures
        state.elapsed(first).elapsed(second) == state.elapsed(first + second),
{
}

/// A timer at rest keeps its time through any number of reconciliations
/// with the clock, whatever the clock says.
pub proof fn lemma_resting_ignores_clock(state: TimerState, readings: Seq<nat>)
    requires
        !state.running,
    ensures
        state.elapsed_each(readings) == state,
    decreases readings.len(),
{
    if readings.len() > 0 {
        lemma_resting_ignores_clock(state.elapsed(readings[0]), readings.skip(1));
    }
}

/// After a pause the time left stays as the pause left it, through any
/// number of reconciliations with the clock.
pub proof fn lemma_paused_ignores_clock(state: TimerState, pause_ms: nat, readings: Seq<nat>)
    ensures
        state.paused(pause_ms).elapsed_each(readings) == state.paused(pause_ms),
        state.paused(pause_ms).elapsed_each(readings).remaining_ms == state.elapsed(
            pause_ms,
        ).remaining_ms,
{
    lemma_resting_ignores_clock(state.paused(pause_ms), readings);
}

/// Pausing and resuming loses no time: a running timer that is paused after
/// `before` milliseconds, started again and then sees `after` milliseconds
/// pass stands where it would after `before + after` milliseconds without
/// the pause.
pub proof fn lemma_pause_resume_loses_nothing(state: TimerState, before: nat, after: nat)
    requires
        state.running,
    ensures
        state.paused(before).started().elapsed(after) == state.elapsed(before + after),
{
}

/// The three fields on display are each below 60, and together with the
/// sixty-hour periods and the milliseconds that are not shown they make up
/// the time left.
pub proof fn lemma_fields_make_up_remaining(state: TimerState)
    ensures
        state.hours_shown() < 60,
        state.minutes_shown() < 60,
        state.seconds_shown() < 60,
        state.remaining_ms == (state.remaining_ms / 216_000_000) * 216_000_000
            + state.hours_shown() * 3_600_000 + state.minutes_shown() * 60_000
            + state.seconds_shown() * 1000 + state.remaining_ms % 1000,
        state.remaining_ms < 216_000_000 ==> state.hours_shown() == state.remaining_ms
            / 3_600_000,
{
    let whole_seconds = state.remaining_ms / 1000;
    let whole_minutes = whole_seconds / 60;
    let whole_hours = whole_minutes / 60;
    assert(state.remaining_ms / 60_000 == whole_minutes);
    assert(state.remaining_ms / 3_600_000 == whole_hours);
    assert(state.remaining_ms / 216_000_000 == whole_hours / 60);
}

/// A single countdown with start, pause and stop.
pub struct Timer {
    is_running: bool,
    previous_timestamp: Instant,
    start_time: u128,
    timer: u128,
}

impl View for Timer {
    type V = TimerState;

    closed spec fn view(&self) -> TimerState {
        TimerState {
            running: self.is_running,
            initial_ms: self.start_time as nat,
            remaining_ms: self.timer as nat,
        }
    }
}

impl Timer {
    /// Held by every timer: the time left is within the configured length.
    #[verifier::type_invariant]
    spec fn never_above_start(self) -> bool {
        self.timer <= self.start_time
    }

    /// The clock reading from which a running timer counts the time that
    /// has passed.
    pub closed spec fn resumed_at(&self) -> Instant {
        self.previous_timestamp
    }

    /// A timer at rest, set to `hours`, `minutes` and `seconds`. None of the
    /// three is held to a range: 90 minutes count as an hour and a half.
    pub fn new(hours: u32, minutes: u32, seconds: u32) -> (timer: Timer)
        ensures
            timer@ == TimerState::configured(hours as nat, minutes as nat, seconds as nat),
            timer@.remaining_ms == (hours * 3600 + minutes * 60 + seconds) * 1000,
            timer@.initial_ms == timer@.remaining_ms,
            !timer@.running,
    {
        let seconds_in_ms: u128 = ((hours as u128 * 60 * 60) + (minutes as u128 * 60)
            + seconds as u128) * 1000;
        Timer {
            is_running: false,
            previous_timestamp: Instant::now(),
            start_time: seconds_in_ms,
            timer: seconds_in_ms,
        }
    }

    /// Takes `elapsed_ms` milliseconds off a running timer, stopping at
    /// zero, and leaves the reference reading alone. A timer that is not
    /// running is left as it is.
    pub fn count_down(&mut self, elapsed_ms: u128)
        ensures
            final(self)@ == old(self)@.elapsed(elapsed_ms as nat),
            final(self)@.well_formed(),
            final(self).resumed_at() == old(self).resumed_at(),
    {
        proof {
            use_type_invariant(&*self);
        }
        if self.is_running {
            self.timer = self.timer.saturating_sub(elapsed_ms);
        }
    }

    /// Reconciles a running timer with two readings of the clock:
    /// `elapsed_ms`, the milliseconds that passed since the reference
    /// reading, come off the time left, stopping at zero, and `now` becomes
    /// the reference, so that the next reconciliation counts from `now` and
    /// no time is counted twice. A timer that is not running is left as it
    /// is, reference included.
    pub fn reconcile(&mut self, elapsed_ms: u128, now: Instant)
        ensures
            final(self)@ == old(self)@.elapsed(elapsed_ms as nat),
            final(self)@.well_formed(),
            old(self)@.running ==> final(self).resumed_at() == now,
            !old(self)@.running ==> final(self).resumed_at() == old(self).resumed_at(),
    {
        proof {
            use_type_invariant(&*self);
        }
        if self.is_running {
            self.count_down(elapsed_ms);
            self.previous_timestamp = now;
        }
    }

    /// Reconciles a running timer with the clock: it reads how long ago the
    /// reference reading was taken and what the clock says now, and hands
    /// both to [`Timer::reconcile`]. A timer that is not running is left as
    /// it is, and the clock is not read.
    ///
    /// What the clock says is for the clock to decide, so the contract holds
    /// for every reading; [`Timer::reconcile`] says what given readings do.
    pub fn update(&mut self)
        ensures
            exists|ms: nat| final(self)@ == #[trigger] old(self)@.elapsed(ms),
            final(self)@.remaining_ms <= old(self)@.remaining_ms,
            !old(self)@.running ==> final(self)@ == old(self)@,
            final(self)@.well_formed(),
            !old(self)@.running ==> final(self).resumed_at() == old(self).resumed_at(),
    {
        if !self.is_running {
            assert(self@ == old(self)@.elapsed(0));
            proof {
                use_type_invariant(&*self);
            }
            return;
        }
        let ms_difference: u128 = self.previous_timestamp.elapsed().as_millis();
        let now = Instant::now();
        self.reconcile(ms_difference, now);
        assert(self@ == old(self)@.elapsed(ms_difference as nat));
    }

    /// Starts a timer at rest with `now` as its reference reading: the time
    /// it spent at rest is behind the reference and is never counted. A
    /// timer that is already running is left as it is and keeps the
    /// reference it resumed from, so that no elapsed time is counted twice
    /// or lost.
    pub fn start_at(&mut self, now: Instant)
        ensures
            final(self)@ == old(self)@.started(),
            final(self)@.well_formed(),
            !old(self)@.running ==> final(self).resumed_at() == now,
            old(self)@.running ==> final(self).resumed_at() == old(self).resumed_at(),
    {
        proof {
            use_type_invariant(&*self);
        }
        if !self.is_running {
            self.previous_timestamp = now;
            self.is_running = true;
        }
    }

    /// Starts the countdown from the current clock reading: a timer at rest
    /// has the clock read and the reading handed to [`Timer::start_at`]. A
    /// timer that is already running is left as it is, and the clock is not
    /// read.
    ///
    /// Which reading becomes the reference is for the clock to decide;
    /// [`Timer::start_at`] says what a given reading does.
    pub fn start_timer(&mut self)
        ensures
            final(self)@ == old(self)@.started(),
            final(self)@.well_formed(),
            old(self)@.running ==> final(self).resumed_at() == old(self).resumed_at(),
    {
        proof {
            use_type_invariant(&*self);
        }
        if !self.is_running {
            let now = Instant::now();
            self.start_at(now);
        }
    }

    /// Pauses a timer that saw `elapsed_ms` milliseconds pass since its
    /// reference reading: they come off the time left, stopping at zero,
    /// and the countdown halts. A timer at rest is left as it is. The
    /// reference reading stays; it means nothing while the timer rests, and
    /// the next start replaces it.
    pub fn pause_after(&mut self, elapsed_ms: u128)
        ensures
            final(self)@ == old(self)@.paused(elapsed_ms as nat),
            final(self)@.well_formed(),
            final(self).resumed_at() == old(self).resumed_at(),
    {
        self.count_down(elapsed_ms);
        self.is_running = false;
    }

    /// Brings the time left of a running timer up to date with the clock
    /// and halts the countdown: it reads how long ago the reference reading
    /// was taken and hands that to [`Timer::pause_after`]. A timer at rest
    /// is left as it is, and the clock is not read.
    ///
    /// How much time passed is for the clock to say, so the contract holds
    /// for every reading; [`Timer::pause_after`] says what a given reading
    /// does.
    pub fn pause_timer(&mut self)
        ensures
            exists|ms: nat| final(self)@ == #[trigger] old(self)@.paused(ms),
            !final(self)@.running,
            final(self)@.remaining_ms <= old(self)@.remaining_ms,
            !old(self)@.running ==> final(self)@ == old(self)@,
            final(self)@.well_formed(),
            final(self).resumed_at() == old(self).resumed_at(),
    {
        if self.is_running {
            let ms_difference: u128 = self.previous_timestamp.elapsed().as_millis();
            self.pause_after(ms_difference);
            assert(self@ == old(self)@.paused(ms_difference as nat));
        } else {
            proof {
                use_type_invariant(&*self);
            }
            assert(self@ == old(self)@.paused(0));
        }
    }

    /// Halts the countdown and puts the full configured time back.
    pub fn stop_timer(&mut self)
        ensures
            final(self)@ == old(self)@.stopped(),
            final(self)@.remaining_ms == old(self)@.initial_ms,
            !final(self)@.running,
            final(self)@.well_formed(),
            final(self).resumed_at() == old(self).resumed_at(),
    {
        proof {
            use_type_invariant(&*self);
        }
        self.is_running = false;
        self.timer = self.start_time;
    }

    /// Whether the countdown is running.
    pub fn is_running(&self) -> (running: bool)
        ensures
            running == self@.running,
    {
        self.is_running
    }

    /// The configured length of the countdown, in milliseconds.
    pub fn initial_ms(&self) -> (ms: u128)
        ensures
            ms == self@.initial_ms,
    {
        self.start_time
    }

    /// The time left as of the last reconciliation, in milliseconds.
    pub fn remaining_ms(&self) -> (ms: u128)
        ensures
            ms == self@.remaining_ms,
            self@.well_formed(),
    {
        proof {
            use_type_invariant(self);
        }
        self.timer
    }

    /// The hours field of the time left, in `0..60`.
    pub fn get_hours_remaining(&self) -> (hours: u32)
        ensures
            hours == self@.hours_shown(),
            hours < 60,
    {
        let hours: u128 = (self.timer / 1000 / 60 / 60) % 60;
        hours as u32
    }

    /// The minutes field of the time left, in `0..60`.
    pub fn get_minutes_remaining(&self) -> (minutes: u32)
        ensures
            minutes == self@.minutes_shown(),
            minutes < 60,
    {
        let minutes: u128 = (self.timer / 1000 / 60) % 60;
        minutes as u32
    }

    /// The seconds field of the time left, in `0..60`.
    pub fn get_seconds_remaining(&self) -> (seconds: u32)
        ensures
            seconds == self@.seconds_shown(),
            seconds < 60,
    {
        let seconds: u128 = (self.timer / 1000) % 60;
        seconds as u32
    }
}

} // verus!
