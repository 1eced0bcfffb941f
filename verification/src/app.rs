//! The state behind the timer window: a set of named countdowns, the one
//! that is on display, and how often the window repaints.

use crate::timer::Timer;
use crate::timer::TimerState;
use vstd::prelude::*;

verus! {

/// How often the window repaints.
#[derive(Clone, Copy, Debug, PartialEq, Eq, Structural)]
pub enum RunMode {
    /// Repaint only when there is input or an animation. This saves CPU,
    /// but a display that follows the clock goes stale between events.
    Reactive,
    /// Ask for the next repaint at the end of every frame, so that the
    /// display is always up to date.
    Continuous,
}

impl Default for RunMode {
    /// Reactive: it uses the least CPU.
    fn default() -> (mode: RunMode)
        ensures
            mode == RunMode::Reactive,
    {
        RunMode::Reactive
    }
}

/// What a [`TemplateApp`] stands for: its timers as countdowns, the position
/// of the active one, and the repaint policy.
pub struct AppState {
    /// The repaint policy.
    pub run_mode: RunMode,
    /// The position of the active timer in `timers`.
    pub active: int,
    /// The countdowns, in display order.
    pub timers: Seq<TimerState>,
}

impl AppState {
    /// The active position names one of the timers.
    pub open spec fn well_formed(self) -> bool {
        0 <= self.active < self.timers.len()
    }

    /// The state at start-up: continuous repainting, and two timers at rest,
    /// a work period of 2 h 23 min 17 s on display and a break of
    /// 15 min 30 s beside it.
    pub open spec fn initial() -> AppState {
        AppState {
            run_mode: RunMode::Continuous,
            active: 0,
            timers: seq![TimerState::configured(2, 23, 17), TimerState::configured(0, 15, 30)],
        }
    }

    /// The countdown on display.
    pub open spec fn active_timer(self) -> TimerState {
        self.timers[self.active]
    }

    /// The state after the timer at `index` was chosen for display: it
    /// becomes the active one and is stopped, so it shows its full
    /// configured time whatever progress it had made. The others are
    /// untouched.
    pub open spec fn selected(self, index: int) -> AppState {
        AppState {
            active: index,
            timers: self.timers.update(index, self.timers[index].stopped()),
            ..self
        }
    }

    /// The state with `timer` in place of the active countdown.
    pub open spec fn with_active_timer(self, timer: TimerState) -> AppState {
        AppState { timers: self.timers.update(self.active, timer), ..self }
    }
}

/// Choosing a timer for display resets it: it becomes the active one, at
/// rest, with its full configured time left, whatever progress it had made.
/// The other timers and the repaint policy are as before.
pub proof fn lemma_selected_timer_is_reset(state: AppState, index: int)
    requires
        0 <= index < state.timers.len(),
    ensures
        state.selected(index).well_formed(),
        state.selected(index).active == index,
        state.selected(index).active_timer() == state.timers[index].stopped(),
        state.selected(index).active_timer().remaining_ms == state.timers[index].initial_ms,
        !state.selected(index).active_timer().running,
        state.selected(index).run_mode == state.run_mode,
        state.selected(index).timers.len() == state.timers.len(),
        forall|other: int|
            0 <= other < state.timers.len() && other != index ==> state.selected(
                index,
            ).timers[other] == state.timers[other],
{
}

/// Progress does not survive a switch: however far the active timer has
/// come, after another timer is chosen and the first is chosen again, the
/// first is on display at rest with its full configured time.
pub proof fn lemma_switch_away_and_back(state: AppState, progressed: TimerState, other: int)
    requires
        state.well_formed(),
        0 <= other < state.timers.len(),
        progressed.initial_ms == state.active_timer().initial_ms,
    ensures
        state.with_active_timer(progressed).selected(other).selected(state.active).active
            == state.active,
        state.with_active_timer(progressed).selected(other).selected(
            state.active,
        ).active_timer().remaining_ms == state.active_timer().initial_ms,
        !state.with_active_timer(progressed).selected(other).selected(
            state.active,
        ).active_timer().running,
{
}

/// The timers of the window, one of them active.
pub struct TemplateApp {
    run_mode: RunMode,
    active_timer_index: usize,
    timers: Vec<Timer>,
}

impl View for TemplateApp {
    type V = AppState;

    closed spec fn view(&self) -> AppState {
        AppState {
            run_mode: self.run_mode,
            active: self.active_timer_index as int,
            timers: Seq::new(self.timers@.len(), |i: int| self.timers@[i]@),
        }
    }
}

impl Default for TemplateApp {
    /// The start-up state.
    fn default() -> (app: TemplateApp)
        ensures
            app@ == AppState::initial(),
            app@.well_formed(),
    {
        let pomodoro_timer = Timer::new(2, 23, 17);
        let pause_timer = Timer::new(0, 15, 30);
        let mut timers: Vec<Timer> = Vec::new();
        timers.push(pomodoro_timer);
        timers.push(pause_timer);
        let app = TemplateApp { run_mode: RunMode::Continuous, active_timer_index: 0, timers };
        assert(app@.timers =~= AppState::initial().timers);
        app
    }
}

impl TemplateApp {
    /// Held by every value: the active position names one of the timers.
    #[verifier::type_invariant]
    spec fn active_in_range(self) -> bool {
        self.active_timer_index < self.timers@.len()
    }

    /// The state that every run begins with. Nothing of it is kept from one
    /// run to the next: the timers, the choice of the active one and the
    /// repaint policy start afresh.
    pub fn new() -> (app: TemplateApp)
        ensures
            app@ == AppState::initial(),
            app@.well_formed(),
    {
        TemplateApp::default()
    }

    /// The number of timers.
    pub fn timer_count(&self) -> (count: usize)
        ensures
            count == self@.timers.len(),
    {
        self.timers.len()
    }

    /// The position of the active timer.
    pub fn active_timer_index(&self) -> (index: usize)
        ensures
            index == self@.active,
            self@.well_formed(),
    {
        proof {
            use_type_invariant(self);
        }
        self.active_timer_index
    }

    /// The repaint policy.
    pub fn run_mode(&self) -> (mode: RunMode)
        ensures
            mode == self@.run_mode,
    {
        self.run_mode
    }

    /// Whether the window is to ask for another repaint once a frame is
    /// done: it is in continuous mode, and only then.
    pub fn wants_repaint(&self) -> (wanted: bool)
        ensures
            wanted == (self@.run_mode == RunMode::Continuous),
    {
        self.run_mode == RunMode::Continuous
    }

    /// The active timer.
    pub fn active_timer(&self) -> (timer: &Timer)
        ensures
            self@.well_formed(),
            timer@ == self@.active_timer(),
    {
        proof {
            use_type_invariant(self);
        }
        &self.timers[self.active_timer_index]
    }

    /// The active timer, to start, pause, stop or update it. Whatever is
    /// done to it, the other timers and the choice of the active one stay
    /// as they are.
    pub fn active_timer_mut(&mut self) -> (timer: &mut Timer)
        ensures
            old(self)@.well_formed(),
            timer@ == old(self)@.active_timer(),
            final(self)@ == old(self)@.with_active_timer(final(timer)@),
    {
        proof {
            use_type_invariant(&*self);
        }
        let index: usize = self.active_timer_index;
        let ghost after = final(self)@;
        let timer = &mut self.timers[index];
        proof {
            assert(after.timers =~= old(self)@.with_active_timer(final(timer)@).timers);
        }
        timer
    }

    /// Puts the timer at `index` on display and stops it.
    pub fn select_timer(&mut self, index: usize)
        requires
            index < old(self)@.timers.len(),
        ensures
            final(self)@ == old(self)@.selected(index as int),
            final(self)@.well_formed(),
            final(self)@.active == index,
            final(self)@.active_timer().remaining_ms == old(self)@.timers[index as int].initial_ms,
            !final(self)@.active_timer().running,
    {
        proof {
            use_type_invariant(&*self);
        }
        self.active_timer_index = index;
        self.timers[index].stop_timer();
        assert(self@.timers =~= old(self)@.selected(index as int).timers);
    }
}

} // verus!
