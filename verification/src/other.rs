//! The timer in one call: the key, the interval, the user's state to start
//! from and both callbacks are given in every frame.
use crate::clock::{now_millis, MAX_SECONDS};
use crate::keyed::Keyed;
use crate::timer::{frame_at, TimerProgress, TimerResponse, TimerState};
use crate::ContractViolation;
use egui::Ui;
use vstd::prelude::*;

verus! {

/// What a user's state beside a timer of this module must offer: to borrow
/// nothing that could end before the store does.
pub trait InternalState: Sized + 'static {

}

impl<T> InternalState for T where T: 'static {

}

/// What a key of [`UiStates`] holds.
pub enum UiStateType<State> where State: InternalState {
    /// A timer: when it was started, if it is running, and how long its
    /// interval is, both in milliseconds; and the user's state beside it.
    TimerState { timer_started: Option<i64>, timer_duration: i64, state: State },
}

/// The store of the timers that are shown in one call.
///
/// The store is seen as the map from the keys in use to their timers.
pub struct UiStates<State> where State: InternalState {
    map: Keyed<UiStateType<State>>,
}

impl<State> View for UiStates<State> where State: InternalState {
    type V = Map<Seq<char>, UiStateType<State>>;

    closed spec fn view(&self) -> Self::V {
        self.map@
    }
}

impl<State> Default for UiStates<State> where State: InternalState {
    /// A store without keys.
    fn default() -> (states: Self)
        ensures
            states@ == Map::<Seq<char>, UiStateType<State>>::empty(),
    {
        UiStates { map: Keyed::new() }
    }
}

impl<State> UiStateType<State> where State: InternalState {
    /// The timer that the entry holds.
    pub open spec fn timer_spec(self) -> TimerState {
        TimerState {
            timer_started: self->timer_started,
            timer_duration: self->timer_duration,
        }
    }

    /// The timer that the entry holds.
    pub fn timer_state(&self) -> (timer: TimerState)
        ensures
            timer == self.timer_spec(),
    {
        match self {
            UiStateType::TimerState { timer_started, timer_duration, .. } => TimerState {
                timer_started: *timer_started,
                timer_duration: *timer_duration,
            },
        }
    }

    /// The user's state beside the timer.
    pub fn user_state(&self) -> (state: &State)
        ensures
            *state == self->state,
    {
        match self {
            UiStateType::TimerState { state, .. } => state,
        }
    }

    /// An idle timer with an interval of `seconds` beside `state`. The
    /// interval must be one that a duration can hold: at most
    /// [`MAX_SECONDS`] in either direction.
    pub fn timer(seconds: i64, state: State) -> (entry: Result<Self, ContractViolation>)
        ensures
            entry is Ok <==> -MAX_SECONDS <= seconds <= MAX_SECONDS,
            entry matches Ok(entry) ==> entry == (UiStateType::TimerState {
                timer_started: None,
                timer_duration: (seconds * 1000) as i64,
                state,
            }),
            entry matches Err(violation) ==> violation == ContractViolation::DurationOutOfRange,
    {
        match TimerState::from_seconds(seconds) {
            Ok(timer) => Ok(
                UiStateType::TimerState {
                    timer_started: timer.timer_started,
                    timer_duration: timer.timer_duration,
                    state,
                },
            ),
            Err(violation) => Err(violation),
        }
    }

    /// Runs one frame at the time `now`: dispatches `done_ui` if the timer is
    /// idle, and `timing_ui` with the progress at `now` if it is running. The
    /// timer afterwards is [`TimerState::frame`] of the timer before, of
    /// `now`, and of what `done_ui` answered. The user's state is what the
    /// dispatched callback made of it.
    pub fn ui_at<DoneUi, TimingUi>(
        &mut self,
        ui: &mut Ui,
        now: i64,
        done_ui: DoneUi,
        timing_ui: TimingUi,
    ) where
        DoneUi: FnOnce(&mut Ui, &mut State) -> TimerResponse,
        TimingUi: FnOnce(&mut Ui, &mut State, TimerProgress),

        requires
            forall|ui: &mut Ui, state: &mut State| call_requires(done_ui, (ui, state)),
            forall|ui: &mut Ui, state: &mut State, progress: TimerProgress|
                call_requires(timing_ui, (ui, state, progress)),
        ensures
            exists|response: TimerResponse|
                #![trigger old(self).timer_spec().frame(now, response)]
                {
                    &&& final(self).timer_spec() == old(self).timer_spec().frame(now, response)
                    &&& old(self).timer_spec().is_idle() ==> exists|
                        ui: &mut Ui,
                        state: &mut State,
                    |
                        {
                            &&& *state == old(self)->state
                            &&& *final(state) == final(self)->state
                            &&& call_ensures(done_ui, (ui, state), response)
                        }
                    &&& !old(self).timer_spec().is_idle() ==> exists|
                        ui: &mut Ui,
                        state: &mut State,
                    |
                        {
                            &&& *state == old(self)->state
                            &&& *final(state) == final(self)->state
                            &&& call_ensures(
                                timing_ui,
                                (ui, state, old(self).timer_spec().progress_at(now)),
                                (),
                            )
                        }
                },
    {
        let mut timer = self.timer_state();
        match self {
            UiStateType::TimerState { timer_started, timer_duration, state } => {
                frame_at(&mut timer, state, ui, now, done_ui, timing_ui);
                *timer_started = timer.timer_started;
                *timer_duration = timer.timer_duration;
            },
        }
    }

    /// Runs one frame at the time that the wall clock shows.
    pub fn ui<DoneUi, TimingUi>(&mut self, ui: &mut Ui, done_ui: DoneUi, timing_ui: TimingUi) where
        DoneUi: FnOnce(&mut Ui, &mut State) -> TimerResponse,
        TimingUi: FnOnce(&mut Ui, &mut State, TimerProgress),

        requires
            forall|ui: &mut Ui, state: &mut State| call_requires(done_ui, (ui, state)),
            forall|ui: &mut Ui, state: &mut State, progress: TimerProgress|
                call_requires(timing_ui, (ui, state, progress)),
        ensures
            exists|now: i64, response: TimerResponse|
                #![trigger old(self).timer_spec().frame(now, response)]
                {
                    &&& final(self).timer_spec() == old(self).timer_spec().frame(now, response)
                    &&& old(self).timer_spec().is_idle() ==> exists|
                        ui: &mut Ui,
                        state: &mut State,
                    |
                        {
                            &&& *state == old(self)->state
                            &&& *final(state) == final(self)->state
                            &&& call_ensures(done_ui, (ui, state), response)
                        }
                    &&& !old(self).timer_spec().is_idle() ==> exists|
                        ui: &mut Ui,
                        state: &mut State,
                    |
                        {
                            &&& *state == old(self)->state
                            &&& *final(state) == final(self)->state
                            &&& call_ensures(
                                timing_ui,
                                (ui, state, old(self).timer_spec().progress_at(now)),
                                (),
                            )
                        }
                },
    {
        let now = now_millis();
        self.ui_at(ui, now, done_ui, timing_ui);
    }
}

impl<State> UiStates<State> where State: InternalState {
    /// The timer that the store keeps under `name` at the start of a frame:
    /// the one that is there, or an idle one with an interval of `seconds`
    /// for a new key.
    pub open spec fn timer_before(self, name: Seq<char>, seconds: i64) -> TimerState {
        if self@.contains_key(name) {
            self@[name].timer_spec()
        } else {
            TimerState { timer_started: None, timer_duration: (seconds * 1000) as i64 }
        }
    }

    /// The user's state that the store keeps under `name` at the start of a
    /// frame: the one that is there, or `init_state` for a new key.
    pub open spec fn state_before(self, name: Seq<char>, init_state: State) -> State {
        if self@.contains_key(name) {
            self@[name]->state
        } else {
            init_state
        }
    }

    /// The timer under `name`; `None` for a key that is not in use.
    pub fn timer_state(&self, name: &str) -> (timer: Option<TimerState>)
        ensures
            match timer {
                Some(timer) => self@.contains_key(name@) && timer == self@[name@].timer_spec(),
                None => !self@.contains_key(name@),
            },
    {
        let key = name.to_owned();
        match self.map.get(&key) {
            Some(entry) => Some(entry.timer_state()),
            None => None,
        }
    }

    /// Runs one frame, at the time `now`, of the timer under `name`. A new
    /// key gets an idle timer with an interval of `seconds` beside
    /// `init_state`; for a key in use both are dropped. Then `done_ui` is
    /// dispatched if the timer is idle, and `timing_ui` with the progress at
    /// `now` if it is running. No other key is touched.
    ///
    /// A value of `seconds` beyond [`MAX_SECONDS`] gives
    /// [`ContractViolation::DurationOutOfRange`], whether or not the key is
    /// new; the store then stays as it is and no callback is dispatched.
    pub fn timer_at<DoneUi, TimingUi>(
        &mut self,
        name: &str,
        ui: &mut Ui,
        now: i64,
        seconds: i64,
        init_state: State,
        new_timer_done_ui: DoneUi,
        new_timer_timing_ui: TimingUi,
    ) -> (result: Result<(), ContractViolation>) where
        DoneUi: FnOnce(&mut Ui, &mut State) -> TimerResponse,
        TimingUi: FnOnce(&mut Ui, &mut State, TimerProgress),

        requires
            forall|ui: &mut Ui, state: &mut State| call_requires(new_timer_done_ui, (ui, state)),
            forall|ui: &mut Ui, state: &mut State, progress: TimerProgress|
                call_requires(new_timer_timing_ui, (ui, state, progress)),
        ensures
            result is Ok <==> -MAX_SECONDS <= seconds <= MAX_SECONDS,
            result is Ok ==> final(self)@.contains_key(name@) && final(self)@ == old(
                self,
            )@.insert(name@, final(self)@[name@]),
            result is Ok ==> exists|response: TimerResponse|
                #![trigger old(self).timer_before(name@, seconds).frame(now, response)]
                {
                    &&& final(self)@[name@].timer_spec() == old(self).timer_before(
                        name@,
                        seconds,
                    ).frame(now, response)
                    &&& old(self).timer_before(name@, seconds).is_idle() ==> exists|
                        ui: &mut Ui,
                        state: &mut State,
                    |
                        {
                            &&& *state == old(self).state_before(name@, init_state)
                            &&& *final(state) == final(self)@[name@]->state
                            &&& call_ensures(new_timer_done_ui, (ui, state), response)
                        }
                    &&& !old(self).timer_before(name@, seconds).is_idle() ==> exists|
                        ui: &mut Ui,
                        state: &mut State,
                    |
                        {
                            &&& *state == old(self).state_before(name@, init_state)
                            &&& *final(state) == final(self)@[name@]->state
                            &&& call_ensures(
                                new_timer_timing_ui,
                                (
                                    ui,
                                    state,
                                    old(self).timer_before(name@, seconds).progress_at(now),
                                ),
                                (),
                            )
                        }
                },
            result matches Err(violation) ==> {
                &&& violation == ContractViolation::DurationOutOfRange
                &&& final(self)@ == old(self)@
            },
    {
        let fresh = match UiStateType::timer(seconds, init_state) {
            Ok(fresh) => fresh,
            Err(violation) => {
                return Err(violation);
            },
        };
        let timer_state = self.map.entry(name.to_owned(), fresh);
        timer_state.ui_at(ui, now, new_timer_done_ui, new_timer_timing_ui);
        Ok(())
    }

    /// Runs one frame, at the time that the wall clock shows, of the timer
    /// under `name`.
    pub fn timer<DoneUi, TimingUi>(
        &mut self,
        name: &str,
        ui: &mut Ui,
        seconds: i64,
        init_state: State,
        new_timer_done_ui: DoneUi,
        new_timer_timing_ui: TimingUi,
    ) -> (result: Result<(), ContractViolation>) where
        DoneUi: FnOnce(&mut Ui, &mut State) -> TimerResponse,
        TimingUi: FnOnce(&mut Ui, &mut State, TimerProgress),

        requires
            forall|ui: &mut Ui, state: &mut State| call_requires(new_timer_done_ui, (ui, state)),
            forall|ui: &mut Ui, state: &mut State, progress: TimerProgress|
                call_requires(new_timer_timing_ui, (ui, state, progress)),
        ensures
            result is Ok <==> -MAX_SECONDS <= seconds <= MAX_SECONDS,
            result is Ok ==> final(self)@.contains_key(name@) && final(self)@ == old(
                self,
            )@.insert(name@, final(self)@[name@]),
            result is Ok ==> exists|now: i64, response: TimerResponse|
                #![trigger old(self).timer_before(name@, seconds).frame(now, response)]
                {
                    &&& final(self)@[name@].timer_spec() == old(self).timer_before(
                        name@,
                        seconds,
                    ).frame(now, response)
                    &&& old(self).timer_before(name@, seconds).is_idle() ==> exists|
                        ui: &mut Ui,
                        state: &mut State,
                    |
                        {
                            &&& *state == old(self).state_before(name@, init_state)
                            &&& *final(state) == final(self)@[name@]->state
                            &&& call_ensures(new_timer_done_ui, (ui, state), response)
                        }
                    &&& !old(self).timer_before(name@, seconds).is_idle() ==> exists|
                        ui: &mut Ui,
                        state: &mut State,
                    |
                        {
                            &&& *state == old(self).state_before(name@, init_state)
                            &&& *final(state) == final(self)@[name@]->state
                            &&& call_ensures(
                                new_timer_timing_ui,
                                (
                                    ui,
                                    state,
                                    old(self).timer_before(name@, seconds).progress_at(now),
                                ),
                                (),
                            )
                        }
                },
            result matches Err(violation) ==> {
                &&& violation == ContractViolation::DurationOutOfRange
                &&& final(self)@ == old(self)@
            },
    {
        let now = now_millis();
        self.timer_at(name, ui, now, seconds, init_state, new_timer_done_ui, new_timer_timing_ui)
    }
}

} // verus!
