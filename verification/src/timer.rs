//! The timer: an interval of fixed length per key, shown frame by frame
//! through two callbacks.
//!
//! An idle timer dispatches the done callback, which may start the interval.
//! A running timer dispatches the timing callback with the time that has
//! passed, and falls back to idle by itself in the frame in which the
//! interval is over.
use crate::clock::{now_millis, seconds_to_millis, MAX_SECONDS};
use crate::{AnyState, ContractViolation, StateKind, UiStates, UserStateTraits};
use egui::Ui;
use vstd::prelude::*;

verus! {

/// What the done callback asks of an idle timer.
#[derive(Clone, Copy, Debug, PartialEq, Eq, Structural)]
pub enum TimerResponse {
    /// Stay idle.
    Stay,
    /// Start the interval now.
    Reset,
}

/// How far a running timer has come: the time since it was started and the
/// length of its interval, both in milliseconds. The fraction that has passed
/// is the first divided by the second; in the frame that ends the interval it
/// is one or more.
#[derive(Clone, Copy, Debug, PartialEq, Eq, Structural)]
pub struct TimerProgress {
    pub elapsed_ms: i128,
    pub duration_ms: i64,
}

/// The callback of an idle timer. It draws, may change the user's state, and
/// says whether the interval shall start.
pub trait DoneUiTraits<State>: FnOnce(&mut Ui, &mut State) -> TimerResponse where
    State: UserStateTraits,
 {

}

impl<State, T> DoneUiTraits<State> for T where
    T: FnOnce(&mut Ui, &mut State) -> TimerResponse,
    State: UserStateTraits,
 {

}

/// The callback of a running timer. It draws, may change the user's state, and
/// is told how far the timer has come.
pub trait TimingUiTraits<State>: FnOnce(&mut Ui, &mut State, TimerProgress) where
    State: UserStateTraits,
 {

}

impl<State, T> TimingUiTraits<State> for T where
    T: FnOnce(&mut Ui, &mut State, TimerProgress),
    State: UserStateTraits,
 {

}

/// The retained state of one timer: when it was started, in milliseconds of
/// the wall clock, and how long its interval is, in milliseconds. A timer
/// that was not started is idle.
#[derive(Clone, Copy, Debug, PartialEq, Eq, Structural)]
pub struct TimerState {
    pub timer_started: Option<i64>,
    pub timer_duration: i64,
}

/// A timer together with the state that the user keeps beside it.
pub struct CompleteTimerState<UserState> where UserState: UserStateTraits {
    pub internal_state: TimerState,
    pub user_state: UserState,
}

impl TimerState {
    /// The timer is idle.
    pub open spec fn is_idle(self) -> bool {
        self.timer_started is None
    }

    /// The time that has passed at `now` since the timer was started.
    pub open spec fn elapsed(self, now: i64) -> int
        recommends
            !self.is_idle(),
    {
        now - self.timer_started->0
    }

    /// How far a running timer has come at `now`.
    pub open spec fn progress_at(self, now: i64) -> TimerProgress
        recommends
            !self.is_idle(),
    {
        TimerProgress { elapsed_ms: self.elapsed(now) as i128, duration_ms: self.timer_duration }
    }

    /// The interval of a running timer is over at `now`.
    pub open spec fn is_due(self, now: i64) -> bool {
        !self.is_idle() && self.elapsed(now) >= self.timer_duration
    }

    /// The timer, started at `now`.
    pub open spec fn started_at(self, now: i64) -> TimerState {
        TimerState { timer_started: Some(now), timer_duration: self.timer_duration }
    }

    /// The timer, idle.
    pub open spec fn stopped(self) -> TimerState {
        TimerState { timer_started: None, timer_duration: self.timer_duration }
    }

    /// One frame of a timer at the time `now`, where `response` is what the
    /// done callback answered; it counts only for an idle timer. An idle
    /// timer starts on request. A running timer stops when its interval is
    /// over, and is left alone otherwise.
    pub open spec fn frame(self, now: i64, response: TimerResponse) -> TimerState {
        if self.is_idle() {
            if response is Reset {
                self.started_at(now)
            } else {
                self
            }
        } else if self.is_due(now) {
            self.stopped()
        } else {
            self
        }
    }

    /// An idle timer with an interval of `seconds`. The interval must be one
    /// that a duration can hold: at most [`MAX_SECONDS`] in either direction.
    pub fn from_seconds(seconds: i64) -> (state: Result<TimerState, ContractViolation>)
        ensures
            state is Ok <==> -MAX_SECONDS <= seconds <= MAX_SECONDS,
            state matches Ok(timer) ==> timer.is_idle() && timer.timer_duration == seconds * 1000,
            state matches Err(violation) ==> violation == ContractViolation::DurationOutOfRange,
    {
        match seconds_to_millis(seconds) {
            Some(millis) => Ok(TimerState { timer_started: None, timer_duration: millis }),
            None => Err(ContractViolation::DurationOutOfRange),
        }
    }

    /// How far the timer has come at `now`; `None` for an idle timer.
    pub fn progress(&self, now: i64) -> (progress: Option<TimerProgress>)
        ensures
            progress == if self.is_idle() {
                None
            } else {
                Some(self.progress_at(now))
            },
    {
        match self.timer_started {
            None => None,
            Some(started) => {
                let now_wide: i128 = now as i128;
                let started_wide: i128 = started as i128;
                Some(
                    TimerProgress {
                        elapsed_ms: now_wide - started_wide,
                        duration_ms: self.timer_duration,
                    },
                )
            },
        }
    }

    /// Starts the interval at `now`, whether or not it was running.
    pub fn reset(&mut self, now: i64)
        ensures
            *final(self) == old(self).started_at(now),
    {
        self.timer_started = Some(now);
    }

    /// Stops a running timer whose interval is over at `now`, and tells
    /// whether it did.
    pub fn expire(&mut self, now: i64) -> (expired: bool)
        ensures
            expired == old(self).is_due(now),
            *final(self) == if expired {
                old(self).stopped()
            } else {
                *old(self)
            },
    {
        match self.progress(now) {
            Some(progress) => {
                let duration_wide: i128 = self.timer_duration as i128;
                if progress.elapsed_ms >= duration_wide {
                    self.timer_started = None;
                    true
                } else {
                    false
                }
            },
            None => false,
        }
    }

    /// Carries out what the done callback answered at `now`: starts the
    /// interval on request.
    pub fn respond(&mut self, now: i64, response: TimerResponse)
        ensures
            *final(self) == if response is Reset {
                old(self).started_at(now)
            } else {
                *old(self)
            },
    {
        match response {
            TimerResponse::Reset => {
                self.reset(now);
            },
            TimerResponse::Stay => {},
        }
    }
}

impl<UserState: UserStateTraits> CompleteTimerState<UserState> {
    /// A timer beside the default of the user's state.
    pub fn from(value: TimerState) -> (state: Self)
        ensures
            state.internal_state == value,
            call_ensures(UserState::default, (), state.user_state),
    {
        CompleteTimerState { internal_state: value, user_state: UserState::default() }
    }
}

/// Runs one frame of the timer `internal_state` at the time `now`, beside the
/// user's state `user_state`: dispatches `done_ui` if the timer is idle, and
/// `timing_ui` with the progress at `now` if it is running. The timer
/// afterwards is [`TimerState::frame`] of the timer before, of `now`, and of
/// what `done_ui` answered. The user's state is what the dispatched callback
/// made of it.
pub fn frame_at<State, DoneUi, TimingUi>(
    internal_state: &mut TimerState,
    user_state: &mut State,
    ui: &mut Ui,
    now: i64,
    done_ui: DoneUi,
    timing_ui: TimingUi,
) where
    DoneUi: FnOnce(&mut Ui, &mut State) -> TimerResponse,
    TimingUi: FnOnce(&mut Ui, &mut State, TimerProgress),

    requires
        forall|ui: &mut Ui, state: &mut State| call_requires(done_ui, (ui, state)),
        forall|ui: &mut Ui, state: &mut State, progress: TimerProgress|
            call_requires(timing_ui, (ui, state, progress)),
    ensures
        exists|response: TimerResponse|
            #![trigger old(internal_state).frame(now, response)]
            {
                &&& *final(internal_state) == old(internal_state).frame(now, response)
                &&& old(internal_state).is_idle() ==> exists|ui: &mut Ui, state: &mut State|
                    {
                        &&& *state == *old(user_state)
                        &&& *final(state) == *final(user_state)
                        &&& call_ensures(done_ui, (ui, state), response)
                    }
                &&& !old(internal_state).is_idle() ==> exists|ui: &mut Ui, state: &mut State|
                    {
                        &&& *state == *old(user_state)
                        &&& *final(state) == *final(user_state)
                        &&& call_ensures(
                            timing_ui,
                            (ui, state, old(internal_state).progress_at(now)),
                            (),
                        )
                    }
            },
{
    let ghost before = *internal_state;
    match internal_state.progress(now) {
        None => {
            let response = done_ui(ui, user_state);
            internal_state.respond(now, response);
            assert(*internal_state == before.frame(now, response));
        },
        Some(progress) => {
            timing_ui(ui, user_state, progress);
            internal_state.expire(now);
        },
    }
}

/// One frame of a timer in the making: the retained state and the callbacks
/// registered so far.
pub struct TimerBuilder<'state, DoneUi, TimingUi, UserState> where
    DoneUi: DoneUiTraits<UserState>,
    TimingUi: TimingUiTraits<UserState>,
    UserState: UserStateTraits,
 {
    pub internal_state: &'state mut TimerState,
    pub user_state: &'state mut UserState,
    pub timer_done_ui: Option<DoneUi>,
    pub timer_timing_ui: Option<TimingUi>,
}

impl<'state, DoneUi, TimingUi, State> TimerBuilder<'state, DoneUi, TimingUi, State> where
    DoneUi: DoneUiTraits<State>,
    TimingUi: TimingUiTraits<State>,
    State: UserStateTraits,
 {
    /// Both callbacks are registered.
    pub open spec fn is_complete(self) -> bool {
        self.timer_done_ui is Some && self.timer_timing_ui is Some
    }

    /// Every registered callback accepts every call.
    pub open spec fn callbacks_total(self) -> bool {
        &&& self.timer_done_ui matches Some(done_ui) ==> forall|ui: &mut Ui, state: &mut State|
            call_requires(done_ui, (ui, state))
        &&& self.timer_timing_ui matches Some(timing_ui) ==> forall|
            ui: &mut Ui,
            state: &mut State,
            progress: TimerProgress,
        | call_requires(timing_ui, (ui, state, progress))
    }

    /// A frame on `state` with no callback registered yet.
    pub fn new(state: &'state mut CompleteTimerState<State>) -> (builder: Self)
        ensures
            *builder.internal_state == old(state).internal_state,
            *builder.user_state == old(state).user_state,
            final(state).internal_state == *final(builder.internal_state),
            final(state).user_state == *final(builder.user_state),
            builder.timer_done_ui is None,
            builder.timer_timing_ui is None,
    {
        TimerBuilder {
            internal_state: &mut state.internal_state,
            user_state: &mut state.user_state,
            timer_done_ui: None,
            timer_timing_ui: None,
        }
    }

    /// Registers the callback of the idle timer.
    pub fn timer_done_ui(self, ui: DoneUi) -> (builder: Self)
        ensures
            builder.timer_done_ui == Some(ui),
            builder.timer_timing_ui == self.timer_timing_ui,
            builder.internal_state == self.internal_state,
            builder.user_state == self.user_state,
    {
        let mut builder = self;
        builder.timer_done_ui = Some(ui);
        builder
    }

    /// Registers the callback of the running timer.
    pub fn timing_ui(self, ui: TimingUi) -> (builder: Self)
        ensures
            builder.timer_timing_ui == Some(ui),
            builder.timer_done_ui == self.timer_done_ui,
            builder.internal_state == self.internal_state,
            builder.user_state == self.user_state,
    {
        let mut builder = self;
        builder.timer_timing_ui = Some(ui);
        builder
    }

    /// Whether both callbacks are registered.
    pub fn complete(&self) -> (complete: bool)
        ensures
            complete == self.is_complete(),
    {
        self.timer_done_ui.is_some() && self.timer_timing_ui.is_some()
    }

    /// Runs one frame at the time `now`: dispatches the done callback of an
    /// idle timer, or the timing callback of a running one with its progress
    /// at `now`. The timer afterwards is [`TimerState::frame`] of the timer
    /// before, of `now`, and of what the done callback answered. The user's
    /// state is what the dispatched callback made of it.
    pub fn show_at(self, ui: &mut Ui, now: i64)
        requires
            self.is_complete(),
            self.callbacks_total(),
        ensures
            exists|response: TimerResponse|
                #![trigger old(self.internal_state).frame(now, response)]
                {
                    &&& *final(self.internal_state) == old(self.internal_state).frame(
                        now,
                        response,
                    )
                    &&& old(self.internal_state).is_idle() ==> exists|
                        ui: &mut Ui,
                        state: &mut State,
                    |
                        {
                            &&& *state == *old(self.user_state)
                            &&& *final(state) == *final(self.user_state)
                            &&& call_ensures(self.timer_done_ui->0, (ui, state), response)
                        }
                    &&& !old(self.internal_state).is_idle() ==> exists|
                        ui: &mut Ui,
                        state: &mut State,
                    |
                        {
                            &&& *state == *old(self.user_state)
                            &&& *final(state) == *final(self.user_state)
                            &&& call_ensures(
                                self.timer_timing_ui->0,
                                (ui, state, old(self.internal_state).progress_at(now)),
                                (),
                            )
                        }
                },
    {
        let TimerBuilder { internal_state, user_state, timer_done_ui, timer_timing_ui } = self;
        frame_at(
            internal_state,
            user_state,
            ui,
            now,
            timer_done_ui.unwrap(),
            timer_timing_ui.unwrap(),
        );
    }

    /// Runs one frame at the time that the wall clock shows.
    pub fn show(self, ui: &mut Ui)
        requires
            self.is_complete(),
            self.callbacks_total(),
        ensures
            exists|now: i64, response: TimerResponse|
                #![trigger old(self.internal_state).frame(now, response)]
                {
                    &&& *final(self.internal_state) == old(self.internal_state).frame(
                        now,
                        response,
                    )
                    &&& old(self.internal_state).is_idle() ==> exists|
                        ui: &mut Ui,
                        state: &mut State,
                    |
                        {
                            &&& *state == *old(self.user_state)
                            &&& *final(state) == *final(self.user_state)
                            &&& call_ensures(self.timer_done_ui->0, (ui, state), response)
                        }
                    &&& !old(self.internal_state).is_idle() ==> exists|
                        ui: &mut Ui,
                        state: &mut State,
                    |
                        {
                            &&& *state == *old(self.user_state)
                            &&& *final(state) == *final(self.user_state)
                            &&& call_ensures(
                                self.timer_timing_ui->0,
                                (ui, state, old(self.internal_state).progress_at(now)),
                                (),
                            )
                        }
                },
    {
        let now = now_millis();
        self.show_at(ui, now);
    }

    /// Runs one frame at the time `now` if both callbacks are registered, and
    /// reports the missing callback otherwise, leaving the timer and the
    /// user's state untouched.
    pub fn try_show_at(self, ui: &mut Ui, now: i64) -> (result: Result<(), ContractViolation>)
        requires
            self.callbacks_total(),
        ensures
            result is Ok <==> self.is_complete(),
            result is Ok ==> exists|response: TimerResponse|
                #![trigger old(self.internal_state).frame(now, response)]
                {
                    &&& *final(self.internal_state) == old(self.internal_state).frame(
                        now,
                        response,
                    )
                    &&& old(self.internal_state).is_idle() ==> exists|
                        ui: &mut Ui,
                        state: &mut State,
                    |
                        {
                            &&& *state == *old(self.user_state)
                            &&& *final(state) == *final(self.user_state)
                            &&& call_ensures(self.timer_done_ui->0, (ui, state), response)
                        }
                    &&& !old(self.internal_state).is_idle() ==> exists|
                        ui: &mut Ui,
                        state: &mut State,
                    |
                        {
                            &&& *state == *old(self.user_state)
                            &&& *final(state) == *final(self.user_state)
                            &&& call_ensures(
                                self.timer_timing_ui->0,
                                (ui, state, old(self.internal_state).progress_at(now)),
                                (),
                            )
                        }
                },
            result matches Err(violation) ==> {
                &&& violation == ContractViolation::MissingCallback
                &&& *final(self.internal_state) == *old(self.internal_state)
                &&& *final(self.user_state) == *old(self.user_state)
            },
    {
        if self.complete() {
            self.show_at(ui, now);
            Ok(())
        } else {
            Err(ContractViolation::MissingCallback)
        }
    }

    /// Runs one frame at the time that the wall clock shows if both callbacks
    /// are registered, and reports the missing callback otherwise, leaving
    /// the timer and the user's state untouched.
    pub fn try_show(self, ui: &mut Ui) -> (result: Result<(), ContractViolation>)
        requires
            self.callbacks_total(),
        ensures
            result is Ok <==> self.is_complete(),
            result is Ok ==> exists|now: i64, response: TimerResponse|
                #![trigger old(self.internal_state).frame(now, response)]
                {
                    &&& *final(self.internal_state) == old(self.internal_state).frame(
                        now,
                        response,
                    )
                    &&& old(self.internal_state).is_idle() ==> exists|
                        ui: &mut Ui,
                        state: &mut State,
                    |
                        {
                            &&& *state == *old(self.user_state)
                            &&& *final(state) == *final(self.user_state)
                            &&& call_ensures(self.timer_done_ui->0, (ui, state), response)
                        }
                    &&& !old(self.internal_state).is_idle() ==> exists|
                        ui: &mut Ui,
                        state: &mut State,
                    |
                        {
                            &&& *state == *old(self.user_state)
                            &&& *final(state) == *final(self.user_state)
                            &&& call_ensures(
                                self.timer_timing_ui->0,
                                (ui, state, old(self.internal_state).progress_at(now)),
                                (),
                            )
                        }
                },
            result matches Err(violation) ==> {
                &&& violation == ContractViolation::MissingCallback
                &&& *final(self.internal_state) == *old(self.internal_state)
                &&& *final(self.user_state) == *old(self.user_state)
            },
    {
        let now = now_millis();
        self.try_show_at(ui, now)
    }
}

/// Gives a store the timer.
pub trait CreateTimerUi<UserState> where UserState: UserStateTraits {
    /// Starts a frame of the timer under the key `name`. The timer is made,
    /// idle and with an interval of `duration` seconds, when the key is new.
    fn timer<'state, DoneUi, TimingUi>(&'state mut self, name: String, duration: i64) -> (builder:
        Result<TimerBuilder<'state, DoneUi, TimingUi, UserState>, ContractViolation>) where
        DoneUi: DoneUiTraits<UserState>,
        TimingUi: TimingUiTraits<UserState>,

        ensures
            builder matches Ok(builder) ==> builder.timer_done_ui is None
                && builder.timer_timing_ui is None,
    ;
}

impl<PromiseOut, UserState> CreateTimerUi<UserState> for UiStates<PromiseOut, UserState> where
    PromiseOut: Send + 'static,
    UserState: UserStateTraits,
 {
    /// The builder works on the timer that the store keeps under `name`, and
    /// on the user's state beside it. A new timer starts beside the default
    /// of the user's state. An existing timer keeps its interval, whatever
    /// `duration` says.
    ///
    /// A `duration` beyond [`MAX_SECONDS`] gives
    /// [`ContractViolation::DurationOutOfRange`], whether or not the key is
    /// new. A key that holds something else than a timer gives
    /// [`ContractViolation::TypeMismatch`]. In both cases the store stays as
    /// it is.
    fn timer<'state, DoneUi, TimingUi>(&'state mut self, name: String, duration: i64) -> (builder:
        Result<TimerBuilder<'state, DoneUi, TimingUi, UserState>, ContractViolation>) where
        DoneUi: DoneUiTraits<UserState>,
        TimingUi: TimingUiTraits<UserState>,

        ensures
            match builder {
                Ok(builder) => {
                    &&& -MAX_SECONDS <= duration <= MAX_SECONDS
                    &&& old(self)@.contains_key(name@) ==> old(self)@[name@] == AnyState::<
                        PromiseOut,
                        UserState,
                    >::Timer(
                        CompleteTimerState {
                            internal_state: *builder.internal_state,
                            user_state: *builder.user_state,
                        },
                    )
                    &&& !old(self)@.contains_key(name@) ==> {
                        &&& builder.internal_state.is_idle()
                        &&& builder.internal_state.timer_duration == duration * 1000
                        &&& call_ensures(UserState::default, (), *builder.user_state)
                    }
                    &&& final(self)@ == old(self)@.insert(
                        name@,
                        AnyState::Timer(
                            CompleteTimerState {
                                internal_state: *final(builder.internal_state),
                                user_state: *final(builder.user_state),
                            },
                        ),
                    )
                },
                Err(violation) => {
                    &&& final(self)@ == old(self)@
                    &&& violation == if -MAX_SECONDS <= duration <= MAX_SECONDS {
                        ContractViolation::TypeMismatch
                    } else {
                        ContractViolation::DurationOutOfRange
                    }
                    &&& violation == ContractViolation::TypeMismatch ==> old(self)@.contains_key(
                        name@,
                    ) && old(self)@[name@].kind_spec() != StateKind::Timer
                },
            },
    {
        let internal_state = match TimerState::from_seconds(duration) {
            Ok(internal_state) => internal_state,
            Err(violation) => {
                return Err(violation);
            },
        };
        match self.get_mut(name, CompleteTimerState::from(internal_state)) {
            Ok(state) => Ok(TimerBuilder::new(state)),
            Err(violation) => Err(violation),
        }
    }
}

/// The interval of a timer. In the frame in which the timer is started
/// nothing has passed. From then on the timer is left alone as long as less
/// than its interval has passed, and is idle after the first frame in which
/// the interval is over, whatever a callback answers.
pub proof fn lemma_interval(timer: TimerState, started: i64, now: i64, response: TimerResponse)
    ensures
        timer.started_at(started).elapsed(started) == 0,
        timer.started_at(started).elapsed(now) == now - started,
        now - started < timer.timer_duration ==> timer.started_at(started).frame(now, response)
            == timer.started_at(started),
        now - started >= timer.timer_duration ==> timer.started_at(started).frame(now, response)
            == timer.stopped(),
        timer.stopped().is_idle(),
{
}

/// An idle timer stays idle until its done callback asks for a start, and
/// then runs from the time of that frame.
pub proof fn lemma_idle(timer: TimerState, now: i64, response: TimerResponse)
    requires
        timer.is_idle(),
    ensures
        timer.frame(now, TimerResponse::Stay) == timer,
        timer.frame(now, TimerResponse::Reset) == timer.started_at(now),
        !timer.frame(now, response).is_idle() <==> response is Reset,
{
}

} // verus!
