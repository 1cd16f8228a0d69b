//! A background computation per key that is set in one place and watched in
//! another.
//!
//! [`FutureAwait::set_future`] stores a computation under a key,
//! [`FutureAwait::is_running`] polls it, and [`FutureAwait::future_status`]
//! shows it, with callbacks that are all optional.
use crate::default_promise_await::{after_response, default_done_ui, DoneResponse};
use crate::surface::draw_spinner;
use crate::task::{PollOutcome, TaskSlot};
use crate::{AnyState, ContractViolation, UiStates, UserStateTraits};
use egui::Ui;
use lazy_async_promise::{BoxedSendError, ImmediateValuePromise};
use vstd::prelude::*;

verus! {

/// The retained state of one watched computation.
#[verifier::reject_recursive_types(T)]
pub struct FutureState<T: Send + 'static> {
    pub slot: TaskSlot<T>,
}

/// How the end of a computation is shown.
pub enum DoneDisplay<DoneUi> {
    /// Not at all.
    Nothing,
    /// By the word for how it ended and a button that clears it.
    BuiltIn,
    /// By this callback, which is given the result by reference and says
    /// whether to clear it.
    Custom(DoneUi),
}

/// One frame of a watched computation, as a function of the slot before the
/// frame and of what the outside answered: `outcome` is what the poll found,
/// `response` what the done display decided. Each answer counts only where
/// the frame asks for it.
///
/// An empty slot stays empty. Any other slot is polled; if it is settled
/// after that, the done display is asked.
pub open spec fn frame<T: Send + 'static>(
    slot: TaskSlot<T>,
    outcome: PollOutcome<T>,
    response: DoneResponse,
) -> TaskSlot<T> {
    let polled = slot.after_poll(outcome);
    if polled.is_settled() {
        after_response(polled, response)
    } else {
        polled
    }
}

impl<T: Send + 'static> Default for FutureState<T> {
    /// The state of a key that was never used: empty.
    fn default() -> (state: Self)
        ensures
            state.slot is Empty,
    {
        FutureState { slot: TaskSlot::Empty }
    }
}

impl<T: Send + 'static> FutureState<T> {
    /// Polls once and tells whether the computation is still under way.
    pub fn is_running(&mut self) -> (running: bool)
        ensures
            exists|outcome: PollOutcome<T>| final(self).slot == old(self).slot.after_poll(outcome),
            running == (final(self).slot is Running),
    {
        self.slot.poll();
        match self.slot {
            TaskSlot::Running(_) => true,
            _ => false,
        }
    }

    /// Carries out what the done display decided.
    pub fn respond(&mut self, response: DoneResponse)
        ensures
            final(self).slot == after_response(old(self).slot, response),
    {
        match response {
            DoneResponse::Clear => {
                self.slot.clear();
            },
            DoneResponse::KeepShowing => {},
        }
    }
}

/// The place to put a computation under a key.
#[verifier::reject_recursive_types(T)]
pub struct SetFutureBuilder<'state, T> where T: Send + 'static {
    pub state: &'state mut FutureState<T>,
}

impl<'state, T> SetFutureBuilder<'state, T> where T: Send + 'static {
    /// Stores `future` under the key. It replaces what was there, also a
    /// computation that is still under way.
    pub fn set(self, future: ImmediateValuePromise<T>)
        ensures
            final(self.state).slot == TaskSlot::Running(future),
    {
        self.state.slot.set(future);
    }
}

/// One frame of a watched computation in the making: the retained state and
/// the displays chosen so far.
#[verifier::reject_recursive_types(T)]
pub struct FutureStatusBuilder<'state, T, EmptyUi, DoneUi> where
    T: Send + 'static,
    EmptyUi: FnOnce(&mut Ui),
    DoneUi: for <'a>FnOnce(&mut Ui, Result<&'a T, &'a BoxedSendError>) -> DoneResponse,
 {
    pub state: &'state mut FutureState<T>,
    pub waiting_ui: bool,
    pub empty_ui: Option<EmptyUi>,
    pub done_ui: DoneDisplay<DoneUi>,
}

impl<'state, T, EmptyUi, DoneUi> FutureStatusBuilder<'state, T, EmptyUi, DoneUi> where
    T: Send + 'static,
    EmptyUi: FnOnce(&mut Ui),
    DoneUi: for <'a>FnOnce(&mut Ui, Result<&'a T, &'a BoxedSendError>) -> DoneResponse,
 {
    /// Every registered callback accepts every call.
    pub open spec fn callbacks_total(self) -> bool {
        &&& self.empty_ui matches Some(empty_ui) ==> forall|ui: &mut Ui|
            call_requires(empty_ui, (ui,))
        &&& self.done_ui matches DoneDisplay::Custom(done_ui) ==> forall|
            ui: &mut Ui,
            result: Result<&T, &BoxedSendError>,
        | call_requires(done_ui, (ui, result))
    }

    /// A frame on `state` that shows nothing.
    pub fn new(state: &'state mut FutureState<T>) -> (builder: Self)
        ensures
            *builder.state == *old(state),
            *final(state) == *final(builder.state),
            !builder.waiting_ui,
            builder.empty_ui is None,
            builder.done_ui is Nothing,
    {
        FutureStatusBuilder {
            state,
            waiting_ui: false,
            empty_ui: None,
            done_ui: DoneDisplay::Nothing,
        }
    }

    /// Chooses the built-in look: a spinner while the computation is under
    /// way, nothing while there is none, and the built-in done display.
    /// Displays chosen before are dropped.
    #[must_use]
    pub fn default(self) -> (builder: Self)
        ensures
            builder.waiting_ui,
            builder.empty_ui is None,
            builder.done_ui is BuiltIn,
            builder.state == self.state,
    {
        let mut builder = self.spinner();
        builder.empty_ui = None;
        builder.done_ui = DoneDisplay::BuiltIn;
        builder
    }

    /// Registers the callback that shows how the computation ended.
    #[must_use]
    pub fn done_ui(self, done_ui: DoneUi) -> (builder: Self)
        ensures
            builder.done_ui == DoneDisplay::Custom(done_ui),
            builder.waiting_ui == self.waiting_ui,
            builder.empty_ui == self.empty_ui,
            builder.state == self.state,
    {
        let mut builder = self;
        builder.done_ui = DoneDisplay::Custom(done_ui);
        builder
    }

    /// Registers the callback that draws while there is no computation.
    #[must_use]
    pub fn empty_ui(self, empty_ui: EmptyUi) -> (builder: Self)
        ensures
            builder.empty_ui == Some(empty_ui),
            builder.waiting_ui == self.waiting_ui,
            builder.done_ui == self.done_ui,
            builder.state == self.state,
    {
        let mut builder = self;
        builder.empty_ui = Some(empty_ui);
        builder
    }

    /// Chooses a spinner for the time that the computation is under way.
    #[must_use]
    pub fn spinner(self) -> (builder: Self)
        ensures
            builder.waiting_ui,
            builder.empty_ui == self.empty_ui,
            builder.done_ui == self.done_ui,
            builder.state == self.state,
    {
        let mut builder = self;
        builder.waiting_ui = true;
        builder
    }

    /// Polls once and shows nothing.
    pub fn only_poll(self)
        ensures
            exists|outcome: PollOutcome<T>|
                final(self.state).slot == old(self.state).slot.after_poll(outcome),
    {
        self.state.slot.poll();
    }

    /// The frame that [`frame`] describes dispatched the right callback,
    /// where one is registered: the empty callback returned where the slot
    /// was empty; the done callback was given the result and returned
    /// `response` where the slot is settled after the poll that found
    /// `outcome`. Without a done callback and without the built-in display
    /// nothing is cleared.
    pub open spec fn dispatched(
        self,
        slot: TaskSlot<T>,
        outcome: PollOutcome<T>,
        response: DoneResponse,
    ) -> bool {
        if slot is Empty {
            self.empty_ui matches Some(empty_ui) ==> exists|ui: &mut Ui|
                call_ensures(empty_ui, (ui,), ())
        } else {
            match self.done_ui {
                DoneDisplay::Nothing => response is KeepShowing,
                DoneDisplay::BuiltIn => true,
                DoneDisplay::Custom(done_ui) => match slot.after_poll(outcome) {
                    TaskSlot::Success(value) => exists|ui: &mut Ui|
                        call_ensures(done_ui, (ui, Ok::<&T, &BoxedSendError>(&value)), response),
                    TaskSlot::Error(error) => exists|ui: &mut Ui|
                        call_ensures(done_ui, (ui, Err::<&T, &BoxedSendError>(&error)), response),
                    _ => true,
                },
            }
        }
    }

    /// Runs one frame: draws the empty display while there is no computation;
    /// otherwise polls once and draws the spinner while the computation is
    /// under way, or the done display once it has ended. A display that was
    /// not chosen draws nothing. The slot afterwards is [`frame`] of the slot
    /// before and of what the poll and the done display answered.
    pub fn show(self, ui: &mut Ui)
        requires
            self.callbacks_total(),
        ensures
            exists|outcome: PollOutcome<T>, response: DoneResponse|
                #![trigger frame(old(self.state).slot, outcome, response)]
                {
                    &&& final(self.state).slot == frame(old(self.state).slot, outcome, response)
                    &&& self.dispatched(old(self.state).slot, outcome, response)
                },
    {
        let FutureStatusBuilder { state, waiting_ui, empty_ui, done_ui } = self;
        let ghost before = state.slot;
        if let TaskSlot::Empty = state.slot {
            match empty_ui {
                Some(empty_ui) => {
                    empty_ui(ui);
                },
                None => {},
            }
            assert(state.slot == frame(before, PollOutcome::Vacant, DoneResponse::KeepShowing));
            return ;
        }
        state.slot.poll();
        let ghost outcome = choose|outcome: PollOutcome<T>|
            state.slot == before.after_poll(outcome);
        let response = match &state.slot {
            TaskSlot::Success(value) => match done_ui {
                DoneDisplay::Custom(done_ui) => done_ui(ui, Ok(value)),
                DoneDisplay::BuiltIn => default_done_ui(ui, state.slot.phase(), "clear"),
                DoneDisplay::Nothing => DoneResponse::KeepShowing,
            },
            TaskSlot::Error(error) => match done_ui {
                DoneDisplay::Custom(done_ui) => done_ui(ui, Err(error)),
                DoneDisplay::BuiltIn => default_done_ui(ui, state.slot.phase(), "clear"),
                DoneDisplay::Nothing => DoneResponse::KeepShowing,
            },
            TaskSlot::Running(_) => {
                if waiting_ui {
                    draw_spinner(ui);
                }
                return ;
            },
            TaskSlot::Empty => {
                return ;
            },
        };
        state.respond(response);
        assert(state.slot == frame(before, outcome, response));
    }
}

/// Gives a store the watched computations.
pub trait FutureAwait<T> where T: Send + 'static {
    /// Polls the computation under `name` once and tells whether it is still
    /// under way. There is none when the key is new.
    fn is_running(&mut self, name: String) -> (running: Result<bool, ContractViolation>);

    /// The place to put a computation under `name`.
    #[must_use]
    fn set_future<'state>(&'state mut self, name: String) -> (builder: Result<
        SetFutureBuilder<'state, T>,
        ContractViolation,
    >);

    /// Starts a frame that shows the computation under `name`.
    #[must_use]
    fn future_status<'state, EmptyUi, DoneUi>(&'state mut self, name: String) -> (builder: Result<
        FutureStatusBuilder<'state, T, EmptyUi, DoneUi>,
        ContractViolation,
    >) where
        EmptyUi: FnOnce(&mut Ui),
        DoneUi: for <'a>FnOnce(&mut Ui, Result<&'a T, &'a BoxedSendError>) -> DoneResponse,

        ensures
            builder matches Ok(builder) ==> !builder.waiting_ui && builder.empty_ui is None
                && builder.done_ui is Nothing,
    ;
}

/// The slot that a store keeps for the watched computation under `name`: an
/// empty one when the key is new.
pub open spec fn watched<T, UserState>(
    states: Map<Seq<char>, AnyState<T, UserState>>,
    name: Seq<char>,
) -> TaskSlot<T> where T: Send + 'static, UserState: UserStateTraits {
    if states.contains_key(name) {
        states[name]->Future_0.slot
    } else {
        TaskSlot::Empty
    }
}

/// A key can hold a watched computation: it is new, or holds one already.
pub open spec fn can_watch<T, UserState>(
    states: Map<Seq<char>, AnyState<T, UserState>>,
    name: Seq<char>,
) -> bool where T: Send + 'static, UserState: UserStateTraits {
    states.contains_key(name) ==> states[name] is Future
}

impl<T, UserState> FutureAwait<T> for UiStates<T, UserState> where
    T: Send + 'static,
    UserState: UserStateTraits,
 {
    /// The poll changes the slot that the store keeps under `name` as a poll
    /// does; a new key is taken into use, with an empty slot. A key that
    /// holds something else than a watched computation gives
    /// [`ContractViolation::TypeMismatch`], and the store stays as it is.
    fn is_running(&mut self, name: String) -> (running: Result<bool, ContractViolation>)
        ensures
            running is Ok <==> can_watch(old(self)@, name@),
            match running {
                Ok(running) => {
                    &&& final(self)@.contains_key(name@)
                    &&& final(self)@[name@] is Future
                    &&& final(self)@ == old(self)@.insert(name@, final(self)@[name@])
                    &&& exists|outcome: PollOutcome<T>|
                        watched(final(self)@, name@) == watched(old(self)@, name@).after_poll(
                            outcome,
                        )
                    &&& running == (watched(final(self)@, name@) is Running)
                },
                Err(violation) => {
                    &&& violation == ContractViolation::TypeMismatch
                    &&& final(self)@ == old(self)@
                },
            },
    {
        match self.get_mut(name, FutureState::default()) {
            Ok(state) => {
                let running = state.is_running();
                Ok(running)
            },
            Err(violation) => Err(violation),
        }
    }

    /// The builder works on the slot that the store keeps under `name`. A key
    /// that holds something else than a watched computation gives
    /// [`ContractViolation::TypeMismatch`], and the store stays as it is.
    fn set_future<'state>(&'state mut self, name: String) -> (builder: Result<
        SetFutureBuilder<'state, T>,
        ContractViolation,
    >)
        ensures
            builder is Ok <==> can_watch(old(self)@, name@),
            match builder {
                Ok(builder) => {
                    &&& builder.state.slot == watched(old(self)@, name@)
                    &&& final(self)@ == old(self)@.insert(
                        name@,
                        AnyState::Future(*final(builder.state)),
                    )
                },
                Err(violation) => {
                    &&& violation == ContractViolation::TypeMismatch
                    &&& final(self)@ == old(self)@
                },
            },
    {
        match self.get_mut(name, FutureState::default()) {
            Ok(state) => Ok(SetFutureBuilder { state }),
            Err(violation) => Err(violation),
        }
    }

    /// The builder works on the slot that the store keeps under `name`. A key
    /// that holds something else than a watched computation gives
    /// [`ContractViolation::TypeMismatch`], and the store stays as it is.
    fn future_status<'state, EmptyUi, DoneUi>(&'state mut self, name: String) -> (builder: Result<
        FutureStatusBuilder<'state, T, EmptyUi, DoneUi>,
        ContractViolation,
    >) where
        EmptyUi: FnOnce(&mut Ui),
        DoneUi: for <'a>FnOnce(&mut Ui, Result<&'a T, &'a BoxedSendError>) -> DoneResponse,

        ensures
            builder is Ok <==> can_watch(old(self)@, name@),
            match builder {
                Ok(builder) => {
                    &&& builder.state.slot == watched(old(self)@, name@)
                    &&& final(self)@ == old(self)@.insert(
                        name@,
                        AnyState::Future(*final(builder.state)),
                    )
                },
                Err(violation) => {
                    &&& violation == ContractViolation::TypeMismatch
                    &&& final(self)@ == old(self)@
                },
            },
    {
        match self.get_mut(name, FutureState::default()) {
            Ok(state) => Ok(FutureStatusBuilder::new(state)),
            Err(violation) => Err(violation),
        }
    }
}

} // verus!
