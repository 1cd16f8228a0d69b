//! The task tracker: one background computation per key, shown frame by frame
//! through three callbacks.
//!
//! An empty tracker dispatches the init callback, which may submit a
//! computation. A running tracker polls once and dispatches the waiting
//! callback while the computation is under way. A tracker whose computation
//! has finished dispatches the done callback with the result, in every frame,
//! until that callback asks for a reset.
use crate::task::{PollOutcome, TaskSlot};
use crate::{AnyState, ContractViolation, StateKind, UiStates, UserStateTraits};
use egui::Ui;
use lazy_async_promise::{BoxedSendError, ImmediateValuePromise};
use std::marker::PhantomData;
use vstd::prelude::*;

verus! {

/// What the done callback asks of the tracker.
pub enum DoneResponse<T> {
    /// Hand this value to the caller of this frame; keep showing the result.
    Value(T),
    /// Keep showing the result.
    Empty,
    /// Forget the result: the tracker is empty from the next frame on.
    Clear,
}

/// The callback of an empty tracker. It draws, and returns the computation
/// that it wants tracked, if any.
pub trait InitUiTraits<PromiseOut>: FnOnce(&mut Ui) -> Option<
    ImmediateValuePromise<PromiseOut>,
> where PromiseOut: Send + 'static {

}

impl<T, PromiseOut> InitUiTraits<PromiseOut> for T where
    T: FnOnce(&mut Ui) -> Option<ImmediateValuePromise<PromiseOut>>,
    PromiseOut: Send + 'static,
 {

}

/// The callback of a tracker whose computation is under way.
pub trait WaitingUiTraits: FnOnce(&mut Ui) {

}

impl<T> WaitingUiTraits for T where T: FnOnce(&mut Ui) {

}

/// The callback of a tracker whose computation has finished. It is given the
/// result by reference and says what shall happen to it.
pub trait DoneUiTraits<PromiseOut, R>: for <'a>FnOnce(
    &mut Ui,
    Result<&'a PromiseOut, &'a BoxedSendError>,
) -> DoneResponse<R> {

}

impl<T, PromiseOut, R> DoneUiTraits<PromiseOut, R> for T where
    T: for <'a>FnOnce(&mut Ui, Result<&'a PromiseOut, &'a BoxedSendError>) -> DoneResponse<R>,
 {

}

/// The retained state of one tracker.
#[verifier::reject_recursive_types(PromiseOut)]
pub struct PromiseAwaitState<PromiseOut: Send + 'static> {
    pub slot: TaskSlot<PromiseOut>,
}

/// What a done callback's answer hands to the caller of the frame.
pub open spec fn yielded<R>(response: DoneResponse<R>) -> Option<R> {
    match response {
        DoneResponse::Value(value) => Some(value),
        _ => None,
    }
}

/// The slot after the done callback answered `response`: cleared on request,
/// untouched otherwise.
pub open spec fn after_done<PromiseOut: Send + 'static, R>(
    slot: TaskSlot<PromiseOut>,
    response: DoneResponse<R>,
) -> TaskSlot<PromiseOut> {
    if response is Clear {
        TaskSlot::Empty
    } else {
        slot
    }
}

/// One frame of a tracker, as a function of the slot before the frame and of
/// what the outside answered: `outcome` is what the poll found, `submitted`
/// what the init callback returned, `response` what the done callback
/// returned. Each answer counts only where the frame asks for it. The result
/// is the slot after the frame and the value handed to the caller.
///
/// An empty slot asks the init callback and nothing else. Any other slot is
/// polled; if it is settled after that, the done callback is asked, in the
/// same frame.
pub open spec fn frame<PromiseOut: Send + 'static, R>(
    slot: TaskSlot<PromiseOut>,
    outcome: PollOutcome<PromiseOut>,
    submitted: Option<ImmediateValuePromise<PromiseOut>>,
    response: DoneResponse<R>,
) -> (TaskSlot<PromiseOut>, Option<R>) {
    if slot is Empty {
        (slot.after_submit(submitted), None)
    } else {
        let polled = slot.after_poll(outcome);
        if polled.is_settled() {
            (after_done(polled, response), yielded(response))
        } else {
            (polled, None)
        }
    }
}

impl<PromiseOut: Send + 'static> Default for PromiseAwaitState<PromiseOut> {
    /// The state of a key that was never used: empty.
    fn default() -> (state: Self)
        ensures
            state.slot is Empty,
    {
        PromiseAwaitState { slot: TaskSlot::Empty }
    }
}

impl<PromiseOut: Send + 'static> PromiseAwaitState<PromiseOut> {
    /// Starts tracking `promise`.
    pub fn set(&mut self, promise: ImmediateValuePromise<PromiseOut>)
        ensures
            final(self).slot == TaskSlot::Running(promise),
    {
        self.slot.set(promise);
    }

    /// Forgets the computation and its result.
    pub fn clear(&mut self)
        ensures
            final(self).slot is Empty,
    {
        self.slot.clear();
    }

    /// Carries out what the done callback answered, and returns the value for
    /// the caller of the frame.
    pub fn respond<R>(&mut self, response: DoneResponse<R>) -> (result: Option<R>)
        ensures
            final(self).slot == after_done(old(self).slot, response),
            result == yielded(response),
    {
        match response {
            DoneResponse::Clear => {
                self.clear();
                None
            },
            DoneResponse::Empty => None,
            DoneResponse::Value(value) => Some(value),
        }
    }
}

/// One frame of a tracker in the making: the retained state and the callbacks
/// registered so far.
#[verifier::reject_recursive_types(PromiseOut)]
#[verifier::reject_recursive_types(DoneR)]
pub struct PromiseAwaitBuilder<'state, InitUi, WaitingUi, DoneUi, PromiseOut, DoneR> where
    InitUi: InitUiTraits<PromiseOut>,
    WaitingUi: WaitingUiTraits,
    DoneUi: DoneUiTraits<PromiseOut, DoneR>,
    PromiseOut: Send + 'static,
 {
    pub internal_state: &'state mut PromiseAwaitState<PromiseOut>,
    pub init_ui: Option<InitUi>,
    pub waiting_ui: Option<WaitingUi>,
    pub done_ui: Option<DoneUi>,
    pub _none: PhantomData<DoneR>,
}

impl<'state, InitUi, WaitingUi, DoneUi, PromiseOut, DoneR> PromiseAwaitBuilder<
    'state,
    InitUi,
    WaitingUi,
    DoneUi,
    PromiseOut,
    DoneR,
> where
    InitUi: InitUiTraits<PromiseOut>,
    WaitingUi: WaitingUiTraits,
    DoneUi: DoneUiTraits<PromiseOut, DoneR>,
    PromiseOut: Send + 'static,
 {
    /// All three callbacks are registered.
    pub open spec fn is_complete(self) -> bool {
        self.init_ui is Some && self.waiting_ui is Some && self.done_ui is Some
    }

    /// Every registered callback accepts every call.
    pub open spec fn callbacks_total(self) -> bool {
        &&& self.init_ui matches Some(init_ui) ==> forall|ui: &mut Ui|
            call_requires(init_ui, (ui,))
        &&& self.waiting_ui matches Some(waiting_ui) ==> forall|ui: &mut Ui|
            call_requires(waiting_ui, (ui,))
        &&& self.done_ui matches Some(done_ui) ==> forall|
            ui: &mut Ui,
            result: Result<&PromiseOut, &BoxedSendError>,
        | call_requires(done_ui, (ui, result))
    }

    /// A frame on `internal_state` with no callback registered yet.
    pub fn new(internal_state: &'state mut PromiseAwaitState<PromiseOut>) -> (builder: Self)
        ensures
            *builder.internal_state == *old(internal_state),
            *final(internal_state) == *final(builder.internal_state),
            builder.init_ui is None,
            builder.waiting_ui is None,
            builder.done_ui is None,
    {
        PromiseAwaitBuilder {
            internal_state,
            init_ui: None,
            waiting_ui: None,
            done_ui: None,
            _none: PhantomData,
        }
    }

    /// Registers the callback of the empty tracker.
    pub fn init_ui(self, ui: InitUi) -> (builder: Self)
        ensures
            builder.init_ui == Some(ui),
            builder.waiting_ui == self.waiting_ui,
            builder.done_ui == self.done_ui,
            builder.internal_state == self.internal_state,
    {
        let mut builder = self;
        builder.init_ui = Some(ui);
        builder
    }

    /// Registers the callback of the running tracker.
    pub fn waiting_ui(self, ui: WaitingUi) -> (builder: Self)
        ensures
            builder.waiting_ui == Some(ui),
            builder.init_ui == self.init_ui,
            builder.done_ui == self.done_ui,
            builder.internal_state == self.internal_state,
    {
        let mut builder = self;
        builder.waiting_ui = Some(ui);
        builder
    }

    /// Registers the callback of the settled tracker.
    pub fn done_ui(self, ui: DoneUi) -> (builder: Self)
        ensures
            builder.done_ui == Some(ui),
            builder.init_ui == self.init_ui,
            builder.waiting_ui == self.waiting_ui,
            builder.internal_state == self.internal_state,
    {
        let mut builder = self;
        builder.done_ui = Some(ui);
        builder
    }

    /// Whether all three callbacks are registered.
    pub fn complete(&self) -> (complete: bool)
        ensures
            complete == self.is_complete(),
    {
        self.init_ui.is_some() && self.waiting_ui.is_some() && self.done_ui.is_some()
    }

    /// The frame that [`frame`] describes dispatched the right callback: the
    /// init callback returned `submitted` where the slot was empty, the
    /// waiting callback returned where the slot is running after the poll that
    /// found `outcome`, and the done callback was given the result and
    /// returned `response` where the slot is settled after that poll.
    pub open spec fn dispatched(
        self,
        slot: TaskSlot<PromiseOut>,
        outcome: PollOutcome<PromiseOut>,
        submitted: Option<ImmediateValuePromise<PromiseOut>>,
        response: DoneResponse<DoneR>,
    ) -> bool {
        if slot is Empty {
            exists|ui: &mut Ui| call_ensures(self.init_ui->0, (ui,), submitted)
        } else {
            match slot.after_poll(outcome) {
                TaskSlot::Running(_) => exists|ui: &mut Ui|
                    call_ensures(self.waiting_ui->0, (ui,), ()),
                TaskSlot::Success(value) => exists|ui: &mut Ui|
                    call_ensures(
                        self.done_ui->0,
                        (ui, Ok::<&PromiseOut, &BoxedSendError>(&value)),
                        response,
                    ),
                TaskSlot::Error(error) => exists|ui: &mut Ui|
                    call_ensures(
                        self.done_ui->0,
                        (ui, Err::<&PromiseOut, &BoxedSendError>(&error)),
                        response,
                    ),
                TaskSlot::Empty => true,
            }
        }
    }

    /// Runs one frame: polls at most once and dispatches exactly one of the
    /// three callbacks, or none where a poll found the handle emptied. The
    /// tracker and the value returned are [`frame`] of the tracker before and
    /// of what the poll and the callbacks answered.
    pub fn show(self, ui: &mut Ui) -> (result: Option<DoneR>)
        requires
            self.is_complete(),
            self.callbacks_total(),
        ensures
            exists|
                outcome: PollOutcome<PromiseOut>,
                submitted: Option<ImmediateValuePromise<PromiseOut>>,
                response: DoneResponse<DoneR>,
            |
                #![trigger frame(old(self.internal_state).slot, outcome, submitted, response)]
                {
                    &&& (final(self.internal_state).slot, result) == frame(
                        old(self.internal_state).slot,
                        outcome,
                        submitted,
                        response,
                    )
                    &&& self.dispatched(
                        old(self.internal_state).slot,
                        outcome,
                        submitted,
                        response,
                    )
                },
    {
        let PromiseAwaitBuilder { internal_state, init_ui, waiting_ui, done_ui, _none } = self;
        let init_ui = init_ui.unwrap();
        let waiting_ui = waiting_ui.unwrap();
        let done_ui = done_ui.unwrap();
        let ghost before = internal_state.slot;
        if let TaskSlot::Empty = internal_state.slot {
            let submitted = init_ui(ui);
            internal_state.slot.submit(submitted);
            assert((internal_state.slot, None::<DoneR>) == frame(
                before,
                PollOutcome::Vacant,
                submitted,
                DoneResponse::<DoneR>::Empty,
            ));
            return None;
        }
        internal_state.slot.poll();
        let ghost outcome = choose|outcome: PollOutcome<PromiseOut>|
            internal_state.slot == before.after_poll(outcome);
        let ghost polled = internal_state.slot;
        let response = match &internal_state.slot {
            TaskSlot::Success(value) => done_ui(ui, Ok(value)),
            TaskSlot::Error(error) => done_ui(ui, Err(error)),
            TaskSlot::Running(_) => {
                waiting_ui(ui);
                assert((polled, None::<DoneR>) == frame(
                    before,
                    outcome,
                    None,
                    DoneResponse::<DoneR>::Empty,
                ));
                return None;
            },
            TaskSlot::Empty => {
                assert((polled, None::<DoneR>) == frame(
                    before,
                    outcome,
                    None,
                    DoneResponse::<DoneR>::Empty,
                ));
                return None;
            },
        };
        let ghost answered = response;
        let result = internal_state.respond(response);
        assert((internal_state.slot, result) == frame(before, outcome, None, answered));
        result
    }

    /// Runs one frame if all three callbacks are registered, and reports the
    /// missing callback otherwise, leaving the tracker untouched.
    pub fn try_show(self, ui: &mut Ui) -> (result: Result<Option<DoneR>, ContractViolation>)
        requires
            self.callbacks_total(),
        ensures
            result is Ok <==> self.is_complete(),
            result matches Ok(value) ==> exists|
                outcome: PollOutcome<PromiseOut>,
                submitted: Option<ImmediateValuePromise<PromiseOut>>,
                response: DoneResponse<DoneR>,
            |
                #![trigger frame(old(self.internal_state).slot, outcome, submitted, response)]
                {
                    &&& (final(self.internal_state).slot, value) == frame(
                        old(self.internal_state).slot,
                        outcome,
                        submitted,
                        response,
                    )
                    &&& self.dispatched(
                        old(self.internal_state).slot,
                        outcome,
                        submitted,
                        response,
                    )
                },
            result matches Err(violation) ==> {
                &&& violation == ContractViolation::MissingCallback
                &&& *final(self.internal_state) == *old(self.internal_state)
            },
    {
        if self.complete() {
            Ok(self.show(ui))
        } else {
            Err(ContractViolation::MissingCallback)
        }
    }
}

/// Gives a store the task tracker.
pub trait CreatePromiseAwait<PromiseOut> where PromiseOut: Send + 'static {
    /// Starts a frame of the tracker under the key `name`. The tracker is
    /// made, empty, when the key is new.
    fn promise_await<'state, InitUi, WaitingUi, DoneUi, DoneR>(
        &'state mut self,
        name: String,
    ) -> (builder: Result<
        PromiseAwaitBuilder<'state, InitUi, WaitingUi, DoneUi, PromiseOut, DoneR>,
        ContractViolation,
    >) where
        InitUi: InitUiTraits<PromiseOut>,
        WaitingUi: WaitingUiTraits,
        DoneUi: DoneUiTraits<PromiseOut, DoneR>,

        ensures
            builder matches Ok(builder) ==> builder.init_ui is None && builder.waiting_ui is None
                && builder.done_ui is None,
    ;
}

impl<PromiseOut, UserState> CreatePromiseAwait<PromiseOut> for UiStates<
    PromiseOut,
    UserState,
> where PromiseOut: Send + 'static, UserState: UserStateTraits {
    /// The builder works on the tracker that the store keeps under `name`. A
    /// key that holds something else than a tracker gives
    /// [`ContractViolation::TypeMismatch`], and the store stays as it is.
    fn promise_await<'state, InitUi, WaitingUi, DoneUi, DoneR>(
        &'state mut self,
        name: String,
    ) -> (builder: Result<
        PromiseAwaitBuilder<'state, InitUi, WaitingUi, DoneUi, PromiseOut, DoneR>,
        ContractViolation,
    >) where
        InitUi: InitUiTraits<PromiseOut>,
        WaitingUi: WaitingUiTraits,
        DoneUi: DoneUiTraits<PromiseOut, DoneR>,

        ensures
            match builder {
                Ok(builder) => {
                    &&& old(self)@.contains_key(name@) ==> old(self)@[name@]
                        == AnyState::<PromiseOut, UserState>::PromiseAwait(*builder.internal_state)
                    &&& !old(self)@.contains_key(name@) ==> builder.internal_state.slot is Empty
                    &&& final(self)@ == old(self)@.insert(
                        name@,
                        AnyState::PromiseAwait(*final(builder.internal_state)),
                    )
                },
                Err(violation) => {
                    &&& violation == ContractViolation::TypeMismatch
                    &&& old(self)@.contains_key(name@)
                    &&& old(self)@[name@].kind_spec() != StateKind::PromiseAwait
                    &&& final(self)@ == old(self)@
                },
            },
    {
        match self.get_mut(name, PromiseAwaitState::default()) {
            Ok(state) => Ok(PromiseAwaitBuilder::new(state)),
            Err(violation) => Err(violation),
        }
    }
}

/// The way of a tracker through its phases. An empty tracker that is handed
/// a computation is running. A running tracker stays running while its
/// computation is pending. Once the computation is ready, the frame that
/// polls it shows the result, and so does every later frame, whatever a
/// poll or the init callback would answer: the result stays until the done
/// callback asks for a reset.
pub proof fn lemma_lifecycle<PromiseOut: Send + 'static, R>(
    handle: ImmediateValuePromise<PromiseOut>,
    result: Result<PromiseOut, BoxedSendError>,
    outcome: PollOutcome<PromiseOut>,
    submitted: Option<ImmediateValuePromise<PromiseOut>>,
    response: DoneResponse<R>,
)
    requires
        !(response is Clear),
    ensures
        frame(TaskSlot::Empty, outcome, Some(handle), response) == (
            TaskSlot::Running(handle),
            None::<R>,
        ),
        frame(TaskSlot::Running(handle), PollOutcome::Pending(handle), submitted, response) == (
            TaskSlot::Running(handle),
            None::<R>,
        ),
        frame(TaskSlot::Running(handle), PollOutcome::Ready(result), submitted, response) == (
            TaskSlot::resolved_spec(PollOutcome::Ready(result)),
            yielded(response),
        ),
        TaskSlot::resolved_spec(PollOutcome::Ready(result)).is_settled(),
        frame(TaskSlot::resolved_spec(PollOutcome::Ready(result)), outcome, submitted, response)
            == (TaskSlot::resolved_spec(PollOutcome::Ready(result)), yielded(response)),
{
}

/// A reset, and nothing else, takes a settled tracker back to empty; and an
/// empty tracker stays empty until its init callback submits a computation.
pub proof fn lemma_reset<PromiseOut: Send + 'static, R>(
    slot: TaskSlot<PromiseOut>,
    outcome: PollOutcome<PromiseOut>,
    submitted: Option<ImmediateValuePromise<PromiseOut>>,
    response: DoneResponse<R>,
)
    ensures
        slot.is_settled() ==> (frame(slot, outcome, submitted, response).0 is Empty
            <==> response is Clear),
        slot.is_settled() ==> frame(slot, outcome, submitted, DoneResponse::<R>::Clear) == (
            TaskSlot::<PromiseOut>::Empty,
            None::<R>,
        ),
        slot is Empty ==> (frame(slot, outcome, submitted, response).0 is Running
            <==> submitted is Some),
        slot is Empty ==> frame(slot, outcome, None, response) == (slot, None::<R>),
{
}

} // verus!
