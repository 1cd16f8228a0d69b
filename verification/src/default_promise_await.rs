//! The task tracker with a built-in look: a spinner while the computation is
//! under way, a word and a reset button once it has finished.
use crate::surface::{button_clicked, draw_label, draw_spinner};
use crate::task::{PollOutcome, TaskPhase, TaskSlot};
use crate::{AnyState, ContractViolation, StateKind, UiStates, UserStateTraits};
use egui::Ui;
use lazy_async_promise::ImmediateValuePromise;
use vstd::prelude::*;

verus! {

/// What the built-in done display decides.
#[derive(Clone, Copy, Debug, PartialEq, Eq, Structural)]
pub enum DoneResponse {
    /// Keep showing the result.
    KeepShowing,
    /// Forget the result: the tracker is empty from the next frame on.
    Clear,
}

/// The callback of an empty tracker. It draws, and returns the computation
/// that it wants tracked, if any.
pub trait InitUiTraits<PromiseOut>: FnOnce(&mut Ui) -> Option<
    ImmediateValuePromise<PromiseOut>,
> where PromiseOut: Send + 'static {

}

impl<T, PromiseOut> InitUiTraits<PromiseOut> for T where
    T: FnOnce(&mut Ui) -> Option<ImmediateValuePromise<PromiseOut>>,
    PromiseOut: Send + 'static,
 {

}

/// The retained state of one tracker with the built-in look.
#[verifier::reject_recursive_types(PromiseOut)]
pub struct DefaultPromiseAwaitState<PromiseOut: Send + 'static> {
    pub slot: TaskSlot<PromiseOut>,
}

impl<PromiseOut: Send + 'static> Default for DefaultPromiseAwaitState<PromiseOut> {
    /// The state of a key that was never used: empty.
    fn default() -> (state: Self)
        ensures
            state.slot is Empty,
    {
        DefaultPromiseAwaitState { slot: TaskSlot::Empty }
    }
}

impl<PromiseOut: Send + 'static> DefaultPromiseAwaitState<PromiseOut> {
    /// Starts tracking `promise`.
    pub fn set(&mut self, promise: ImmediateValuePromise<PromiseOut>)
        ensures
            final(self).slot == TaskSlot::Running(promise),
    {
        self.slot.set(promise);
    }

    /// Forgets the computation and its result.
    pub fn clear(&mut self)
        ensures
            final(self).slot is Empty,
    {
        self.slot.clear();
    }
}

/// The slot after the done display decided `response`: cleared on request,
/// untouched otherwise.
pub open spec fn after_response<PromiseOut: Send + 'static>(
    slot: TaskSlot<PromiseOut>,
    response: DoneResponse,
) -> TaskSlot<PromiseOut> {
    if response is Clear {
        TaskSlot::Empty
    } else {
        slot
    }
}

/// One frame of a tracker with the built-in look, as a function of the slot
/// before the frame and of what the outside answered: `outcome` is what the
/// poll found, `submitted` what the init callback returned, `response` what
/// the reset button decided. Each answer counts only where the frame asks for
/// it.
///
/// An empty slot asks the init callback and nothing else. Any other slot is
/// polled; unless it is still running after that, the reset button is shown.
pub open spec fn frame<PromiseOut: Send + 'static>(
    slot: TaskSlot<PromiseOut>,
    outcome: PollOutcome<PromiseOut>,
    submitted: Option<ImmediateValuePromise<PromiseOut>>,
    response: DoneResponse,
) -> TaskSlot<PromiseOut> {
    if slot is Empty {
        slot.after_submit(submitted)
    } else {
        let polled = slot.after_poll(outcome);
        if polled is Running {
            polled
        } else {
            after_response(polled, response)
        }
    }
}

/// The word that the built-in look shows for a slot that is not running.
pub open spec fn status_text_spec(phase: TaskPhase) -> Option<Seq<char>> {
    match phase {
        TaskPhase::Empty => Some("empty"@),
        TaskPhase::Success => Some("success"@),
        TaskPhase::Error => Some("error"@),
        TaskPhase::Running => None,
    }
}

/// The word that the built-in look shows for a slot that is not running; a
/// running slot has a spinner and no word.
pub fn status_text(phase: TaskPhase) -> (text: Option<&'static str>)
    ensures
        text is Some <==> status_text_spec(phase) is Some,
        text matches Some(text) ==> Some(text@) == status_text_spec(phase),
{
    match phase {
        TaskPhase::Empty => Some("empty"),
        TaskPhase::Success => Some("success"),
        TaskPhase::Error => Some("error"),
        TaskPhase::Running => None,
    }
}

/// What a click on the reset button asks for.
pub fn response_to(clicked: bool) -> (response: DoneResponse)
    ensures
        response is Clear <==> clicked,
{
    if clicked {
        DoneResponse::Clear
    } else {
        DoneResponse::KeepShowing
    }
}

/// The built-in done display: the word for `phase` and a button that asks
/// for a reset when it is clicked.
pub(crate) fn default_done_ui(ui: &mut Ui, phase: TaskPhase, button: &str) -> (response:
    DoneResponse) {
    match status_text(phase) {
        Some(text) => {
            draw_label(ui, text);
        },
        None => {},
    }
    response_to(button_clicked(ui, button))
}

impl<PromiseOut: Send + 'static> DefaultPromiseAwaitState<PromiseOut> {
    /// Carries out what the done display decided.
    pub fn respond(&mut self, response: DoneResponse)
        ensures
            final(self).slot == after_response(old(self).slot, response),
    {
        match response {
            DoneResponse::Clear => {
                self.clear();
            },
            DoneResponse::KeepShowing => {},
        }
    }
}

/// One frame of a tracker with the built-in look in the making: the retained
/// state and the init callback, once it is registered.
#[verifier::reject_recursive_types(PromiseOut)]
pub struct DefaultPromiseAwaitBuilder<'state, InitUi, PromiseOut> where
    InitUi: InitUiTraits<PromiseOut>,
    PromiseOut: Send + 'static,
 {
    pub internal_state: &'state mut DefaultPromiseAwaitState<PromiseOut>,
    pub init_ui: Option<InitUi>,
}

impl<'state, InitUi, PromiseOut> DefaultPromiseAwaitBuilder<'state, InitUi, PromiseOut> where
    InitUi: InitUiTraits<PromiseOut>,
    PromiseOut: Send + 'static,
 {
    /// The init callback is registered.
    pub open spec fn is_complete(self) -> bool {
        self.init_ui is Some
    }

    /// The registered callback accepts every call.
    pub open spec fn callbacks_total(self) -> bool {
        self.init_ui matches Some(init_ui) ==> forall|ui: &mut Ui| call_requires(init_ui, (ui,))
    }

    /// A frame on `internal_state` with no callback registered yet.
    pub fn new(internal_state: &'state mut DefaultPromiseAwaitState<PromiseOut>) -> (builder: Self)
        ensures
            *builder.internal_state == *old(internal_state),
            *final(internal_state) == *final(builder.internal_state),
            builder.init_ui is None,
    {
        DefaultPromiseAwaitBuilder { internal_state, init_ui: None }
    }

    /// Registers the callback of the empty tracker. It is given the surface
    /// and returns the computation that it wants tracked, if any.
    #[must_use]
    pub fn init_ui(self, ui: InitUi) -> (builder: Self)
        ensures
            builder.init_ui == Some(ui),
            builder.internal_state == self.internal_state,
    {
        let mut builder = self;
        builder.init_ui = Some(ui);
        builder
    }

    /// Whether the init callback is registered.
    pub fn complete(&self) -> (complete: bool)
        ensures
            complete == self.is_complete(),
    {
        self.init_ui.is_some()
    }

    /// Runs one frame: asks the init callback of an empty tracker; otherwise
    /// polls once and draws a spinner while the computation is under way, or
    /// the word for how it ended and a reset button. The tracker afterwards
    /// is [`frame`] of the tracker before and of what the poll, the callback
    /// and the button answered.
    pub fn show(self, ui: &mut Ui)
        requires
            self.is_complete(),
            self.callbacks_total(),
        ensures
            exists|
                outcome: PollOutcome<PromiseOut>,
                submitted: Option<ImmediateValuePromise<PromiseOut>>,
                response: DoneResponse,
            |
                #![trigger frame(old(self.internal_state).slot, outcome, submitted, response)]
                {
                    &&& final(self.internal_state).slot == frame(
                        old(self.internal_state).slot,
                        outcome,
                        submitted,
                        response,
                    )
                    &&& old(self.internal_state).slot is Empty ==> exists|ui: &mut Ui|
                        call_ensures(self.init_ui->0, (ui,), submitted)
                },
    {
        let DefaultPromiseAwaitBuilder { internal_state, init_ui } = self;
        let init_ui = init_ui.unwrap();
        let ghost before = internal_state.slot;
        if let TaskSlot::Empty = internal_state.slot {
            let submitted = init_ui(ui);
            internal_state.slot.submit(submitted);
            assert(internal_state.slot == frame(
                before,
                PollOutcome::Vacant,
                submitted,
                DoneResponse::KeepShowing,
            ));
            return ;
        }
        internal_state.slot.poll();
        let ghost outcome = choose|outcome: PollOutcome<PromiseOut>|
            internal_state.slot == before.after_poll(outcome);
        let phase = internal_state.slot.phase();
        if phase == TaskPhase::Running {
            draw_spinner(ui);
        } else {
            let response = default_done_ui(ui, phase, "reset");
            internal_state.respond(response);
            assert(internal_state.slot == frame(before, outcome, None, response));
        }
    }

    /// Runs one frame if the init callback is registered, and reports the
    /// missing callback otherwise, leaving the tracker untouched.
    pub fn try_show(self, ui: &mut Ui) -> (result: Result<(), ContractViolation>)
        requires
            self.callbacks_total(),
        ensures
            result is Ok <==> self.is_complete(),
            result is Ok ==> exists|
                outcome: PollOutcome<PromiseOut>,
                submitted: Option<ImmediateValuePromise<PromiseOut>>,
                response: DoneResponse,
            |
                #![trigger frame(old(self.internal_state).slot, outcome, submitted, response)]
                {
                    &&& final(self.internal_state).slot == frame(
                        old(self.internal_state).slot,
                        outcome,
                        submitted,
                        response,
                    )
                    &&& old(self.internal_state).slot is Empty ==> exists|ui: &mut Ui|
                        call_ensures(self.init_ui->0, (ui,), submitted)
                },
            result matches Err(violation) ==> {
                &&& violation == ContractViolation::MissingCallback
                &&& *final(self.internal_state) == *old(self.internal_state)
            },
    {
        if self.complete() {
            self.show(ui);
            Ok(())
        } else {
            Err(ContractViolation::MissingCallback)
        }
    }
}

/// Gives a store the task tracker with the built-in look.
pub trait DefaultCreatePromiseAwait<PromiseOut> where PromiseOut: Send + 'static {
    /// Starts a frame of the tracker under the key `name`. The tracker is
    /// made, empty, when the key is new.
    fn default_promise_await<'state, InitUi>(&'state mut self, name: String) -> (builder: Result<
        DefaultPromiseAwaitBuilder<'state, InitUi, PromiseOut>,
        ContractViolation,
    >) where InitUi: InitUiTraits<PromiseOut>
        ensures
            builder matches Ok(builder) ==> builder.init_ui is None,
    ;
}

impl<PromiseOut, UserState> DefaultCreatePromiseAwait<PromiseOut> for UiStates<
    PromiseOut,
    UserState,
> where PromiseOut: Send + 'static, UserState: UserStateTraits {
    /// The builder works on the tracker that the store keeps under `name`. A
    /// key that holds something else than such a tracker gives
    /// [`ContractViolation::TypeMismatch`], and the store stays as it is.
    fn default_promise_await<'state, InitUi>(&'state mut self, name: String) -> (builder: Result<
        DefaultPromiseAwaitBuilder<'state, InitUi, PromiseOut>,
        ContractViolation,
    >) where InitUi: InitUiTraits<PromiseOut>
        ensures
            match builder {
                Ok(builder) => {
                    &&& old(self)@.contains_key(name@) ==> old(self)@[name@] == AnyState::<
                        PromiseOut,
                        UserState,
                    >::DefaultPromiseAwait(*builder.internal_state)
                    &&& !old(self)@.contains_key(name@) ==> builder.internal_state.slot is Empty
                    &&& final(self)@ == old(self)@.insert(
                        name@,
                        AnyState::DefaultPromiseAwait(*final(builder.internal_state)),
                    )
                },
                Err(violation) => {
                    &&& violation == ContractViolation::TypeMismatch
                    &&& old(self)@.contains_key(name@)
                    &&& old(self)@[name@].kind_spec() != StateKind::DefaultPromiseAwait
                    &&& final(self)@ == old(self)@
                },
            },
    {
        match self.get_mut(name, DefaultPromiseAwaitState::default()) {
            Ok(state) => Ok(DefaultPromiseAwaitBuilder::new(state)),
            Err(violation) => Err(violation),
        }
    }
}

} // verus!
