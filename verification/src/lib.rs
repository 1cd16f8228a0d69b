//! Retained state for user interfaces that are redrawn every frame.
//!
//! An immediate-mode interface forgets everything between two frames. This
//! crate keeps what has to survive: the progress of background computations,
//! timers, and the data of single widgets, each addressed by a stable key in a
//! [`UiStates`] store. Two state machines are built on the store: the
//! task tracker of [`promise_await`] and the timer of [`timer`].
//! [`default_promise_await`] and [`future_await`] are trackers with less to
//! register, and [`other`] is a timer that is shown in one call.
//!
//! Nothing here blocks: a frame makes at most one non-blocking poll and
//! dispatches one callback. A callback does not reach into the state
//! machine: it draws, and returns what it wants done.
//!
//! What is not proved is kept small and apart: [`task`] polls the handle of
//! a computation, [`clock`] reads the wall clock, and [`surface`] draws.
use crate::default_promise_await::DefaultPromiseAwaitState;
use crate::future_await::FutureState;
use crate::keyed::Keyed;
use crate::promise_await::PromiseAwaitState;
use crate::timer::CompleteTimerState;
use egui::Ui;
use vstd::prelude::*;

pub mod clock;
pub mod default_promise_await;
pub mod future_await;
pub mod keyed;
pub mod other;
pub mod promise_await;
pub mod surface;
pub mod task;
pub mod timer;

verus! {

/// A programmer error that the library reports instead of carrying on.
#[derive(Clone, Copy, Debug, PartialEq, Eq, Structural)]
pub enum ContractViolation {
    /// A key was requested with another type than the one it was created with.
    TypeMismatch,
    /// A frame was started although a required callback was never registered.
    MissingCallback,
    /// A timer was asked for with a duration that no clock value can hold.
    DurationOutOfRange,
}

/// Something that draws itself from state of its own.
pub trait UiWithState {
    fn ui(&mut self, ui: &mut Ui);
}

/// What a user's state beside a timer must offer: a default to start from,
/// and leave to move to another thread with the store.
pub trait UserStateTraits: Default + Send + 'static {

}

impl<T> UserStateTraits for T where T: Default + Send + 'static {

}

/// The type of a stored value. A key keeps the type that it was created with.
#[derive(Clone, Copy, Debug, PartialEq, Eq, Structural)]
pub enum StateKind {
    /// A task tracker with three callbacks.
    PromiseAwait,
    /// A task tracker with the built-in look.
    DefaultPromiseAwait,
    /// A watched computation.
    Future,
    /// A timer beside the user's state.
    Timer,
    /// A number of a widget.
    Int,
    /// A text of a widget.
    Text,
    /// A flag of a widget.
    Flag,
}

/// A stored value with its type erased: one of the types that the store can
/// hold, told apart by its variant. These are the states of the trackers and
/// timers, and plain values for the data of single widgets.
#[verifier::reject_recursive_types(PromiseOut)]
pub enum AnyState<PromiseOut, UserState> where
    PromiseOut: Send + 'static,
    UserState: UserStateTraits,
 {
    PromiseAwait(PromiseAwaitState<PromiseOut>),
    DefaultPromiseAwait(DefaultPromiseAwaitState<PromiseOut>),
    Future(FutureState<PromiseOut>),
    Timer(CompleteTimerState<UserState>),
    Int(i64),
    Text(String),
    Flag(bool),
}

impl<PromiseOut, UserState> AnyState<PromiseOut, UserState> where
    PromiseOut: Send + 'static,
    UserState: UserStateTraits,
 {
    /// The type of the value behind the erased form.
    pub open spec fn kind_spec(self) -> StateKind {
        match self {
            AnyState::PromiseAwait(_) => StateKind::PromiseAwait,
            AnyState::DefaultPromiseAwait(_) => StateKind::DefaultPromiseAwait,
            AnyState::Future(_) => StateKind::Future,
            AnyState::Timer(_) => StateKind::Timer,
            AnyState::Int(_) => StateKind::Int,
            AnyState::Text(_) => StateKind::Text,
            AnyState::Flag(_) => StateKind::Flag,
        }
    }

    /// The type of the value behind the erased form.
    pub fn kind(&self) -> (kind: StateKind)
        ensures
            kind == self.kind_spec(),
    {
        match self {
            AnyState::PromiseAwait(_) => StateKind::PromiseAwait,
            AnyState::DefaultPromiseAwait(_) => StateKind::DefaultPromiseAwait,
            AnyState::Future(_) => StateKind::Future,
            AnyState::Timer(_) => StateKind::Timer,
            AnyState::Int(_) => StateKind::Int,
            AnyState::Text(_) => StateKind::Text,
            AnyState::Flag(_) => StateKind::Flag,
        }
    }
}

/// A type that the store can hold: it can be erased, and recovered from the
/// erased form by a checked cast.
pub trait InternalStateTraits<PromiseOut, UserState>: Sized where
    PromiseOut: Send + 'static,
    UserState: UserStateTraits,
 {
    /// The type, as the store records it.
    spec fn kind() -> StateKind;

    /// The value with its type erased.
    spec fn erased(self) -> AnyState<PromiseOut, UserState>;

    /// The value of this type behind an erased form; `None` where the erased
    /// form holds another type.
    spec fn recovered(slot: AnyState<PromiseOut, UserState>) -> Option<Self>;

    /// The cast is checked and loses nothing: an erased form gives a value of
    /// this type exactly if it records this type, and erasing and recovering
    /// undo each other.
    proof fn lemma_cast(value: Self, slot: AnyState<PromiseOut, UserState>)
        ensures
            value.erased().kind_spec() == Self::kind(),
            Self::recovered(value.erased()) == Some(value),
            Self::recovered(slot) is Some <==> slot.kind_spec() == Self::kind(),
            Self::recovered(slot) matches Some(found) ==> found.erased() == slot,
    ;

    /// Erases the type of the value.
    fn to(self) -> (slot: AnyState<PromiseOut, UserState>)
        ensures
            slot == self.erased(),
    ;

    /// Recovers a value of this type from the erased form, or nothing where
    /// the erased form holds another type. What is written through the
    /// recovered reference is written into the erased form.
    fn downcast_mut(slot: &mut AnyState<PromiseOut, UserState>) -> (state: Option<&mut Self>)
        ensures
            match state {
                Some(state) => {
                    &&& Self::recovered(*old(slot)) == Some(*state)
                    &&& *final(slot) == (*final(state)).erased()
                },
                None => {
                    &&& Self::recovered(*old(slot)) is None
                    &&& *final(slot) == *old(slot)
                },
            },
    ;
}

impl<PromiseOut, UserState> InternalStateTraits<PromiseOut, UserState> for PromiseAwaitState<
    PromiseOut,
> where PromiseOut: Send + 'static, UserState: UserStateTraits {
    open spec fn kind() -> StateKind {
        StateKind::PromiseAwait
    }

    open spec fn erased(self) -> AnyState<PromiseOut, UserState> {
        AnyState::PromiseAwait(self)
    }

    open spec fn recovered(slot: AnyState<PromiseOut, UserState>) -> Option<Self> {
        match slot {
            AnyState::PromiseAwait(state) => Some(state),
            _ => None,
        }
    }

    proof fn lemma_cast(value: Self, slot: AnyState<PromiseOut, UserState>) {
    }

    fn to(self) -> (slot: AnyState<PromiseOut, UserState>) {
        AnyState::PromiseAwait(self)
    }

    fn downcast_mut(slot: &mut AnyState<PromiseOut, UserState>) -> (state: Option<&mut Self>) {
        match slot {
            AnyState::PromiseAwait(state) => Some(state),
            _ => None,
        }
    }
}

impl<PromiseOut, UserState> InternalStateTraits<
    PromiseOut,
    UserState,
> for DefaultPromiseAwaitState<PromiseOut> where
    PromiseOut: Send + 'static,
    UserState: UserStateTraits,
 {
    open spec fn kind() -> StateKind {
        StateKind::DefaultPromiseAwait
    }

    open spec fn erased(self) -> AnyState<PromiseOut, UserState> {
        AnyState::DefaultPromiseAwait(self)
    }

    open spec fn recovered(slot: AnyState<PromiseOut, UserState>) -> Option<Self> {
        match slot {
            AnyState::DefaultPromiseAwait(state) => Some(state),
            _ => None,
        }
    }

    proof fn lemma_cast(value: Self, slot: AnyState<PromiseOut, UserState>) {
    }

    fn to(self) -> (slot: AnyState<PromiseOut, UserState>) {
        AnyState::DefaultPromiseAwait(self)
    }

    fn downcast_mut(slot: &mut AnyState<PromiseOut, UserState>) -> (state: Option<&mut Self>) {
        match slot {
            AnyState::DefaultPromiseAwait(state) => Some(state),
            _ => None,
        }
    }
}

impl<PromiseOut, UserState> InternalStateTraits<PromiseOut, UserState> for FutureState<
    PromiseOut,
> where PromiseOut: Send + 'static, UserState: UserStateTraits {
    open spec fn kind() -> StateKind {
        StateKind::Future
    }

    open spec fn erased(self) -> AnyState<PromiseOut, UserState> {
        AnyState::Future(self)
    }

    open spec fn recovered(slot: AnyState<PromiseOut, UserState>) -> Option<Self> {
        match slot {
            AnyState::Future(state) => Some(state),
            _ => None,
        }
    }

    proof fn lemma_cast(value: Self, slot: AnyState<PromiseOut, UserState>) {
    }

    fn to(self) -> (slot: AnyState<PromiseOut, UserState>) {
        AnyState::Future(self)
    }

    fn downcast_mut(slot: &mut AnyState<PromiseOut, UserState>) -> (state: Option<&mut Self>) {
        match slot {
            AnyState::Future(state) => Some(state),
            _ => None,
        }
    }
}

impl<PromiseOut, UserState> InternalStateTraits<PromiseOut, UserState> for CompleteTimerState<
    UserState,
> where PromiseOut: Send + 'static, UserState: UserStateTraits {
    open spec fn kind() -> StateKind {
        StateKind::Timer
    }

    open spec fn erased(self) -> AnyState<PromiseOut, UserState> {
        AnyState::Timer(self)
    }

    open spec fn recovered(slot: AnyState<PromiseOut, UserState>) -> Option<Self> {
        match slot {
            AnyState::Timer(state) => Some(state),
            _ => None,
        }
    }

    proof fn lemma_cast(value: Self, slot: AnyState<PromiseOut, UserState>) {
    }

    fn to(self) -> (slot: AnyState<PromiseOut, UserState>) {
        AnyState::Timer(self)
    }

    fn downcast_mut(slot: &mut AnyState<PromiseOut, UserState>) -> (state: Option<&mut Self>) {
        match slot {
            AnyState::Timer(state) => Some(state),
            _ => None,
        }
    }
}

impl<PromiseOut, UserState> InternalStateTraits<PromiseOut, UserState> for i64 where
    PromiseOut: Send + 'static,
    UserState: UserStateTraits,
 {
    open spec fn kind() -> StateKind {
        StateKind::Int
    }

    open spec fn erased(self) -> AnyState<PromiseOut, UserState> {
        AnyState::Int(self)
    }

    open spec fn recovered(slot: AnyState<PromiseOut, UserState>) -> Option<Self> {
        match slot {
            AnyState::Int(state) => Some(state),
            _ => None,
        }
    }

    proof fn lemma_cast(value: Self, slot: AnyState<PromiseOut, UserState>) {
    }

    fn to(self) -> (slot: AnyState<PromiseOut, UserState>) {
        AnyState::Int(self)
    }

    fn downcast_mut(slot: &mut AnyState<PromiseOut, UserState>) -> (state: Option<&mut Self>) {
        match slot {
            AnyState::Int(state) => Some(state),
            _ => None,
        }
    }
}

impl<PromiseOut, UserState> InternalStateTraits<PromiseOut, UserState> for String where
    PromiseOut: Send + 'static,
    UserState: UserStateTraits,
 {
    open spec fn kind() -> StateKind {
        StateKind::Text
    }

    open spec fn erased(self) -> AnyState<PromiseOut, UserState> {
        AnyState::Text(self)
    }

    open spec fn recovered(slot: AnyState<PromiseOut, UserState>) -> Option<Self> {
        match slot {
            AnyState::Text(state) => Some(state),
            _ => None,
        }
    }

    proof fn lemma_cast(value: Self, slot: AnyState<PromiseOut, UserState>) {
    }

    fn to(self) -> (slot: AnyState<PromiseOut, UserState>) {
        AnyState::Text(self)
    }

    fn downcast_mut(slot: &mut AnyState<PromiseOut, UserState>) -> (state: Option<&mut Self>) {
        match slot {
            AnyState::Text(state) => Some(state),
            _ => None,
        }
    }
}

impl<PromiseOut, UserState> InternalStateTraits<PromiseOut, UserState> for bool where
    PromiseOut: Send + 'static,
    UserState: UserStateTraits,
 {
    open spec fn kind() -> StateKind {
        StateKind::Flag
    }

    open spec fn erased(self) -> AnyState<PromiseOut, UserState> {
        AnyState::Flag(self)
    }

    open spec fn recovered(slot: AnyState<PromiseOut, UserState>) -> Option<Self> {
        match slot {
            AnyState::Flag(state) => Some(state),
            _ => None,
        }
    }

    proof fn lemma_cast(value: Self, slot: AnyState<PromiseOut, UserState>) {
    }

    fn to(self) -> (slot: AnyState<PromiseOut, UserState>) {
        AnyState::Flag(self)
    }

    fn downcast_mut(slot: &mut AnyState<PromiseOut, UserState>) -> (state: Option<&mut Self>) {
        match slot {
            AnyState::Flag(state) => Some(state),
            _ => None,
        }
    }
}

/// The store: values of several types, each under a key of its own. A value
/// is made when its key is first asked for and stays until the store is
/// dropped; nothing is ever evicted.
///
/// The store is seen as the map from the keys in use to their values, each
/// with its type erased.
#[verifier::reject_recursive_types(PromiseOut)]
pub struct UiStates<PromiseOut, UserState> where
    PromiseOut: Send + 'static,
    UserState: UserStateTraits,
 {
    states: Keyed<AnyState<PromiseOut, UserState>>,
}

impl<PromiseOut, UserState> View for UiStates<PromiseOut, UserState> where
    PromiseOut: Send + 'static,
    UserState: UserStateTraits,
 {
    type V = Map<Seq<char>, AnyState<PromiseOut, UserState>>;

    closed spec fn view(&self) -> Self::V {
        self.states@
    }
}

impl<PromiseOut, UserState> Default for UiStates<PromiseOut, UserState> where
    PromiseOut: Send + 'static,
    UserState: UserStateTraits,
 {
    /// A store without keys.
    fn default() -> (states: Self)
        ensures
            states@ == Map::<Seq<char>, AnyState<PromiseOut, UserState>>::empty(),
    {
        UiStates { states: Keyed::new() }
    }
}

impl<PromiseOut, UserState> UiStates<PromiseOut, UserState> where
    PromiseOut: Send + 'static,
    UserState: UserStateTraits,
 {
    /// The type of the value under `name`; `None` for a key that is not in
    /// use.
    pub fn kind_of(&self, name: &String) -> (kind: Option<StateKind>)
        ensures
            match kind {
                Some(kind) => self@.contains_key(name@) && kind == self@[name@].kind_spec(),
                None => !self@.contains_key(name@),
            },
    {
        match self.states.get(name) {
            Some(value) => Some(value.kind()),
            None => None,
        }
    }

    /// What asking for `name` with the type `StateType` finds in `states`:
    /// `init_state` under a new key, the value that is there under a key of
    /// this type, and a violation under a key of another type.
    pub open spec fn found<StateType>(
        states: Map<Seq<char>, AnyState<PromiseOut, UserState>>,
        name: Seq<char>,
        init_state: StateType,
    ) -> Result<StateType, ContractViolation> where
        StateType: InternalStateTraits<PromiseOut, UserState>,
     {
        if !states.contains_key(name) {
            Ok(init_state)
        } else {
            match StateType::recovered(states[name]) {
                Some(state) => Ok(state),
                None => Err(ContractViolation::TypeMismatch),
            }
        }
    }

    /// The value under `name`, made from `init_state` if the key is new.
    ///
    /// A key that is in use must be asked for with the type that it was
    /// created with. It then gives the value that is there, and `init_state`
    /// is dropped. Asked for with another type, it gives
    /// [`ContractViolation::TypeMismatch`] and the store stays as it is.
    /// What is written through the reference is written into the store; the
    /// type under the key stays what it was.
    pub fn get_mut<StateType>(&mut self, name: String, init_state: StateType) -> (state: Result<
        &mut StateType,
        ContractViolation,
    >) where StateType: InternalStateTraits<PromiseOut, UserState>
        ensures
            match state {
                Ok(state) => {
                    &&& Self::found(old(self)@, name@, init_state) == Ok::<
                        StateType,
                        ContractViolation,
                    >(*state)
                    &&& final(self)@ == old(self)@.insert(name@, (*final(state)).erased())
                },
                Err(violation) => {
                    &&& Self::found(old(self)@, name@, init_state) == Err::<
                        StateType,
                        ContractViolation,
                    >(violation)
                    &&& final(self)@ == old(self)@
                },
            },
    {
        let slot = self.states.entry(name, init_state.to());
        proof {
            StateType::lemma_cast(init_state, *slot);
        }
        match StateType::downcast_mut(slot) {
            Some(state) => Ok(state),
            None => {
                Err(ContractViolation::TypeMismatch)
            },
        }
    }

    /// The first request for a key gives the value that it was made from.
    pub proof fn lemma_first_request_gives_default<StateType>(
        states: Map<Seq<char>, AnyState<PromiseOut, UserState>>,
        name: Seq<char>,
        init_state: StateType,
    ) where StateType: InternalStateTraits<PromiseOut, UserState>
        requires
            !states.contains_key(name),
        ensures
            Self::found(states, name, init_state) == Ok::<StateType, ContractViolation>(init_state),
    {
    }

    /// What was written under a key is what the next request for the key
    /// with the same type finds, whatever it brings as a default and
    /// whatever was written under another key in between.
    pub proof fn lemma_mutations_persist<StateType>(
        states: Map<Seq<char>, AnyState<PromiseOut, UserState>>,
        name: Seq<char>,
        written: StateType,
        other: Seq<char>,
        other_written: AnyState<PromiseOut, UserState>,
        init_state: StateType,
    ) where StateType: InternalStateTraits<PromiseOut, UserState>
        requires
            other != name,
        ensures
            Self::found(states.insert(name, written.erased()), name, init_state) == Ok::<
                StateType,
                ContractViolation,
            >(written),
            Self::found(
                states.insert(name, written.erased()).insert(other, other_written),
                name,
                init_state,
            ) == Ok::<StateType, ContractViolation>(written),
    {
        StateType::lemma_cast(written, written.erased());
    }

    /// Whatever is written through a request, the key keeps its type.
    pub proof fn lemma_request_keeps_type<StateType>(
        states: Map<Seq<char>, AnyState<PromiseOut, UserState>>,
        name: Seq<char>,
        init_state: StateType,
        written: StateType,
    ) where StateType: InternalStateTraits<PromiseOut, UserState>
        requires
            states.contains_key(name),
            Self::found(states, name, init_state) is Ok,
        ensures
            states.insert(name, written.erased())[name].kind_spec() == states[name].kind_spec(),
    {
        StateType::lemma_cast(written, states[name]);
    }

    /// A key keeps the type that it was created with: a request with another
    /// type is a violation, never a value.
    pub proof fn lemma_type_is_fixed<Stored, Requested>(
        states: Map<Seq<char>, AnyState<PromiseOut, UserState>>,
        name: Seq<char>,
        stored: Stored,
        init_state: Requested,
    ) where
        Stored: InternalStateTraits<PromiseOut, UserState>,
        Requested: InternalStateTraits<PromiseOut, UserState>,

        requires
            Stored::kind() != Requested::kind(),
        ensures
            Self::found(states.insert(name, stored.erased()), name, init_state) == Err::<
                Requested,
                ContractViolation,
            >(ContractViolation::TypeMismatch),
    {
        Stored::lemma_cast(stored, stored.erased());
        Requested::lemma_cast(init_state, stored.erased());
    }
}

} // verus!
