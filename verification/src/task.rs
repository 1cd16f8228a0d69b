//! The slot that holds one background computation and what became of it.
use lazy_async_promise::{BoxedSendError, ImmediateValuePromise, ImmediateValueState};
use vstd::prelude::*;

verus! {

/// The handle of a spawned computation. Opaque: only [`poll_promise`] looks
/// inside.
#[verifier::external_type_specification]
#[verifier::external_body]
#[verifier::reject_recursive_types(T)]
pub struct ExImmediateValuePromise<T: Send>(ImmediateValuePromise<T>);

/// The error of a failed computation. Opaque: it is handed on, never read.
#[verifier::external_type_specification]
#[verifier::external_body]
pub struct ExBoxedSendError(BoxedSendError);

/// What one non-blocking look at a handle found.
#[verifier::reject_recursive_types(T)]
pub enum PollOutcome<T: Send + 'static> {
    /// The computation has not finished; the handle is given back.
    Pending(ImmediateValuePromise<T>),
    /// The computation has finished with this result.
    Ready(Result<T, BoxedSendError>),
    /// The handle had been emptied before: there is nothing to wait for.
    Vacant,
}

/// Which of its four phases a slot is in, without the payload.
#[derive(Clone, Copy, Debug, PartialEq, Eq, Structural)]
pub enum TaskPhase {
    /// No computation.
    Empty,
    /// A computation under way.
    Running,
    /// A computation that ended with a value.
    Success,
    /// A computation that ended with an error.
    Error,
}

/// One optional background computation: absent, under way, or finished with a
/// value or an error. A finished slot keeps its result until it is cleared.
#[verifier::reject_recursive_types(T)]
pub enum TaskSlot<T: Send + 'static> {
    /// No computation was submitted, or the last one was cleared.
    Empty,
    /// A computation was submitted and has not been seen to finish.
    Running(ImmediateValuePromise<T>),
    /// The computation finished with this value.
    Success(T),
    /// The computation failed with this error.
    Error(BoxedSendError),
}

/// Calls `ImmediateValuePromise::poll_state_mut` once, which looks without
/// blocking whether the spawned computation has delivered, and takes the
/// result out of the handle if it has. Nothing is promised of the outcome: it
/// depends on how far the worker has come.
#[verifier::external_body]
pub(crate) fn poll_promise<T: Send + 'static>(promise: ImmediateValuePromise<T>) -> (outcome:
    PollOutcome<T>) {
    let mut promise = promise;
    let state = promise.poll_state_mut();
    if matches!(state, ImmediateValueState::Updating) {
        return PollOutcome::Pending(promise);
    }
    match std::mem::replace(state, ImmediateValueState::Empty) {
        ImmediateValueState::Success(value) => PollOutcome::Ready(Ok(value)),
        ImmediateValueState::Error(error) => PollOutcome::Ready(Err(error)),
        ImmediateValueState::Updating => PollOutcome::Vacant,
        ImmediateValueState::Empty => PollOutcome::Vacant,
    }
}

impl<T: Send + 'static> TaskSlot<T> {
    /// The phase of the slot.
    pub open spec fn phase_spec(self) -> TaskPhase {
        match self {
            TaskSlot::Empty => TaskPhase::Empty,
            TaskSlot::Running(_) => TaskPhase::Running,
            TaskSlot::Success(_) => TaskPhase::Success,
            TaskSlot::Error(_) => TaskPhase::Error,
        }
    }

    /// A slot is settled once its computation has finished.
    pub open spec fn is_settled(self) -> bool {
        self is Success || self is Error
    }

    /// The slot that a running computation turns into when a poll found
    /// `outcome`.
    pub open spec fn resolved_spec(outcome: PollOutcome<T>) -> TaskSlot<T> {
        match outcome {
            PollOutcome::Pending(promise) => TaskSlot::Running(promise),
            PollOutcome::Ready(Ok(value)) => TaskSlot::Success(value),
            PollOutcome::Ready(Err(error)) => TaskSlot::Error(error),
            PollOutcome::Vacant => TaskSlot::Empty,
        }
    }

    /// The slot after a frame's poll: only a running slot polls, and it
    /// becomes what the poll found.
    pub open spec fn after_poll(self, outcome: PollOutcome<T>) -> TaskSlot<T> {
        if self is Running {
            Self::resolved_spec(outcome)
        } else {
            self
        }
    }

    /// The slot after a submission: the new computation replaces whatever was
    /// there; without one the slot stays as it is.
    pub open spec fn after_submit(self, submitted: Option<ImmediateValuePromise<T>>) -> TaskSlot<
        T,
    > {
        match submitted {
            Some(promise) => TaskSlot::Running(promise),
            None => self,
        }
    }

    /// An empty slot.
    pub fn new() -> (slot: Self)
        ensures
            slot is Empty,
    {
        TaskSlot::Empty
    }

    /// The phase of the slot.
    pub fn phase(&self) -> (phase: TaskPhase)
        ensures
            phase == self.phase_spec(),
    {
        match self {
            TaskSlot::Empty => TaskPhase::Empty,
            TaskSlot::Running(_) => TaskPhase::Running,
            TaskSlot::Success(_) => TaskPhase::Success,
            TaskSlot::Error(_) => TaskPhase::Error,
        }
    }

    /// The result of a settled slot, by reference; `None` while there is none.
    pub fn result(&self) -> (result: Option<Result<&T, &BoxedSendError>>)
        ensures
            match *self {
                TaskSlot::Success(value) => result == Some(Ok::<&T, &BoxedSendError>(&value)),
                TaskSlot::Error(error) => result == Some(Err::<&T, &BoxedSendError>(&error)),
                _ => result is None,
            },
    {
        match self {
            TaskSlot::Success(value) => Some(Ok(value)),
            TaskSlot::Error(error) => Some(Err(error)),
            _ => None,
        }
    }

    /// Puts a computation into the slot; the slot is running afterwards.
    pub fn set(&mut self, promise: ImmediateValuePromise<T>)
        ensures
            *final(self) == TaskSlot::Running(promise),
    {
        *self = TaskSlot::Running(promise);
    }

    /// Empties the slot. A computation that is still under way is let go and
    /// its result never read.
    pub fn clear(&mut self)
        ensures
            *final(self) is Empty,
    {
        *self = TaskSlot::Empty;
    }

    /// Takes in what the callback of an empty slot submitted.
    pub fn submit(&mut self, submitted: Option<ImmediateValuePromise<T>>)
        ensures
            *final(self) == old(self).after_submit(submitted),
    {
        match submitted {
            Some(promise) => {
                *self = TaskSlot::Running(promise);
            },
            None => {},
        }
    }

    /// The slot that a running computation turns into when a poll found
    /// `outcome`.
    pub fn resolved(outcome: PollOutcome<T>) -> (slot: Self)
        ensures
            slot == Self::resolved_spec(outcome),
    {
        match outcome {
            PollOutcome::Pending(promise) => TaskSlot::Running(promise),
            PollOutcome::Ready(Ok(value)) => TaskSlot::Success(value),
            PollOutcome::Ready(Err(error)) => TaskSlot::Error(error),
            PollOutcome::Vacant => TaskSlot::Empty,
        }
    }

    /// Looks once, without blocking, whether a running computation has
    /// finished: the slot becomes [`Self::after_poll`] of what the look
    /// found. A slot that is not running is therefore left untouched, and its
    /// computation is not asked again: a result, once seen, stays.
    pub fn poll(&mut self)
        ensures
            exists|outcome: PollOutcome<T>| *final(self) == old(self).after_poll(outcome),
    {
        let mut current = TaskSlot::Empty;
        std::mem::swap(self, &mut current);
        match current {
            TaskSlot::Running(promise) => {
                let outcome = poll_promise(promise);
                *self = Self::resolved(outcome);
                assert(*self == old(self).after_poll(outcome));
            },
            other => {
                *self = other;
                assert(*self == old(self).after_poll(PollOutcome::Vacant));
            },
        }
    }

    /// A result, once seen, stays: no poll changes a settled slot, and none
    /// makes an empty slot run.
    pub proof fn lemma_poll_leaves_the_rest(self, outcome: PollOutcome<T>)
        requires
            !(self is Running),
        ensures
            self.after_poll(outcome) == self,
    {
    }

    /// A running slot leaves its phase through a poll only: it stays
    /// running while the computation is pending, and takes the result over
    /// when it is ready.
    pub proof fn lemma_poll_settles(
        handle: ImmediateValuePromise<T>,
        pending: ImmediateValuePromise<T>,
        value: T,
        error: BoxedSendError,
    )
        ensures
            TaskSlot::Running(handle).after_poll(PollOutcome::Pending(pending))
                == TaskSlot::Running(pending),
            TaskSlot::Running(handle).after_poll(PollOutcome::Ready(Ok(value)))
                == TaskSlot::Success(value),
            TaskSlot::Running(handle).after_poll(PollOutcome::Ready(Err(error)))
                == TaskSlot::<T>::Error(error),
            TaskSlot::Running(handle).after_poll(PollOutcome::Vacant) == TaskSlot::<T>::Empty,
    {
    }
}

} // verus!
