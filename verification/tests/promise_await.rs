use egui::Ui;
use std::cell::RefCell;
use lazy_async_promise::{BoxedSendError, ImmediateValuePromise};
use ui_states::promise_await::{
    CreatePromiseAwait, DoneResponse, PromiseAwaitBuilder, PromiseAwaitState,
};
use ui_states::task::{TaskPhase, TaskSlot};
use ui_states::{ContractViolation, UiStates};

fn runtime() -> tokio::runtime::Runtime {
    tokio::runtime::Builder::new_current_thread().build().unwrap()
}

fn let_workers_run(rt: &tokio::runtime::Runtime) {
    rt.block_on(async { tokio::task::yield_now().await });
}

fn with_ui(frame: impl FnOnce(&mut Ui)) {
    let mut frame = Some(frame);
    egui::__run_test_ui(|ui| {
        if let Some(frame) = frame.take() {
            frame(ui);
        }
    });
}

/// Which callback a frame dispatched, and with what.
#[derive(Debug, PartialEq)]
enum Seen {
    Init,
    Waiting,
    Done(Result<i32, ()>),
}

/// One frame of the tracker `state`: the init callback submits `submit`, the
/// done callback answers `answer`.
fn frame(
    state: &mut PromiseAwaitState<i32>,
    submit: Option<ImmediateValuePromise<i32>>,
    answer: DoneResponse<&'static str>,
) -> (Vec<Seen>, Option<&'static str>) {
    let seen = RefCell::new(Vec::new());
    let mut result = None;
    with_ui(|ui| {
        result = PromiseAwaitBuilder::new(state)
            .init_ui(|_ui: &mut Ui| {
                seen.borrow_mut().push(Seen::Init);
                submit
            })
            .waiting_ui(|_ui: &mut Ui| seen.borrow_mut().push(Seen::Waiting))
            .done_ui(|_ui: &mut Ui, result: Result<&i32, &BoxedSendError>| {
                seen.borrow_mut().push(Seen::Done(result.map(|v| *v).map_err(|_| ())));
                answer
            })
            .show(ui);
    });
    (seen.into_inner(), result)
}

#[test]
fn tracker_starts_empty() {
    let state: PromiseAwaitState<i32> = PromiseAwaitState::default();
    assert_eq!(state.slot.phase(), TaskPhase::Empty);
}

#[test]
fn empty_tracker_dispatches_init_only() {
    let mut state = PromiseAwaitState::default();
    let (seen, result) = frame(&mut state, None, DoneResponse::Empty);
    assert_eq!(seen, vec![Seen::Init]);
    assert_eq!(result, None);
    assert_eq!(state.slot.phase(), TaskPhase::Empty);
}

#[test]
fn submitted_computation_is_running_in_the_next_frame() {
    let rt = runtime();
    let _guard = rt.enter();
    let mut state = PromiseAwaitState::default();
    let pending = ImmediateValuePromise::new(std::future::pending());
    let (seen, result) = frame(&mut state, Some(pending), DoneResponse::Empty);
    assert_eq!(seen, vec![Seen::Init]);
    assert_eq!(result, None);
    assert_eq!(state.slot.phase(), TaskPhase::Running);
    let (seen, result) = frame(&mut state, None, DoneResponse::Empty);
    assert_eq!(seen, vec![Seen::Waiting]);
    assert_eq!(result, None);
    assert_eq!(state.slot.phase(), TaskPhase::Running);
}

#[test]
fn resolved_computation_is_shown_in_the_frame_that_polls_it() {
    let rt = runtime();
    let _guard = rt.enter();
    let mut state = PromiseAwaitState::default();
    frame(&mut state, Some(ImmediateValuePromise::new(async { Ok(42) })), DoneResponse::Empty);
    let_workers_run(&rt);
    let (seen, result) = frame(&mut state, None, DoneResponse::Empty);
    assert_eq!(seen, vec![Seen::Done(Ok(42))]);
    assert_eq!(result, None);
    assert_eq!(state.slot.phase(), TaskPhase::Success);
}

#[test]
fn result_stays_across_frames_until_reset() {
    let rt = runtime();
    let _guard = rt.enter();
    let mut state = PromiseAwaitState::default();
    frame(&mut state, Some(ImmediateValuePromise::new(async { Ok(42) })), DoneResponse::Empty);
    let_workers_run(&rt);
    for _ in 0..4 {
        let (seen, _) = frame(&mut state, None, DoneResponse::Empty);
        assert_eq!(seen, vec![Seen::Done(Ok(42))]);
        assert_eq!(state.slot.phase(), TaskPhase::Success);
    }
}

#[test]
fn failed_computation_is_shown_as_error_until_reset() {
    let rt = runtime();
    let _guard = rt.enter();
    let mut state = PromiseAwaitState::default();
    let failing =
        ImmediateValuePromise::new(async { Err(BoxedSendError::from(std::fmt::Error)) });
    frame(&mut state, Some(failing), DoneResponse::Empty);
    let_workers_run(&rt);
    for _ in 0..3 {
        let (seen, result) = frame(&mut state, None, DoneResponse::Empty);
        assert_eq!(seen, vec![Seen::Done(Err(()))]);
        assert_eq!(result, None);
        assert_eq!(state.slot.phase(), TaskPhase::Error);
    }
    let (seen, result) = frame(&mut state, None, DoneResponse::Clear);
    assert_eq!(seen, vec![Seen::Done(Err(()))]);
    assert_eq!(result, None);
    assert_eq!(state.slot.phase(), TaskPhase::Empty);
}

#[test]
fn reset_returns_to_empty_and_init_runs_again() {
    let rt = runtime();
    let _guard = rt.enter();
    let mut state = PromiseAwaitState::default();
    frame(&mut state, Some(ImmediateValuePromise::new(async { Ok(1) })), DoneResponse::Empty);
    let_workers_run(&rt);
    let (seen, result) = frame(&mut state, None, DoneResponse::Clear);
    assert_eq!(seen, vec![Seen::Done(Ok(1))]);
    assert_eq!(result, None);
    assert_eq!(state.slot.phase(), TaskPhase::Empty);
    let (seen, _) = frame(&mut state, None, DoneResponse::Empty);
    assert_eq!(seen, vec![Seen::Init]);
    assert_eq!(state.slot.phase(), TaskPhase::Empty);
    let again = ImmediateValuePromise::new(async { Ok(2) });
    let (seen, _) = frame(&mut state, Some(again), DoneResponse::Empty);
    assert_eq!(seen, vec![Seen::Init]);
    assert_eq!(state.slot.phase(), TaskPhase::Running);
    let_workers_run(&rt);
    let (seen, _) = frame(&mut state, None, DoneResponse::Empty);
    assert_eq!(seen, vec![Seen::Done(Ok(2))]);
}

#[test]
fn value_is_handed_out_for_its_frame_only() {
    let rt = runtime();
    let _guard = rt.enter();
    let mut state = PromiseAwaitState::default();
    frame(&mut state, Some(ImmediateValuePromise::new(async { Ok(1) })), DoneResponse::Empty);
    let_workers_run(&rt);
    let (_, result) = frame(&mut state, None, DoneResponse::Value("picked"));
    assert_eq!(result, Some("picked"));
    assert_eq!(state.slot.phase(), TaskPhase::Success);
    let (seen, result) = frame(&mut state, None, DoneResponse::Empty);
    assert_eq!(seen, vec![Seen::Done(Ok(1))]);
    assert_eq!(result, None);
}

#[test]
fn respond_carries_out_each_answer() {
    let mut state = PromiseAwaitState { slot: TaskSlot::Success(5) };
    assert_eq!(state.respond(DoneResponse::Value(8)), Some(8));
    assert_eq!(state.slot.phase(), TaskPhase::Success);
    assert_eq!(state.respond(DoneResponse::<i32>::Empty), None);
    assert_eq!(state.slot.phase(), TaskPhase::Success);
    assert_eq!(state.respond(DoneResponse::<i32>::Clear), None);
    assert_eq!(state.slot.phase(), TaskPhase::Empty);
}

#[test]
fn set_and_clear_move_between_empty_and_running() {
    let rt = runtime();
    let _guard = rt.enter();
    let mut state: PromiseAwaitState<i32> = PromiseAwaitState::default();
    state.set(ImmediateValuePromise::new(std::future::pending()));
    assert_eq!(state.slot.phase(), TaskPhase::Running);
    state.clear();
    assert_eq!(state.slot.phase(), TaskPhase::Empty);
}

#[test]
fn frame_without_all_callbacks_is_a_violation() {
    let mut state: PromiseAwaitState<i32> = PromiseAwaitState { slot: TaskSlot::Success(5) };
    let mut outcomes = Vec::new();
    with_ui(|ui| {
        let no_init = PromiseAwaitBuilder::new(&mut state)
            .waiting_ui(|_ui: &mut Ui| {})
            .done_ui(|_ui: &mut Ui, _result: Result<&i32, &BoxedSendError>| {
                DoneResponse::<i32>::Clear
            });
        let no_init = if false {
            no_init.init_ui(|_ui: &mut Ui| None)
        } else {
            no_init
        };
        assert!(!no_init.complete());
        outcomes.push(no_init.try_show(ui));
    });
    assert_eq!(outcomes, vec![Err(ContractViolation::MissingCallback)]);
    assert_eq!(state.slot.phase(), TaskPhase::Success);
}

#[test]
fn complete_frame_runs_through_try_show() {
    let mut state: PromiseAwaitState<i32> = PromiseAwaitState { slot: TaskSlot::Success(5) };
    let mut outcomes = Vec::new();
    with_ui(|ui| {
        let builder = PromiseAwaitBuilder::new(&mut state)
            .init_ui(|_ui: &mut Ui| None)
            .waiting_ui(|_ui: &mut Ui| {})
            .done_ui(|_ui: &mut Ui, result: Result<&i32, &BoxedSendError>| {
                DoneResponse::Value(*result.ok().unwrap() + 1)
            });
        assert!(builder.complete());
        outcomes.push(builder.try_show(ui));
    });
    assert_eq!(outcomes, vec![Ok(Some(6))]);
}

#[test]
fn download_scenario_end_to_end() {
    let rt = runtime();
    let _guard = rt.enter();
    let mut states: UiStates<i32, ()> = UiStates::default();
    let mut log = Vec::new();
    for step in 0..4 {
        if step == 2 {
            let_workers_run(&rt);
        }
        let seen = RefCell::new(Vec::new());
        let mut result = None;
        with_ui(|ui| {
            result = states
                .promise_await("download".to_string())
                .unwrap()
                .init_ui(|_ui: &mut Ui| {
                    seen.borrow_mut().push(Seen::Init);
                    Some(ImmediateValuePromise::new(async { Ok(42) }))
                })
                .waiting_ui(|_ui: &mut Ui| seen.borrow_mut().push(Seen::Waiting))
                .done_ui(|_ui: &mut Ui, result: Result<&i32, &BoxedSendError>| {
                    seen.borrow_mut().push(Seen::Done(result.map(|v| *v).map_err(|_| ())));
                    DoneResponse::<u8>::Clear
                })
                .show(ui);
        });
        assert_eq!(result, None);
        log.push(seen.into_inner());
    }
    assert_eq!(
        log,
        vec![
            vec![Seen::Init],
            vec![Seen::Waiting],
            vec![Seen::Done(Ok(42))],
            vec![Seen::Init],
        ]
    );
}

type Init = fn(&mut Ui) -> Option<ImmediateValuePromise<i32>>;
type Waiting = fn(&mut Ui);
type Done = fn(&mut Ui, Result<&i32, &BoxedSendError>) -> DoneResponse<i32>;

#[test]
fn tracker_of_a_key_is_kept_by_the_store() {
    let mut states: UiStates<i32, ()> = UiStates::default();
    {
        let builder = states
            .promise_await::<Init, Waiting, Done, i32>("a".to_string())
            .unwrap();
        assert!(!builder.complete());
        assert_eq!(builder.internal_state.slot.phase(), TaskPhase::Empty);
        builder.internal_state.slot = TaskSlot::Success(3);
    }
    let builder = states
        .promise_await::<Init, Waiting, Done, i32>("a".to_string())
        .unwrap();
    assert!(matches!(builder.internal_state.slot.result(), Some(Ok(&3))));
}
