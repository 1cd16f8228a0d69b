use egui::Ui;
use lazy_async_promise::{BoxedSendError, ImmediateValuePromise};
use std::cell::Cell;
use ui_states::default_promise_await::{
    response_to, status_text, DefaultCreatePromiseAwait, DefaultPromiseAwaitBuilder,
    DefaultPromiseAwaitState, DoneResponse,
};
use ui_states::promise_await::PromiseAwaitState;
use ui_states::task::{TaskPhase, TaskSlot};
use ui_states::{ContractViolation, StateKind, UiStates};

fn runtime() -> tokio::runtime::Runtime {
    tokio::runtime::Builder::new_current_thread().build().unwrap()
}

fn let_workers_run(rt: &tokio::runtime::Runtime) {
    rt.block_on(async { tokio::task::yield_now().await });
}

fn with_ui(frame: impl FnOnce(&mut Ui)) {
    let mut frame = Some(frame);
    egui::__run_test_ui(|ui| {
        if let Some(frame) = frame.take() {
            frame(ui);
        }
    });
}

/// One frame of the tracker `state`; tells whether the init callback ran.
fn frame(
    state: &mut DefaultPromiseAwaitState<i32>,
    submit: Option<ImmediateValuePromise<i32>>,
) -> bool {
    let asked = Cell::new(false);
    with_ui(|ui| {
        DefaultPromiseAwaitBuilder::new(state)
            .init_ui(|_ui: &mut Ui| {
                asked.set(true);
                submit
            })
            .show(ui);
    });
    asked.get()
}

#[test]
fn each_phase_but_running_has_its_word() {
    assert_eq!(status_text(TaskPhase::Empty), Some("empty"));
    assert_eq!(status_text(TaskPhase::Success), Some("success"));
    assert_eq!(status_text(TaskPhase::Error), Some("error"));
    assert_eq!(status_text(TaskPhase::Running), None);
}

#[test]
fn a_click_asks_for_a_reset() {
    assert_eq!(response_to(true), DoneResponse::Clear);
    assert_eq!(response_to(false), DoneResponse::KeepShowing);
}

#[test]
fn built_in_tracker_is_cleared_on_request_only() {
    let mut state = DefaultPromiseAwaitState { slot: TaskSlot::Success(1) };
    state.respond(DoneResponse::KeepShowing);
    assert!(matches!(state.slot.result(), Some(Ok(&1))));
    state.respond(DoneResponse::Clear);
    assert_eq!(state.slot.phase(), TaskPhase::Empty);
}

#[test]
fn look_follows_the_computation() {
    let rt = runtime();
    let _guard = rt.enter();
    let mut state = DefaultPromiseAwaitState::default();
    assert_eq!(state.slot.phase(), TaskPhase::Empty);

    assert!(frame(&mut state, None));
    assert_eq!(state.slot.phase(), TaskPhase::Empty);

    assert!(frame(&mut state, Some(ImmediateValuePromise::new(async { Ok(3) }))));
    assert_eq!(state.slot.phase(), TaskPhase::Running);

    assert!(!frame(&mut state, None));
    assert_eq!(state.slot.phase(), TaskPhase::Running);

    let_workers_run(&rt);
    for _ in 0..3 {
        assert!(!frame(&mut state, None));
        assert!(matches!(state.slot.result(), Some(Ok(&3))));
    }
}

#[test]
fn failure_is_kept_until_the_button_is_clicked() {
    let rt = runtime();
    let _guard = rt.enter();
    let mut state = DefaultPromiseAwaitState::default();
    let failing =
        ImmediateValuePromise::new(async { Err(BoxedSendError::from(std::fmt::Error)) });
    frame(&mut state, Some(failing));
    let_workers_run(&rt);
    for _ in 0..3 {
        assert!(!frame(&mut state, None));
        assert_eq!(state.slot.phase(), TaskPhase::Error);
    }
    state.respond(response_to(true));
    assert!(frame(&mut state, None));
}

#[test]
fn built_in_tracker_is_set_and_cleared() {
    let rt = runtime();
    let _guard = rt.enter();
    let mut state: DefaultPromiseAwaitState<i32> = DefaultPromiseAwaitState::default();
    state.set(ImmediateValuePromise::new(std::future::pending()));
    assert_eq!(state.slot.phase(), TaskPhase::Running);
    state.clear();
    assert_eq!(state.slot.phase(), TaskPhase::Empty);
}

type Init = fn(&mut Ui) -> Option<ImmediateValuePromise<i32>>;

#[test]
fn frame_without_the_init_callback_is_a_violation() {
    let mut state: DefaultPromiseAwaitState<i32> =
        DefaultPromiseAwaitState { slot: TaskSlot::Success(2) };
    let mut outcomes = Vec::new();
    with_ui(|ui| {
        let builder = DefaultPromiseAwaitBuilder::<Init, i32>::new(&mut state);
        assert!(!builder.complete());
        outcomes.push(builder.try_show(ui));
    });
    assert_eq!(outcomes, vec![Err(ContractViolation::MissingCallback)]);
    assert!(matches!(state.slot.result(), Some(Ok(&2))));
    with_ui(|ui| {
        let builder =
            DefaultPromiseAwaitBuilder::new(&mut state).init_ui(|_ui: &mut Ui| None);
        assert!(builder.complete());
        outcomes.push(builder.try_show(ui));
    });
    assert_eq!(outcomes, vec![Err(ContractViolation::MissingCallback), Ok(())]);
}

#[test]
fn store_keeps_the_tracker_of_a_key() {
    let rt = runtime();
    let _guard = rt.enter();
    let mut states: UiStates<i32, ()> = UiStates::default();
    let asked = Cell::new(0);
    for step in 0..4 {
        if step == 2 {
            let_workers_run(&rt);
        }
        with_ui(|ui| {
            states
                .default_promise_await("job".to_string())
                .unwrap()
                .init_ui(|_ui: &mut Ui| {
                    asked.set(asked.get() + 1);
                    Some(ImmediateValuePromise::new(async { Ok(1) }))
                })
                .show(ui);
        });
    }
    assert_eq!(asked.get(), 1);
    assert_eq!(states.kind_of(&"job".to_string()), Some(StateKind::DefaultPromiseAwait));
    let builder = states.default_promise_await::<Init>("job".to_string()).unwrap();
    assert!(matches!(builder.internal_state.slot.result(), Some(Ok(&1))));
}

#[test]
fn store_refuses_the_key_of_another_tracker() {
    let mut states: UiStates<i32, ()> = UiStates::default();
    states.get_mut("k".to_string(), PromiseAwaitState::default()).map(|_| ()).unwrap();
    let refused = states.default_promise_await::<Init>("k".to_string());
    assert!(matches!(refused, Err(ContractViolation::TypeMismatch)));
    assert_eq!(states.kind_of(&"k".to_string()), Some(StateKind::PromiseAwait));
}
