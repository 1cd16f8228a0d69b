use egui::Ui;
use std::cell::RefCell;
use ui_states::clock::MAX_SECONDS;
use ui_states::other::{UiStateType, UiStates};
use ui_states::timer::{TimerProgress, TimerResponse, TimerState};
use ui_states::ContractViolation;

fn with_ui(frame: impl FnOnce(&mut Ui)) {
    let mut frame = Some(frame);
    egui::__run_test_ui(|ui| {
        if let Some(frame) = frame.take() {
            frame(ui);
        }
    });
}

/// Which callback a frame dispatched, and with what.
#[derive(Debug, PartialEq)]
enum Seen {
    Done(String),
    Timing(String, i128, i64),
}

/// One frame at `now` of the timer under `name`; the done callback answers
/// `answer`, and every callback appends a letter to the user's state.
fn frame(
    states: &mut UiStates<String>,
    name: &str,
    now: i64,
    seconds: i64,
    init: &str,
    answer: TimerResponse,
) -> (Result<(), ContractViolation>, Vec<Seen>) {
    let seen = RefCell::new(Vec::new());
    let mut result = Ok(());
    with_ui(|ui| {
        result = states.timer_at(
            name,
            ui,
            now,
            seconds,
            init.to_string(),
            |_ui: &mut Ui, state: &mut String| {
                seen.borrow_mut().push(Seen::Done(state.clone()));
                state.push('d');
                answer
            },
            |_ui: &mut Ui, state: &mut String, progress: TimerProgress| {
                seen.borrow_mut().push(Seen::Timing(
                    state.clone(),
                    progress.elapsed_ms,
                    progress.duration_ms,
                ));
                state.push('t');
            },
        );
    });
    (result, seen.into_inner())
}

#[test]
fn entry_is_an_idle_timer_beside_the_state() {
    let entry = UiStateType::timer(3, 'x').unwrap();
    assert_eq!(entry.timer_state(), TimerState { timer_started: None, timer_duration: 3000 });
    assert_eq!(*entry.user_state(), 'x');
    assert!(matches!(
        UiStateType::timer(MAX_SECONDS + 1, 'x'),
        Err(ContractViolation::DurationOutOfRange)
    ));
}

#[test]
fn entry_runs_frame_by_frame() {
    let mut entry = UiStateType::timer(1, 0u8).unwrap();
    for now in [0, 10, 500, 1010, 1020] {
        with_ui(|ui| {
            entry.ui_at(
                ui,
                now,
                |_ui: &mut Ui, state: &mut u8| {
                    *state += 1;
                    TimerResponse::Reset
                },
                |_ui: &mut Ui, state: &mut u8, _progress: TimerProgress| *state += 10,
            );
        });
    }
    assert_eq!(*entry.user_state(), 1 + 10 + 10 + 10 + 1);
    assert_eq!(entry.timer_state().timer_started, Some(1020));
}

#[test]
fn entry_runs_by_the_wall_clock() {
    let mut entry = UiStateType::timer(0, 0u32).unwrap();
    let mut frames = 0;
    while frames == 0 || (entry.timer_state().timer_started.is_some() && frames < 10_000) {
        with_ui(|ui| {
            entry.ui(
                ui,
                |_ui: &mut Ui, state: &mut u32| {
                    *state += 1;
                    TimerResponse::Reset
                },
                |_ui: &mut Ui, state: &mut u32, _progress: TimerProgress| *state += 100_000,
            );
        });
        frames += 1;
    }
    assert_eq!(*entry.user_state() % 100_000, 1);
    assert!(*entry.user_state() >= 100_001);
    assert_eq!(entry.timer_state().timer_started, None);
}

#[test]
fn unknown_key_has_no_timer() {
    let states: UiStates<String> = UiStates::default();
    assert_eq!(states.timer_state("t"), None);
}

#[test]
fn timer_in_one_call_runs_its_interval() {
    let mut states = UiStates::default();
    let (result, seen) = frame(&mut states, "t", 100, 2, "s", TimerResponse::Stay);
    assert_eq!(result, Ok(()));
    assert_eq!(seen, vec![Seen::Done("s".to_string())]);
    assert_eq!(
        states.timer_state("t"),
        Some(TimerState { timer_started: None, timer_duration: 2000 })
    );

    let (_, seen) = frame(&mut states, "t", 200, 2, "ignored", TimerResponse::Reset);
    assert_eq!(seen, vec![Seen::Done("sd".to_string())]);
    assert_eq!(states.timer_state("t").unwrap().timer_started, Some(200));

    let (_, seen) = frame(&mut states, "t", 200, 2, "ignored", TimerResponse::Stay);
    assert_eq!(seen, vec![Seen::Timing("sdd".to_string(), 0, 2000)]);

    let (_, seen) = frame(&mut states, "t", 2199, 2, "ignored", TimerResponse::Stay);
    assert_eq!(seen, vec![Seen::Timing("sddt".to_string(), 1999, 2000)]);
    assert_eq!(states.timer_state("t").unwrap().timer_started, Some(200));

    let (_, seen) = frame(&mut states, "t", 2200, 2, "ignored", TimerResponse::Stay);
    assert_eq!(seen, vec![Seen::Timing("sddtt".to_string(), 2000, 2000)]);
    assert_eq!(states.timer_state("t").unwrap().timer_started, None);

    let (_, seen) = frame(&mut states, "t", 2300, 2, "ignored", TimerResponse::Stay);
    assert_eq!(seen, vec![Seen::Done("sddttt".to_string())]);
}

#[test]
fn timer_in_use_keeps_its_interval() {
    let mut states = UiStates::default();
    frame(&mut states, "t", 0, 2, "s", TimerResponse::Reset);
    let (result, seen) = frame(&mut states, "t", 10, 500, "s", TimerResponse::Stay);
    assert_eq!(result, Ok(()));
    assert_eq!(seen, vec![Seen::Timing("sd".to_string(), 10, 2000)]);
}

#[test]
fn keys_have_timers_of_their_own() {
    let mut states = UiStates::default();
    frame(&mut states, "a", 0, 1, "a", TimerResponse::Reset);
    frame(&mut states, "b", 5, 7, "b", TimerResponse::Stay);
    assert_eq!(
        states.timer_state("a"),
        Some(TimerState { timer_started: Some(0), timer_duration: 1000 })
    );
    assert_eq!(
        states.timer_state("b"),
        Some(TimerState { timer_started: None, timer_duration: 7000 })
    );
}

#[test]
fn interval_out_of_range_is_a_violation() {
    let mut states = UiStates::default();
    let (result, seen) = frame(&mut states, "t", 0, MAX_SECONDS + 1, "s", TimerResponse::Reset);
    assert_eq!(result, Err(ContractViolation::DurationOutOfRange));
    assert_eq!(seen, vec![]);
    assert_eq!(states.timer_state("t"), None);
    frame(&mut states, "t", 0, 1, "s", TimerResponse::Reset);
    let (result, seen) = frame(&mut states, "t", 1, i64::MIN, "s", TimerResponse::Reset);
    assert_eq!(result, Err(ContractViolation::DurationOutOfRange));
    assert_eq!(seen, vec![]);
    assert_eq!(states.timer_state("t").unwrap().timer_started, Some(0));
}

#[test]
fn timer_in_one_call_runs_by_the_wall_clock() {
    let mut states: UiStates<u32> = UiStates::default();
    let mut frames = 0;
    while frames == 0
        || (states.timer_state("t").unwrap().timer_started.is_some() && frames < 10_000)
    {
        with_ui(|ui| {
            let result = states.timer(
                "t",
                ui,
                0,
                0,
                |_ui: &mut Ui, state: &mut u32| {
                    *state += 1;
                    TimerResponse::Reset
                },
                |_ui: &mut Ui, state: &mut u32, _progress: TimerProgress| *state += 100_000,
            );
            assert_eq!(result, Ok(()));
        });
        frames += 1;
    }
    assert_eq!(
        states.timer_state("t"),
        Some(TimerState { timer_started: None, timer_duration: 0 })
    );
}
