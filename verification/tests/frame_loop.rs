use std::sync::mpsc;

use ruscii::app::{count_frames, phase_step, Config, Phase, State};
use ruscii::gui::FPSCounter;
use ruscii::keyboard::Keyboard;

#[test]
fn a_stop_on_the_third_frame_runs_exactly_three_frames() {
    assert_eq!(count_frames(&vec![false, false, true]), 3);
}

#[test]
fn the_loop_exits_on_the_first_request_and_not_before() {
    assert_eq!(count_frames(&vec![true]), 1);
    assert_eq!(count_frames(&vec![false, true, true, false]), 2);
    assert_eq!(count_frames(&vec![false, false, false]), 3);
    assert_eq!(count_frames(&Vec::new()), 0);
}

#[test]
fn the_lifecycle_advances_start_run_stop_close() {
    assert_eq!(phase_step(Phase::Starting, false), Phase::Running);
    assert_eq!(phase_step(Phase::Starting, true), Phase::Running);
    assert_eq!(phase_step(Phase::Running, false), Phase::Running);
    assert_eq!(phase_step(Phase::Running, true), Phase::Stopping);
    assert_eq!(phase_step(Phase::Stopping, false), Phase::Closed);
    assert_eq!(phase_step(Phase::Closed, true), Phase::Closed);
}

#[test]
fn the_default_configuration_caps_at_thirty_frames() {
    assert_eq!(Config::new().fps, 30);
    assert_eq!(Config::default().fps, 30);
    assert_eq!(Config::new().fps(60).fps, 60);
}

#[test]
fn the_frame_budget_is_the_second_divided_by_the_rate() {
    assert_eq!(Config::new().fps(10).frame_budget_nanos(), 100_000_000);
    assert_eq!(Config::new().frame_budget_nanos(), 33_333_333);
    assert_eq!(Config::new().fps(u32::MAX).frame_budget_nanos(), 0);
}

fn fresh_state() -> State {
    let (_sender, receiver) = mpsc::channel();
    State::new(Keyboard::new(receiver))
}

#[test]
fn the_stop_flag_toggles_through_run_and_stop() {
    let state = fresh_state();
    assert!(!state.is_running());
    state.run();
    assert!(state.is_running());
    state.stop();
    assert!(!state.is_running());
}

#[test]
fn frame_tick_records_time_counts_the_frame_and_returns_the_residue() {
    let mut state = fresh_state();
    assert_eq!(state.step(), 0);
    assert_eq!(state.dt(), 0);

    let sleep = state.frame_tick(40_000_000, 100_000_000);
    assert_eq!(sleep, 60_000_000);
    assert_eq!(state.dt(), 40_000_000);
    assert_eq!(state.step(), 1);

    // An overrun frame sleeps nothing and is still counted.
    let sleep = state.frame_tick(150_000_000, 100_000_000);
    assert_eq!(sleep, 0);
    assert_eq!(state.dt(), 150_000_000);
    assert_eq!(state.step(), 2);
}

#[test]
fn the_state_drains_its_keyboard() {
    let (sender, receiver) = mpsc::channel();
    let mut state = State::new(Keyboard::new(receiver));
    sender.send(ruscii::keyboard::KeyEvent::Pressed(ruscii::keyboard::Key::W)).unwrap();
    state.keyboard_mut().consume_key_events();
    assert_eq!(state.keyboard().get_keys_down(), vec![ruscii::keyboard::Key::W]);
}

#[test]
fn the_fps_counter_publishes_the_frames_of_the_last_full_second() {
    let mut counter = FPSCounter::new();
    assert_eq!(counter.count(), 0);
    counter.update_at(10);
    counter.update_at(20);
    assert_eq!(counter.count(), 0);
    // The update crossing the second publishes the count, itself included.
    counter.update_at(1_000_011);
    assert_eq!(counter.count(), 3);
    // The next second starts at that instant.
    counter.update_at(1_000_020);
    assert_eq!(counter.count(), 3);
    counter.update_at(2_000_012);
    assert_eq!(counter.count(), 2);
}

#[test]
fn a_clock_that_goes_backwards_does_not_roll_the_counter_over() {
    let mut counter = FPSCounter::new();
    counter.update_at(2_000_000);
    assert_eq!(counter.count(), 1);
    counter.update_at(1_000_000);
    counter.update_at(500_000);
    // Both updates counted frames without publishing a new rate.
    assert_eq!(counter.count(), 1);
    counter.update_at(4_000_000);
    assert_eq!(counter.count(), 3);
}
