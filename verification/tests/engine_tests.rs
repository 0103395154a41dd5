use simplyscriptor2::engine::{Engine, Mode};
use simplyscriptor2::event::{Action, InputEvent, Key};

#[test]
fn new_engine_defaults() {
    let engine = Engine::new();
    assert_eq!(engine.current_mode(), Mode::Idle);
    assert!(engine.buffer.is_empty());
    assert!(!engine.infinite_loop);
    assert_eq!(engine.loop_count, 1);
    assert!(engine.natural_delay);
    assert!(!engine.suspend_capture);
}

#[test]
fn start_recording_clears_buffer() {
    let mut engine = Engine::new();
    engine.buffer.push(InputEvent { timestamp: 1, action: Action::KeyPress(Key::KeyA) });
    assert!(engine.start_recording());
    assert_eq!(engine.current_mode(), Mode::Recording);
    assert!(engine.buffer.is_empty());
}

#[test]
fn start_recording_while_recording_is_noop() {
    let mut engine = Engine::new();
    assert!(engine.start_recording());
    engine.buffer.push(InputEvent { timestamp: 1, action: Action::KeyPress(Key::KeyA) });
    assert!(!engine.start_recording());
    assert_eq!(engine.current_mode(), Mode::Recording);
    assert_eq!(engine.buffer.len(), 1);
}

#[test]
fn start_running_only_from_idle() {
    let mut engine = Engine::new();
    engine.start_recording();
    assert!(!engine.start_running());
    assert_eq!(engine.current_mode(), Mode::Recording);

    engine.stop_recording();
    assert!(engine.start_running());
    assert_eq!(engine.current_mode(), Mode::Running);

    assert!(!engine.start_running());
    assert_eq!(engine.current_mode(), Mode::Running);
}

#[test]
fn stop_running_halts() {
    let mut engine = Engine::new();
    engine.start_running();
    assert!(engine.stop_running());
    assert_eq!(engine.current_mode(), Mode::Idle);
    assert!(!engine.stop_running());
}

#[test]
fn stop_recording_outside_recording_is_noop() {
    let mut engine = Engine::new();
    assert!(!engine.stop_recording());
    assert_eq!(engine.current_mode(), Mode::Idle);
}

#[test]
fn set_loop_count_rejects_below_one() {
    let mut engine = Engine::new();
    assert!(engine.set_loop_count(3));
    assert_eq!(engine.loop_count, 3);
    assert!(!engine.set_loop_count(0));
    assert_eq!(engine.loop_count, 3);
    assert!(!engine.set_loop_count(-5));
    assert_eq!(engine.loop_count, 3);
}

#[test]
fn configuration_setters_toggle_flags() {
    let mut engine = Engine::new();
    engine.set_infinite_loop(true);
    assert!(engine.infinite_loop);
    engine.set_natural_delay(false);
    assert!(!engine.natural_delay);
    engine.set_suspend_capture(true);
    assert!(engine.suspend_capture);
    engine.set_suspend_capture(false);
    assert!(!engine.suspend_capture);
}
