use simplyscriptor2::dispatch::{dispatch, DispatchOutcome};
use simplyscriptor2::engine::{Engine, Mode};
use simplyscriptor2::event::{Action, InputEvent, Key};

fn ev(timestamp: u64, action: Action) -> InputEvent {
    InputEvent { timestamp, action }
}

fn start_shortcut(timestamp: u64) -> InputEvent {
    ev(timestamp, Action::KeyRelease(Key::Comma))
}

fn stop_shortcut(timestamp: u64) -> InputEvent {
    ev(timestamp, Action::KeyRelease(Key::Dot))
}

fn run_shortcut(timestamp: u64) -> InputEvent {
    ev(timestamp, Action::KeyRelease(Key::Slash))
}

#[test]
fn start_shortcut_arms_recording() {
    let mut engine = Engine::new();
    let outcome = dispatch(&mut engine, start_shortcut(10));
    assert_eq!(outcome, DispatchOutcome::StartedRecording);
    assert_eq!(engine.current_mode(), Mode::Recording);
    assert!(engine.buffer.is_empty());
}

#[test]
fn idempotent_start_keeps_buffer() {
    let mut engine = Engine::new();
    dispatch(&mut engine, start_shortcut(10));
    dispatch(&mut engine, ev(20, Action::KeyPress(Key::KeyA)));
    dispatch(&mut engine, ev(30, Action::KeyRelease(Key::KeyA)));
    assert_eq!(engine.buffer.len(), 2);

    let outcome = dispatch(&mut engine, start_shortcut(40));
    assert_eq!(outcome, DispatchOutcome::Ignored);
    assert_eq!(engine.current_mode(), Mode::Recording);
    assert_eq!(engine.buffer.len(), 2);
    assert_eq!(engine.buffer[0], ev(20, Action::KeyPress(Key::KeyA)));
    assert_eq!(engine.buffer[1], ev(30, Action::KeyRelease(Key::KeyA)));
}

#[test]
fn stop_shortcut_disarms_recording() {
    let mut engine = Engine::new();
    dispatch(&mut engine, start_shortcut(10));
    dispatch(&mut engine, ev(20, Action::KeyPress(Key::KeyB)));
    let outcome = dispatch(&mut engine, stop_shortcut(30));
    assert_eq!(outcome, DispatchOutcome::StoppedRecording);
    assert_eq!(engine.current_mode(), Mode::Idle);
    assert_eq!(engine.buffer.len(), 1);
}

#[test]
fn stop_shortcut_without_recording_is_ignored() {
    let mut engine = Engine::new();
    let outcome = dispatch(&mut engine, stop_shortcut(10));
    assert_eq!(outcome, DispatchOutcome::Ignored);
    assert_eq!(engine.current_mode(), Mode::Idle);
    assert!(engine.buffer.is_empty());
}

#[test]
fn run_shortcut_toggles_running() {
    let mut engine = Engine::new();
    let outcome = dispatch(&mut engine, run_shortcut(10));
    assert_eq!(outcome, DispatchOutcome::StartedRunning);
    assert_eq!(engine.current_mode(), Mode::Running);

    let outcome = dispatch(&mut engine, run_shortcut(20));
    assert_eq!(outcome, DispatchOutcome::StoppedRunning);
    assert_eq!(engine.current_mode(), Mode::Idle);
}

#[test]
fn run_shortcut_rejected_while_recording() {
    let mut engine = Engine::new();
    dispatch(&mut engine, start_shortcut(10));
    let outcome = dispatch(&mut engine, run_shortcut(20));
    assert_eq!(outcome, DispatchOutcome::Ignored);
    assert_eq!(engine.current_mode(), Mode::Recording);
    assert!(engine.buffer.is_empty());
}

#[test]
fn shortcuts_never_recorded() {
    let mut engine = Engine::new();
    dispatch(&mut engine, start_shortcut(10));
    dispatch(&mut engine, ev(20, Action::KeyPress(Key::KeyA)));
    dispatch(&mut engine, start_shortcut(30));
    dispatch(&mut engine, ev(40, Action::MouseMove { x: 7, y: 9 }));
    dispatch(&mut engine, run_shortcut(50));
    dispatch(&mut engine, ev(60, Action::Wheel { delta_x: 0, delta_y: -3 }));
    dispatch(&mut engine, stop_shortcut(70));
    for e in &engine.buffer {
        assert_ne!(e.action, Action::KeyRelease(Key::Comma));
        assert_ne!(e.action, Action::KeyRelease(Key::Dot));
        assert_ne!(e.action, Action::KeyRelease(Key::Slash));
    }
    assert_eq!(engine.buffer.len(), 3);
}

#[test]
fn suspended_capture_drops_everything() {
    let mut engine = Engine::new();
    engine.set_suspend_capture(true);
    let outcome = dispatch(&mut engine, start_shortcut(10));
    assert_eq!(outcome, DispatchOutcome::Suspended);
    assert_eq!(engine.current_mode(), Mode::Idle);
    let outcome = dispatch(&mut engine, ev(20, Action::KeyPress(Key::KeyC)));
    assert_eq!(outcome, DispatchOutcome::Suspended);
    assert!(engine.buffer.is_empty());
}

#[test]
fn non_shortcut_dropped_when_not_recording() {
    let mut engine = Engine::new();
    let outcome = dispatch(&mut engine, ev(10, Action::KeyPress(Key::KeyD)));
    assert_eq!(outcome, DispatchOutcome::Ignored);
    assert!(engine.buffer.is_empty());
}

#[test]
fn recorded_events_keep_capture_order() {
    let mut engine = Engine::new();
    dispatch(&mut engine, start_shortcut(5));
    dispatch(&mut engine, ev(10, Action::KeyPress(Key::KeyA)));
    dispatch(&mut engine, ev(10, Action::KeyRelease(Key::KeyA)));
    dispatch(&mut engine, ev(25, Action::KeyPress(Key::KeyB)));
    let stamps: Vec<u64> = engine.buffer.iter().map(|e| e.timestamp).collect();
    assert_eq!(stamps, vec![10, 10, 25]);
}
