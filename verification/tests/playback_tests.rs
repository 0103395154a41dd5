use simplyscriptor2::engine::{Engine, Mode};
use simplyscriptor2::event::{Action, InputEvent, Key};
use simplyscriptor2::playback::{delay_before, Step, FIXED_DELAY_MICROS};

fn ev(timestamp: u64, action: Action) -> InputEvent {
    InputEvent { timestamp, action }
}

fn engine_with_two_events() -> Engine {
    let mut engine = Engine::new();
    engine.start_recording();
    engine.buffer.push(ev(100, Action::KeyPress(Key::KeyA)));
    engine.buffer.push(ev(300, Action::KeyRelease(Key::KeyA)));
    engine.stop_recording();
    engine
}

#[test]
fn empty_buffer_run_resets_to_idle() {
    let mut engine = Engine::new();
    engine.start_running();
    let session = engine.begin_playback();
    assert!(session.is_none());
    assert_eq!(engine.current_mode(), Mode::Idle);
}

#[test]
fn three_passes_play_every_event() {
    let mut engine = engine_with_two_events();
    engine.set_loop_count(3);
    engine.start_running();
    let mut session = engine.begin_playback().unwrap();

    let mut injected = 0;
    let mut pass_ends = 0;
    while !session.is_finished() {
        match session.next_step(true) {
            Step::Inject(_) => injected += 1,
            Step::PassEnd => pass_ends += 1,
            Step::Halted => unreachable!(),
        }
    }
    assert_eq!(injected, 6);
    assert_eq!(pass_ends, 3);
}

#[test]
fn passes_replay_events_in_order() {
    let mut engine = engine_with_two_events();
    engine.start_running();
    let mut session = engine.begin_playback().unwrap();
    match session.next_step(true) {
        Step::Inject(e) => assert_eq!(e, ev(100, Action::KeyPress(Key::KeyA))),
        _ => unreachable!(),
    }
    match session.next_step(true) {
        Step::Inject(e) => assert_eq!(e, ev(300, Action::KeyRelease(Key::KeyA))),
        _ => unreachable!(),
    }
    assert_eq!(session.next_step(true), Step::PassEnd);
    assert!(session.is_finished());
}

#[test]
fn infinite_loop_stops_only_on_halt() {
    let mut engine = engine_with_two_events();
    engine.set_infinite_loop(true);
    engine.start_running();
    let mut session = engine.begin_playback().unwrap();

    for _ in 0..100 {
        session.next_step(true);
        assert!(!session.is_finished());
    }
    assert_eq!(session.next_step(false), Step::Halted);
    assert!(session.is_finished());
}

#[test]
fn halt_stops_at_event_boundary() {
    let mut engine = engine_with_two_events();
    engine.set_loop_count(5);
    engine.start_running();
    let mut session = engine.begin_playback().unwrap();

    match session.next_step(true) {
        Step::Inject(_) => {},
        _ => unreachable!(),
    }
    engine.stop_running();
    let step = session.next_step(engine.current_mode() == Mode::Running);
    assert_eq!(step, Step::Halted);
    assert!(session.is_finished());
}

#[test]
fn natural_delay_targets_anchor() {
    assert_eq!(delay_before(true, 1000, 1500, 200), 300);
    assert_eq!(delay_before(true, 1000, 1500, 500), 0);
    assert_eq!(delay_before(true, 1000, 1500, 900), 0);
    assert_eq!(delay_before(true, 1000, 1000, 0), 0);
}

#[test]
fn fast_mode_delay_is_flat() {
    assert_eq!(delay_before(false, 0, 1_000_000_000, 0), FIXED_DELAY_MICROS);
    assert_eq!(delay_before(false, 5, 7, 1), FIXED_DELAY_MICROS);
    assert_eq!(FIXED_DELAY_MICROS, 50);
}

#[test]
fn snapshot_is_independent_of_live_buffer() {
    let mut engine = engine_with_two_events();
    engine.start_running();
    let session = engine.begin_playback().unwrap();
    assert_eq!(session.events.len(), 2);

    engine.stop_running();
    engine.start_recording();
    assert!(engine.buffer.is_empty());
    assert_eq!(session.events.len(), 2);
    assert_eq!(session.anchor_timestamp(), 100);
}
