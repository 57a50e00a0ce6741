use bundai::input::{handle_event, run_loop, step};
use bundai::{InputEvent, LoopState};

#[test]
fn quit_key_quits() {
    assert!(handle_event(Some(InputEvent::KeyPress('q'))));
}

#[test]
fn other_keys_do_not_quit() {
    assert!(!handle_event(Some(InputEvent::KeyPress('a'))));
    assert!(!handle_event(Some(InputEvent::KeyPress('Q'))));
    assert!(!handle_event(Some(InputEvent::Other)));
    assert!(!handle_event(None));
}

#[test]
fn step_stops_on_quit() {
    let next = step(LoopState::Running, Some(InputEvent::KeyPress('q')));
    assert_eq!(next, LoopState::Stopped);
}

#[test]
fn step_keeps_running_otherwise() {
    assert_eq!(step(LoopState::Running, None), LoopState::Running);
    assert_eq!(
        step(LoopState::Running, Some(InputEvent::KeyPress('x'))),
        LoopState::Running
    );
    assert_eq!(step(LoopState::Running, Some(InputEvent::Other)), LoopState::Running);
}

#[test]
fn step_stays_stopped() {
    assert_eq!(step(LoopState::Stopped, None), LoopState::Stopped);
    assert_eq!(
        step(LoopState::Stopped, Some(InputEvent::KeyPress('q'))),
        LoopState::Stopped
    );
}

#[test]
fn immediate_quit_draws_once() {
    let events = vec![Some(InputEvent::KeyPress('q'))];
    assert_eq!(run_loop(&events), 1);
}

#[test]
fn quit_stops_processing_the_stream() {
    let events = vec![
        Some(InputEvent::KeyPress('q')),
        Some(InputEvent::KeyPress('q')),
        None,
    ];
    assert_eq!(run_loop(&events), 1);
}

#[test]
fn three_ignored_events_then_quit_draw_four_times() {
    let events = vec![
        None,
        Some(InputEvent::Other),
        Some(InputEvent::KeyPress('x')),
        Some(InputEvent::KeyPress('q')),
    ];
    assert_eq!(run_loop(&events), 4);
}

#[test]
fn many_timeouts_then_quit() {
    let mut events: Vec<Option<InputEvent>> = Vec::new();
    for _ in 0..100 {
        events.push(None);
    }
    events.push(Some(InputEvent::KeyPress('q')));
    assert_eq!(run_loop(&events), 101);
}
