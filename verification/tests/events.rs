use hwtop::error::{Cause, Error};
use hwtop::events::{quits, step, Action, Dashboard, Event, KEY_ESCAPE, KEY_NAMES, KEY_QUIT};
use hwtop::message::{Cpu, SensorsMessage};

fn snapshot(average: u128) -> SensorsMessage {
    SensorsMessage {
        num_cpus: 1,
        cpus: vec![Cpu { usage: average, frequency: 1_000_000 }],
        cpu_average_usage: average,
        sensors: vec![],
        networks: vec![],
    }
}

#[test]
fn keys_are_the_documented_bytes() {
    assert_eq!(KEY_NAMES, b's');
    assert_eq!(KEY_QUIT, b'q');
    assert_eq!(KEY_ESCAPE, 0x1B);
    assert!(quits(b'q'));
    assert!(quits(0x1B));
    assert!(!quits(b's'));
    assert!(!quits(b'Q'));
}

#[test]
fn keystrokes_before_the_first_snapshot_are_dropped() {
    for byte in [b's', b'q', 0x1B, b'x'] {
        assert_eq!(
            step(Dashboard::Waiting, Ok(Event::Stdin(byte))),
            (Dashboard::Waiting, Action::Wait)
        );
    }
}

#[test]
fn the_first_snapshot_is_held_with_names_off() {
    assert_eq!(
        step(Dashboard::Waiting, Ok(Event::Sensors(Some(snapshot(1))))),
        (Dashboard::Showing(snapshot(1), false), Action::Wait)
    );
}

#[test]
fn a_new_snapshot_replaces_the_old_and_keeps_the_toggle() {
    assert_eq!(
        step(Dashboard::Showing(snapshot(1), true), Ok(Event::Sensors(Some(snapshot(2))))),
        (Dashboard::Showing(snapshot(2), true), Action::Draw)
    );
    assert_eq!(
        step(Dashboard::Showing(snapshot(1), false), Ok(Event::Sensors(Some(snapshot(2))))),
        (Dashboard::Showing(snapshot(2), false), Action::Draw)
    );
}

#[test]
fn the_names_key_flips_the_toggle() {
    let (state, action) = step(Dashboard::Showing(snapshot(1), false), Ok(Event::Stdin(b's')));
    assert_eq!((state.clone(), action), (Dashboard::Showing(snapshot(1), true), Action::Draw));
    assert_eq!(
        step(state, Ok(Event::Stdin(b's'))),
        (Dashboard::Showing(snapshot(1), false), Action::Draw)
    );
}

#[test]
fn quit_keys_end_the_loop_once_a_snapshot_is_shown() {
    for byte in [b'q', 0x1B] {
        for names in [false, true] {
            assert_eq!(
                step(Dashboard::Showing(snapshot(1), names), Ok(Event::Stdin(byte))),
                (Dashboard::Showing(snapshot(1), names), Action::Quit)
            );
        }
    }
}

#[test]
fn other_keys_change_nothing_and_redraw() {
    assert_eq!(
        step(Dashboard::Showing(snapshot(1), true), Ok(Event::Stdin(b'x'))),
        (Dashboard::Showing(snapshot(1), true), Action::Draw)
    );
}

#[test]
fn a_signal_without_a_body_is_fatal() {
    assert_eq!(
        step(Dashboard::Waiting, Ok(Event::Sensors(None))),
        (Dashboard::Waiting, Action::Fail(Error::Other(Cause::NoBody)))
    );
    assert_eq!(
        step(Dashboard::Showing(snapshot(1), true), Ok(Event::Sensors(None))),
        (Dashboard::Showing(snapshot(1), true), Action::Fail(Error::Other(Cause::NoBody)))
    );
}

#[test]
fn a_producer_failure_ends_the_loop() {
    let failure = Error::Other(Cause::Io("connection reset".to_owned()));
    assert_eq!(
        step(Dashboard::Waiting, Err(failure.clone())),
        (Dashboard::Waiting, Action::Fail(failure.clone()))
    );
    assert_eq!(
        step(Dashboard::Showing(snapshot(1), false), Err(failure.clone())),
        (Dashboard::Showing(snapshot(1), false), Action::Fail(failure))
    );
}

#[test]
fn a_session_from_first_snapshot_to_quit() {
    let inputs = vec![
        Ok(Event::Stdin(b'q')),
        Ok(Event::Sensors(Some(snapshot(1)))),
        Ok(Event::Stdin(b's')),
        Ok(Event::Sensors(Some(snapshot(2)))),
        Ok(Event::Stdin(b'q')),
        Ok(Event::Sensors(Some(snapshot(3)))),
    ];
    let mut state = Dashboard::Waiting;
    let mut actions = Vec::new();
    for input in inputs {
        let (next, action) = step(state, input);
        state = next;
        let stop = matches!(action, Action::Quit | Action::Fail(_));
        actions.push(action);
        if stop {
            break;
        }
    }
    assert_eq!(
        actions,
        vec![Action::Wait, Action::Wait, Action::Draw, Action::Draw, Action::Quit]
    );
    assert_eq!(state, Dashboard::Showing(snapshot(2), true));
}
