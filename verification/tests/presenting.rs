use subimage_scene::present::{replay, Action, Event, State};

#[test]
fn loop_starts_idle() {
    assert_eq!(State::initial(), State::Idle);
    assert!(!State::initial().is_terminated());
    assert!(State::Terminated.is_terminated());
    assert!(!State::Rendering.is_terminated());
}

#[test]
fn quit_while_idle_terminates_without_render() {
    assert_eq!(State::Idle.step(Event::Quit), (State::Terminated, Action::Exit));
    assert_eq!(State::Idle.step(Event::EscapeKey), (State::Terminated, Action::Exit));
}

#[test]
fn quit_terminates_from_every_state() {
    for state in [State::Idle, State::Rendering, State::Terminated] {
        assert_eq!(state.step(Event::Quit), (State::Terminated, Action::Exit));
        assert_eq!(state.step(Event::EscapeKey), (State::Terminated, Action::Exit));
    }
}

#[test]
fn expose_while_idle_renders_once() {
    let (state, action) = State::Idle.step(Event::Exposed);
    assert_eq!((state, action), (State::Rendering, Action::Render));
    assert_eq!(state.render_finished(), State::Idle);
}

#[test]
fn expose_is_ignored_unless_idle() {
    assert_eq!(State::Rendering.step(Event::Exposed), (State::Rendering, Action::Wait));
    assert_eq!(State::Terminated.step(Event::Exposed), (State::Terminated, Action::Exit));
}

#[test]
fn other_events_change_nothing() {
    assert_eq!(State::Idle.step(Event::Other), (State::Idle, Action::Wait));
    assert_eq!(State::Rendering.step(Event::Other), (State::Rendering, Action::Wait));
    assert_eq!(State::Terminated.step(Event::Other), (State::Terminated, Action::Exit));
}

#[test]
fn render_finished_only_leaves_rendering() {
    assert_eq!(State::Rendering.render_finished(), State::Idle);
    assert_eq!(State::Idle.render_finished(), State::Idle);
    assert_eq!(State::Terminated.render_finished(), State::Terminated);
}

#[test]
fn replay_counts_exposures_before_the_end() {
    assert_eq!(replay(&Vec::new()), (State::Idle, 0));
    assert_eq!(replay(&vec![Event::Exposed]), (State::Idle, 1));
    assert_eq!(
        replay(&vec![Event::Exposed, Event::Other, Event::Exposed, Event::Exposed]),
        (State::Idle, 3)
    );
    assert_eq!(
        replay(&vec![Event::Exposed, Event::Quit, Event::Exposed, Event::Exposed]),
        (State::Terminated, 1)
    );
    assert_eq!(replay(&vec![Event::EscapeKey, Event::Exposed]), (State::Terminated, 0));
    assert_eq!(replay(&vec![Event::Other, Event::Other]), (State::Idle, 0));
}

#[test]
fn replay_of_quit_alone_renders_nothing() {
    assert_eq!(replay(&vec![Event::Quit]), (State::Terminated, 0));
}
