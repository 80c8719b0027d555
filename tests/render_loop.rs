use gl_triangle::render::{
    frame_commands, next_state, run_session, step, teardown_commands, Command, Event, LoopState,
    Resources, EXIT_KEY,
};

fn resources() -> Resources {
    Resources { program: 3, vertex_shader: 1, fragment_shader: 2, buffer: 5, vertex_array: 4 }
}

fn frame() -> Vec<Command> {
    vec![Command::Clear, Command::DrawTriangle, Command::Present]
}

fn teardown() -> Vec<Command> {
    vec![
        Command::DeleteProgram(3),
        Command::DeleteShader(2),
        Command::DeleteShader(1),
        Command::DeleteBuffer(5),
        Command::DeleteVertexArray(4),
        Command::QuitVideo,
    ]
}

#[test]
fn quit_stops_running_loop() {
    assert_eq!(next_state(LoopState::Running, Event::Quit), LoopState::Stopped);
}

#[test]
fn exit_key_stops_running_loop() {
    assert_eq!(next_state(LoopState::Running, Event::KeyDown(EXIT_KEY)), LoopState::Stopped);
    assert_eq!(next_state(LoopState::Running, Event::KeyDown(27)), LoopState::Stopped);
}

#[test]
fn other_keys_and_events_keep_running() {
    assert_eq!(next_state(LoopState::Running, Event::KeyDown(97)), LoopState::Running);
    assert_eq!(next_state(LoopState::Running, Event::KeyUp(EXIT_KEY)), LoopState::Running);
    assert_eq!(next_state(LoopState::Running, Event::Other), LoopState::Running);
    assert_eq!(next_state(LoopState::Running, Event::NoEvent), LoopState::Running);
}

#[test]
fn stopped_is_terminal() {
    assert_eq!(next_state(LoopState::Stopped, Event::NoEvent), LoopState::Stopped);
    assert_eq!(next_state(LoopState::Stopped, Event::KeyDown(97)), LoopState::Stopped);
}

#[test]
fn running_step_draws_one_frame() {
    let (state, cmds) = step(LoopState::Running, Event::NoEvent);
    assert_eq!(state, LoopState::Running);
    assert_eq!(cmds, frame());
    assert_eq!(frame_commands(), frame());
}

#[test]
fn stopping_step_draws_nothing() {
    let (state, cmds) = step(LoopState::Running, Event::Quit);
    assert_eq!(state, LoopState::Stopped);
    assert!(cmds.is_empty());
}

#[test]
fn teardown_order_is_fixed() {
    assert_eq!(teardown_commands(resources()), teardown());
}

#[test]
fn two_frames_then_exit_key() {
    let events = vec![Event::NoEvent, Event::NoEvent, Event::KeyDown(EXIT_KEY)];
    let mut expected = frame();
    expected.extend(frame());
    expected.extend(teardown());
    let cmds = run_session(&events, resources());
    assert_eq!(cmds, expected);
    let presents = cmds.iter().filter(|c| **c == Command::Present).count();
    assert_eq!(presents, 2);
}

#[test]
fn quit_first_draws_nothing() {
    let events = vec![Event::Quit, Event::NoEvent];
    assert_eq!(run_session(&events, resources()), teardown());
}

#[test]
fn events_after_stop_are_not_read() {
    let events = vec![Event::Other, Event::Quit, Event::NoEvent, Event::NoEvent];
    let mut expected = frame();
    expected.extend(teardown());
    assert_eq!(run_session(&events, resources()), expected);
}

#[test]
fn running_out_of_events_releases_nothing() {
    let events = vec![Event::KeyDown(97), Event::KeyUp(EXIT_KEY)];
    let mut expected = frame();
    expected.extend(frame());
    assert_eq!(run_session(&events, resources()), expected);
    assert!(run_session(&Vec::new(), resources()).is_empty());
}
