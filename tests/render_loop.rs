use open_gl_learning::render_loop::{
    frame_action, handle_event, handle_events, initial_viewport, FrameAction, LoopState,
    Viewport, WindowEvent,
};

#[test]
fn resize_updates_viewport_and_keeps_running() {
    let (state, change) = handle_event(LoopState::Running, WindowEvent::Resized(800, 600));
    assert_eq!(state, LoopState::Running);
    assert_eq!(change, Some(Viewport { width: 800, height: 600 }));
    assert_eq!(frame_action(state), FrameAction::Render);
}

#[test]
fn close_terminates() {
    let (state, change) = handle_event(LoopState::Running, WindowEvent::Closed);
    assert_eq!(state, LoopState::Terminated);
    assert_eq!(change, None);
    assert_eq!(frame_action(state), FrameAction::Exit);
}

#[test]
fn other_event_changes_nothing() {
    let (state, change) = handle_event(LoopState::Running, WindowEvent::Other);
    assert_eq!(state, LoopState::Running);
    assert_eq!(change, None);
}

#[test]
fn close_anywhere_in_batch_terminates() {
    let events = vec![
        WindowEvent::Resized(800, 600),
        WindowEvent::Other,
        WindowEvent::Closed,
        WindowEvent::Resized(1024, 768),
        WindowEvent::Other,
    ];
    let (state, changes) = handle_events(LoopState::Running, &events);
    assert_eq!(state, LoopState::Terminated);
    assert_eq!(changes, vec![Viewport { width: 800, height: 600 }]);
    assert_eq!(frame_action(state), FrameAction::Exit);
}

#[test]
fn close_first_in_batch_terminates() {
    let events = vec![WindowEvent::Closed, WindowEvent::Other, WindowEvent::Resized(10, 20)];
    let (state, changes) = handle_events(LoopState::Running, &events);
    assert_eq!(state, LoopState::Terminated);
    assert!(changes.is_empty());
}

#[test]
fn batch_without_close_keeps_running_and_applies_resizes_in_order() {
    let events = vec![
        WindowEvent::Resized(800, 600),
        WindowEvent::Other,
        WindowEvent::Resized(640, 480),
    ];
    let (state, changes) = handle_events(LoopState::Running, &events);
    assert_eq!(state, LoopState::Running);
    assert_eq!(
        changes,
        vec![Viewport { width: 800, height: 600 }, Viewport { width: 640, height: 480 }]
    );
}

#[test]
fn empty_batch_changes_nothing() {
    let (state, changes) = handle_events(LoopState::Running, &Vec::new());
    assert_eq!(state, LoopState::Running);
    assert!(changes.is_empty());
    assert_eq!(frame_action(state), FrameAction::Render);
}

#[test]
fn terminated_loop_ignores_events() {
    let events = vec![WindowEvent::Resized(800, 600), WindowEvent::Other];
    let (state, changes) = handle_events(LoopState::Terminated, &events);
    assert_eq!(state, LoopState::Terminated);
    assert!(changes.is_empty());
}

#[test]
fn initial_viewport_is_window_size() {
    assert_eq!(initial_viewport(), Viewport { width: 1200, height: 700 });
}
