//! The render loop as an explicit two-state machine driven by window events.
use vstd::prelude::*;

verus! {

/// Initial window width in pixels.
pub const INITIAL_WIDTH: u32 = 1200;

/// Initial window height in pixels.
pub const INITIAL_HEIGHT: u32 = 700;

/// Whether the render loop keeps going.
#[derive(Clone, Copy, Debug, PartialEq, Eq, Structural)]
pub enum LoopState {
    Running,
    Terminated,
}

/// The window events that the loop distinguishes.
#[derive(Clone, Copy, Debug, PartialEq, Eq, Structural)]
pub enum WindowEvent {
    /// The user asked to close the window.
    Closed,
    /// The drawable surface changed to the given width and height.
    Resized(u32, u32),
    /// Anything else: no effect on the loop.
    Other,
}

/// Size of the rendering surface and viewport, in pixels.
#[derive(Clone, Copy, Debug, PartialEq, Eq, Structural)]
pub struct Viewport {
    pub width: u32,
    pub height: u32,
}

/// What the loop does once the pending events have been handled.
#[derive(Clone, Copy, Debug, PartialEq, Eq, Structural)]
pub enum FrameAction {
    /// Clear, rebuild the program, upload geometry, draw and present.
    Render,
    /// Leave the loop.
    Exit,
}

/// The state after one event.
pub open spec fn next_state(s: LoopState, e: WindowEvent) -> LoopState {
    match s {
        LoopState::Terminated => LoopState::Terminated,
        LoopState::Running => match e {
            WindowEvent::Closed => LoopState::Terminated,
            _ => LoopState::Running,
        },
    }
}

/// The viewport change that one event asks for, if any.
pub open spec fn viewport_change(s: LoopState, e: WindowEvent) -> Option<Viewport> {
    match (s, e) {
        (LoopState::Running, WindowEvent::Resized(w, h)) => Some(Viewport { width: w, height: h }),
        _ => None,
    }
}

/// The state after a whole batch of events, handled in order.
pub open spec fn state_after(s: LoopState, events: Seq<WindowEvent>) -> LoopState
    decreases events.len(),
{
    if events.len() == 0 {
        s
    } else {
        state_after(next_state(s, events[0]), events.drop_first())
    }
}

/// The viewport changes of a whole batch, in the order they are applied.
pub open spec fn viewport_changes(s: LoopState, events: Seq<WindowEvent>) -> Seq<Viewport>
    decreases events.len(),
{
    if events.len() == 0 {
        Seq::empty()
    } else {
        let head = match viewport_change(s, events[0]) {
            Some(v) => seq![v],
            None => Seq::empty(),
        };
        head + viewport_changes(next_state(s, events[0]), events.drop_first())
    }
}

/// The viewport of a freshly opened window.
pub fn initial_viewport() -> (r: Viewport)
    ensures
        r.width == 1200,
        r.height == 700,
{
    Viewport { width: INITIAL_WIDTH, height: INITIAL_HEIGHT }
}

/// Handles one event: a close request terminates a running loop, a resize
/// asks for a new viewport, anything else changes nothing. A terminated
/// loop stays terminated and ignores further events.
pub fn handle_event(state: LoopState, event: WindowEvent) -> (r: (LoopState, Option<Viewport>))
    ensures
        r.0 == next_state(state, event),
        r.1 == viewport_change(state, event),
{
    match state {
        LoopState::Terminated => (LoopState::Terminated, None),
        LoopState::Running => match event {
            WindowEvent::Closed => (LoopState::Terminated, None),
            WindowEvent::Resized(w, h) => (LoopState::Running, Some(Viewport { width: w, height: h })),
            WindowEvent::Other => (LoopState::Running, None),
        },
    }
}

/// Handles a batch of pending events in order and returns the resulting
/// state together with every viewport change to apply, in order.
pub fn handle_events(state: LoopState, events: &Vec<WindowEvent>) -> (r: (LoopState, Vec<Viewport>))
    ensures
        r.0 == state_after(state, events@),
        r.1@ == viewport_changes(state, events@),
{
    let mut current = state;
    let mut changes: Vec<Viewport> = Vec::new();
    let n = events.len();
    let mut i: usize = 0;
    assert(events@.subrange(0, n as int) =~= events@);
    assert(changes@ + viewport_changes(state, events@) =~= viewport_changes(state, events@));
    while i < n
        invariant
            n == events@.len(),
            i <= n,
            state_after(current, events@.subrange(i as int, n as int)) == state_after(state, events@),
            changes@ + viewport_changes(current, events@.subrange(i as int, n as int))
                == viewport_changes(state, events@),
        decreases n - i,
    {
        let ghost rest = events@.subrange(i as int, n as int);
        let ghost before = changes@;
        assert(rest.drop_first() =~= events@.subrange(i + 1, n as int));
        let (next, change) = handle_event(current, events[i]);
        match change {
            Some(v) => {
                changes.push(v);
            },
            None => {},
        }
        assert(changes@ + viewport_changes(next, rest.drop_first())
            =~= before + viewport_changes(current, rest));
        current = next;
        i = i + 1;
    }
    assert(events@.subrange(n as int, n as int) =~= Seq::<WindowEvent>::empty());
    (current, changes)
}

/// What follows the event handling of one iteration: render while running,
/// leave once terminated.
pub fn frame_action(state: LoopState) -> (r: FrameAction)
    ensures
        r == (if state == LoopState::Running { FrameAction::Render } else { FrameAction::Exit }),
{
    match state {
        LoopState::Running => FrameAction::Render,
        LoopState::Terminated => FrameAction::Exit,
    }
}

/// A batch of events leaves the loop terminated exactly when the loop was
/// already terminated or the batch holds a close request, wherever it stands
/// and whatever else the batch holds.
pub proof fn lemma_close_terminates(state: LoopState, events: Seq<WindowEvent>)
    ensures
        (state_after(state, events) == LoopState::Terminated) <==> (state == LoopState::Terminated
            || exists|i: int| 0 <= i < events.len() && events[i] == WindowEvent::Closed),
    decreases events.len(),
{
    if events.len() > 0 {
        let rest = events.drop_first();
        lemma_close_terminates(next_state(state, events[0]), rest);
        if exists|i: int| 0 <= i < rest.len() && rest[i] == WindowEvent::Closed {
            let i = choose|i: int| 0 <= i < rest.len() && rest[i] == WindowEvent::Closed;
            assert(events[i + 1] == WindowEvent::Closed);
        }
        if exists|i: int| 0 <= i < events.len() && events[i] == WindowEvent::Closed {
            let i = choose|i: int| 0 <= i < events.len() && events[i] == WindowEvent::Closed;
            if i > 0 {
                assert(rest[i - 1] == WindowEvent::Closed);
            }
        }
    }
}

/// A terminated loop ignores every later event: it stays terminated and
/// changes no viewport.
pub proof fn lemma_terminated_absorbs(events: Seq<WindowEvent>)
    ensures
        state_after(LoopState::Terminated, events) == LoopState::Terminated,
        viewport_changes(LoopState::Terminated, events) == Seq::<Viewport>::empty(),
    decreases events.len(),
{
    if events.len() > 0 {
        lemma_terminated_absorbs(events.drop_first());
    }
}

} // verus!
