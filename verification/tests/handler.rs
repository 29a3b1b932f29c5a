use nih_plug_slint::event::{
    Code, Effect, Event, EventStatus, HostWindowEvent, Key, KeyState, KeyboardEvent, MouseButton,
    MouseEvent, PointerEventButton, ScrollDelta, WindowEvent, WindowInfo,
};
use nih_plug_slint::geometry::{LogicalPosition, LogicalSize, PhysicalLength, Scalar};
use nih_plug_slint::handler::{FrameStep, WindowHandler};
use nih_plug_slint::state::SlintEditorState;

type Effects = Vec<Effect<f32, String>>;

fn open() -> (WindowHandler<f32>, SlintEditorState, Effects) {
    (WindowHandler::new(400, 300, Scalar::Whole(1)), SlintEditorState::default(), Vec::new())
}

fn at(x: f32, y: f32) -> LogicalPosition<f32> {
    LogicalPosition { x: Scalar::Given(x), y: Scalar::Given(y) }
}

fn origin() -> LogicalPosition<f32> {
    LogicalPosition { x: Scalar::Whole(0), y: Scalar::Whole(0) }
}

fn resized(width: u32, height: u32) -> Effects {
    vec![
        Effect::Dispatch(WindowEvent::Resized {
            size: LogicalSize { width: Scalar::Whole(width), height: Scalar::Whole(height) },
        }),
        Effect::RequestRedraw,
        Effect::RequestHostResize,
        Effect::ResizeWindow { width, height },
    ]
}

fn key(state: KeyState, key: Key<String>, code: Code, repeat: bool) -> Event<f32, String> {
    Event::Keyboard(KeyboardEvent { state, key, code, repeat })
}

fn character(text: &str) -> Key<String> {
    Key::Character(text.to_string())
}

fn info() -> WindowInfo<f32> {
    WindowInfo {
        scale: 2.0,
        physical_width: 1201,
        physical_height: 801,
        logical_width: 600.5,
        logical_height: 400.5,
        whole_width: 600,
        whole_height: 400,
    }
}

#[test]
fn resize_updates_everyone() {
    let (mut handler, mut state, mut effects) = open();
    handler.resize(&mut state, &mut effects, 500, 200);
    assert_eq!(state.size(), (500, 200));
    assert_eq!(effects, resized(500, 200));
    assert_eq!(
        handler.adapter().size().width,
        PhysicalLength::Scaled { logical: 500, scale_factor: Scalar::Whole(1) }
    );
    assert_eq!(
        handler.adapter().size().height,
        PhysicalLength::Scaled { logical: 200, scale_factor: Scalar::Whole(1) }
    );
}

#[test]
fn effects_are_added_behind_earlier_ones() {
    let (mut handler, mut state, mut effects) = open();
    effects.push(Effect::RequestRedraw);
    handler.resize(&mut state, &mut effects, 5, 6);
    let mut expected = vec![Effect::RequestRedraw];
    expected.extend(resized(5, 6));
    assert_eq!(effects, expected);
}

#[test]
fn latest_queued_resize_wins() {
    let (mut handler, mut state, mut effects) = open();
    handler.queue_resize(10, 11);
    handler.queue_resize(20, 21);
    handler.queue_resize(30, 31);
    assert_eq!(handler.pending_resizes(), &vec![(10, 11), (20, 21), (30, 31)]);
    assert_eq!(state.size(), (400, 300));
    assert_eq!(handler.process_pending_resizes(&mut state, &mut effects), Some((30, 31)));
    assert_eq!(effects, resized(30, 31));
    assert_eq!(state.size(), (30, 31));
    assert!(handler.pending_resizes().is_empty());
}

#[test]
fn processing_an_empty_queue_does_nothing() {
    let (mut handler, mut state, mut effects) = open();
    assert_eq!(handler.process_pending_resizes(&mut state, &mut effects), None);
    handler.queue_resize(10, 11);
    handler.process_pending_resizes(&mut state, &mut effects);
    effects.clear();
    assert_eq!(handler.process_pending_resizes(&mut state, &mut effects), None);
    assert!(effects.is_empty());
    assert_eq!(state.size(), (10, 11));
}

#[test]
fn later_resize_overrides_an_earlier_one() {
    let (mut handler, mut state, mut effects) = open();
    handler.resize(&mut state, &mut effects, 1, 2);
    handler.resize(&mut state, &mut effects, 3, 4);
    assert_eq!(state.size(), (3, 4));
    assert_eq!(
        handler.adapter().size().height,
        PhysicalLength::Scaled { logical: 4, scale_factor: Scalar::Whole(1) }
    );
}

#[test]
fn window_report_sends_scale_before_size() {
    let (mut handler, mut state, mut effects) = open();
    let event = Event::Window(HostWindowEvent::Resized(info()));
    assert_eq!(handler.on_event(&mut state, &mut effects, event), EventStatus::Captured);
    assert_eq!(state.size(), (600, 400));
    assert_eq!(
        effects,
        vec![
            Effect::Dispatch(WindowEvent::ScaleFactorChanged { scale_factor: Scalar::Given(2.0) }),
            Effect::Dispatch(WindowEvent::Resized {
                size: LogicalSize { width: Scalar::Given(600.5), height: Scalar::Given(400.5) },
            }),
        ]
    );
    assert_eq!(handler.adapter().size().width, PhysicalLength::Given(1201));
    assert_eq!(handler.adapter().size().height, PhysicalLength::Given(801));
    assert_eq!(handler.adapter().scale_factor, Scalar::Given(2.0));
}

#[test]
fn resize_uses_the_scale_reported_last() {
    let (mut handler, mut state, mut effects) = open();
    handler.on_event(&mut state, &mut effects, Event::Window(HostWindowEvent::Resized(info())));
    handler.resize(&mut state, &mut effects, 50, 60);
    assert_eq!(
        handler.adapter().size().width,
        PhysicalLength::Scaled { logical: 50, scale_factor: Scalar::Given(2.0) }
    );
    assert_eq!(handler.adapter().scale_factor, Scalar::Given(2.0));
}

#[test]
fn other_window_events_are_ignored() {
    let (mut handler, mut state, mut effects) = open();
    let events =
        [HostWindowEvent::Focused, HostWindowEvent::Unfocused, HostWindowEvent::WillClose];
    for event in events {
        let status = handler.on_event(&mut state, &mut effects, Event::Window(event));
        assert_eq!(status, EventStatus::Ignored);
    }
    assert!(effects.is_empty());
    assert_eq!(state.size(), (400, 300));
}

#[test]
fn buttons_go_with_the_last_cursor_position() {
    let (mut handler, mut state, mut effects) = open();
    let press = |button| Event::Mouse(MouseEvent::ButtonPressed { button });
    let release = |button| Event::Mouse(MouseEvent::ButtonReleased { button });
    handler.on_event(&mut state, &mut effects, press(MouseButton::Left));
    let moved = Event::Mouse(MouseEvent::CursorMoved { x: 1.5, y: 2.5 });
    assert_eq!(handler.on_event(&mut state, &mut effects, moved), EventStatus::Captured);
    handler.resize(&mut state, &mut Vec::new(), 9, 9);
    handler.on_event(&mut state, &mut effects, press(MouseButton::Right));
    let status = handler.on_event(&mut state, &mut effects, release(MouseButton::Middle));
    assert_eq!(status, EventStatus::Captured);
    assert_eq!(
        effects,
        vec![
            Effect::Dispatch(WindowEvent::PointerPressed {
                button: PointerEventButton::Left,
                position: origin(),
            }),
            Effect::Dispatch(WindowEvent::PointerMoved { position: at(1.5, 2.5) }),
            Effect::Dispatch(WindowEvent::PointerPressed {
                button: PointerEventButton::Right,
                position: at(1.5, 2.5),
            }),
            Effect::Dispatch(WindowEvent::PointerReleased {
                button: PointerEventButton::Middle,
                position: at(1.5, 2.5),
            }),
        ]
    );
}

#[test]
fn unknown_buttons_are_ignored() {
    let (mut handler, mut state, mut effects) = open();
    for button in [MouseButton::Back, MouseButton::Forward, MouseButton::Other(9)] {
        for event in [MouseEvent::ButtonPressed { button }, MouseEvent::ButtonReleased { button }] {
            let status = handler.on_event(&mut state, &mut effects, Event::Mouse(event));
            assert_eq!(status, EventStatus::Ignored);
        }
    }
    assert!(effects.is_empty());
}

#[test]
fn drags_and_crossings_are_ignored() {
    let (mut handler, mut state, mut effects) = open();
    for event in [
        MouseEvent::CursorEntered,
        MouseEvent::CursorLeft,
        MouseEvent::DragEntered,
        MouseEvent::DragMoved,
        MouseEvent::DragLeft,
        MouseEvent::DragDropped,
    ] {
        let status = handler.on_event(&mut state, &mut effects, Event::Mouse(event));
        assert_eq!(status, EventStatus::Ignored);
    }
    assert!(effects.is_empty());
}

#[test]
fn wheel_lines_are_twenty_pixels() {
    let (mut handler, mut state, mut effects) = open();
    let lines = MouseEvent::WheelScrolled { delta: ScrollDelta::Lines { x: 1.0, y: -3.0 } };
    let pixels = MouseEvent::WheelScrolled { delta: ScrollDelta::Pixels { x: 4.0, y: 5.0 } };
    assert_eq!(
        handler.on_event(&mut state, &mut effects, Event::Mouse(lines)),
        EventStatus::Captured
    );
    assert_eq!(
        handler.on_event(&mut state, &mut effects, Event::Mouse(pixels)),
        EventStatus::Captured
    );
    assert_eq!(
        effects,
        vec![
            Effect::Dispatch(WindowEvent::PointerScrolled {
                position: origin(),
                delta_x: Scalar::Times(1.0, 20),
                delta_y: Scalar::Times(-3.0, 20),
            }),
            Effect::Dispatch(WindowEvent::PointerScrolled {
                position: origin(),
                delta_x: Scalar::Given(4.0),
                delta_y: Scalar::Given(5.0),
            }),
        ]
    );
}

#[test]
fn keys_are_pressed_repeated_and_released() {
    let (mut handler, mut state, mut effects) = open();
    let down = key(KeyState::Down, character("a"), Code::Other, false);
    let again = key(KeyState::Down, Key::Named, Code::ArrowUp, true);
    let up = key(KeyState::Up, Key::Named, Code::Enter, true);
    for event in [down, again, up] {
        let status = handler.on_event(&mut state, &mut effects, event);
        assert_eq!(status, EventStatus::Ignored);
    }
    assert_eq!(
        effects,
        vec![
            Effect::Dispatch(WindowEvent::KeyPressed { text: "a".to_string() }),
            Effect::Dispatch(WindowEvent::KeyPressRepeated { text: "\u{f700}".to_string() }),
            Effect::Dispatch(WindowEvent::KeyReleased { text: "\n".to_string() }),
        ]
    );
}

#[test]
fn prevention_captures_keys_that_slint_is_told_of() {
    let (mut handler, mut state, mut effects) = open();
    let press = || key(KeyState::Down, character("a"), Code::Other, false);
    handler.set_prevent_key_event_propagation(true);
    assert_eq!(handler.on_event(&mut state, &mut effects, press()), EventStatus::Captured);
    handler.set_prevent_key_event_propagation(false);
    assert_eq!(handler.on_event(&mut state, &mut effects, press()), EventStatus::Ignored);
    assert_eq!(effects.len(), 2);
    assert_eq!(effects[0], effects[1]);
}

#[test]
fn keys_without_text_are_ignored_even_with_prevention() {
    let (mut handler, mut state, mut effects) = open();
    handler.set_prevent_key_event_propagation(true);
    for event in [
        key(KeyState::Down, Key::Named, Code::Other, false),
        key(KeyState::Up, character(""), Code::Enter, false),
    ] {
        let status = handler.on_event(&mut state, &mut effects, event);
        assert_eq!(status, EventStatus::Ignored);
    }
    assert!(effects.is_empty());
}

#[test]
fn first_frame_shows_and_sets_up() {
    let (handler, _, _) = open();
    assert_eq!(
        handler.on_frame(),
        vec![
            FrameStep::MakeContextCurrent,
            FrameStep::LoadGlFunctions,
            FrameStep::CreateRenderer,
            FrameStep::ShowComponent,
            FrameStep::RunSetupHandler,
            FrameStep::RunEventLoopHandler,
            FrameStep::UpdateTimersAndAnimations,
            FrameStep::ProcessPendingResizes,
            FrameStep::RequestRedraw,
            FrameStep::QueryNextTimerUpdate,
            FrameStep::Render,
            FrameStep::SwapBuffers,
        ]
    );
}

#[test]
fn setup_runs_once_and_the_event_loop_every_frame() {
    let (mut handler, mut state, mut effects) = open();
    let mut steps = Vec::new();
    for _ in 0..5 {
        for step in handler.on_frame() {
            match step {
                FrameStep::ShowComponent => handler.component_shown(),
                FrameStep::ProcessPendingResizes => {
                    handler.process_pending_resizes(&mut state, &mut effects);
                }
                _ => {}
            }
            steps.push(step);
        }
    }
    let count = |step| steps.iter().filter(|s| **s == step).count();
    assert_eq!(count(FrameStep::RunSetupHandler), 1);
    assert_eq!(count(FrameStep::ShowComponent), 1);
    assert_eq!(count(FrameStep::CreateRenderer), 1);
    assert_eq!(count(FrameStep::RunEventLoopHandler), 5);
    assert_eq!(count(FrameStep::SwapBuffers), 5);
    assert_eq!(
        handler.on_frame(),
        vec![
            FrameStep::MakeContextCurrent,
            FrameStep::RunEventLoopHandler,
            FrameStep::UpdateTimersAndAnimations,
            FrameStep::ProcessPendingResizes,
            FrameStep::RequestRedraw,
            FrameStep::QueryNextTimerUpdate,
            FrameStep::Render,
            FrameStep::SwapBuffers,
        ]
    );
}

#[test]
fn failed_first_frame_is_tried_again() {
    let (mut handler, _, _) = open();
    let first = handler.on_frame();
    // The component could not be shown, so nobody says that it was.
    assert_eq!(handler.on_frame(), first);
    assert!(first.contains(&FrameStep::ShowComponent));
    assert!(first.contains(&FrameStep::RunSetupHandler));
    handler.component_shown();
    let next = handler.on_frame();
    assert!(!next.contains(&FrameStep::ShowComponent));
    assert!(!next.contains(&FrameStep::RunSetupHandler));
    handler.component_shown();
    assert_eq!(handler.on_frame(), next);
}

#[test]
fn echo_of_a_resize_keeps_the_size() {
    for scale in [1.0, 1.25, 3.0] {
        let (mut handler, mut state, mut effects) = open();
        handler.resize(&mut state, &mut effects, 600, 400);
        let echo = WindowInfo { scale, ..info() };
        handler.on_event(&mut state, &mut effects, Event::Window(HostWindowEvent::Resized(echo)));
        assert_eq!(state.size(), (600, 400));
        assert_eq!(handler.adapter().scale_factor, Scalar::Given(scale));
    }
}

/// Carries out one frame: queues the sizes when the event loop handler is called, and returns
/// what was to be done, with the number of effects there were at that point.
fn draw(
    handler: &mut WindowHandler<f32>,
    state: &mut SlintEditorState,
    effects: &mut Effects,
    queued: &[(u32, u32)],
) -> Vec<(FrameStep, usize)> {
    let mut log = Vec::new();
    for step in handler.on_frame() {
        match step {
            FrameStep::ShowComponent => handler.component_shown(),
            FrameStep::RunEventLoopHandler => {
                for (width, height) in queued {
                    handler.queue_resize(*width, *height);
                }
            }
            FrameStep::ProcessPendingResizes => {
                handler.process_pending_resizes(state, effects);
            }
            _ => {}
        }
        log.push((step, effects.len()));
    }
    log
}

#[test]
fn queued_resize_is_applied_in_the_next_frame() {
    let (mut handler, mut state, mut effects) = open();
    handler.queue_resize(500, 400);
    handler.queue_resize(640, 480);
    let log = draw(&mut handler, &mut state, &mut effects, &[]);
    assert_eq!(state.size(), (640, 480));
    assert!(handler.pending_resizes().is_empty());
    assert_eq!(effects, resized(640, 480));
    assert!(log.contains(&(FrameStep::UpdateTimersAndAnimations, 0)));
    assert!(log.contains(&(FrameStep::Render, 4)));
    effects.clear();
    draw(&mut handler, &mut state, &mut effects, &[]);
    assert!(effects.is_empty());
    assert_eq!(state.size(), (640, 480));
}

#[test]
fn resize_queued_by_a_handler_is_applied_in_the_same_frame() {
    let (mut handler, mut state, mut effects) = open();
    handler.queue_resize(1, 1);
    let log = draw(&mut handler, &mut state, &mut effects, &[(2, 2), (320, 240)]);
    assert_eq!(state.size(), (320, 240));
    assert!(handler.pending_resizes().is_empty());
    assert_eq!(effects, resized(320, 240));
    assert!(log.contains(&(FrameStep::Render, 4)));
}

#[test]
fn restoring_while_open_changes_the_record_alone() {
    let (mut handler, mut state, mut effects) = open();
    state.set(SlintEditorState::new(800, 600));
    assert_eq!(
        handler.adapter().size().width,
        PhysicalLength::Scaled { logical: 400, scale_factor: Scalar::Whole(1) }
    );
    draw(&mut handler, &mut state, &mut effects, &[]);
    assert!(effects.is_empty());
    assert_eq!(state.size(), (800, 600));
}
