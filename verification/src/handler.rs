//! What one open window knows, and what it does with the events that reach it.
//!
//! Nothing here talks to the window, to Slint or to the host. Each function that has to is
//! given a list, to which it adds what the shell is to do, in order.

use crate::adapter::BaseviewSlintAdapter;
use crate::event::{
    effect_views, Effect, Event, EventStatus, HostWindowEvent, KeyState, KeyboardEvent, MouseButton,
    MouseEvent, PointerEventButton, ScrollDelta, WindowEvent, WindowInfo,
};
use crate::geometry::{LogicalPosition, LogicalSize, PhysicalLength, PhysicalSize, Scalar};
use crate::keys::{key_text, slint_text};
use crate::state::SlintEditorState;
use vstd::prelude::*;

verus! {

/// How many logical pixels a line of the mouse wheel is worth.
pub const PIXELS_PER_LINE: u32 = 20;

/// One thing to do while a frame is drawn.
#[derive(Clone, Copy, Debug, PartialEq, Eq)]
pub enum FrameStep {
    /// Make the OpenGL context of the window current.
    MakeContextCurrent,
    /// Wire up the loader of OpenGL functions, unless that was done before.
    LoadGlFunctions,
    /// Create the renderer, unless there is one.
    CreateRenderer,
    /// Show the component.
    ShowComponent,
    /// Call the handler that sets the component up.
    RunSetupHandler,
    /// Call the handler that is called every frame.
    RunEventLoopHandler,
    /// Let Slint bring its timers and animations up to date.
    UpdateTimersAndAnimations,
    /// Apply what was queued for resizing.
    ProcessPendingResizes,
    /// Ask the component's window to be drawn again.
    RequestRedraw,
    /// Ask Slint when its next timer is due.
    QueryNextTimerUpdate,
    /// Draw with the renderer, if there is one.
    Render,
    /// Show what was drawn.
    SwapBuffers,
}

/// What a window knows, for contracts.
pub struct HandlerView<F> {
    /// The scale factor of the display that the window is on.
    pub scale_factor: Scalar<F>,
    /// What Slint is told when it asks its adapter.
    pub adapter: BaseviewSlintAdapter<F>,
    /// Sizes that were asked for and not applied yet, the latest at the end.
    pub pending_resizes: Seq<(u32, u32)>,
    /// Where the cursor was last seen.
    pub last_cursor_pos: LogicalPosition<F>,
    /// Whether the component was shown.
    pub window_shown: bool,
    /// Whether the host is kept from seeing the keys that Slint is told of.
    pub prevent_key_event_propagation: bool,
}

/// Slint's name for a mouse button, if it has one.
pub open spec fn pointer_button(button: MouseButton) -> Option<PointerEventButton> {
    match button {
        MouseButton::Left => Some(PointerEventButton::Left),
        MouseButton::Right => Some(PointerEventButton::Right),
        MouseButton::Middle => Some(PointerEventButton::Middle),
        _ => None,
    }
}

/// What Slint is told of a mouse event while the cursor was last seen at `cursor`: nothing of
/// buttons it has no name for, of the cursor entering or leaving, and of drags.
pub open spec fn pointer_event<F>(event: MouseEvent<F>, cursor: LogicalPosition<F>) -> Option<
    WindowEvent<F, Seq<char>>,
> {
    match event {
        MouseEvent::CursorMoved { x, y } => Some(
            WindowEvent::PointerMoved { position: LogicalPosition::at(x, y) },
        ),
        MouseEvent::ButtonPressed { button } => match pointer_button(button) {
            Some(button) => Some(WindowEvent::PointerPressed { button, position: cursor }),
            None => None,
        },
        MouseEvent::ButtonReleased { button } => match pointer_button(button) {
            Some(button) => Some(WindowEvent::PointerReleased { button, position: cursor }),
            None => None,
        },
        MouseEvent::WheelScrolled { delta: ScrollDelta::Lines { x, y } } => Some(
            WindowEvent::PointerScrolled {
                position: LogicalPosition::at_origin(),
                delta_x: Scalar::Times(x, PIXELS_PER_LINE),
                delta_y: Scalar::Times(y, PIXELS_PER_LINE),
            },
        ),
        MouseEvent::WheelScrolled { delta: ScrollDelta::Pixels { x, y } } => Some(
            WindowEvent::PointerScrolled {
                position: LogicalPosition::at_origin(),
                delta_x: Scalar::Given(x),
                delta_y: Scalar::Given(y),
            },
        ),
        _ => None,
    }
}

/// What Slint is told of a key: nothing, if no text stands for it.
pub open spec fn key_event<F>(event: KeyboardEvent<Seq<char>>) -> Option<
    WindowEvent<F, Seq<char>>,
> {
    let text = slint_text(event.key, event.code);
    if text.len() == 0 {
        None
    } else {
        Some(
            match (event.state, event.repeat) {
                (KeyState::Down, false) => WindowEvent::KeyPressed { text },
                (KeyState::Down, true) => WindowEvent::KeyPressRepeated { text },
                (KeyState::Up, _) => WindowEvent::KeyReleased { text },
            },
        )
    }
}

/// The effects of telling Slint of at most one event.
pub open spec fn dispatch<F>(event: Option<WindowEvent<F, Seq<char>>>) -> Seq<
    Effect<F, Seq<char>>,
> {
    match event {
        Some(event) => seq![Effect::Dispatch(event)],
        None => seq![],
    }
}

/// The effects of giving the window a new size: Slint lays out anew and draws, the host is
/// told, and the window follows.
pub open spec fn resize_effects<F>(width: u32, height: u32) -> Seq<Effect<F, Seq<char>>> {
    seq![
        Effect::Dispatch(WindowEvent::Resized { size: LogicalSize::of_whole(width, height) }),
        Effect::RequestRedraw,
        Effect::RequestHostResize,
        Effect::ResizeWindow { width, height },
    ]
}

/// The effects of learning the window's size and scale.
///
/// Slint converts the size that it is sent into physical pixels by the scale factor that it
/// knows at that moment, so the scale factor has to come first.
pub open spec fn window_info_effects<F>(info: WindowInfo<F>) -> Seq<Effect<F, Seq<char>>> {
    seq![
        Effect::Dispatch(
            WindowEvent::ScaleFactorChanged { scale_factor: Scalar::Given(info.scale) },
        ),
        Effect::Dispatch(
            WindowEvent::Resized {
                size: LogicalSize {
                    width: Scalar::Given(info.logical_width),
                    height: Scalar::Given(info.logical_height),
                },
            },
        ),
    ]
}

/// The effects of an event.
pub open spec fn event_effects<F>(event: Event<F, Seq<char>>, cursor: LogicalPosition<F>) -> Seq<
    Effect<F, Seq<char>>,
> {
    match event {
        Event::Mouse(event) => dispatch(pointer_event(event, cursor)),
        Event::Keyboard(event) => dispatch(key_event(event)),
        Event::Window(HostWindowEvent::Resized(info)) => window_info_effects(info),
        Event::Window(_) => seq![],
    }
}

/// The size that is on record after an event, if `size` was before.
pub open spec fn size_after_event<F>(size: (u32, u32), event: Event<F, Seq<char>>) -> (u32, u32) {
    match event {
        Event::Window(HostWindowEvent::Resized(info)) => (info.whole_width, info.whole_height),
        _ => size,
    }
}

/// What is done while a frame is drawn. As long as the component has not been shown, it is shown
/// and set up, now that the context is sure to be current.
pub open spec fn frame_plan(window_shown: bool) -> Seq<FrameStep> {
    seq![FrameStep::MakeContextCurrent] + (if window_shown {
        seq![]
    } else {
        seq![
            FrameStep::LoadGlFunctions,
            FrameStep::CreateRenderer,
            FrameStep::ShowComponent,
            FrameStep::RunSetupHandler,
        ]
    }) + seq![
        FrameStep::RunEventLoopHandler,
        FrameStep::UpdateTimersAndAnimations,
        FrameStep::ProcessPendingResizes,
        FrameStep::RequestRedraw,
        FrameStep::QueryNextTimerUpdate,
        FrameStep::Render,
        FrameStep::SwapBuffers,
    ]
}

impl<F> HandlerView<F> {
    /// A window that was just opened at the given logical size and scale factor.
    pub open spec fn opened(width: u32, height: u32, scale_factor: Scalar<F>) -> Self {
        HandlerView {
            scale_factor,
            adapter: BaseviewSlintAdapter {
                physical_size: PhysicalSize::of_logical(width, height, scale_factor),
                scale_factor,
            },
            pending_resizes: seq![],
            last_cursor_pos: LogicalPosition::at_origin(),
            window_shown: false,
            prevent_key_event_propagation: false,
        }
    }

    /// The window after it was given a new logical size.
    pub open spec fn resized(self, width: u32, height: u32) -> Self {
        HandlerView {
            adapter: BaseviewSlintAdapter {
                physical_size: PhysicalSize::of_logical(width, height, self.scale_factor),
                scale_factor: self.scale_factor,
            },
            ..self
        }
    }

    /// The window after it reported its size and scale.
    pub open spec fn informed(self, info: WindowInfo<F>) -> Self {
        HandlerView {
            scale_factor: Scalar::Given(info.scale),
            adapter: BaseviewSlintAdapter {
                physical_size: PhysicalSize {
                    width: PhysicalLength::Given(info.physical_width),
                    height: PhysicalLength::Given(info.physical_height),
                },
                scale_factor: Scalar::Given(info.scale),
            },
            ..self
        }
    }

    /// The window after a size was asked for.
    pub open spec fn with_pending_resize(self, width: u32, height: u32) -> Self {
        HandlerView { pending_resizes: self.pending_resizes.push((width, height)), ..self }
    }

    /// The window after the latest of the sizes that were asked for was applied and the others
    /// were dropped.
    pub open spec fn with_resizes_processed(self) -> Self {
        if self.pending_resizes.len() == 0 {
            self
        } else {
            let (width, height) = self.pending_resizes.last();
            HandlerView { pending_resizes: seq![], ..self.resized(width, height) }
        }
    }

    /// The latest of the sizes that were asked for.
    pub open spec fn latest_resize(self) -> Option<(u32, u32)> {
        if self.pending_resizes.len() == 0 {
            None
        } else {
            Some(self.pending_resizes.last())
        }
    }

    /// The window after the component was shown.
    pub open spec fn with_component_shown(self) -> Self {
        HandlerView { window_shown: true, ..self }
    }

    /// The window after an event.
    pub open spec fn after_event(self, event: Event<F, Seq<char>>) -> Self {
        match event {
            Event::Mouse(MouseEvent::CursorMoved { x, y }) => HandlerView {
                last_cursor_pos: LogicalPosition::at(x, y),
                ..self
            },
            Event::Window(HostWindowEvent::Resized(info)) => self.informed(info),
            _ => self,
        }
    }

    /// What becomes of an event: the host does not see what Slint was told of the mouse, nor
    /// that the window was resized, nor, where the editor says so, what Slint was told of keys.
    pub open spec fn event_status(self, event: Event<F, Seq<char>>) -> EventStatus {
        let captured = match event {
            Event::Mouse(event) => pointer_event(event, self.last_cursor_pos) is Some,
            Event::Keyboard(event) => {
                &&& key_event::<F>(event) is Some
                &&& self.prevent_key_event_propagation
            },
            Event::Window(event) => event is Resized,
        };
        if captured {
            EventStatus::Captured
        } else {
            EventStatus::Ignored
        }
    }
}

/// The state of one open window.
pub struct WindowHandler<F> {
    scale_factor: Scalar<F>,
    adapter: BaseviewSlintAdapter<F>,
    pending_resizes: Vec<(u32, u32)>,
    last_cursor_pos: LogicalPosition<F>,
    window_shown: bool,
    prevent_key_event_propagation: bool,
}

impl<F> View for WindowHandler<F> {
    type V = HandlerView<F>;

    closed spec fn view(&self) -> HandlerView<F> {
        HandlerView {
            scale_factor: self.scale_factor,
            adapter: self.adapter,
            pending_resizes: self.pending_resizes@,
            last_cursor_pos: self.last_cursor_pos,
            window_shown: self.window_shown,
            prevent_key_event_propagation: self.prevent_key_event_propagation,
        }
    }
}

/// Slint's name for a mouse button, if it has one.
fn slint_button(button: MouseButton) -> (slint_button: Option<PointerEventButton>)
    ensures
        slint_button == pointer_button(button),
{
    match button {
        MouseButton::Left => Some(PointerEventButton::Left),
        MouseButton::Right => Some(PointerEventButton::Right),
        MouseButton::Middle => Some(PointerEventButton::Middle),
        _ => None,
    }
}

/// Adds an effect to the list.
fn push_effect<F>(effects: &mut Vec<Effect<F, String>>, effect: Effect<F, String>)
    ensures
        effect_views(final(effects)@) == effect_views(old(effects)@).push(effect@),
{
    effects.push(effect);
    assert(effect_views(effects@) =~= effect_views(old(effects)@).push(effect@));
}

impl<F: Copy> WindowHandler<F> {
    /// The handler of a window that was just opened at the given logical size and scale factor.
    pub fn new(width: u32, height: u32, scale_factor: Scalar<F>) -> (handler: Self)
        ensures
            handler@ == HandlerView::opened(width, height, scale_factor),
    {
        let handler = WindowHandler {
            scale_factor,
            adapter: BaseviewSlintAdapter::new(
                PhysicalSize::scaled(width, height, scale_factor),
                scale_factor,
            ),
            pending_resizes: Vec::new(),
            last_cursor_pos: LogicalPosition::origin(),
            window_shown: false,
            prevent_key_event_propagation: false,
        };
        assert(handler@.pending_resizes =~= seq![]);
        handler
    }

    /// Resizes the window. `width` and `height` are in logical pixels.
    pub fn resize(
        &mut self,
        state: &mut SlintEditorState,
        effects: &mut Vec<Effect<F, String>>,
        width: u32,
        height: u32,
    )
        ensures
            final(self)@ == old(self)@.resized(width, height),
            final(state)@ == (width, height),
            effect_views(final(effects)@) == effect_views(old(effects)@) + resize_effects(
                width,
                height,
            ),
    {
        let scale = self.scale_factor;
        state.store(width, height);
        self.adapter.update_size(PhysicalSize::scaled(width, height, scale), scale);
        push_effect(
            effects,
            Effect::Dispatch(
                WindowEvent::Resized { size: LogicalSize::whole(width, height) },
            ),
        );
        push_effect(effects, Effect::RequestRedraw);
        push_effect(effects, Effect::RequestHostResize);
        push_effect(effects, Effect::ResizeWindow { width, height });
        assert(effect_views(effects@) =~= effect_views(old(effects)@) + resize_effects(
            width,
            height,
        ));
    }

    /// Takes over the size and scale that the window reports.
    fn handle_window_info(
        &mut self,
        state: &mut SlintEditorState,
        effects: &mut Vec<Effect<F, String>>,
        info: &WindowInfo<F>,
    )
        ensures
            final(self)@ == old(self)@.informed(*info),
            final(state)@ == (info.whole_width, info.whole_height),
            effect_views(final(effects)@) == effect_views(old(effects)@) + window_info_effects(
                *info,
            ),
    {
        let scale = Scalar::Given(info.scale);
        self.scale_factor = scale;
        self.adapter.update_size(
            PhysicalSize {
                width: PhysicalLength::Given(info.physical_width),
                height: PhysicalLength::Given(info.physical_height),
            },
            scale,
        );
        state.store(info.whole_width, info.whole_height);
        push_effect(
            effects,
            Effect::Dispatch(WindowEvent::ScaleFactorChanged { scale_factor: scale }),
        );
        push_effect(
            effects,
            Effect::Dispatch(
                WindowEvent::Resized {
                    size: LogicalSize {
                        width: Scalar::Given(info.logical_width),
                        height: Scalar::Given(info.logical_height),
                    },
                },
            ),
        );
        assert(effect_views(effects@) =~= effect_views(old(effects)@) + window_info_effects(*info));
    }

    /// Queues a resize to be applied next frame.
    pub fn queue_resize(&mut self, width: u32, height: u32)
        ensures
            final(self)@ == old(self)@.with_pending_resize(width, height),
    {
        self.pending_resizes.push((width, height));
    }

    /// The sizes that were asked for and not applied yet, the latest at the end.
    pub fn pending_resizes(&self) -> (queue: &Vec<(u32, u32)>)
        ensures
            queue@ == self@.pending_resizes,
    {
        &self.pending_resizes
    }

    /// Applies the latest of the sizes that were asked for and drops the others. Returns the
    /// size that was applied, if there was one.
    pub fn process_pending_resizes(
        &mut self,
        state: &mut SlintEditorState,
        effects: &mut Vec<Effect<F, String>>,
    ) -> (applied: Option<(u32, u32)>)
        ensures
            applied == old(self)@.latest_resize(),
            final(self)@ == old(self)@.with_resizes_processed(),
            final(state)@ == match applied {
                Some(size) => size,
                None => old(state)@,
            },
            effect_views(final(effects)@) == effect_views(old(effects)@) + (match applied {
                Some((width, height)) => resize_effects(width, height),
                None => seq![],
            }),
    {
        match self.pending_resizes.pop() {
            Some((width, height)) => {
                // Only the most recent request counts, to avoid lag.
                self.pending_resizes.clear();
                assert(self@.pending_resizes =~= seq![]);
                self.resize(state, effects, width, height);
                Some((width, height))
            },
            None => {
                assert(effect_views(effects@) =~= effect_views(effects@) + seq![]);
                None
            },
        }
    }

    /// What Slint is told when it asks its adapter.
    pub fn adapter(&self) -> (adapter: &BaseviewSlintAdapter<F>)
        ensures
            *adapter == self@.adapter,
    {
        &self.adapter
    }

    /// Says whether the host is kept from seeing the keys that Slint is told of.
    pub fn set_prevent_key_event_propagation(&mut self, is_enabled: bool)
        ensures
            final(self)@ == (HandlerView {
                prevent_key_event_propagation: is_enabled,
                ..old(self)@
            }),
    {
        self.prevent_key_event_propagation = is_enabled;
    }

    /// What is to be done to draw the next frame, in order. When the component has been shown,
    /// `component_shown` is to be called before the next step.
    pub fn on_frame(&self) -> (steps: Vec<FrameStep>)
        ensures
            steps@ == frame_plan(self@.window_shown),
    {
        let mut steps: Vec<FrameStep> = Vec::new();
        steps.push(FrameStep::MakeContextCurrent);
        if !self.window_shown {
            steps.push(FrameStep::LoadGlFunctions);
            steps.push(FrameStep::CreateRenderer);
            steps.push(FrameStep::ShowComponent);
            steps.push(FrameStep::RunSetupHandler);
        }
        steps.push(FrameStep::RunEventLoopHandler);
        steps.push(FrameStep::UpdateTimersAndAnimations);
        steps.push(FrameStep::ProcessPendingResizes);
        steps.push(FrameStep::RequestRedraw);
        steps.push(FrameStep::QueryNextTimerUpdate);
        steps.push(FrameStep::Render);
        steps.push(FrameStep::SwapBuffers);
        assert(steps@ =~= frame_plan(self@.window_shown));
        steps
    }

    /// Takes note that the component was shown. A frame that fails before that is tried again
    /// from the start.
    pub fn component_shown(&mut self)
        ensures
            final(self)@ == old(self)@.with_component_shown(),
    {
        self.window_shown = true;
    }

    /// Tells Slint of an event, as far as it is for Slint, and says what becomes of it.
    pub fn on_event(
        &mut self,
        state: &mut SlintEditorState,
        effects: &mut Vec<Effect<F, String>>,
        event: Event<F, String>,
    ) -> (status: EventStatus)
        ensures
            status == old(self)@.event_status(event@),
            final(self)@ == old(self)@.after_event(event@),
            final(state)@ == size_after_event(old(state)@, event@),
            effect_views(final(effects)@) == effect_views(old(effects)@) + event_effects(
                event@,
                old(self)@.last_cursor_pos,
            ),
    {
        match event {
            Event::Mouse(mouse_event) => self.on_mouse_event(effects, mouse_event),
            Event::Keyboard(key_event) => self.on_keyboard_event(effects, key_event),
            Event::Window(window_event) => match window_event {
                HostWindowEvent::Resized(info) => {
                    self.handle_window_info(state, effects, &info);
                    EventStatus::Captured
                },
                HostWindowEvent::Focused => EventStatus::Ignored,
                HostWindowEvent::Unfocused => EventStatus::Ignored,
                HostWindowEvent::WillClose => EventStatus::Ignored,
            },
        }
    }

    /// Tells Slint of a mouse event.
    fn on_mouse_event(
        &mut self,
        effects: &mut Vec<Effect<F, String>>,
        event: MouseEvent<F>,
    ) -> (status: EventStatus)
        ensures
            status == old(self)@.event_status(Event::Mouse(event)),
            final(self)@ == old(self)@.after_event(Event::Mouse(event)),
            effect_views(final(effects)@) == effect_views(old(effects)@) + event_effects(
                Event::Mouse(event),
                old(self)@.last_cursor_pos,
            ),
    {
        let slint_event = match event {
            MouseEvent::CursorMoved { x, y } => {
                let position = LogicalPosition::given(x, y);
                self.last_cursor_pos = position;
                WindowEvent::PointerMoved { position }
            },
            MouseEvent::ButtonPressed { button } => match slint_button(button) {
                Some(button) => WindowEvent::PointerPressed {
                    button,
                    position: self.last_cursor_pos,
                },
                None => return EventStatus::Ignored,
            },
            MouseEvent::ButtonReleased { button } => match slint_button(button) {
                Some(button) => WindowEvent::PointerReleased {
                    button,
                    position: self.last_cursor_pos,
                },
                None => return EventStatus::Ignored,
            },
            MouseEvent::WheelScrolled { delta } => {
                let (delta_x, delta_y) = match delta {
                    ScrollDelta::Lines { x, y } => (
                        Scalar::Times(x, PIXELS_PER_LINE),
                        Scalar::Times(y, PIXELS_PER_LINE),
                    ),
                    ScrollDelta::Pixels { x, y } => (Scalar::Given(x), Scalar::Given(y)),
                };
                WindowEvent::PointerScrolled {
                    position: LogicalPosition::origin(),
                    delta_x,
                    delta_y,
                }
            },
            _ => return EventStatus::Ignored,
        };
        push_effect(effects, Effect::Dispatch(slint_event));
        EventStatus::Captured
    }

    /// Tells Slint of a key, if a text stands for it.
    fn on_keyboard_event(
        &self,
        effects: &mut Vec<Effect<F, String>>,
        event: KeyboardEvent<String>,
    ) -> (status: EventStatus)
        ensures
            status == self@.event_status(Event::Keyboard(event@)),
            effect_views(final(effects)@) == effect_views(old(effects)@) + dispatch(
                key_event(event@),
            ),
    {
        let text = key_text(event.key, event.code);
        if text.as_str().is_empty() {
            return EventStatus::Ignored;
        }
        let slint_event = match event.state {
            KeyState::Down => if event.repeat {
                WindowEvent::KeyPressRepeated { text }
            } else {
                WindowEvent::KeyPressed { text }
            },
            KeyState::Up => WindowEvent::KeyReleased { text },
        };
        push_effect(effects, Effect::Dispatch(slint_event));
        if self.prevent_key_event_propagation {
            EventStatus::Captured
        } else {
            EventStatus::Ignored
        }
    }
}

} // verus!
