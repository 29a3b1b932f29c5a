//! What the window reports, what Slint is told, and what the shell is asked to do.
//!
//! The types that hold text are generic in it: the program uses `String`, contracts speak of
//! the same types over `Seq<char>`.

use crate::geometry::{LogicalPosition, LogicalSize, Scalar};
use vstd::prelude::*;

verus! {

/// A mouse button, as the window reports it.
#[derive(Clone, Copy, Debug, PartialEq, Eq)]
pub enum MouseButton {
    Left,
    Middle,
    Right,
    Back,
    Forward,
    Other(u8),
}

/// How far the wheel was turned.
#[derive(Clone, Copy, Debug, PartialEq)]
pub enum ScrollDelta<F> {
    /// In lines of text.
    Lines {
        x: F,
        y: F,
    },
    /// In logical pixels.
    Pixels {
        x: F,
        y: F,
    },
}

/// Something that happened to the mouse.
#[derive(Clone, Copy, Debug, PartialEq)]
pub enum MouseEvent<F> {
    /// The cursor is now here, in logical pixels.
    CursorMoved {
        x: F,
        y: F,
    },
    ButtonPressed {
        button: MouseButton,
    },
    ButtonReleased {
        button: MouseButton,
    },
    WheelScrolled {
        delta: ScrollDelta<F>,
    },
    CursorEntered,
    CursorLeft,
    DragEntered,
    DragMoved,
    DragLeft,
    DragDropped,
}

/// Whether a key went down or up.
#[derive(Clone, Copy, Debug, PartialEq, Eq)]
pub enum KeyState {
    Down,
    Up,
}

/// What a key means in the active layout.
#[derive(Debug, PartialEq, Eq)]
pub enum Key<T> {
    /// It types this text.
    Character(T),
    /// It types no text of its own.
    Named,
}

/// Where a key sits on the keyboard, as far as it matters here.
#[derive(Clone, Copy, Debug, PartialEq, Eq)]
pub enum Code {
    Enter,
    Tab,
    Space,
    Backspace,
    Escape,
    ArrowUp,
    ArrowDown,
    ArrowLeft,
    ArrowRight,
    ShiftLeft,
    ShiftRight,
    ControlLeft,
    ControlRight,
    AltLeft,
    AltRight,
    MetaLeft,
    MetaRight,
    /// Any other place.
    Other,
}

/// Something that happened to a key.
#[derive(Debug, PartialEq, Eq)]
pub struct KeyboardEvent<T> {
    pub state: KeyState,
    pub key: Key<T>,
    pub code: Code,
    /// Whether the key was down already and is repeated because it is held.
    pub repeat: bool,
}

/// What the window says of its own size and scale.
#[derive(Clone, Copy, Debug, PartialEq)]
pub struct WindowInfo<F> {
    /// The scale factor of the display.
    pub scale: F,
    /// Width in physical pixels.
    pub physical_width: u32,
    /// Height in physical pixels.
    pub physical_height: u32,
    /// Width in logical pixels.
    pub logical_width: F,
    /// Height in logical pixels.
    pub logical_height: F,
    /// Width in logical pixels, converted to `u32` as Rust's `as` does: rounded towards zero.
    pub whole_width: u32,
    /// Height in logical pixels, converted to `u32` as Rust's `as` does: rounded towards zero.
    pub whole_height: u32,
}

/// Something that happened to the window.
#[derive(Clone, Copy, Debug, PartialEq)]
pub enum HostWindowEvent<F> {
    /// The size, the scale factor, or both changed.
    Resized(WindowInfo<F>),
    Focused,
    Unfocused,
    WillClose,
}

/// An event of the window.
#[derive(Debug, PartialEq)]
pub enum Event<F, T> {
    Mouse(MouseEvent<F>),
    Keyboard(KeyboardEvent<T>),
    Window(HostWindowEvent<F>),
}

/// What becomes of an event.
#[derive(Clone, Copy, Debug, PartialEq, Eq)]
pub enum EventStatus {
    /// The editor handled it; the host does not see it.
    Captured,
    /// It goes back to the host.
    Ignored,
}

/// A mouse button that Slint is told of.
#[derive(Clone, Copy, Debug, PartialEq, Eq)]
pub enum PointerEventButton {
    Left,
    Right,
    Middle,
}

/// An event that Slint's window is sent.
#[derive(Debug, PartialEq)]
pub enum WindowEvent<F, T> {
    PointerMoved {
        position: LogicalPosition<F>,
    },
    PointerPressed {
        button: PointerEventButton,
        position: LogicalPosition<F>,
    },
    PointerReleased {
        button: PointerEventButton,
        position: LogicalPosition<F>,
    },
    PointerScrolled {
        position: LogicalPosition<F>,
        delta_x: Scalar<F>,
        delta_y: Scalar<F>,
    },
    KeyPressed {
        text: T,
    },
    KeyPressRepeated {
        text: T,
    },
    KeyReleased {
        text: T,
    },
    ScaleFactorChanged {
        scale_factor: Scalar<F>,
    },
    Resized {
        size: LogicalSize<F>,
    },
}

/// Something that the shell is asked to do.
#[derive(Debug, PartialEq)]
pub enum Effect<F, T> {
    /// Send the event to Slint's window.
    Dispatch(WindowEvent<F, T>),
    /// Ask Slint's window to be drawn again.
    RequestRedraw,
    /// Ask the host to take over the size that the editor now reports.
    RequestHostResize,
    /// Give the window this size, in logical pixels.
    ResizeWindow {
        width: u32,
        height: u32,
    },
}

impl View for Key<String> {
    type V = Key<Seq<char>>;

    open spec fn view(&self) -> Key<Seq<char>> {
        match self {
            Key::Character(text) => Key::Character(text@),
            Key::Named => Key::Named,
        }
    }
}

impl View for KeyboardEvent<String> {
    type V = KeyboardEvent<Seq<char>>;

    open spec fn view(&self) -> KeyboardEvent<Seq<char>> {
        KeyboardEvent {
            state: self.state,
            key: self.key@,
            code: self.code,
            repeat: self.repeat,
        }
    }
}

impl<F> View for Event<F, String> {
    type V = Event<F, Seq<char>>;

    open spec fn view(&self) -> Event<F, Seq<char>> {
        match self {
            Event::Mouse(event) => Event::Mouse(*event),
            Event::Keyboard(event) => Event::Keyboard(event@),
            Event::Window(event) => Event::Window(*event),
        }
    }
}

impl<F> View for WindowEvent<F, String> {
    type V = WindowEvent<F, Seq<char>>;

    open spec fn view(&self) -> WindowEvent<F, Seq<char>> {
        match *self {
            WindowEvent::PointerMoved { position } => WindowEvent::PointerMoved { position },
            WindowEvent::PointerPressed { button, position } => WindowEvent::PointerPressed {
                button,
                position,
            },
            WindowEvent::PointerReleased { button, position } => WindowEvent::PointerReleased {
                button,
                position,
            },
            WindowEvent::PointerScrolled {
                position,
                delta_x,
                delta_y,
            } => WindowEvent::PointerScrolled { position, delta_x, delta_y },
            WindowEvent::KeyPressed { text } => WindowEvent::KeyPressed { text: text@ },
            WindowEvent::KeyPressRepeated { text } => WindowEvent::KeyPressRepeated { text: text@ },
            WindowEvent::KeyReleased { text } => WindowEvent::KeyReleased { text: text@ },
            WindowEvent::ScaleFactorChanged { scale_factor } => WindowEvent::ScaleFactorChanged {
                scale_factor,
            },
            WindowEvent::Resized { size } => WindowEvent::Resized { size },
        }
    }
}

impl<F> View for Effect<F, String> {
    type V = Effect<F, Seq<char>>;

    open spec fn view(&self) -> Effect<F, Seq<char>> {
        match *self {
            Effect::Dispatch(event) => Effect::Dispatch(event@),
            Effect::RequestRedraw => Effect::RequestRedraw,
            Effect::RequestHostResize => Effect::RequestHostResize,
            Effect::ResizeWindow { width, height } => Effect::ResizeWindow { width, height },
        }
    }
}

/// The effects with the text in them taken by its characters.
pub open spec fn effect_views<F>(effects: Seq<Effect<F, String>>) -> Seq<Effect<F, Seq<char>>> {
    effects.map_values(|effect: Effect<F, String>| effect@)
}

} // verus!
