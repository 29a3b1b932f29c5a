//! The editor of a plug-in, from which windows are opened.

use crate::event::WindowEvent;
use crate::geometry::{LogicalSize, Scalar};
use crate::handler::{HandlerView, WindowHandler};
use crate::state::SlintEditorState;
use vstd::prelude::*;

verus! {

/// How the scale factor of a window is chosen.
#[derive(Clone, Copy, Debug, PartialEq, Eq)]
pub enum WindowScalePolicy {
    /// It is that of the system.
    SystemScaleFactor,
}

/// The OpenGL context that is asked for.
#[derive(Clone, Copy, Debug, PartialEq, Eq)]
pub struct GlConfig {
    pub version_major: u8,
    pub version_minor: u8,
    pub red_bits: u8,
    pub blue_bits: u8,
    pub green_bits: u8,
    pub alpha_bits: u8,
    pub depth_bits: u8,
    pub stencil_bits: u8,
    pub samples: Option<u8>,
    pub srgb: bool,
    pub double_buffer: bool,
    pub vsync: bool,
}

/// The window that is asked for.
pub struct WindowOpenOptions {
    pub scale: WindowScalePolicy,
    /// Width in logical pixels.
    pub width: u32,
    /// Height in logical pixels.
    pub height: u32,
    pub title: String,
    pub gl_config: GlConfig,
}

/// One thing to do while a window is opened.
#[derive(Debug, PartialEq)]
pub enum OpenStep<F> {
    /// Make the OpenGL context of the window current.
    MakeContextCurrent,
    /// Wire up the loader of OpenGL functions.
    LoadGlFunctions,
    /// Register the adapter of the window with the platform.
    RegisterAdapter,
    /// Make the platform known to Slint, unless that was done before in this process.
    InstallPlatform,
    /// Send the event to Slint's window.
    Dispatch(WindowEvent<F, String>),
    /// Create the component.
    CreateComponent,
}

/// The context that Slint's renderer draws with: OpenGL 3.2, eight bits for each colour channel.
pub open spec fn femtovg_gl_config() -> GlConfig {
    GlConfig {
        version_major: 3,
        version_minor: 2,
        red_bits: 8,
        blue_bits: 8,
        green_bits: 8,
        alpha_bits: 8,
        depth_bits: 24,
        stencil_bits: 8,
        samples: None,
        srgb: true,
        double_buffer: true,
        vsync: false,
    }
}

/// What is done while a window of the given logical size is opened at the given scale factor.
///
/// Slint learns the scale factor and the size before the component is created, so that the
/// first layout is right already; and the scale factor before the size, because it converts
/// the size by the scale factor that it knows.
pub open spec fn open_plan<F>(width: u32, height: u32, scale_factor: Scalar<F>) -> Seq<
    OpenStep<F>,
> {
    seq![
        OpenStep::MakeContextCurrent,
        OpenStep::LoadGlFunctions,
        OpenStep::RegisterAdapter,
        OpenStep::InstallPlatform,
        OpenStep::Dispatch(WindowEvent::ScaleFactorChanged { scale_factor }),
        OpenStep::Dispatch(WindowEvent::Resized { size: LogicalSize::of_whole(width, height) }),
        OpenStep::CreateComponent,
    ]
}

/// The editor of a plug-in.
///
/// The editor only carries what it is made of: `state`, the handle by which the shell shares
/// the saved size; `component_factory`, which makes the component of a window; and the two
/// handlers. `F` is the floating-point type of the shell.
pub struct SlintEditor<H, C, S, E, F> {
    pub component_factory: C,
    pub state: H,
    /// What is called every frame, if anything.
    pub event_loop_handler: Option<E>,
    /// What is called once, when the component of a window has been shown, if anything.
    pub setup_handler: Option<S>,
    /// The scale factor that the host reported, at which windows are opened.
    pub host_scale_factor: Scalar<F>,
}

impl<H, C, S, E, F: Copy> SlintEditor<H, C, S, E, F> {
    /// An editor without handlers, for a host that has reported no scale factor.
    pub fn new(state: H, factory: C) -> (editor: Self)
        ensures
            editor == (SlintEditor {
                component_factory: factory,
                state,
                event_loop_handler: None::<E>,
                setup_handler: None::<S>,
                host_scale_factor: Scalar::<F>::Whole(1),
            }),
    {
        SlintEditor {
            component_factory: factory,
            state,
            event_loop_handler: None,
            setup_handler: None,
            host_scale_factor: Scalar::Whole(1),
        }
    }

    /// Sets the handler that is called once, when the component of a window has been shown.
    pub fn with_setup(self, handler: S) -> (editor: Self)
        ensures
            editor == (SlintEditor { setup_handler: Some(handler), ..self }),
    {
        SlintEditor { setup_handler: Some(handler), ..self }
    }

    /// Sets the handler that is called every frame.
    pub fn with_event_loop(self, handler: E) -> (editor: Self)
        ensures
            editor == (SlintEditor { event_loop_handler: Some(handler), ..self }),
    {
        SlintEditor { event_loop_handler: Some(handler), ..self }
    }

    /// Takes over the scale factor that the host reports, which is always agreed to.
    pub fn set_scale_factor(&mut self, factor: F) -> (agreed: bool)
        ensures
            agreed,
            *final(self) == (SlintEditor {
                host_scale_factor: Scalar::Given(factor),
                ..*old(self)
            }),
    {
        self.host_scale_factor = Scalar::Given(factor);
        true
    }

    /// The size that the host is told, in logical pixels: the one on record.
    pub fn size(&self, state: &SlintEditorState) -> (size: (u32, u32))
        ensures
            size == state@,
    {
        state.size()
    }

    /// The window to be opened: one of the size on record.
    pub fn spawn(&self, state: &SlintEditorState) -> (options: WindowOpenOptions)
        ensures
            options.scale == WindowScalePolicy::SystemScaleFactor,
            (options.width, options.height) == state@,
            options.title@ == "Plug-in"@,
            options.gl_config == femtovg_gl_config(),
    {
        let (width, height) = state.size();
        WindowOpenOptions {
            scale: WindowScalePolicy::SystemScaleFactor,
            width,
            height,
            title: "Plug-in".to_owned(),
            gl_config: GlConfig {
                version_major: 3,
                version_minor: 2,
                red_bits: 8,
                blue_bits: 8,
                green_bits: 8,
                alpha_bits: 8,
                depth_bits: 24,
                stencil_bits: 8,
                samples: None,
                srgb: true,
                double_buffer: true,
                vsync: false,
            },
        }
    }

    /// The handler of a window that is being opened at the given logical size, and what is to
    /// be done to open it, in order.
    pub fn open_window(&self, width: u32, height: u32) -> (opened: (
        WindowHandler<F>,
        Vec<OpenStep<F>>,
    ))
        ensures
            opened.0@ == HandlerView::opened(width, height, self.host_scale_factor),
            opened.1@ == open_plan(width, height, self.host_scale_factor),
    {
        let scale_factor = self.host_scale_factor;
        let handler = WindowHandler::new(width, height, scale_factor);
        let mut steps: Vec<OpenStep<F>> = Vec::new();
        steps.push(OpenStep::MakeContextCurrent);
        steps.push(OpenStep::LoadGlFunctions);
        steps.push(OpenStep::RegisterAdapter);
        steps.push(OpenStep::InstallPlatform);
        steps.push(OpenStep::Dispatch(WindowEvent::ScaleFactorChanged { scale_factor }));
        steps.push(
            OpenStep::Dispatch(WindowEvent::Resized { size: LogicalSize::whole(width, height) }),
        );
        steps.push(OpenStep::CreateComponent);
        assert(steps@ =~= open_plan(width, height, scale_factor));
        (handler, steps)
    }
}

} // verus!
