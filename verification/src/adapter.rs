//! The bridge between the window and Slint.

use crate::geometry::{PhysicalSize, Scalar};
use vstd::prelude::*;

verus! {

/// What Slint asks its window adapter for: how large the framebuffer is, and at which scale.
#[derive(Clone, Copy, Debug, PartialEq)]
pub struct BaseviewSlintAdapter<F> {
    /// Physical size in actual pixels, for the OpenGL framebuffer.
    pub physical_size: PhysicalSize<F>,
    /// Scale factor, for example 2 on Retina displays.
    pub scale_factor: Scalar<F>,
}

impl<F: Copy> BaseviewSlintAdapter<F> {
    /// An adapter for a window of the given physical size and scale factor.
    pub fn new(physical_size: PhysicalSize<F>, scale_factor: Scalar<F>) -> (adapter: Self)
        ensures
            adapter == (BaseviewSlintAdapter { physical_size, scale_factor }),
    {
        BaseviewSlintAdapter { physical_size, scale_factor }
    }

    /// Replaces the size and the scale factor, when the window is resized or moved to a
    /// display of another scale.
    pub fn update_size(&mut self, physical_size: PhysicalSize<F>, scale_factor: Scalar<F>)
        ensures
            *final(self) == (BaseviewSlintAdapter { physical_size, scale_factor }),
    {
        self.physical_size = physical_size;
        self.scale_factor = scale_factor;
    }

    /// The size of the framebuffer.
    pub fn size(&self) -> (size: PhysicalSize<F>)
        ensures
            size == self.physical_size,
    {
        self.physical_size
    }
}

/// Why Slint could not be given a window adapter.
#[derive(Clone, Copy, Debug, PartialEq, Eq)]
pub enum PlatformError {
    /// No window has been opened yet.
    NoAdapterSet,
}

impl PlatformError {
    /// What the error says.
    pub open spec fn message_text(self) -> Seq<char> {
        match self {
            PlatformError::NoAdapterSet => "No adapter set"@,
        }
    }

    /// What the error says.
    pub fn message(&self) -> (message: String)
        ensures
            message@ == self.message_text(),
            message@ == "No adapter set"@,
    {
        match self {
            PlatformError::NoAdapterSet => "No adapter set".to_owned(),
        }
    }
}

/// The platform that Slint asks for the adapter of the window being opened.
///
/// Slint takes one platform per process, while windows come and go, so the platform keeps the
/// adapter of the window that was opened last.
pub struct BaseviewSlintPlatform<A> {
    current: Option<A>,
}

impl<A> View for BaseviewSlintPlatform<A> {
    type V = Option<A>;

    /// The adapter registered last.
    closed spec fn view(&self) -> Option<A> {
        self.current
    }
}

impl<A> BaseviewSlintPlatform<A> {
    /// A platform that no adapter was registered with.
    pub fn new() -> (platform: Self)
        ensures
            platform@ == None::<A>,
    {
        BaseviewSlintPlatform { current: None }
    }

    /// Makes `adapter` the one that is handed out, in place of any earlier one.
    pub fn register(&mut self, adapter: A)
        ensures
            final(self)@ == Some(adapter),
    {
        self.current = Some(adapter);
    }

    /// The adapter registered last, or the error that there is none.
    pub fn create_window_adapter(&self) -> (adapter: Result<&A, PlatformError>)
        ensures
            adapter == match self@ {
                Some(current) => Ok::<&A, PlatformError>(&current),
                None => Err(PlatformError::NoAdapterSet),
            },
    {
        match &self.current {
            Some(current) => Ok(current),
            None => Err(PlatformError::NoAdapterSet),
        }
    }
}

} // verus!
