//! Lengths, positions and sizes.
//!
//! Slint and baseview measure in floating point, which the verifier does not reason about.
//! The library therefore never computes with such numbers. It is generic in their type `F`,
//! carries the ones it is given, and where it needs a new one it says which one it is; the
//! shell around the library works the value out.

use vstd::prelude::*;

verus! {

/// A number of the shell's floating-point type `F`, given or described.
#[derive(Clone, Copy, Debug, PartialEq)]
pub enum Scalar<F> {
    /// A number that came from outside.
    Given(F),
    /// The whole number, converted to `F`.
    Whole(u32),
    /// The number that came from outside, multiplied by the whole number.
    Times(F, u32),
}

/// A position in logical pixels.
#[derive(Clone, Copy, Debug, PartialEq)]
pub struct LogicalPosition<F> {
    pub x: Scalar<F>,
    pub y: Scalar<F>,
}

/// A size in logical pixels.
#[derive(Clone, Copy, Debug, PartialEq)]
pub struct LogicalSize<F> {
    pub width: Scalar<F>,
    pub height: Scalar<F>,
}

/// A length in physical pixels, given or described.
#[derive(Clone, Copy, Debug, PartialEq)]
pub enum PhysicalLength<F> {
    /// A length that came from outside.
    Given(u32),
    /// The logical length, converted to `F`, multiplied by the scale factor, and converted
    /// back to `u32` as Rust's `as` does: rounded towards zero, a value out of range taken to
    /// the nearest end of it, and 0 for what is not a number.
    Scaled {
        logical: u32,
        scale_factor: Scalar<F>,
    },
}

/// A size in physical pixels.
#[derive(Clone, Copy, Debug, PartialEq)]
pub struct PhysicalSize<F> {
    pub width: PhysicalLength<F>,
    pub height: PhysicalLength<F>,
}

impl<F: Copy> LogicalPosition<F> {
    /// The position that came from outside.
    pub fn given(x: F, y: F) -> (position: Self)
        ensures
            position == Self::at(x, y),
            position.x == Scalar::Given(x),
            position.y == Scalar::Given(y),
    {
        LogicalPosition { x: Scalar::Given(x), y: Scalar::Given(y) }
    }

    /// The top left corner of the window.
    pub fn origin() -> (position: Self)
        ensures
            position == Self::at_origin(),
            position.x == Scalar::<F>::Whole(0),
            position.y == Scalar::<F>::Whole(0),
    {
        LogicalPosition { x: Scalar::Whole(0), y: Scalar::Whole(0) }
    }
}

impl<F> LogicalPosition<F> {
    /// The position that came from outside.
    pub open spec fn at(x: F, y: F) -> Self {
        LogicalPosition { x: Scalar::Given(x), y: Scalar::Given(y) }
    }

    /// The top left corner of the window.
    pub open spec fn at_origin() -> Self {
        LogicalPosition { x: Scalar::Whole(0), y: Scalar::Whole(0) }
    }
}

impl<F> LogicalSize<F> {
    /// The size of that many whole logical pixels.
    pub open spec fn of_whole(width: u32, height: u32) -> Self {
        LogicalSize { width: Scalar::Whole(width), height: Scalar::Whole(height) }
    }
}

impl<F: Copy> LogicalSize<F> {
    /// The size of that many whole logical pixels.
    pub fn whole(width: u32, height: u32) -> (size: Self)
        ensures
            size == Self::of_whole(width, height),
            size.width == Scalar::<F>::Whole(width),
            size.height == Scalar::<F>::Whole(height),
    {
        LogicalSize { width: Scalar::Whole(width), height: Scalar::Whole(height) }
    }
}

impl<F> PhysicalSize<F> {
    /// What a logical size comes to in physical pixels at the given scale factor.
    pub open spec fn of_logical(width: u32, height: u32, scale_factor: Scalar<F>) -> Self {
        PhysicalSize {
            width: PhysicalLength::Scaled { logical: width, scale_factor },
            height: PhysicalLength::Scaled { logical: height, scale_factor },
        }
    }
}

impl<F: Copy> PhysicalSize<F> {
    /// What a logical size comes to in physical pixels at the given scale factor.
    pub fn scaled(width: u32, height: u32, scale_factor: Scalar<F>) -> (size: Self)
        ensures
            size == Self::of_logical(width, height, scale_factor),
            size.width == (PhysicalLength::Scaled { logical: width, scale_factor }),
            size.height == (PhysicalLength::Scaled { logical: height, scale_factor }),
    {
        PhysicalSize {
            width: PhysicalLength::Scaled { logical: width, scale_factor },
            height: PhysicalLength::Scaled { logical: height, scale_factor },
        }
    }
}

} // verus!
