//! Error types of the library.
//!
//! Construction-time validation failures are always reported to the caller
//! through these types; they are never silently coerced.

use vstd::prelude::*;

verus! {

/// The class of a visual, as the display server reports it.
///
/// Only [`VisualClass::TrueColor`] visuals are supported by this library; the
/// other classes can still appear inside an [`Error::UnsupportedVisual`].
#[derive(Clone, Copy, Debug, PartialEq, Eq, Structural)]
pub enum VisualClass {
    StaticGray,
    GrayScale,
    StaticColor,
    PseudoColor,
    TrueColor,
    DirectColor,
}

/// Errors reported by the library's validation and discovery logic.
#[derive(Clone, Copy, Debug, PartialEq, Eq, Structural)]
pub enum Error {
    /// Unrecognised screen number, i.e. negative or does not match any
    /// existing screen.
    BadScreenNumber(i32),
    /// Display server uses an unsupported visual.  This library supports 24-
    /// or 32-bit TrueColour visuals only.  Carries the root depth and the
    /// visual's class.
    UnsupportedVisual(u8, VisualClass),
    /// Failed to locate a visual that matches the root visual.  Carries the
    /// root visual's identifier.
    CouldNotFindRootVisual(u32),
    /// Image too large.  Image dimensions must fit a 16-bit unsigned integer.
    ImageTooLarge(u32, u32),
    /// The image buffer size does not match the image dimensions.  Carries
    /// the buffer's byte length and the declared width and height.
    BadBufferSize(usize, u16, u16),
}

/// Unrecognised screen number, i.e. negative or does not match any existing
/// screen.
#[derive(Clone, Copy, Debug, PartialEq, Eq, Structural)]
pub struct BadScreenNumber(pub i32);

impl From<BadScreenNumber> for Error {
    fn from(err: BadScreenNumber) -> (r: Error) {
        Error::BadScreenNumber(err.0)
    }
}

impl vstd::std_specs::convert::FromSpecImpl<BadScreenNumber> for Error {
    open spec fn obeys_from_spec() -> bool {
        true
    }

    open spec fn from_spec(err: BadScreenNumber) -> Error {
        Error::BadScreenNumber(err.0)
    }
}

/// The image dimensions are too large to fit `u16`.
#[derive(Clone, Copy, Debug, PartialEq, Eq, Structural)]
pub struct ImageTooLarge(pub u32, pub u32);

impl From<ImageTooLarge> for Error {
    fn from(err: ImageTooLarge) -> (r: Error) {
        Error::ImageTooLarge(err.0, err.1)
    }
}

impl vstd::std_specs::convert::FromSpecImpl<ImageTooLarge> for Error {
    open spec fn obeys_from_spec() -> bool {
        true
    }

    open spec fn from_spec(err: ImageTooLarge) -> Error {
        Error::ImageTooLarge(err.0, err.1)
    }
}

/// The image buffer size does not match the image dimensions.
#[derive(Clone, Copy, Debug, PartialEq, Eq, Structural)]
pub struct BadBufferSize(pub usize, pub u16, pub u16);

impl From<BadBufferSize> for Error {
    fn from(err: BadBufferSize) -> (r: Error) {
        Error::BadBufferSize(err.0, err.1, err.2)
    }
}

impl vstd::std_specs::convert::FromSpecImpl<BadBufferSize> for Error {
    open spec fn obeys_from_spec() -> bool {
        true
    }

    open spec fn from_spec(err: BadBufferSize) -> Error {
        Error::BadBufferSize(err.0, err.1, err.2)
    }
}

} // verus!
