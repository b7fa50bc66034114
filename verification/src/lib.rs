//! Library for painting an in-memory raster image onto an X display's root
//! window and installing it as the desktop background.
//!
//! The verified core covers pixel-format handling ([`img::RgbShifts`]),
//! conversion of typed sample buffers into the device's 32-bit word layout,
//! discovery of the root visual's channel layout, and the decision logic of
//! the wallpaper-cooperation protocol.  The thin shell that talks to the
//! display server lives outside this crate and feeds plain values in and out.

use vstd::prelude::*;

pub mod coop;
pub mod err;
pub mod img;
pub mod visual;

pub use err::Error;

verus! {

/// Description of a monitor, as reported by the display server's monitor
/// query.  Plain data; the query itself is issued by the caller.
#[derive(Clone, Debug, PartialEq, Eq)]
pub struct Monitor {
    pub name: Option<String>,
    pub primary: bool,
    pub x: i16,
    pub y: i16,
    pub width: u16,
    pub height: u16,
    pub width_in_millimeters: u32,
    pub height_in_millimeters: u32,
}

/// Validates a screen number supplied by a caller.  A screen number is valid
/// exactly when it is non-negative; a negative one is reported as
/// [`err::BadScreenNumber`] carrying the offending value.
pub fn validate_screen_number(screen_num: i32) -> (r: Result<usize, err::BadScreenNumber>)
    ensures
        screen_num >= 0 ==> r == Ok::<usize, err::BadScreenNumber>(screen_num as usize),
        screen_num < 0 ==> r == Err::<usize, err::BadScreenNumber>(
            err::BadScreenNumber(screen_num)),
{
    if screen_num >= 0 {
        Ok(screen_num as usize)
    } else {
        Err(err::BadScreenNumber(screen_num))
    }
}

} // verus!
