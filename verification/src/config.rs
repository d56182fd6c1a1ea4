//! The Configuration Marshaler.
//!
//! A configuration record crosses the boundary as plain values: raw title
//! bytes and the window geometry. Marshaling validates the title as UTF-8
//! and passes the dimensions through unchanged as logical pixel units; a
//! title that is not valid UTF-8 is reported as `InvalidEncoding` rather
//! than reaching the OS window layer.

use vstd::prelude::*;

use crate::utf8::is_utf8;
use crate::utf8::is_valid_utf8;

verus! {

/// Why the bridge refused to start or stopped: the title bytes were not
/// UTF-8, the OS could not create a window, or the OS dispatch loop failed
/// to run. Each is reported to the caller instead of aborting the process.
#[derive(Clone, Copy, Debug, PartialEq, Eq, Structural)]
pub enum HostError {
    InvalidEncoding,
    WindowCreationFailed,
    LoopExecutionFailed,
}

/// The configuration record for the host, as it arrives from the caller:
/// the title bytes are not yet known to be UTF-8, the dimensions are
/// logical pixel units with no declared bound, and the flag says whether
/// the window manager may let the user resize the window.
pub struct HostConfiguration {
    pub window_title: Vec<u8>,
    pub window_width: u32,
    pub window_height: u32,
    pub is_resizable: bool,
}

/// A marshaled configuration, ready for window creation: the title is
/// known to be valid UTF-8 and the geometry is exactly what the caller
/// supplied.
pub struct WindowSettings {
    pub title: Vec<u8>,
    pub width: u32,
    pub height: u32,
    pub resizable: bool,
}

impl WindowSettings {
    /// What window creation may assume of a marshaled configuration.
    pub open spec fn well_formed(self) -> bool {
        is_utf8(self.title@)
    }
}

/// Validates the raw title bytes: hands them back unchanged when they are
/// valid UTF-8, and reports `InvalidEncoding` otherwise.
pub fn decode_title(title: Vec<u8>) -> (r: Result<Vec<u8>, HostError>)
    ensures
        is_utf8(title@) ==> r == Ok::<Vec<u8>, HostError>(title),
        !is_utf8(title@) ==> r == Err::<Vec<u8>, HostError>(HostError::InvalidEncoding),
{
    if is_valid_utf8(&title) {
        Ok(title)
    } else {
        Err(HostError::InvalidEncoding)
    }
}

/// Passes the dimensions through unchanged as logical pixel units. No range
/// is enforced: zero or degenerate values go to the OS window layer as they
/// came, whose behavior for them is implementation-defined.
pub fn decode_dimensions(width: u32, height: u32) -> (r: (u32, u32))
    ensures
        r.0 == width,
        r.1 == height,
{
    (width, height)
}

/// Marshals a whole configuration record. Succeeds exactly when the title
/// bytes are valid UTF-8, keeping every field as the caller supplied it;
/// fails with `InvalidEncoding` otherwise.
pub fn decode_configuration(config: HostConfiguration) -> (r: Result<WindowSettings, HostError>)
    ensures
        is_utf8(config.window_title@) ==> {
            &&& r matches Ok(s)
            &&& s.title@ == config.window_title@
            &&& s.width == config.window_width
            &&& s.height == config.window_height
            &&& s.resizable == config.is_resizable
            &&& s.well_formed()
        },
        !is_utf8(config.window_title@) ==> r == Err::<WindowSettings, HostError>(
            HostError::InvalidEncoding,
        ),
{
    let HostConfiguration { window_title, window_width, window_height, is_resizable } = config;
    match decode_title(window_title) {
        Ok(title) => {
            let (width, height) = decode_dimensions(window_width, window_height);
            Ok(WindowSettings { title, width, height, resizable: is_resizable })
        },
        Err(e) => Err(e),
    }
}

} // verus!
