//! Capture filters: one target display and what to include or leave out.

use vstd::prelude::*;
use crate::content::{ApplicationRef, ContentSnapshot, Display, WindowRef};
use crate::error::Error;

verus! {

/// Selects one display, the applications whose windows are captured on it and
/// the windows that are left out all the same.
///
/// A filter is a value derived from one snapshot. It is not checked again
/// against a later one: when the display has gone since, starting a stream
/// with the filter is what fails.
#[derive(Debug, Clone, PartialEq, Eq)]
pub struct CaptureFilter {
    display: Display,
    included_apps: Vec<ApplicationRef>,
    excluded_windows: Vec<WindowRef>,
}

impl CaptureFilter {
    /// The target display.
    pub closed spec fn spec_display(self) -> Display {
        self.display
    }

    /// The applications whose windows are captured.
    pub closed spec fn spec_included_apps(self) -> Seq<ApplicationRef> {
        self.included_apps@
    }

    /// The windows that are left out.
    pub closed spec fn spec_excluded_windows(self) -> Seq<WindowRef> {
        self.excluded_windows@
    }

    /// The target display.
    pub fn display(&self) -> (display: Display)
        ensures
            display == self.spec_display(),
    {
        self.display
    }

    /// The applications whose windows are captured.
    pub fn included_apps(&self) -> (apps: &Vec<ApplicationRef>)
        ensures
            apps@ == self.spec_included_apps(),
    {
        &self.included_apps
    }

    /// The windows that are left out.
    pub fn excluded_windows(&self) -> (windows: &Vec<WindowRef>)
        ensures
            windows@ == self.spec_excluded_windows(),
    {
        &self.excluded_windows
    }
}

/// Builds the filter that targets display number `display_index` of
/// `snapshot`. The index must name a display of the snapshot; the two lists
/// are taken as they are.
pub fn build_filter(
    snapshot: &ContentSnapshot,
    display_index: usize,
    included_apps: Vec<ApplicationRef>,
    excluded_windows: Vec<WindowRef>,
) -> (built: Result<CaptureFilter, Error>)
    ensures
        display_index < snapshot.spec_displays().len() ==> {
            &&& built matches Ok(filter)
            &&& filter.spec_display() == snapshot.spec_displays()[display_index as int]
            &&& filter.spec_included_apps() == included_apps@
            &&& filter.spec_excluded_windows() == excluded_windows@
        },
        display_index >= snapshot.spec_displays().len() ==> built == Err::<CaptureFilter, Error>(
            Error::IndexOutOfRange,
        ),
{
    let displays = snapshot.displays();
    if display_index < displays.len() {
        Ok(CaptureFilter { display: displays[display_index], included_apps, excluded_windows })
    } else {
        Err(Error::IndexOutOfRange)
    }
}

} // verus!
