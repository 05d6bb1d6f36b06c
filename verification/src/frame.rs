//! Frames and the sink that receives them.

use vstd::prelude::*;

verus! {

/// What a delivered sample carries.
#[derive(Debug, Clone, Copy, PartialEq, Eq, Structural)]
pub enum FrameKind {
    /// Screen content.
    Screen,
    /// Anything else, such as audio.
    Other,
}

impl FrameKind {
    /// The kind that the system's output-type tag `raw` stands for: zero is
    /// screen content, every other tag is something else.
    pub open spec fn of_output_type(raw: i64) -> FrameKind {
        if raw == 0 {
            FrameKind::Screen
        } else {
            FrameKind::Other
        }
    }

    /// Reads the system's output-type tag.
    pub fn from_output_type(raw: i64) -> (kind: FrameKind)
        ensures
            kind == Self::of_output_type(raw),
    {
        if raw == 0 {
            FrameKind::Screen
        } else {
            FrameKind::Other
        }
    }
}

/// One delivered sample. The session does not look inside: `sample` is the
/// token by which the surrounding program finds the sample's data.
#[derive(Debug, Clone, Copy, PartialEq, Eq)]
pub struct Frame {
    pub sample: u64,
}

/// The capability to receive frames.
///
/// The frame is lent for the duration of the call and nothing is returned:
/// what a sink does with a frame is its own affair, and the session's state
/// does not depend on it.
pub trait FrameSink: Sized {
    /// Whether a sink that was `self` may be `after` once it has received
    /// `frame` of kind `kind`. A sink says here as much of itself as it wants
    /// known to those who hand it frames; unless it says otherwise, nothing.
    open spec fn receives(self, after: Self, frame: Frame, kind: FrameKind) -> bool {
        true
    }

    fn on_frame(&mut self, frame: &Frame, kind: FrameKind)
        ensures
            old(self).receives(*final(self), *frame, kind),
    ;
}

/// Adds one to a tally, which stays at the largest value once it is reached.
pub open spec fn tally_up(count: u64) -> u64 {
    if count < u64::MAX {
        (count + 1) as u64
    } else {
        count
    }
}

/// A sink that only counts what it receives.
#[derive(Debug, Clone, Copy, PartialEq, Eq)]
pub struct CountingSink {
    /// Frames of screen content received so far.
    pub screen: u64,
    /// Other frames received so far.
    pub other: u64,
}

impl CountingSink {
    /// A sink that has received nothing.
    pub fn new() -> (sink: Self)
        ensures
            sink.screen == 0,
            sink.other == 0,
    {
        CountingSink { screen: 0, other: 0 }
    }

    /// All frames received so far, of either kind; `u64::MAX` when there
    /// were more than that.
    pub fn total(&self) -> (total: u64)
        ensures
            total == if self.screen + self.other <= u64::MAX {
                self.screen + self.other
            } else {
                u64::MAX as int
            },
    {
        self.screen.saturating_add(self.other)
    }
}

impl FrameSink for CountingSink {
    /// One more frame of the kind is counted, and nothing else changes.
    open spec fn receives(self, after: Self, frame: Frame, kind: FrameKind) -> bool {
        match kind {
            FrameKind::Screen => after.screen == tally_up(self.screen) && after.other == self.other,
            FrameKind::Other => after.other == tally_up(self.other) && after.screen == self.screen,
        }
    }

    fn on_frame(&mut self, frame: &Frame, kind: FrameKind) {
        match kind {
            FrameKind::Screen => {
                if self.screen < u64::MAX {
                    self.screen = self.screen + 1;
                }
            },
            FrameKind::Other => {
                if self.other < u64::MAX {
                    self.other = self.other + 1;
                }
            },
        }
    }
}

} // verus!
