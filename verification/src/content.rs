//! The content directory: what the system offers for capture at one moment.

use vstd::prelude::*;
use crate::error::Error;

verus! {

/// A rectangle of pixels in the global display coordinate space.
#[derive(Debug, Clone, Copy, PartialEq, Eq)]
pub struct PixelBounds {
    pub x: i32,
    pub y: i32,
    pub width: u32,
    pub height: u32,
}

/// `value`, or the nearer of `low` and `high` where it lies outside them.
pub open spec fn clamped(value: int, low: int, high: int) -> int {
    if value < low {
        low
    } else if value > high {
        high
    } else {
        value
    }
}

impl PixelBounds {
    /// The bounds that the system's numbers describe, each brought into the
    /// range of its field: an origin is moved to the nearest coordinate that
    /// there is, a negative extent counts as none, and one that is too large
    /// as the largest.
    pub fn from_native(x: i64, y: i64, width: i64, height: i64) -> (bounds: Self)
        ensures
            bounds.x == clamped(x as int, i32::MIN as int, i32::MAX as int),
            bounds.y == clamped(y as int, i32::MIN as int, i32::MAX as int),
            bounds.width == clamped(width as int, 0, u32::MAX as int),
            bounds.height == clamped(height as int, 0, u32::MAX as int),
    {
        PixelBounds {
            x: coordinate(x),
            y: coordinate(y),
            width: extent(width),
            height: extent(height),
        }
    }
}

fn coordinate(value: i64) -> (coordinate: i32)
    ensures
        coordinate == clamped(value as int, i32::MIN as int, i32::MAX as int),
{
    if value < i32::MIN as i64 {
        i32::MIN
    } else if value > i32::MAX as i64 {
        i32::MAX
    } else {
        value as i32
    }
}

fn extent(value: i64) -> (extent: u32)
    ensures
        extent == clamped(value as int, 0, u32::MAX as int),
{
    if value < 0 {
        0
    } else if value > u32::MAX as i64 {
        u32::MAX
    } else {
        value as u32
    }
}

/// A display that can be captured.
#[derive(Debug, Clone, Copy, PartialEq, Eq)]
pub struct Display {
    /// Identifier that the system keeps stable for as long as the display is
    /// attached.
    pub id: u32,
    pub bounds: PixelBounds,
}

/// An application that owns capturable windows.
#[derive(Debug, Clone, PartialEq, Eq)]
pub struct RunningApplication {
    /// Process identifier.
    pub id: i32,
    /// Name shown to the user.
    pub name: String,
}

/// Names one application of a snapshot.
#[derive(Debug, Clone, Copy, PartialEq, Eq)]
pub struct ApplicationRef {
    pub id: i32,
}

/// Names one window.
#[derive(Debug, Clone, Copy, PartialEq, Eq)]
pub struct WindowRef {
    pub id: u32,
}

/// The answer of the system to a directory query, before it is interpreted.
#[derive(Debug, Clone, PartialEq, Eq)]
pub enum DirectoryReply {
    /// The query was answered. Either list may be empty.
    Content { displays: Vec<Display>, applications: Vec<RunningApplication> },
    /// Screen recording has not been permitted.
    PermissionDenied,
    /// The subsystem did not answer.
    SubsystemUnavailable,
}

/// The displays and applications that one directory query found, in the order
/// in which the system listed them. Read-only once made.
#[derive(Debug, Clone, PartialEq, Eq)]
pub struct ContentSnapshot {
    displays: Vec<Display>,
    applications: Vec<RunningApplication>,
}

/// The references that name `applications`, one for one.
pub open spec fn refs_of(applications: Seq<RunningApplication>) -> Seq<ApplicationRef> {
    Seq::new(applications.len(), |i: int| ApplicationRef { id: applications[i].id })
}

impl ContentSnapshot {
    /// The displays, in listing order.
    pub closed spec fn spec_displays(self) -> Seq<Display> {
        self.displays@
    }

    /// The applications, in listing order.
    pub closed spec fn spec_applications(self) -> Seq<RunningApplication> {
        self.applications@
    }

    /// A snapshot holding exactly the given lists.
    pub fn new(displays: Vec<Display>, applications: Vec<RunningApplication>) -> (snapshot: Self)
        ensures
            snapshot.spec_displays() == displays@,
            snapshot.spec_applications() == applications@,
    {
        ContentSnapshot { displays, applications }
    }

    /// The displays, in listing order.
    pub fn displays(&self) -> (displays: &Vec<Display>)
        ensures
            displays@ == self.spec_displays(),
    {
        &self.displays
    }

    /// The applications, in listing order.
    pub fn applications(&self) -> (applications: &Vec<RunningApplication>)
        ensures
            applications@ == self.spec_applications(),
    {
        &self.applications
    }

    /// References to every application of the snapshot, in listing order:
    /// the inclusion list of a filter that captures all applications.
    pub fn application_refs(&self) -> (refs: Vec<ApplicationRef>)
        ensures
            refs@ == refs_of(self.spec_applications()),
    {
        let mut refs: Vec<ApplicationRef> = Vec::new();
        let mut i: usize = 0;
        while i < self.applications.len()
            invariant
                i <= self.applications.len(),
                refs@ == refs_of(self.applications@.take(i as int)),
            decreases self.applications.len() - i,
        {
            refs.push(ApplicationRef { id: self.applications[i].id });
            i += 1;
        }
        refs
    }
}

/// Interprets the answer to a directory query. An answer with no displays is
/// still a snapshot; only a refusal or a silent subsystem is a failure.
pub fn query_shareable_content(reply: DirectoryReply) -> (queried: Result<ContentSnapshot, Error>)
    ensures
        match reply {
            DirectoryReply::Content { displays, applications } => {
                &&& queried matches Ok(snapshot)
                &&& snapshot.spec_displays() == displays@
                &&& snapshot.spec_applications() == applications@
            },
            DirectoryReply::PermissionDenied => queried == Err::<ContentSnapshot, Error>(
                Error::DirectoryUnavailable,
            ),
            DirectoryReply::SubsystemUnavailable => queried == Err::<ContentSnapshot, Error>(
                Error::DirectoryUnavailable,
            ),
        },
{
    match reply {
        DirectoryReply::Content { displays, applications } => Ok(
            ContentSnapshot::new(displays, applications),
        ),
        DirectoryReply::PermissionDenied => Err(Error::DirectoryUnavailable),
        DirectoryReply::SubsystemUnavailable => Err(Error::DirectoryUnavailable),
    }
}

} // verus!
