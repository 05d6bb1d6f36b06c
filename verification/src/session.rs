//! The capture session: one stream, its bindings and its state.
//!
//! A session never calls the system itself. Each method takes what the owner
//! asked or what the system answered, moves the state by
//! `crate::lifecycle::next_state`, and says in its result what is to be done
//! next: which stream to start or tear down, which error to surface.

use vstd::prelude::*;
use crate::config::StreamConfig;
use crate::error::Error;
use crate::filter::CaptureFilter;
use crate::frame::{Frame, FrameKind, FrameSink};
use crate::lifecycle::{Event, SessionState, invokes_sink, next_state, reports_fatal, tears_down};

verus! {

/// The token by which the surrounding program finds the stream that the
/// system allocated. The session carries it and never reads it.
#[derive(Debug, Clone, Copy, PartialEq, Eq)]
pub struct StreamHandle {
    pub raw: u64,
}

/// What a stop request comes to.
#[derive(Debug, Clone, Copy, PartialEq, Eq)]
pub enum StopDecision {
    /// The system must be asked to tear this stream down; the request is
    /// finished when `stop_resolved` is called.
    Teardown(StreamHandle),
    /// An earlier stop request is still with the system.
    InProgress,
    /// There is nothing to stop: the request has succeeded already.
    AlreadyResolved,
}

/// The reason given when a start is requested of a session that has been
/// started before.
pub open spec fn not_unstarted_reason() -> Seq<char> {
    "the session is not unstarted"@
}

/// The reason given when the system accepts a start that the session no
/// longer waits for.
pub open spec fn no_start_pending_reason() -> Seq<char> {
    "the session has no start pending"@
}

/// One capture stream with the filter, configuration and sink bound to it.
pub struct CaptureSession<S: FrameSink> {
    filter: CaptureFilter,
    config: StreamConfig,
    sink: S,
    handle: StreamHandle,
    state: SessionState,
}

impl<S: FrameSink> CaptureSession<S> {
    /// Where the session stands.
    pub closed spec fn spec_state(self) -> SessionState {
        self.state
    }

    /// The filter bound at creation.
    pub closed spec fn spec_filter(self) -> CaptureFilter {
        self.filter
    }

    /// The configuration bound at creation.
    pub closed spec fn spec_config(self) -> StreamConfig {
        self.config
    }

    /// The sink bound at creation, as it is now.
    pub closed spec fn spec_sink(self) -> S {
        self.sink
    }

    /// The stream allocated at creation.
    pub closed spec fn spec_handle(self) -> StreamHandle {
        self.handle
    }

    /// Whether `self` has the filter, configuration and stream of `before`.
    pub open spec fn same_bindings(self, before: Self) -> bool {
        &&& self.spec_filter() == before.spec_filter()
        &&& self.spec_config() == before.spec_config()
        &&& self.spec_handle() == before.spec_handle()
    }

    /// Binds filter, configuration and sink to the stream that the system
    /// allocated for them. `stream` is `None` when the system allocated
    /// nothing; then there is no session.
    pub fn create(
        filter: CaptureFilter,
        config: StreamConfig,
        sink: S,
        stream: Option<StreamHandle>,
    ) -> (created: Result<Self, Error>)
        ensures
            match stream {
                Some(handle) => {
                    &&& created matches Ok(session)
                    &&& session.spec_state() == SessionState::Unstarted
                    &&& session.spec_filter() == filter
                    &&& session.spec_config() == config
                    &&& session.spec_sink() == sink
                    &&& session.spec_handle() == handle
                },
                None => created matches Err(error) && error == Error::StreamCreationFailed,
            },
    {
        match stream {
            Some(handle) => Ok(
                CaptureSession { filter, config, sink, handle, state: SessionState::Unstarted },
            ),
            None => Err(Error::StreamCreationFailed),
        }
    }

    /// Where the session stands.
    pub fn state(&self) -> (state: SessionState)
        ensures
            state == self.spec_state(),
    {
        self.state
    }

    /// The filter bound at creation.
    pub fn filter(&self) -> (filter: &CaptureFilter)
        ensures
            *filter == self.spec_filter(),
    {
        &self.filter
    }

    /// The configuration bound at creation.
    pub fn config(&self) -> (config: &StreamConfig)
        ensures
            *config == self.spec_config(),
    {
        &self.config
    }

    /// The sink bound at creation.
    pub fn sink(&self) -> (sink: &S)
        ensures
            *sink == self.spec_sink(),
    {
        &self.sink
    }

    /// The stream allocated at creation.
    pub fn handle(&self) -> (handle: StreamHandle)
        ensures
            handle == self.spec_handle(),
    {
        self.handle
    }

    /// The owner asks to start. An unstarted session begins starting and
    /// names the stream that the system must be asked to start; the answer
    /// goes to `start_resolved`. Any other session stays as it is and
    /// refuses.
    pub fn start(&mut self) -> (request: Result<StreamHandle, Error>)
        ensures
            final(self).spec_state() == next_state(old(self).spec_state(), Event::StartRequested),
            final(self).same_bindings(*old(self)),
            final(self).spec_sink() == old(self).spec_sink(),
            old(self).spec_state() == SessionState::Unstarted ==> request == Ok::<
                StreamHandle,
                Error,
            >(old(self).spec_handle()),
            old(self).spec_state() != SessionState::Unstarted ==> (request matches Err(error)
                && error.is_start_failed(not_unstarted_reason())),
    {
        match self.state {
            SessionState::Unstarted => {
                self.state = SessionState::Starting;
                Ok(self.handle)
            },
            _ => Err(Error::StartFailed("the session is not unstarted".to_owned())),
        }
    }

    /// The system answers the start request: `Ok` when it accepted, `Err`
    /// with its description when it rejected. A session that was starting
    /// becomes active or failed accordingly. A session that was not starting
    /// stays as it is, and the start counts as failed for want of anything
    /// started.
    pub fn start_resolved(&mut self, outcome: Result<(), String>) -> (resolved: Result<(), Error>)
        ensures
            final(self).spec_state() == next_state(
                old(self).spec_state(),
                Event::StartResolved { accepted: outcome is Ok },
            ),
            final(self).same_bindings(*old(self)),
            final(self).spec_sink() == old(self).spec_sink(),
            match outcome {
                Ok(_) => if old(self).spec_state() == SessionState::Starting {
                    resolved is Ok
                } else {
                    resolved matches Err(error) && error.is_start_failed(no_start_pending_reason())
                },
                Err(reason) => resolved == Err::<(), Error>(Error::StartFailed(reason)),
            },
    {
        match outcome {
            Ok(_) => match self.state {
                SessionState::Starting => {
                    self.state = SessionState::Active;
                    Ok(())
                },
                _ => Err(Error::StartFailed("the session has no start pending".to_owned())),
            },
            Err(reason) => {
                match self.state {
                    SessionState::Starting => {
                        self.state = SessionState::Failed;
                    },
                    _ => {},
                }
                Err(Error::StartFailed(reason))
            },
        }
    }

    /// The owner asks to stop. This never fails and may be called in any
    /// state: a session that is starting or active begins stopping and names
    /// the stream to tear down; any other session stays as it is.
    pub fn stop(&mut self) -> (decision: StopDecision)
        ensures
            final(self).spec_state() == next_state(old(self).spec_state(), Event::StopRequested),
            final(self).same_bindings(*old(self)),
            final(self).spec_sink() == old(self).spec_sink(),
            decision == if tears_down(old(self).spec_state(), Event::StopRequested) {
                StopDecision::Teardown(old(self).spec_handle())
            } else if old(self).spec_state() == SessionState::Stopping {
                StopDecision::InProgress
            } else {
                StopDecision::AlreadyResolved
            },
    {
        match self.state {
            SessionState::Starting | SessionState::Active => {
                self.state = SessionState::Stopping;
                StopDecision::Teardown(self.handle)
            },
            SessionState::Stopping => StopDecision::InProgress,
            _ => StopDecision::AlreadyResolved,
        }
    }

    /// The system confirms that the stream was torn down. A stopping session
    /// is stopped from now on; any other stays as it is.
    pub fn stop_resolved(&mut self)
        ensures
            final(self).spec_state() == next_state(old(self).spec_state(), Event::StopResolved),
            final(self).same_bindings(*old(self)),
            final(self).spec_sink() == old(self).spec_sink(),
    {
        match self.state {
            SessionState::Stopping => {
                self.state = SessionState::Stopped;
            },
            _ => {},
        }
    }

    /// The system delivers a sample. An active session hands it to the sink,
    /// once; any other session drops it and is left exactly as it was.
    /// Whatever the sink does, the state, the bindings and the stream stay
    /// the same. Returns whether the sink was invoked.
    pub fn deliver(&mut self, frame: &Frame, kind: FrameKind) -> (dispatched: bool)
        ensures
            dispatched == invokes_sink(old(self).spec_state(), Event::FrameArrived),
            final(self).spec_state() == next_state(old(self).spec_state(), Event::FrameArrived),
            final(self).spec_state() == old(self).spec_state(),
            final(self).same_bindings(*old(self)),
            dispatched ==> old(self).spec_sink().receives(final(self).spec_sink(), *frame, kind),
            !dispatched ==> final(self).spec_sink() == old(self).spec_sink(),
    {
        match self.state {
            SessionState::Active => {
                self.sink.on_frame(frame, kind);
                true
            },
            _ => false,
        }
    }

    /// The system reports that the stream failed for good, with its
    /// description. An active session fails and returns the error for its
    /// owner; any other session stays as it is and returns nothing, so that
    /// a burst of reports surfaces one error.
    pub fn stream_failed(&mut self, reason: String) -> (surfaced: Option<Error>)
        ensures
            final(self).spec_state() == next_state(old(self).spec_state(), Event::FatalReported),
            final(self).same_bindings(*old(self)),
            final(self).spec_sink() == old(self).spec_sink(),
            surfaced == if reports_fatal(old(self).spec_state(), Event::FatalReported) {
                Some(Error::StreamFatal(reason))
            } else {
                None
            },
    {
        match self.state {
            SessionState::Active => {
                self.state = SessionState::Failed;
                Some(Error::StreamFatal(reason))
            },
            _ => None,
        }
    }
}

} // verus!
