//! The life of a capture session as a state machine over events, and what
//! holds of every sequence of events.
//!
//! The executable session in `crate::session` moves by `next_state` and acts
//! by the three predicates `invokes_sink`, `tears_down` and `reports_fatal`;
//! its contracts say so. What is proved here of all event sequences therefore
//! holds of every session, whatever the system and the owner do to it.

use vstd::prelude::*;

verus! {

/// Where a session stands.
#[derive(Debug, Clone, Copy, PartialEq, Eq, Structural)]
pub enum SessionState {
    /// Filter, configuration and sink are bound; nothing has been asked of
    /// the stream yet.
    Unstarted,
    /// A start request is with the system.
    Starting,
    /// The stream runs and frames reach the sink.
    Active,
    /// A stop request is with the system.
    Stopping,
    /// The stream was stopped. Final.
    Stopped,
    /// The start was rejected or the stream died. Final.
    Failed,
}

/// What can happen to a session.
#[derive(Debug, Clone, Copy, PartialEq, Eq)]
pub enum Event {
    /// The owner asks to start.
    StartRequested,
    /// The system answers a start request.
    StartResolved { accepted: bool },
    /// The owner asks to stop.
    StopRequested,
    /// The system confirms a stop request.
    StopResolved,
    /// The system delivers a sample.
    FrameArrived,
    /// The system reports that the stream failed for good.
    FatalReported,
}

/// The state that follows `state` when `event` happens. An event that has no
/// meaning in a state leaves it as it is.
pub open spec fn next_state(state: SessionState, event: Event) -> SessionState {
    match (state, event) {
        (SessionState::Unstarted, Event::StartRequested) => SessionState::Starting,
        (SessionState::Starting, Event::StartResolved { accepted: true }) => SessionState::Active,
        (SessionState::Starting, Event::StartResolved { accepted: false }) => SessionState::Failed,
        (SessionState::Starting, Event::StopRequested) => SessionState::Stopping,
        (SessionState::Active, Event::StopRequested) => SessionState::Stopping,
        (SessionState::Active, Event::FatalReported) => SessionState::Failed,
        (SessionState::Stopping, Event::StopResolved) => SessionState::Stopped,
        _ => state,
    }
}

/// Whether the frame sink is invoked when `event` happens in `state`: only
/// for a sample that arrives while the session is active.
pub open spec fn invokes_sink(state: SessionState, event: Event) -> bool {
    state == SessionState::Active && event == Event::FrameArrived
}

/// Whether the system is asked to tear the stream down when `event` happens
/// in `state`: only for a stop request that finds a start pending or the
/// stream running.
pub open spec fn tears_down(state: SessionState, event: Event) -> bool {
    event == Event::StopRequested && (state == SessionState::Starting || state
        == SessionState::Active)
}

/// Whether a fatal error is handed to the owner when `event` happens in
/// `state`: only for a failure reported while the session is active.
pub open spec fn reports_fatal(state: SessionState, event: Event) -> bool {
    state == SessionState::Active && event == Event::FatalReported
}

/// Whether a stop request finishes when `event` happens in `state`: the
/// system confirms a pending stop, or a stop is requested of a session that
/// has already ended and is answered at once.
pub open spec fn stop_resolves(state: SessionState, event: Event) -> bool {
    ||| state == SessionState::Stopping && event == Event::StopResolved
    ||| event == Event::StopRequested && (state == SessionState::Stopped || state
        == SessionState::Failed)
}

/// The state of a session, fresh from `create`, after all of `events`.
pub open spec fn state_after(events: Seq<Event>) -> SessionState
    decreases events.len(),
{
    if events.len() == 0 {
        SessionState::Unstarted
    } else {
        next_state(state_after(events.drop_last()), events.last())
    }
}

/// The state in which event number `i` of `events` finds the session.
pub open spec fn state_before(events: Seq<Event>, i: int) -> SessionState {
    state_after(events.take(i))
}

proof fn lemma_state_steps(events: Seq<Event>, i: int)
    requires
        0 <= i < events.len(),
    ensures
        state_before(events, i + 1) == next_state(state_before(events, i), events[i]),
{
    assert(events.take(i + 1).drop_last() =~= events.take(i));
}

proof fn lemma_active_was_started(events: Seq<Event>, i: int)
    requires
        0 <= i <= events.len(),
        state_before(events, i) == SessionState::Active,
    ensures
        exists|j: int|
            0 <= j < i && events[j] == (Event::StartResolved { accepted: true }) && state_before(
                events,
                j,
            ) == SessionState::Starting,
    decreases i,
{
    if i > 0 {
        lemma_state_steps(events, i - 1);
        if state_before(events, i - 1) == SessionState::Active {
            lemma_active_was_started(events, i - 1);
        }
        // Otherwise event `i - 1` is itself the accepted start.
    }
}

proof fn lemma_ended_stays_ended(events: Seq<Event>, j: int, i: int)
    requires
        0 <= j <= i <= events.len(),
        state_before(events, j) == SessionState::Stopped || state_before(events, j)
            == SessionState::Failed,
    ensures
        state_before(events, i) == state_before(events, j),
    decreases i - j,
{
    if j < i {
        lemma_ended_stays_ended(events, j, i - 1);
        lemma_state_steps(events, i - 1);
    }
}

proof fn lemma_stopping_never_resumes(events: Seq<Event>, j: int, i: int)
    requires
        0 <= j <= i <= events.len(),
        state_before(events, j) == SessionState::Stopping,
    ensures
        state_before(events, i) == SessionState::Stopping || state_before(events, i)
            == SessionState::Stopped,
    decreases i - j,
{
    if j < i {
        lemma_stopping_never_resumes(events, j, i - 1);
        lemma_state_steps(events, i - 1);
    }
}

/// Frames follow a successful start: whenever the sink is invoked, an
/// earlier event was the system accepting a start request that was pending.
pub proof fn law_frames_follow_start(events: Seq<Event>, i: int)
    requires
        0 <= i < events.len(),
        invokes_sink(state_before(events, i), events[i]),
    ensures
        exists|j: int|
            0 <= j < i && events[j] == (Event::StartResolved { accepted: true }) && state_before(
                events,
                j,
            ) == SessionState::Starting,
{
    lemma_active_was_started(events, i);
}

/// No frame after a stop: once a stop request has finished, be it confirmed
/// by the system or answered at once because the session had ended, no later
/// event invokes the sink.
pub proof fn law_no_frames_after_stop(events: Seq<Event>, j: int, i: int)
    requires
        0 <= j < i < events.len(),
        stop_resolves(state_before(events, j), events[j]),
    ensures
        !invokes_sink(state_before(events, i), events[i]),
{
    lemma_state_steps(events, j);
    lemma_ended_stays_ended(events, j + 1, i);
}

/// Stopping is idempotent: a second stop request changes nothing and tears
/// nothing down, and a stop request to a session that was never started
/// leaves it unstarted and tears nothing down.
pub proof fn law_stop_is_idempotent(state: SessionState)
    ensures
        next_state(next_state(state, Event::StopRequested), Event::StopRequested) == next_state(
            state,
            Event::StopRequested,
        ),
        !tears_down(next_state(state, Event::StopRequested), Event::StopRequested),
        next_state(SessionState::Unstarted, Event::StopRequested) == SessionState::Unstarted,
        !tears_down(SessionState::Unstarted, Event::StopRequested),
{
}

/// The stream is torn down at most once: after an event that tears it down,
/// no later event does.
pub proof fn law_teardown_at_most_once(events: Seq<Event>, i: int, j: int)
    requires
        0 <= i < j < events.len(),
        tears_down(state_before(events, i), events[i]),
    ensures
        !tears_down(state_before(events, j), events[j]),
{
    lemma_state_steps(events, i);
    lemma_stopping_never_resumes(events, i + 1, j);
}

/// A fatal error ends the session and is reported once: the event that
/// reports it leaves the session failed, and no later event reports another,
/// however many failures the system goes on to signal.
pub proof fn law_fatal_reported_once(events: Seq<Event>, i: int, j: int)
    requires
        0 <= i < j < events.len(),
        reports_fatal(state_before(events, i), events[i]),
    ensures
        state_before(events, i + 1) == SessionState::Failed,
        state_before(events, j) == SessionState::Failed,
        !reports_fatal(state_before(events, j), events[j]),
{
    lemma_state_steps(events, i);
    lemma_ended_stays_ended(events, i + 1, j);
}

} // verus!
