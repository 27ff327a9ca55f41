//! The session store: at most one active recording session, the last known
//! pointer position and the time of the last raw event, behind one
//! interface.

use crate::clock::{elapsed_millis, Timestamp};
use crate::text::optional_text;
use crate::types::{
    lemma_appends_keep_order, new_session, stopped_session, with_event, with_events, Event,
    EventView, Position, RecordingSession, SessionView,
};
use vstd::prelude::*;

verus! {

/// The shortest pause, in milliseconds, that is recorded as a wait.
pub const WAIT_THRESHOLD_MILLIS: u64 = 2000;

/// Why a command on the session store was refused.
#[derive(Clone, Copy, Debug, PartialEq, Eq, Structural)]
pub enum SessionError {
    /// A session is already active.
    AlreadyRecording,
    /// No session is active.
    NotRecording,
}

/// The text shown to the user for a refusal.
pub open spec fn error_text(error: SessionError) -> Seq<char> {
    match error {
        SessionError::AlreadyRecording => "Recording already in progress"@,
        SessionError::NotRecording => "No recording in progress"@,
    }
}

impl SessionError {
    /// The text shown to the user.
    pub fn message(&self) -> (text: String)
        ensures
            text@ == error_text(*self),
    {
        match self {
            SessionError::AlreadyRecording => "Recording already in progress".to_owned(),
            SessionError::NotRecording => "No recording in progress".to_owned(),
        }
    }
}

/// The state that the recorder shares between its command side and its
/// capture side.
pub struct SessionManager {
    session: Option<RecordingSession>,
    last_position: Position,
    last_event_time: Option<Timestamp>,
}

/// The mathematical value of a [`SessionManager`].
pub struct ManagerView {
    /// The active session; `None` while nothing is being recorded.
    pub session: Option<SessionView>,
    /// Where the pointer was last seen; the origin before any movement.
    pub last_position: Position,
    /// When the last raw event was processed; `None` before the first.
    pub last_event_time: Option<Timestamp>,
}

impl View for SessionManager {
    type V = ManagerView;

    closed spec fn view(&self) -> ManagerView {
        ManagerView {
            session: match self.session {
                Some(session) => Some(session@),
                None => None,
            },
            last_position: self.last_position,
            last_event_time: self.last_event_time,
        }
    }
}

/// The state before anything has happened.
pub open spec fn initial_manager() -> ManagerView {
    ManagerView { session: None, last_position: Position { x: 0, y: 0 }, last_event_time: None }
}

/// What a start command answers in state `m`.
pub open spec fn start_result(m: ManagerView) -> Result<(), SessionError> {
    if m.session is Some {
        Err(SessionError::AlreadyRecording)
    } else {
        Ok(())
    }
}

/// The state after a start command: a new empty session is installed
/// unless one is active, in which case nothing changes.
pub open spec fn after_start(m: ManagerView, session_id: Seq<char>, at: Timestamp) -> ManagerView {
    if m.session is Some {
        m
    } else {
        ManagerView { session: Some(new_session(session_id, at)), ..m }
    }
}

/// The state after an event was handed in: appended to the active session,
/// or dropped where none is active.
pub open spec fn after_add(m: ManagerView, event: EventView) -> ManagerView {
    match m.session {
        Some(session) => ManagerView { session: Some(with_event(session, event)), ..m },
        None => m,
    }
}

/// The state after `added` was handed in, one event after another.
pub open spec fn after_adds(m: ManagerView, added: Seq<EventView>) -> ManagerView
    decreases added.len(),
{
    if added.len() == 0 {
        m
    } else {
        after_add(after_adds(m, added.drop_last()), added.last())
    }
}

/// What a stop command answers in state `m`: the finalized session, or a
/// refusal where none is active.
pub open spec fn stop_result(m: ManagerView, at: Timestamp) -> Result<SessionView, SessionError> {
    match m.session {
        Some(session) => Ok(stopped_session(session, at)),
        None => Err(SessionError::NotRecording),
    }
}

/// The state after a stop command: no session is active.
pub open spec fn after_stop(m: ManagerView) -> ManagerView {
    ManagerView { session: None, ..m }
}

/// The pause to record when a raw event arrives at `at` and the one before
/// it was processed at `last`: the elapsed milliseconds where they reach
/// the threshold, nothing otherwise and nothing for the first event.
pub open spec fn wait_gap(last: Option<Timestamp>, at: Timestamp) -> Option<u64> {
    match last {
        Some(earlier) => if elapsed_millis(earlier, at) >= WAIT_THRESHOLD_MILLIS {
            Some(elapsed_millis(earlier, at) as u64)
        } else {
            None
        },
        None => None,
    }
}

/// The state after the pause before a raw event at `at` was measured.
pub open spec fn after_mark(m: ManagerView, at: Timestamp) -> ManagerView {
    ManagerView { last_event_time: Some(at), ..m }
}

/// The state after the pointer was seen at `position`.
pub open spec fn after_move(m: ManagerView, position: Position) -> ManagerView {
    ManagerView { last_position: position, ..m }
}

/// Whether the session in the store, if there is one, is still running:
/// its end is not recorded.
pub open spec fn session_runs(m: ManagerView) -> bool {
    m.session matches Some(session) ==> session.stopped_at is None
}

/// The pauses that are reported for raw events arriving at `times`, one
/// after another, when the event before them was processed at `last`.
pub open spec fn gaps_reported(last: Option<Timestamp>, times: Seq<Timestamp>) -> Seq<Option<u64>>
    decreases times.len(),
{
    if times.len() == 0 {
        Seq::empty()
    } else {
        seq![wait_gap(last, times[0])] + gaps_reported(Some(times[0]), times.drop_first())
    }
}

impl SessionManager {
    /// A store without a session, with the pointer at the origin.
    pub fn new() -> (manager: SessionManager)
        ensures
            manager@ == initial_manager(),
    {
        SessionManager { session: None, last_position: Position { x: 0, y: 0 }, last_event_time: None }
    }

    /// Whether a session is active.
    pub fn is_recording(&self) -> (active: bool)
        ensures
            active == (self@.session is Some),
    {
        self.session.is_some()
    }

    /// The identifier of the active session.
    pub fn session_id(&self) -> (id: Option<String>)
        ensures
            optional_text(id) == match self@.session {
                Some(session) => Some(session.session_id),
                None => None,
            },
    {
        match &self.session {
            Some(session) => Some(session.session_id.clone()),
            None => None,
        }
    }

    /// The number of events in the active session.
    pub fn event_count(&self) -> (count: Option<usize>)
        ensures
            count == match self@.session {
                Some(session) => Some(session.events.len() as usize),
                None => None,
            },
    {
        match &self.session {
            Some(session) => Some(session.events.len()),
            None => None,
        }
    }

    /// Installs a new, empty session that starts at `at`. Refused, with the
    /// state unchanged, while a session is active.
    pub fn start_session(&mut self, session_id: String, at: Timestamp) -> (result: Result<
        (),
        SessionError,
    >)
        ensures
            result == start_result(old(self)@),
            final(self)@ == after_start(old(self)@, session_id@, at),
    {
        if self.session.is_some() {
            return Err(SessionError::AlreadyRecording);
        }
        self.session = Some(RecordingSession::begin_at(session_id, at));
        Ok(())
    }

    /// Appends an event to the active session. Without a session the event
    /// is dropped and nothing changes.
    pub fn add_event(&mut self, event: Event)
        ensures
            final(self)@ == after_add(old(self)@, event@),
    {
        let active = self.session.take();
        match active {
            Some(session) => {
                let mut session = session;
                session.add_event(event);
                self.session = Some(session);
            },
            None => {},
        }
    }

    /// Takes the active session out of the store and records `at` as its
    /// end. Refused, with the state unchanged, when no session is active.
    pub fn stop_session(&mut self, at: Timestamp) -> (result: Result<RecordingSession, SessionError>)
        ensures
            final(self)@ == after_stop(old(self)@),
            match result {
                Ok(session) => stop_result(old(self)@, at) == Ok::<SessionView, SessionError>(
                    session@,
                ),
                Err(error) => stop_result(old(self)@, at) == Err::<SessionView, SessionError>(
                    error,
                ),
            },
    {
        let active = self.session.take();
        match active {
            Some(session) => {
                let mut session = session;
                session.stop_at(at);
                Ok(session)
            },
            None => Err(SessionError::NotRecording),
        }
    }

    /// Remembers where the pointer is.
    pub fn update_last_position(&mut self, position: Position)
        ensures
            final(self)@ == after_move(old(self)@, position),
    {
        self.last_position = position;
    }

    /// Where the pointer was last seen.
    pub fn read_last_position(&self) -> (position: Position)
        ensures
            position == self@.last_position,
    {
        self.last_position
    }

    /// Measures the pause before the raw event that arrives at `at` and
    /// marks `at` as the time of the last event, whatever the answer: the
    /// same pause is never reported twice.
    pub fn check_and_mark_wait(&mut self, at: Timestamp) -> (gap: Option<u64>)
        ensures
            gap == wait_gap(old(self)@.last_event_time, at),
            final(self)@ == after_mark(old(self)@, at),
    {
        let gap = match self.last_event_time {
            Some(earlier) => {
                let elapsed: u64 = at.millis_since(&earlier);
                if elapsed >= WAIT_THRESHOLD_MILLIS {
                    Some(elapsed)
                } else {
                    None
                }
            },
            None => None,
        };
        self.last_event_time = Some(at);
        gap
    }
}

/// While a session is active, events handed to the store come out in the
/// order in which they went in, behind the events that were there before,
/// and the list grows by exactly their number. Without a session nothing
/// is kept and nothing changes.
pub proof fn lemma_adds_keep_order(m: ManagerView, added: Seq<EventView>)
    ensures
        after_adds(m, added).last_position == m.last_position,
        after_adds(m, added).last_event_time == m.last_event_time,
        m.session is None ==> after_adds(m, added) == m,
        m.session matches Some(session) ==> after_adds(m, added).session == Some(
            with_events(session, added),
        ),
        m.session matches Some(session) ==> after_adds(m, added).session->0.events
            == session.events + added,
        m.session matches Some(session) ==> after_adds(m, added).session->0.events.len()
            == session.events.len() + added.len(),
    decreases added.len(),
{
    if added.len() > 0 {
        lemma_adds_keep_order(m, added.drop_last());
    }
    if let Some(session) = m.session {
        lemma_appends_keep_order(session, added);
    }
}

/// A start command on a store that is recording is refused and changes
/// nothing: a second start, with no stop in between, fails whatever was
/// recorded meanwhile, and the first session keeps its events.
pub proof fn lemma_second_start_is_refused(
    before: ManagerView,
    first_id: Seq<char>,
    first_at: Timestamp,
    added: Seq<EventView>,
    second_id: Seq<char>,
    second_at: Timestamp,
)
    requires
        before.session is None,
    ensures
        start_result(before) == Ok::<(), SessionError>(()),
        ({
            let recording = after_adds(after_start(before, first_id, first_at), added);
            &&& recording.session is Some
            &&& recording.session->0.events == added
            &&& start_result(recording) == Err::<(), SessionError>(SessionError::AlreadyRecording)
            &&& after_start(recording, second_id, second_at) == recording
        }),
{
    let started = after_start(before, first_id, first_at);
    lemma_adds_keep_order(started, added);
}

/// A stop command on a store that is not recording is refused: it yields
/// no session to persist and changes nothing.
pub proof fn lemma_stop_without_session_is_refused(m: ManagerView, at: Timestamp)
    requires
        m.session is None,
    ensures
        stop_result(m, at) == Err::<SessionView, SessionError>(SessionError::NotRecording),
        after_stop(m) == m,
{
}

/// A session in the store is running until it leaves the store: the store
/// starts without a session, a start command installs a running one, and
/// nothing but a stop command records an end, on the session it hands out.
pub proof fn lemma_store_sessions_run(
    m: ManagerView,
    session_id: Seq<char>,
    at: Timestamp,
    event: EventView,
    position: Position,
)
    requires
        session_runs(m),
    ensures
        session_runs(initial_manager()),
        session_runs(after_start(m, session_id, at)),
        session_runs(after_add(m, event)),
        session_runs(after_stop(m)),
        session_runs(after_mark(m, at)),
        session_runs(after_move(m, position)),
        stop_result(m, at) matches Ok(stopped) ==> stopped.stopped_at == Some(at),
{
}

/// Each pause is measured from the raw event just before it, and so
/// reported at most once: in a run of raw events the answer for an event
/// depends on its own time and on the time of its predecessor alone.
pub proof fn lemma_gaps_follow_predecessors(last: Option<Timestamp>, times: Seq<Timestamp>, i: int)
    requires
        0 <= i < times.len(),
    ensures
        gaps_reported(last, times).len() == times.len(),
        gaps_reported(last, times)[i] == wait_gap(
            if i == 0 {
                last
            } else {
                Some(times[i - 1])
            },
            times[i],
        ),
    decreases times.len(),
{
    lemma_gaps_length(Some(times[0]), times.drop_first());
    if i > 0 {
        lemma_gaps_follow_predecessors(Some(times[0]), times.drop_first(), i - 1);
    }
}

proof fn lemma_gaps_length(last: Option<Timestamp>, times: Seq<Timestamp>)
    ensures
        gaps_reported(last, times).len() == times.len(),
    decreases times.len(),
{
    if times.len() > 0 {
        lemma_gaps_length(Some(times[0]), times.drop_first());
    }
}

} // verus!
