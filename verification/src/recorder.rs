//! The recorder's commands: starting and stopping a recording, and the
//! messages that report how a command went.

use crate::clock::now;
use crate::session::{after_stop, error_text, ManagerView, SessionError, SessionManager};
use crate::text::{decimal_text, push_decimal};
use crate::types::{fresh_id, new_session, stopped_session, RecordingSession};
use vstd::prelude::*;

verus! {

/// The message for a recording that started under `session_id`.
pub open spec fn started_text(session_id: Seq<char>) -> Seq<char> {
    "Recording started with session ID: "@ + session_id
}

/// The message for a recording that was stopped and saved.
pub open spec fn stopped_text(event_count: nat, path: Seq<char>) -> Seq<char> {
    "Recording stopped. "@ + decimal_text(event_count) + " events captured. Saved to: "@ + path
}

/// The message for a recording that was stopped but could not be saved.
pub open spec fn save_failed_text(reason: Seq<char>) -> Seq<char> {
    "Failed to save recording: "@ + reason
}

/// The message for a stand-alone screenshot that was saved.
pub open spec fn screenshot_saved_text(path: Seq<char>) -> Seq<char> {
    "Screenshot saved to: "@ + path
}

/// The message for a stand-alone screenshot that failed.
pub open spec fn screenshot_failed_text(reason: Seq<char>) -> Seq<char> {
    "Failed to capture screenshot: "@ + reason
}

/// What a start command does. While a session is active it is refused and
/// nothing changes. Otherwise a new, empty session is installed under a
/// fresh identifier of 36 characters, which the message names.
pub open spec fn start_outcome(
    before: ManagerView,
    after: ManagerView,
    result: Result<String, String>,
) -> bool {
    if before.session is Some {
        &&& after == before
        &&& result matches Err(text)
        &&& text@ == error_text(SessionError::AlreadyRecording)
    } else {
        &&& result matches Ok(text)
        &&& after.session matches Some(session)
        &&& after == (ManagerView { session: after.session, ..before })
        &&& session == new_session(session.session_id, session.started_at)
        &&& session.session_id.len() == 36
        &&& text@ == started_text(session.session_id)
    }
}

/// What a stop command does. Without an active session it is refused and
/// nothing changes. Otherwise the session leaves the store and comes back
/// finalized: stopped, with its events as they were.
pub open spec fn stop_outcome(
    before: ManagerView,
    after: ManagerView,
    result: Result<RecordingSession, String>,
) -> bool {
    &&& after == after_stop(before)
    &&& match before.session {
        Some(session) => {
            &&& result matches Ok(stopped)
            &&& stopped@.stopped_at matches Some(at)
            &&& stopped@ == stopped_session(session, at)
        },
        None => {
            &&& after == before
            &&& result matches Err(text)
            &&& text@ == error_text(SessionError::NotRecording)
        },
    }
}

/// Starts a recording: installs a new session under a fresh identifier.
/// The caller begins to deliver raw events once this has returned `Ok`, so
/// that no event can arrive before the session is in place.
pub fn start_recording(manager: &mut SessionManager) -> (result: Result<String, String>)
    ensures
        start_outcome(old(manager)@, final(manager)@, result),
{
    if manager.is_recording() {
        return Err(SessionError::AlreadyRecording.message());
    }
    let session_id = fresh_id();
    let mut text = "Recording started with session ID: ".to_owned();
    text.append(session_id.as_str());
    match manager.start_session(session_id, now()) {
        Ok(()) => Ok(text),
        Err(error) => Err(error.message()),
    }
}

/// Stops the recording and hands out the finalized session, which the
/// caller persists. The session has left the store whether or not
/// persisting it succeeds.
pub fn stop_recording(manager: &mut SessionManager) -> (result: Result<RecordingSession, String>)
    ensures
        stop_outcome(old(manager)@, final(manager)@, result),
{
    match manager.stop_session(now()) {
        Ok(session) => Ok(session),
        Err(error) => Err(error.message()),
    }
}

/// Reports how stopping went, once the session was handed to persistence:
/// the event count and the written path, or why saving failed.
pub fn stop_report(event_count: usize, saved: Result<String, String>) -> (report: Result<
    String,
    String,
>)
    ensures
        match saved {
            Ok(path) => report matches Ok(text) && text@ == stopped_text(
                event_count as nat,
                path@,
            ),
            Err(reason) => report matches Err(text) && text@ == save_failed_text(reason@),
        },
{
    match saved {
        Ok(path) => {
            let mut text = "Recording stopped. ".to_owned();
            push_decimal(&mut text, event_count as u64);
            text.append(" events captured. Saved to: ");
            text.append(path.as_str());
            Ok(text)
        },
        Err(reason) => {
            let mut text = "Failed to save recording: ".to_owned();
            text.append(reason.as_str());
            Err(text)
        },
    }
}

/// Reports how a stand-alone screenshot went: the written path, or why the
/// capture failed.
pub fn screenshot_report(captured: Result<String, String>) -> (report: Result<String, String>)
    ensures
        match captured {
            Ok(path) => report matches Ok(text) && text@ == screenshot_saved_text(path@),
            Err(reason) => report matches Err(text) && text@ == screenshot_failed_text(reason@),
        },
{
    match captured {
        Ok(path) => {
            let mut text = "Screenshot saved to: ".to_owned();
            text.append(path.as_str());
            Ok(text)
        },
        Err(reason) => {
            let mut text = "Failed to capture screenshot: ".to_owned();
            text.append(reason.as_str());
            Err(text)
        },
    }
}

} // verus!
