//! The capture loop's decisions: what one raw input event does to the
//! session store. Delivering the raw events and taking the screenshots is
//! the caller's part; every decision in between is made here.

use crate::clock::{now, Timestamp};
use crate::session::{after_add, wait_gap, ManagerView, SessionManager};
use crate::text::{optional_text, text_equals};
use crate::types::{
    built_event, with_paths, Event, EventKind, EventType, EventView, MouseButton, Position,
    ScreenshotPaths,
};
use vstd::prelude::*;

verus! {

/// A button as the input source reports it.
#[derive(Clone, Copy, Debug, PartialEq, Eq, Structural)]
pub enum RawButton {
    Left,
    Right,
    Middle,
    /// Any other physical button.
    Other,
}

/// A raw input event, reduced to what the recorder reads of it.
#[derive(Clone, Debug)]
pub enum RawEvent {
    /// The pointer moved to the given pixel.
    MouseMove { x: i32, y: i32 },
    /// A mouse button went down.
    ButtonPress { button: RawButton },
    /// A key went down; `key` is the key's identifier, such as `KeyA`.
    KeyPress { key: String },
    /// Anything else: a release, the wheel.
    Other,
}

/// The mathematical value of a [`RawEvent`].
pub enum RawEventView {
    MouseMove { x: i32, y: i32 },
    ButtonPress { button: RawButton },
    KeyPress { key: Seq<char> },
    Other,
}

impl View for RawEvent {
    type V = RawEventView;

    open spec fn view(&self) -> RawEventView {
        match self {
            RawEvent::MouseMove { x, y } => RawEventView::MouseMove { x: *x, y: *y },
            RawEvent::ButtonPress { button } => RawEventView::ButtonPress { button: *button },
            RawEvent::KeyPress { key } => RawEventView::KeyPress { key: key@ },
            RawEvent::Other => RawEventView::Other,
        }
    }
}

/// A click that waits for its screenshots before it joins the session.
#[derive(Clone, Debug)]
pub struct PendingClick {
    /// The click event, classified, without screenshots.
    pub event: Event,
    /// The session that was active when the click arrived.
    pub session_id: String,
}

/// The mathematical value of a [`PendingClick`].
pub struct PendingView {
    pub event: EventView,
    pub session_id: Seq<char>,
}

impl View for PendingClick {
    type V = PendingView;

    open spec fn view(&self) -> PendingView {
        PendingView { event: self.event@, session_id: self.session_id@ }
    }
}

/// The value of an optional pending click.
pub open spec fn optional_pending(pending: Option<PendingClick>) -> Option<PendingView> {
    match pending {
        Some(p) => Some(p@),
        None => None,
    }
}

/// The recorded button that a raw button stands for, if any.
pub open spec fn recorded_button(button: RawButton) -> Option<MouseButton> {
    match button {
        RawButton::Left => Some(MouseButton::Left),
        RawButton::Right => Some(MouseButton::Right),
        RawButton::Middle => Some(MouseButton::Middle),
        RawButton::Other => None,
    }
}

/// Whether a key identifier names a pure modifier: shift, control, alt or
/// meta, on either side.
pub open spec fn is_modifier(key: Seq<char>) -> bool {
    ||| key == "ShiftLeft"@
    ||| key == "ShiftRight"@
    ||| key == "ControlLeft"@
    ||| key == "ControlRight"@
    ||| key == "Alt"@
    ||| key == "AltGr"@
    ||| key == "MetaLeft"@
    ||| key == "MetaRight"@
}

/// Where the pointer is known to be after a raw event.
pub open spec fn position_after(raw: RawEventView, last: Position) -> Position {
    match raw {
        RawEventView::MouseMove { x, y } => Position { x, y },
        _ => last,
    }
}

/// The key press that a raw event adds to an active session, if any.
pub open spec fn key_to_record(raw: RawEventView) -> Option<Seq<char>> {
    match raw {
        RawEventView::KeyPress { key } => if is_modifier(key) {
            None
        } else {
            Some(key)
        },
        _ => None,
    }
}

/// The click that a raw event starts in an active session, if any.
pub open spec fn click_to_record(raw: RawEventView) -> Option<MouseButton> {
    match raw {
        RawEventView::ButtonPress { button } => recorded_button(button),
        _ => None,
    }
}

/// Whether `event` is a newly built event of the given kind and position:
/// all but its identifier and time stamp is fixed.
pub open spec fn is_fresh(event: EventView, kind: EventKind, position: Option<Position>) -> bool {
    event == built_event(event.id, event.timestamp, kind, position)
}

/// Whether `appended` is what one raw event adds to the session at once:
/// the wait for the pause before it, if there was one, and then its own
/// key press, if it is one to record.
pub open spec fn is_appended(
    appended: Seq<EventView>,
    gap: Option<u64>,
    key: Option<Seq<char>>,
) -> bool {
    let waits: int = if gap is Some {
        1
    } else {
        0
    };
    let keys: int = if key is Some {
        1
    } else {
        0
    };
    &&& appended.len() == waits + keys
    &&& gap matches Some(duration_millis) ==> is_fresh(
        appended[0],
        EventKind::Wait { duration_millis },
        None,
    )
    &&& key matches Some(name) ==> is_fresh(appended[waits], EventKind::KeyPress { key: name }, None)
}

/// What checking for a pause at `at` does: the time of the last event
/// becomes `at`, and an active session gains a wait event where the pause
/// reached the threshold.
pub open spec fn wait_inserted(before: ManagerView, at: Timestamp, after: ManagerView) -> bool {
    &&& after.last_event_time == Some(at)
    &&& after.last_position == before.last_position
    &&& match before.session {
        None => after.session is None,
        Some(session) => {
            &&& after.session matches Some(grown)
            &&& grown.session_id == session.session_id
            &&& grown.started_at == session.started_at
            &&& grown.stopped_at == session.stopped_at
            &&& session.events.len() <= grown.events.len()
            &&& grown.events.subrange(0, session.events.len() as int) == session.events
            &&& is_appended(
                grown.events.skip(session.events.len() as int),
                wait_gap(before.last_event_time, at),
                None,
            )
        },
    }
}

/// What handling the raw event `raw` at `at` does to the store, and which
/// click it leaves pending. The events of an active session stay in place;
/// behind them come the wait, if the pause before `raw` reached the
/// threshold, and then the key press, if `raw` is one to record. A click
/// is not appended yet: it is handed out to get its screenshots.
pub open spec fn handled(
    before: ManagerView,
    raw: RawEventView,
    at: Timestamp,
    after: ManagerView,
    pending: Option<PendingView>,
) -> bool {
    &&& after.last_event_time == Some(at)
    &&& after.last_position == position_after(raw, before.last_position)
    &&& match before.session {
        None => after.session is None && pending is None,
        Some(session) => {
            &&& after.session matches Some(grown)
            &&& grown.session_id == session.session_id
            &&& grown.started_at == session.started_at
            &&& grown.stopped_at == session.stopped_at
            &&& session.events.len() <= grown.events.len()
            &&& grown.events.subrange(0, session.events.len() as int) == session.events
            &&& is_appended(
                grown.events.skip(session.events.len() as int),
                wait_gap(before.last_event_time, at),
                key_to_record(raw),
            )
            &&& match click_to_record(raw) {
                Some(button) => {
                    &&& pending matches Some(click)
                    &&& is_fresh(
                        click.event,
                        EventKind::Click { button },
                        Some(before.last_position),
                    )
                    &&& click.session_id == session.session_id
                },
                None => pending is None,
            }
        },
    }
}

/// The screenshots that a capture brought, as a value: the three slots for
/// a capture that succeeded, nothing for one that failed.
pub open spec fn captured_paths(
    outcome: Result<(String, Option<String>, Option<String>), String>,
) -> Option<ScreenshotPaths> {
    match outcome {
        Ok(paths) => Some(
            ScreenshotPaths {
                full_screen: Some(paths.0@),
                window_crop: optional_text(paths.1),
                click_crop: optional_text(paths.2),
            },
        ),
        Err(reason) => None,
    }
}

/// The click event as it joins the session: with the screenshots of a
/// capture that succeeded, unchanged after one that failed.
pub open spec fn completed_click(event: EventView, captured: Option<ScreenshotPaths>) -> EventView {
    match captured {
        Some(paths) => with_paths(event, paths),
        None => event,
    }
}

/// Maps a raw button to the button that is recorded for it.
pub fn map_button(button: RawButton) -> (mapped: Option<MouseButton>)
    ensures
        mapped == recorded_button(button),
{
    match button {
        RawButton::Left => Some(MouseButton::Left),
        RawButton::Right => Some(MouseButton::Right),
        RawButton::Middle => Some(MouseButton::Middle),
        RawButton::Other => None,
    }
}

/// Tests whether a key identifier names a pure modifier key.
pub fn is_modifier_key(key: &str) -> (modifier: bool)
    ensures
        modifier == is_modifier(key@),
{
    text_equals(key, "ShiftLeft") || text_equals(key, "ShiftRight") || text_equals(
        key,
        "ControlLeft",
    ) || text_equals(key, "ControlRight") || text_equals(key, "Alt") || text_equals(key, "AltGr")
        || text_equals(key, "MetaLeft") || text_equals(key, "MetaRight")
}

/// Checks for a pause before the raw event that arrives at `at`, and puts
/// a wait event into the active session where the pause reached the
/// threshold. The time of the last event becomes `at` in every case.
pub fn check_and_insert_wait_event(manager: &mut SessionManager, at: Timestamp)
    ensures
        wait_inserted(old(manager)@, at, final(manager)@),
{
    let gap = manager.check_and_mark_wait(at);
    match gap {
        Some(duration_millis) => {
            let wait = Event::new(EventType::Wait { duration_millis }, None);
            manager.add_event(wait);
            proof {
                if let Some(session) = old(manager)@.session {
                    let grown = final(manager)@.session->0;
                    assert(grown.events.subrange(0, session.events.len() as int)
                        =~= session.events);
                }
            }
        },
        None => {
            proof {
                if let Some(session) = old(manager)@.session {
                    assert(session.events.subrange(0, session.events.len() as int)
                        =~= session.events);
                }
            }
        },
    }
}

/// Handles one raw input event that arrives at `at`.
///
/// First the pause before it is checked and recorded. A pointer move then
/// only updates the known position. A press of the left, right or middle
/// button in an active session yields a pending click at the last known
/// position, to be completed with [`complete_click`] once its screenshots
/// are taken. A key press in an active session is appended unless the key
/// is a pure modifier. Everything else is ignored.
pub fn handle_event_at(manager: &mut SessionManager, raw: RawEvent, at: Timestamp) -> (pending:
    Option<PendingClick>)
    ensures
        handled(old(manager)@, raw@, at, final(manager)@, optional_pending(pending)),
{
    check_and_insert_wait_event(manager, at);
    let ghost checked = manager@;
    match raw {
        RawEvent::MouseMove { x, y } => {
            manager.update_last_position(Position::new(x, y));
            None
        },
        RawEvent::ButtonPress { button } => {
            match map_button(button) {
                Some(mapped) => {
                    let position = manager.read_last_position();
                    let event = Event::new(EventType::Click { button: mapped }, Some(position));
                    match manager.session_id() {
                        Some(session_id) => Some(PendingClick { event, session_id }),
                        None => None,
                    }
                },
                None => None,
            }
        },
        RawEvent::KeyPress { key } => {
            if !manager.is_recording() {
                None
            } else if is_modifier_key(key.as_str()) {
                None
            } else {
                let press = Event::new(EventType::KeyPress { key }, None);
                manager.add_event(press);
                proof {
                    let session = old(manager)@.session->0;
                    let middle = checked.session->0;
                    let grown = final(manager)@.session->0;
                    let start = session.events.len() as int;
                    assert(grown.events.subrange(0, start) =~= middle.events.subrange(0, start));
                }
                None
            }
        },
        RawEvent::Other => None,
    }
}

/// Handles one raw input event that arrives now.
pub fn handle_event(manager: &mut SessionManager, raw: RawEvent) -> (pending: Option<PendingClick>)
    ensures
        final(manager)@.last_event_time is Some,
        handled(
            old(manager)@,
            raw@,
            final(manager)@.last_event_time->0,
            final(manager)@,
            optional_pending(pending),
        ),
{
    handle_event_at(manager, raw, now())
}

/// Lets a pending click join the session, after its screenshots were
/// attempted. A capture that succeeded fills the three slots, the full
/// frame always and each crop where there is one; a capture that failed
/// leaves the click without screenshots. The click is appended to the
/// active session either way, and dropped where none is active any more.
pub fn complete_click(
    manager: &mut SessionManager,
    pending: PendingClick,
    outcome: Result<(String, Option<String>, Option<String>), String>,
)
    ensures
        final(manager)@ == after_add(
            old(manager)@,
            completed_click(pending@.event, captured_paths(outcome)),
        ),
{
    let event = match outcome {
        Ok(paths) => pending.event.with_screenshots(Some(paths.0), paths.1, paths.2),
        Err(_) => pending.event,
    };
    manager.add_event(event);
}

/// A click joins the session behind the wait that its raw event brought:
/// once it is completed, the session holds the events from before, then
/// that wait if there was one, then the click.
pub proof fn lemma_click_follows_its_wait(
    before: ManagerView,
    raw: RawEventView,
    at: Timestamp,
    handed_out: ManagerView,
    pending: PendingView,
    captured: Option<ScreenshotPaths>,
)
    requires
        before.session is Some,
        handled(before, raw, at, handed_out, Some(pending)),
    ensures
        ({
            let earlier = before.session->0.events;
            let click = completed_click(pending.event, captured);
            let events = after_add(handed_out, click).session->0.events;
            let gap = wait_gap(before.last_event_time, at);
            &&& click.event_type == pending.event.event_type
            &&& click.id == pending.event.id
            &&& events.subrange(0, earlier.len() as int) == earlier
            &&& events.last() == click
            &&& gap is None ==> events.len() == earlier.len() + 1
            &&& gap matches Some(duration_millis) ==> events.len() == earlier.len() + 2
                && events[earlier.len() as int].event_type == (EventKind::Wait { duration_millis })
        }),
{
}

} // verus!
