//! The event model: positions, buttons, the three kinds of recorded events,
//! their classification, and the recording session that collects them.

use crate::clock::{now, Timestamp};
use crate::text::{
    has_prefix, optional_text, push_seconds, push_signed_decimal, seconds_text,
    signed_decimal_text, skip_chars, starts_with, text_equals, without_prefix,
};
use vstd::prelude::*;

verus! {

/// A point on the display in logical pixels. The origin is the top-left
/// corner; `x` grows to the right and `y` downwards.
#[derive(Clone, Copy, Debug, PartialEq, Eq, Structural)]
pub struct Position {
    pub x: i32,
    pub y: i32,
}

impl Position {
    /// The position with the given whole-pixel coordinates.
    pub fn new(x: i32, y: i32) -> (position: Position)
        ensures
            position == (Position { x, y }),
    {
        Position { x, y }
    }
}

/// The mouse buttons that are recorded.
#[derive(Clone, Copy, Debug, PartialEq, Eq, Structural)]
pub enum MouseButton {
    Left,
    Right,
    Middle,
}

/// What happened: a click, a key press, or a pause between two actions.
#[derive(Clone, Debug)]
pub enum EventType {
    Click { button: MouseButton },
    KeyPress { key: String },
    Wait { duration_millis: u64 },
}

/// The mathematical value of an [`EventType`].
pub enum EventKind {
    Click { button: MouseButton },
    KeyPress { key: Seq<char> },
    Wait { duration_millis: u64 },
}

impl View for EventType {
    type V = EventKind;

    open spec fn view(&self) -> EventKind {
        match self {
            EventType::Click { button } => EventKind::Click { button: *button },
            EventType::KeyPress { key } => EventKind::KeyPress { key: key@ },
            EventType::Wait { duration_millis } => EventKind::Wait {
                duration_millis: *duration_millis,
            },
        }
    }
}

/// The files written for one event. An empty slot means that the image was
/// not attempted or that the attempt failed.
#[derive(Clone, Debug)]
pub struct Screenshots {
    pub full_screen: Option<String>,
    pub window_crop: Option<String>,
    pub click_crop: Option<String>,
}

/// The mathematical value of a [`Screenshots`].
pub struct ScreenshotPaths {
    pub full_screen: Option<Seq<char>>,
    pub window_crop: Option<Seq<char>>,
    pub click_crop: Option<Seq<char>>,
}

impl View for Screenshots {
    type V = ScreenshotPaths;

    open spec fn view(&self) -> ScreenshotPaths {
        ScreenshotPaths {
            full_screen: optional_text(self.full_screen),
            window_crop: optional_text(self.window_crop),
            click_crop: optional_text(self.click_crop),
        }
    }
}

/// No screenshot in any slot.
pub open spec fn no_screenshots() -> ScreenshotPaths {
    ScreenshotPaths { full_screen: None, window_crop: None, click_crop: None }
}

/// One recorded action with its classification.
#[derive(Clone, Debug)]
pub struct Event {
    pub id: String,
    pub event_type: EventType,
    pub timestamp: Timestamp,
    pub position: Option<Position>,
    pub screenshots: Screenshots,
    pub action_category: String,
    pub description: String,
}

/// The mathematical value of an [`Event`].
pub struct EventView {
    pub id: Seq<char>,
    pub event_type: EventKind,
    pub timestamp: Timestamp,
    pub position: Option<Position>,
    pub screenshots: ScreenshotPaths,
    pub action_category: Seq<char>,
    pub description: Seq<char>,
}

impl View for Event {
    type V = EventView;

    open spec fn view(&self) -> EventView {
        EventView {
            id: self.id@,
            event_type: self.event_type@,
            timestamp: self.timestamp,
            position: self.position,
            screenshots: self.screenshots@,
            action_category: self.action_category@,
            description: self.description@,
        }
    }
}

/// The word for a button in descriptions.
pub open spec fn button_name(button: MouseButton) -> Seq<char> {
    match button {
        MouseButton::Left => "left"@,
        MouseButton::Right => "right"@,
        MouseButton::Middle => "middle"@,
    }
}

/// Whether a key types a character: a letter key, a digit key or the space
/// bar.
pub open spec fn is_text_key(key: Seq<char>) -> bool {
    has_prefix(key, "Key"@) || has_prefix(key, "Num"@) || key == "Space"@
}

/// The category of a key press, by the key's identifier.
pub open spec fn key_category(key: Seq<char>) -> Seq<char> {
    if is_text_key(key) {
        "text_input"@
    } else if key == "Return"@ || key == "Enter"@ {
        "submit"@
    } else if key == "Tab"@ {
        "navigation"@
    } else if key == "Backspace"@ || key == "Delete"@ {
        "correction"@
    } else if key == "Escape"@ {
        "cancel"@
    } else {
        "special_key"@
    }
}

/// The description of a key press, by the key's identifier. Letter and
/// digit keys show what follows their three-character prefix.
pub open spec fn key_description(key: Seq<char>) -> Seq<char> {
    if has_prefix(key, "Key"@) || has_prefix(key, "Num"@) {
        "Typed: "@ + without_prefix(key, 3)
    } else if key == "Space"@ {
        "Typed: Space"@
    } else if key == "Return"@ || key == "Enter"@ {
        "Pressed Enter (submit)"@
    } else if key == "Tab"@ {
        "Pressed Tab (navigate)"@
    } else if key == "Backspace"@ || key == "Delete"@ {
        "Pressed "@ + key + " (correction)"@
    } else if key == "Escape"@ {
        "Pressed Escape (cancel)"@
    } else {
        "Pressed: "@ + key
    }
}

/// The description of a click, with the position where one is known.
pub open spec fn click_description(button: MouseButton, position: Option<Position>) -> Seq<char> {
    match position {
        Some(at) => "Clicked "@ + button_name(button) + " button at position ("@
            + signed_decimal_text(at.x as int) + ", "@ + signed_decimal_text(at.y as int) + ")"@,
        None => "Clicked "@ + button_name(button) + " button"@,
    }
}

/// The category of an event: one of `interaction`, `text_input`, `submit`,
/// `navigation`, `correction`, `cancel`, `wait` and `special_key`.
pub open spec fn category_of(kind: EventKind) -> Seq<char> {
    match kind {
        EventKind::Click { button } => "interaction"@,
        EventKind::KeyPress { key } => key_category(key),
        EventKind::Wait { duration_millis } => "wait"@,
    }
}

/// The description of an event for a human reader.
pub open spec fn description_of(kind: EventKind, position: Option<Position>) -> Seq<char> {
    match kind {
        EventKind::Click { button } => click_description(button, position),
        EventKind::KeyPress { key } => key_description(key),
        EventKind::Wait { duration_millis } => "Paused for "@ + seconds_text(duration_millis)
            + " seconds"@,
    }
}

/// The event that construction yields from its parts: classified, and
/// without screenshots.
pub open spec fn built_event(
    id: Seq<char>,
    timestamp: Timestamp,
    kind: EventKind,
    position: Option<Position>,
) -> EventView {
    EventView {
        id,
        event_type: kind,
        timestamp,
        position,
        screenshots: no_screenshots(),
        action_category: category_of(kind),
        description: description_of(kind, position),
    }
}

/// The event with its screenshot slots replaced.
pub open spec fn with_paths(event: EventView, screenshots: ScreenshotPaths) -> EventView {
    EventView { screenshots, ..event }
}

/// Draws a random version-4 identifier with `uuid::Uuid::new_v4` and
/// renders it with `to_string`, which writes the hyphenated form: 36
/// characters. Which identifier comes back is not stated. The call panics
/// where the operating system cannot supply random bytes.
#[verifier::external_body]
pub(crate) fn fresh_id() -> (id: String)
    ensures
        id@.len() == 36,
{
    uuid::Uuid::new_v4().to_string()
}

fn button_label(button: MouseButton) -> (label: &'static str)
    ensures
        label@ == button_name(button),
{
    match button {
        MouseButton::Left => "left",
        MouseButton::Right => "right",
        MouseButton::Middle => "middle",
    }
}

fn describe_click(button: MouseButton, position: &Option<Position>) -> (description: String)
    ensures
        description@ == click_description(button, *position),
{
    let mut description = "Clicked ".to_owned();
    description.append(button_label(button));
    match position {
        Some(at) => {
            description.append(" button at position (");
            push_signed_decimal(&mut description, at.x as i64);
            description.append(", ");
            push_signed_decimal(&mut description, at.y as i64);
            description.append(")");
        },
        None => {
            description.append(" button");
        },
    }
    description
}

fn classify_key(key: &str) -> (labels: (String, String))
    ensures
        labels.0@ == key_category(key@),
        labels.1@ == key_description(key@),
{
    if starts_with(key, "Key") || starts_with(key, "Num") {
        let mut description = "Typed: ".to_owned();
        description.append(skip_chars(key, 3));
        ("text_input".to_owned(), description)
    } else if text_equals(key, "Space") {
        ("text_input".to_owned(), "Typed: Space".to_owned())
    } else if text_equals(key, "Return") || text_equals(key, "Enter") {
        ("submit".to_owned(), "Pressed Enter (submit)".to_owned())
    } else if text_equals(key, "Tab") {
        ("navigation".to_owned(), "Pressed Tab (navigate)".to_owned())
    } else if text_equals(key, "Backspace") || text_equals(key, "Delete") {
        let mut description = "Pressed ".to_owned();
        description.append(key);
        description.append(" (correction)");
        ("correction".to_owned(), description)
    } else if text_equals(key, "Escape") {
        ("cancel".to_owned(), "Pressed Escape (cancel)".to_owned())
    } else {
        let mut description = "Pressed: ".to_owned();
        description.append(key);
        ("special_key".to_owned(), description)
    }
}

/// Derives the category and the description of an event from its kind and
/// position. Every combination classifies.
pub fn classify_and_describe(event_type: &EventType, position: &Option<Position>) -> (labels: (
    String,
    String,
))
    ensures
        labels.0@ == category_of(event_type@),
        labels.1@ == description_of(event_type@, *position),
{
    match event_type {
        EventType::Click { button } => {
            ("interaction".to_owned(), describe_click(*button, position))
        },
        EventType::KeyPress { key } => classify_key(key.as_str()),
        EventType::Wait { duration_millis } => {
            let mut description = "Paused for ".to_owned();
            push_seconds(&mut description, *duration_millis);
            description.append(" seconds");
            ("wait".to_owned(), description)
        },
    }
}

impl Event {
    /// Whether the category and the description are those that
    /// classification gives for the event's kind and position.
    pub open spec fn is_classified(&self) -> bool {
        &&& self@.action_category == category_of(self@.event_type)
        &&& self@.description == description_of(self@.event_type, self@.position)
    }

    /// Builds the event with the given identifier and time stamp. It is
    /// classified here, once, and carries no screenshots yet.
    pub fn build(
        id: String,
        timestamp: Timestamp,
        event_type: EventType,
        position: Option<Position>,
    ) -> (event: Event)
        ensures
            event@ == built_event(id@, timestamp, event_type@, position),
            event.is_classified(),
    {
        let (action_category, description) = classify_and_describe(&event_type, &position);
        Event {
            id,
            event_type,
            timestamp,
            position,
            screenshots: Screenshots { full_screen: None, window_crop: None, click_crop: None },
            action_category,
            description,
        }
    }

    /// Builds an event that happens now, under a fresh random identifier.
    /// The identifier and the time stamp are whatever the generator and the
    /// clock gave; everything else is fixed by the arguments.
    pub fn new(event_type: EventType, position: Option<Position>) -> (event: Event)
        ensures
            event@ == built_event(event@.id, event@.timestamp, event_type@, position),
            event@.id.len() == 36,
            event.is_classified(),
    {
        Event::build(fresh_id(), now(), event_type, position)
    }

    /// Replaces the three screenshot slots and leaves the rest as it is.
    pub fn with_screenshots(
        self,
        full: Option<String>,
        window: Option<String>,
        click: Option<String>,
    ) -> (event: Event)
        ensures
            event@ == with_paths(
                self@,
                ScreenshotPaths {
                    full_screen: optional_text(full),
                    window_crop: optional_text(window),
                    click_crop: optional_text(click),
                },
            ),
            self.is_classified() ==> event.is_classified(),
    {
        let mut event = self;
        event.screenshots = Screenshots { full_screen: full, window_crop: window, click_crop: click };
        event
    }
}

/// One recording run: its identifier, when it started and stopped, and the
/// events captured in between, oldest first.
#[derive(Clone, Debug)]
pub struct RecordingSession {
    pub session_id: String,
    pub started_at: Timestamp,
    pub stopped_at: Option<Timestamp>,
    pub events: Vec<Event>,
}

/// The mathematical value of a [`RecordingSession`].
pub struct SessionView {
    pub session_id: Seq<char>,
    pub started_at: Timestamp,
    pub stopped_at: Option<Timestamp>,
    pub events: Seq<EventView>,
}

/// The values of a list of events, in the same order.
pub open spec fn event_views(events: Seq<Event>) -> Seq<EventView> {
    events.map_values(|event: Event| event@)
}

impl View for RecordingSession {
    type V = SessionView;

    open spec fn view(&self) -> SessionView {
        SessionView {
            session_id: self.session_id@,
            started_at: self.started_at,
            stopped_at: self.stopped_at,
            events: event_views(self.events@),
        }
    }
}

/// A session that has just started: still running and without events.
pub open spec fn new_session(session_id: Seq<char>, started_at: Timestamp) -> SessionView {
    SessionView { session_id, started_at, stopped_at: None, events: Seq::empty() }
}

/// The session with one more event at the end of its list.
pub open spec fn with_event(session: SessionView, event: EventView) -> SessionView {
    SessionView { events: session.events.push(event), ..session }
}

/// The session after `added` has been appended to it, one event after
/// another.
pub open spec fn with_events(session: SessionView, added: Seq<EventView>) -> SessionView
    decreases added.len(),
{
    if added.len() == 0 {
        session
    } else {
        with_event(with_events(session, added.drop_last()), added.last())
    }
}

/// The session with its end recorded.
pub open spec fn stopped_session(session: SessionView, stopped_at: Timestamp) -> SessionView {
    SessionView { stopped_at: Some(stopped_at), ..session }
}

impl RecordingSession {
    /// Starts a session at the given instant.
    pub fn begin_at(session_id: String, started_at: Timestamp) -> (session: RecordingSession)
        ensures
            session@ == new_session(session_id@, started_at),
    {
        let session = RecordingSession {
            session_id,
            started_at,
            stopped_at: None,
            events: Vec::new(),
        };
        proof {
            assert(session@.events =~= Seq::<EventView>::empty());
        }
        session
    }

    /// Starts a session now. The start time is what the clock gave.
    pub fn new(session_id: String) -> (session: RecordingSession)
        ensures
            session@ == new_session(session_id@, session@.started_at),
    {
        RecordingSession::begin_at(session_id, now())
    }

    /// Appends an event. Earlier events stay where they are.
    pub fn add_event(&mut self, event: Event)
        ensures
            final(self)@ == with_event(old(self)@, event@),
    {
        self.events.push(event);
        proof {
            assert(event_views(final(self).events@) =~= event_views(old(self).events@).push(
                event@,
            ));
        }
    }

    /// Records the given instant as the end of the session.
    pub fn stop_at(&mut self, stopped_at: Timestamp)
        ensures
            final(self)@ == stopped_session(old(self)@, stopped_at),
    {
        self.stopped_at = Some(stopped_at);
    }

    /// Records the present moment as the end of the session.
    pub fn stop(&mut self)
        ensures
            final(self)@.stopped_at is Some,
            final(self)@ == stopped_session(old(self)@, final(self)@.stopped_at->0),
    {
        self.stop_at(now());
    }
}

/// Every event falls into one of the eight categories.
pub proof fn lemma_category_is_known(kind: EventKind)
    ensures
        ({
            let category = category_of(kind);
            ||| category == "interaction"@
            ||| category == "text_input"@
            ||| category == "submit"@
            ||| category == "navigation"@
            ||| category == "correction"@
            ||| category == "cancel"@
            ||| category == "wait"@
            ||| category == "special_key"@
        }),
{
}

/// Events appended one after another come out in the order in which they
/// went in, behind the events that were there before: the list grows by
/// exactly the number of appended events and nothing else changes.
pub proof fn lemma_appends_keep_order(session: SessionView, added: Seq<EventView>)
    ensures
        with_events(session, added).events == session.events + added,
        with_events(session, added).events.len() == session.events.len() + added.len(),
        with_events(session, added).session_id == session.session_id,
        with_events(session, added).started_at == session.started_at,
        with_events(session, added).stopped_at == session.stopped_at,
    decreases added.len(),
{
    if added.len() == 0 {
    } else {
        lemma_appends_keep_order(session, added.drop_last());
    }
}

} // verus!
