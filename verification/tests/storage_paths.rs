use flowtrace::clock::Timestamp;
use flowtrace::storage::{
    get_session_dir, recordings_dir, session_file_path, standalone_screenshot_path,
    standalone_screenshot_path_at, standalone_screenshot_path_now,
};
use flowtrace::types::{Event, EventType, MouseButton, Position, RecordingSession};

#[test]
fn recordings_directory() {
    assert_eq!(recordings_dir(), "recordings");
}

#[test]
fn session_directory() {
    assert_eq!(
        get_session_dir("f2e904d2-286e-484c-83e8-5949bd8697f1"),
        "recordings/f2e904d2-286e-484c-83e8-5949bd8697f1"
    );
    assert_eq!(get_session_dir(""), "recordings/");
}

#[test]
fn session_file() {
    assert_eq!(session_file_path("test-session"), "recordings/test-session/session.json");
}

#[test]
fn standalone_screenshot_file() {
    assert_eq!(
        standalone_screenshot_path("20260201_154308"),
        "recordings/screenshot_20260201_154308.png"
    );
}

#[test]
fn standalone_screenshot_is_named_by_its_instant() {
    let epoch = Timestamp { secs: 0, nanos: 0 };
    assert_eq!(
        standalone_screenshot_path_at(&epoch).as_deref(),
        Some("recordings/screenshot_19700101_000000.png")
    );
    let later = Timestamp { secs: 1_431_648_000, nanos: 999_999_999 };
    assert_eq!(
        standalone_screenshot_path_at(&later).as_deref(),
        Some("recordings/screenshot_20150515_000000.png")
    );
    let recent = Timestamp { secs: 1_769_960_588, nanos: 646_618_000 };
    assert_eq!(
        standalone_screenshot_path_at(&recent).as_deref(),
        Some("recordings/screenshot_20260201_154308.png")
    );
    let before = Timestamp { secs: -1, nanos: 0 };
    assert_eq!(
        standalone_screenshot_path_at(&before).as_deref(),
        Some("recordings/screenshot_19691231_235959.png")
    );
}

#[test]
fn standalone_screenshot_outside_the_calendar_has_no_name() {
    assert_eq!(standalone_screenshot_path_at(&Timestamp { secs: i64::MAX, nanos: 0 }), None);
    assert_eq!(standalone_screenshot_path_at(&Timestamp { secs: i64::MIN, nanos: 0 }), None);
    assert_eq!(standalone_screenshot_path_at(&Timestamp { secs: 0, nanos: u32::MAX }), None);
}

#[test]
fn test_capture_screen() {
    let (taken_at, result) = standalone_screenshot_path_now();
    assert!(result.is_some());
    assert_eq!(result, standalone_screenshot_path_at(&taken_at));
    let path = result.unwrap();
    assert!(path.starts_with("recordings/screenshot_"));
    assert!(path.ends_with(".png"));
    assert_eq!(path.len(), "recordings/screenshot_YYYYMMDD_HHMMSS.png".len());
    println!("Test screenshot saved to: {:?}", path);
}

#[test]
fn test_save_session() {
    let mut session = RecordingSession::new("test-session".to_string());

    let event =
        Event::new(EventType::Click { button: MouseButton::Left }, Some(Position::new(100, 200)));

    session.add_event(event);
    session.stop();

    assert!(session.stopped_at.is_some());
    assert_eq!(session.events.len(), 1);
    assert_eq!(session.events[0].description, "Clicked left button at position (100, 200)");
    let path = session_file_path(&session.session_id);
    assert_eq!(path, "recordings/test-session/session.json");
    println!("Test session saved to: {:?}", path);
}
