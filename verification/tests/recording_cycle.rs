use flowtrace::capture::{complete_click, handle_event, RawButton, RawEvent};
use flowtrace::frame::RawImage;
use flowtrace::orchestrator::{CaptureAction, CaptureReport, CaptureStep, ClickCapture};
use flowtrace::recorder::{start_recording, stop_recording, stop_report};
use flowtrace::screenshot::WindowBounds;
use flowtrace::session::SessionManager;
use flowtrace::storage::session_file_path;
use flowtrace::types::{EventType, MouseButton, Position};

fn capture(
    session_id: &str,
    event_id: &str,
    click: Position,
    window: Option<WindowBounds>,
) -> (Result<(String, Option<String>, Option<String>), String>, Vec<(u32, u32, String)>) {
    let mut written = Vec::new();
    let (mut state, mut action) = ClickCapture::begin(session_id, event_id, click.x, click.y);
    loop {
        let report = match action {
            CaptureAction::GrabFrame => CaptureReport::Frame {
                frame: RawImage { width: 640, height: 480, pixels: vec![7; 640 * 480 * 4] },
            },
            CaptureAction::SaveFull { path, .. } => {
                written.push((640, 480, path));
                CaptureReport::Saved
            }
            CaptureAction::FindWindow => match window {
                Some(bounds) => CaptureReport::Window { bounds },
                None => CaptureReport::Failed { reason: "no window".to_string() },
            },
            CaptureAction::SaveCrop { crop, path } => {
                assert_eq!(crop.pixels.len(), 4 * crop.width as usize * crop.height as usize);
                assert!(crop.pixels.iter().all(|byte| *byte == 7));
                written.push((crop.width, crop.height, path));
                CaptureReport::Saved
            }
        };
        match state.step(report) {
            CaptureStep::Continue { capture: next, action: upcoming } => {
                state = next;
                action = upcoming;
            }
            CaptureStep::Done { outcome } => return (outcome, written),
        }
    }
}

#[test]
fn a_recording_from_start_to_stop() {
    let mut manager = SessionManager::new();
    let started = start_recording(&mut manager).expect("idle");
    let session_id = manager.session_id().expect("recording");
    assert_eq!(started, format!("Recording started with session ID: {}", session_id));

    assert!(handle_event(&mut manager, RawEvent::MouseMove { x: 320, y: 240 }).is_none());
    assert!(handle_event(&mut manager, RawEvent::KeyPress { key: "ShiftLeft".to_string() })
        .is_none());
    assert!(handle_event(&mut manager, RawEvent::KeyPress { key: "KeyH".to_string() }).is_none());

    let click = RawEvent::ButtonPress { button: RawButton::Left };
    let pending = handle_event(&mut manager, click).expect("pending click");
    assert_eq!(pending.session_id, session_id);
    let bounds = WindowBounds { x: 100, y: 50, width: 1000, height: 200 };
    let (outcome, written) = capture(
        &pending.session_id,
        &pending.event.id,
        pending.event.position.expect("click position"),
        Some(bounds),
    );
    let event_id = pending.event.id.clone();
    let directory = format!("recordings/{}", session_id);
    assert_eq!(
        written,
        vec![
            (640, 480, format!("{}/event_{}_full.png", directory, event_id)),
            (540, 200, format!("{}/event_{}_window.png", directory, event_id)),
            (300, 300, format!("{}/event_{}_click.png", directory, event_id)),
        ]
    );
    complete_click(&mut manager, pending, outcome);

    let click = RawEvent::ButtonPress { button: RawButton::Right };
    let pending = handle_event(&mut manager, click).expect("pending click");
    let (outcome, written) = capture(
        &pending.session_id,
        &pending.event.id,
        pending.event.position.expect("click position"),
        None,
    );
    assert_eq!(written.len(), 2);
    complete_click(&mut manager, pending, outcome);

    assert_eq!(start_recording(&mut manager), Err("Recording already in progress".to_string()));

    let session = stop_recording(&mut manager).expect("recording");
    assert_eq!(session.session_id, session_id);
    assert!(session.stopped_at.is_some());
    assert_eq!(session.events.len(), 3);

    let typed = &session.events[0];
    assert!(matches!(&typed.event_type, EventType::KeyPress { key } if key == "KeyH"));
    assert_eq!(typed.description, "Typed: H");

    let first = &session.events[1];
    assert!(matches!(first.event_type, EventType::Click { button: MouseButton::Left }));
    assert_eq!(first.id, event_id);
    assert_eq!(first.position, Some(Position { x: 320, y: 240 }));
    assert_eq!(
        first.screenshots.full_screen,
        Some(format!("{}/event_{}_full.png", directory, event_id))
    );
    assert_eq!(
        first.screenshots.window_crop,
        Some(format!("{}/event_{}_window.png", directory, event_id))
    );
    assert_eq!(
        first.screenshots.click_crop,
        Some(format!("{}/event_{}_click.png", directory, event_id))
    );

    let second = &session.events[2];
    assert!(matches!(second.event_type, EventType::Click { button: MouseButton::Right }));
    assert!(second.screenshots.full_screen.is_some());
    assert_eq!(second.screenshots.window_crop, None);
    assert!(second.screenshots.click_crop.is_some());

    let report = stop_report(session.events.len(), Ok(session_file_path(&session.session_id)));
    assert_eq!(
        report,
        Ok(format!(
            "Recording stopped. 3 events captured. Saved to: recordings/{}/session.json",
            session_id
        ))
    );
    assert_eq!(stop_recording(&mut manager).err(), Some("No recording in progress".to_string()));
}
