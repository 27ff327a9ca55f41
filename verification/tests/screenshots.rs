use flowtrace::screenshot::{
    click_crop_rect, screenshot_file_name, screenshot_path, window_crop_rect, CropRect,
    ScreenshotKind, WindowBounds, CROP_SIZE, HALF_CROP_SIZE,
};

const SESSION: &str = "f2e904d2-286e-484c-83e8-5949bd8697f1";
const EVENT: &str = "cece1f95-8a90-4fa5-8fcc-2995113918ab";

#[test]
fn crop_constants() {
    assert_eq!(CROP_SIZE, 300);
    assert_eq!(HALF_CROP_SIZE, 150);
}

#[test]
fn click_near_the_origin_is_clamped() {
    let rect = click_crop_rect(10, 10, 1920, 1080);
    assert_eq!(rect, CropRect { x: 0, y: 0, width: 300, height: 300 });
}

#[test]
fn click_near_the_far_corner_stays_inside() {
    let rect = click_crop_rect(1919, 1079, 1920, 1080);
    assert_eq!(rect, CropRect { x: 1620, y: 780, width: 300, height: 300 });
    assert!(rect.x + rect.width <= 1920);
    assert!(rect.y + rect.height <= 1080);
}

#[test]
fn click_in_the_middle_is_centered() {
    let rect = click_crop_rect(709, 328, 1920, 1080);
    assert_eq!(rect, CropRect { x: 559, y: 178, width: 300, height: 300 });
    let rect = click_crop_rect(150, 930, 1920, 1080);
    assert_eq!(rect, CropRect { x: 0, y: 780, width: 300, height: 300 });
    let rect = click_crop_rect(151, 929, 1920, 1080);
    assert_eq!(rect, CropRect { x: 1, y: 779, width: 300, height: 300 });
}

#[test]
fn click_outside_the_frame_is_pulled_in() {
    let rect = click_crop_rect(-500, 5000, 1920, 1080);
    assert_eq!(rect, CropRect { x: 0, y: 780, width: 300, height: 300 });
    let rect = click_crop_rect(i32::MIN, i32::MAX, 1920, 1080);
    assert_eq!(rect, CropRect { x: 0, y: 780, width: 300, height: 300 });
}

#[test]
fn click_crop_in_a_small_frame_is_the_frame() {
    let rect = click_crop_rect(100, 50, 200, 100);
    assert_eq!(rect, CropRect { x: 0, y: 0, width: 200, height: 100 });
    let rect = click_crop_rect(400, 50, 800, 100);
    assert_eq!(rect, CropRect { x: 250, y: 0, width: 300, height: 100 });
    let rect = click_crop_rect(10, 10, 300, 300);
    assert_eq!(rect, CropRect { x: 0, y: 0, width: 300, height: 300 });
    let rect = click_crop_rect(10, 10, 0, 0);
    assert_eq!(rect, CropRect { x: 0, y: 0, width: 0, height: 0 });
}

#[test]
fn click_crop_always_fits() {
    let frames = [(0u32, 0u32), (1, 1), (299, 301), (300, 300), (1920, 1080), (u32::MAX, u32::MAX)];
    let clicks = [i32::MIN, -1, 0, 1, 149, 150, 151, 299, 300, 1079, 1919, 100_000, i32::MAX];
    for (width, height) in frames {
        for x in clicks {
            for y in clicks {
                let rect = click_crop_rect(x, y, width, height);
                assert!(rect.x as u64 + rect.width as u64 <= width as u64);
                assert!(rect.y as u64 + rect.height as u64 <= height as u64);
                assert_eq!(rect.width, width.min(300));
                assert_eq!(rect.height, height.min(300));
            }
        }
    }
}

#[test]
fn window_inside_the_frame_is_kept() {
    let bounds = WindowBounds { x: 200, y: 100, width: 800, height: 600 };
    assert_eq!(
        window_crop_rect(&bounds, 1920, 1080),
        Some(CropRect { x: 200, y: 100, width: 800, height: 600 })
    );
}

#[test]
fn window_is_clamped_to_the_frame() {
    let bounds = WindowBounds { x: 1500, y: 900, width: 800, height: 600 };
    assert_eq!(
        window_crop_rect(&bounds, 1920, 1080),
        Some(CropRect { x: 1500, y: 900, width: 420, height: 180 })
    );
    let bounds = WindowBounds { x: -50, y: -20, width: 800, height: 600 };
    assert_eq!(
        window_crop_rect(&bounds, 1920, 1080),
        Some(CropRect { x: 0, y: 0, width: 800, height: 600 })
    );
    let bounds = WindowBounds { x: 0, y: 0, width: 5000, height: 5000 };
    assert_eq!(
        window_crop_rect(&bounds, 1920, 1080),
        Some(CropRect { x: 0, y: 0, width: 1920, height: 1080 })
    );
}

#[test]
fn window_without_extent_is_empty() {
    let bounds = WindowBounds { x: 10, y: 10, width: -5, height: 0 };
    assert_eq!(
        window_crop_rect(&bounds, 1920, 1080),
        Some(CropRect { x: 10, y: 10, width: 0, height: 0 })
    );
    let bounds = WindowBounds { x: 1920, y: 1080, width: 10, height: 10 };
    assert_eq!(
        window_crop_rect(&bounds, 1920, 1080),
        Some(CropRect { x: 1920, y: 1080, width: 0, height: 0 })
    );
}

#[test]
fn window_beyond_the_frame_has_no_region() {
    let bounds = WindowBounds { x: 1921, y: 0, width: 10, height: 10 };
    assert_eq!(window_crop_rect(&bounds, 1920, 1080), None);
    let bounds = WindowBounds { x: 0, y: 1081, width: 10, height: 10 };
    assert_eq!(window_crop_rect(&bounds, 1920, 1080), None);
    let bounds = WindowBounds { x: i64::MAX, y: i64::MAX, width: i64::MAX, height: i64::MAX };
    assert_eq!(window_crop_rect(&bounds, 1920, 1080), None);
}

#[test]
fn window_region_always_fits() {
    let values = [i64::MIN, -1, 0, 1, 1079, 1080, 1919, 1920, 1921, 4_294_967_296, i64::MAX];
    for x in values {
        for width in values {
            let bounds = WindowBounds { x, y: 0, width, height: 10 };
            if let Some(rect) = window_crop_rect(&bounds, 1920, 1080) {
                assert!(rect.x as u64 + rect.width as u64 <= 1920);
                assert!(rect.y as u64 + rect.height as u64 <= 1080);
            } else {
                assert!(x > 1920);
            }
        }
    }
}

#[test]
fn file_names() {
    assert_eq!(screenshot_file_name("e1", ScreenshotKind::Full), "event_e1_full.png");
    assert_eq!(screenshot_file_name("e1", ScreenshotKind::Window), "event_e1_window.png");
    assert_eq!(screenshot_file_name("e1", ScreenshotKind::Click), "event_e1_click.png");
}

#[test]
fn paths() {
    assert_eq!(
        screenshot_path(SESSION, EVENT, ScreenshotKind::Full),
        format!("recordings/{}/event_{}_full.png", SESSION, EVENT)
    );
    assert_eq!(
        screenshot_path(SESSION, EVENT, ScreenshotKind::Window),
        format!("recordings/{}/event_{}_window.png", SESSION, EVENT)
    );
    assert_eq!(
        screenshot_path(SESSION, EVENT, ScreenshotKind::Click),
        format!("recordings/{}/event_{}_click.png", SESSION, EVENT)
    );
    assert_eq!(screenshot_path("s", "e", ScreenshotKind::Full), "recordings/s/event_e_full.png");
}
