//! The screenshots of a click: which regions of the captured frame are cut
//! out and where the images are written.

use crate::storage::{get_session_dir, session_dir_text};
use vstd::prelude::*;

verus! {

/// The side of the square that is cut out around a click, in pixels.
pub const CROP_SIZE: u32 = 300;

/// Half the side of the click square.
pub const HALF_CROP_SIZE: u32 = 150;

/// A rectangle of pixels in a frame.
#[derive(Clone, Copy, Debug, PartialEq, Eq, Structural)]
pub struct CropRect {
    pub x: u32,
    pub y: u32,
    pub width: u32,
    pub height: u32,
}

/// The bounding rectangle of a window in whole pixels, as the window
/// lookup gives it: it may start off the screen and reach beyond it.
#[derive(Clone, Copy, Debug, PartialEq, Eq, Structural)]
pub struct WindowBounds {
    pub x: i64,
    pub y: i64,
    pub width: i64,
    pub height: i64,
}

/// The three images of a click.
#[derive(Clone, Copy, Debug, PartialEq, Eq, Structural)]
pub enum ScreenshotKind {
    /// The whole frame.
    Full,
    /// The region of the active window.
    Window,
    /// The square around the click.
    Click,
}

/// Whether a rectangle lies inside a frame of the given size.
pub open spec fn fits_frame(rect: CropRect, frame_width: u32, frame_height: u32) -> bool {
    rect.x + rect.width <= frame_width && rect.y + rect.height <= frame_height
}

/// Where the click square starts along one axis: half a square before the
/// click, moved into the frame where that would leave it, and at the
/// frame's start where the frame is shorter than the square.
pub open spec fn click_origin(click: int, extent: int) -> int {
    let wanted: int = click - HALF_CROP_SIZE;
    let highest: int = extent - CROP_SIZE;
    if highest <= 0 || wanted <= 0 {
        0
    } else if wanted >= highest {
        highest
    } else {
        wanted
    }
}

/// How far the click square reaches along one axis from `origin`: a full
/// side, or what is left of the frame where that is less.
pub open spec fn click_span(origin: int, extent: int) -> int {
    if extent - origin < CROP_SIZE {
        extent - origin
    } else {
        CROP_SIZE as int
    }
}

/// The square that is cut out around a click.
pub open spec fn click_crop(click_x: i32, click_y: i32, frame_width: u32, frame_height: u32) -> CropRect {
    let x: int = click_origin(click_x as int, frame_width as int);
    let y: int = click_origin(click_y as int, frame_height as int);
    CropRect {
        x: x as u32,
        y: y as u32,
        width: click_span(x, frame_width as int) as u32,
        height: click_span(y, frame_height as int) as u32,
    }
}

/// Where the window region starts along one axis: at the window's edge, or
/// at the frame's start for a window that begins before it.
pub open spec fn window_origin(start: int) -> int {
    if start < 0 {
        0
    } else {
        start
    }
}

/// How far the window region reaches along one axis: the window's size,
/// but not less than nothing and not more than the `room` that the frame
/// leaves behind the origin.
pub open spec fn window_span(size: int, room: int) -> int {
    if size <= 0 {
        0
    } else if size >= room {
        room
    } else {
        size
    }
}

/// The region that is cut out for a window: its bounds clamped to the
/// frame. There is none for a window that starts beyond the frame.
pub open spec fn window_crop(bounds: WindowBounds, frame_width: u32, frame_height: u32) -> Option<
    CropRect,
> {
    let x: int = window_origin(bounds.x as int);
    let y: int = window_origin(bounds.y as int);
    if x > frame_width || y > frame_height {
        None
    } else {
        Some(
            CropRect {
                x: x as u32,
                y: y as u32,
                width: window_span(bounds.width as int, frame_width - x) as u32,
                height: window_span(bounds.height as int, frame_height - y) as u32,
            },
        )
    }
}

/// The end of an image's file name.
pub open spec fn kind_suffix(kind: ScreenshotKind) -> Seq<char> {
    match kind {
        ScreenshotKind::Full => "_full.png"@,
        ScreenshotKind::Window => "_window.png"@,
        ScreenshotKind::Click => "_click.png"@,
    }
}

/// The file name of an image: `event_<event-id>_<kind>.png`.
pub open spec fn screenshot_file_text(event_id: Seq<char>, kind: ScreenshotKind) -> Seq<char> {
    "event_"@ + event_id + kind_suffix(kind)
}

/// The path of an image: `recordings/<session-id>/event_<event-id>_<kind>.png`.
pub open spec fn screenshot_path_text(
    session_id: Seq<char>,
    event_id: Seq<char>,
    kind: ScreenshotKind,
) -> Seq<char> {
    session_dir_text(session_id) + "/"@ + screenshot_file_text(event_id, kind)
}

fn origin_for_click(click: i32, extent: u32) -> (origin: u32)
    ensures
        origin == click_origin(click as int, extent as int),
        origin <= extent,
{
    let wanted: i64 = click as i64 - HALF_CROP_SIZE as i64;
    let highest: i64 = extent as i64 - CROP_SIZE as i64;
    if highest <= 0 || wanted <= 0 {
        0
    } else if wanted >= highest {
        highest as u32
    } else {
        wanted as u32
    }
}

fn span_for_click(origin: u32, extent: u32) -> (span: u32)
    requires
        origin <= extent,
    ensures
        span == click_span(origin as int, extent as int),
        origin + span <= extent,
{
    if extent - origin < CROP_SIZE {
        extent - origin
    } else {
        CROP_SIZE
    }
}

/// Computes the square that is cut out around a click at
/// `(click_x, click_y)` in a frame of the given size. The square never
/// leaves the frame; it has the full side wherever the frame is large
/// enough for one.
pub fn click_crop_rect(click_x: i32, click_y: i32, frame_width: u32, frame_height: u32) -> (rect:
    CropRect)
    ensures
        rect == click_crop(click_x, click_y, frame_width, frame_height),
        fits_frame(rect, frame_width, frame_height),
        frame_width >= CROP_SIZE ==> rect.width == CROP_SIZE,
        frame_height >= CROP_SIZE ==> rect.height == CROP_SIZE,
{
    let x: u32 = origin_for_click(click_x, frame_width);
    let y: u32 = origin_for_click(click_y, frame_height);
    CropRect {
        x,
        y,
        width: span_for_click(x, frame_width),
        height: span_for_click(y, frame_height),
    }
}

fn span_for_window(size: i64, room: u32) -> (span: u32)
    ensures
        span == window_span(size as int, room as int),
        span <= room,
{
    if size <= 0 {
        0
    } else if size >= room as i64 {
        room
    } else {
        size as u32
    }
}

/// Computes the region that is cut out for the active window: its bounds
/// clamped to the frame, so that the region never leaves the frame. A
/// window that starts beyond the frame has no region.
pub fn window_crop_rect(bounds: &WindowBounds, frame_width: u32, frame_height: u32) -> (rect:
    Option<CropRect>)
    ensures
        rect == window_crop(*bounds, frame_width, frame_height),
        rect matches Some(region) ==> fits_frame(region, frame_width, frame_height),
{
    let x: i64 = if bounds.x < 0 {
        0
    } else {
        bounds.x
    };
    let y: i64 = if bounds.y < 0 {
        0
    } else {
        bounds.y
    };
    if x > frame_width as i64 || y > frame_height as i64 {
        return None;
    }
    let x: u32 = x as u32;
    let y: u32 = y as u32;
    Some(
        CropRect {
            x,
            y,
            width: span_for_window(bounds.width, frame_width - x),
            height: span_for_window(bounds.height, frame_height - y),
        },
    )
}

/// The file name of an image of the event `event_id`.
pub fn screenshot_file_name(event_id: &str, kind: ScreenshotKind) -> (name: String)
    ensures
        name@ == screenshot_file_text(event_id@, kind),
{
    let mut name = "event_".to_owned();
    name.append(event_id);
    match kind {
        ScreenshotKind::Full => name.append("_full.png"),
        ScreenshotKind::Window => name.append("_window.png"),
        ScreenshotKind::Click => name.append("_click.png"),
    }
    name
}

/// The path of an image of the event `event_id` in the session
/// `session_id`.
pub fn screenshot_path(session_id: &str, event_id: &str, kind: ScreenshotKind) -> (path: String)
    ensures
        path@ == screenshot_path_text(session_id@, event_id@, kind),
{
    let mut path = get_session_dir(session_id);
    path.append("/");
    let name = screenshot_file_name(event_id, kind);
    path.append(name.as_str());
    path
}

} // verus!
