//! The screenshot orchestrator: in which order the steps of a capture
//! follow each other, which regions are cut out of the frame, and what a
//! capture hands back. Capturing the frame, looking up the window and
//! writing the images are the caller's part: the orchestrator says what to
//! do next and takes the report on how it went.

use crate::frame::{cut_region, empty_image, is_whole, region_of, ImageView, RawImage};
use crate::screenshot::{
    click_crop, click_crop_rect, screenshot_path, screenshot_path_text, window_crop,
    window_crop_rect, ScreenshotKind, WindowBounds,
};
use crate::storage::{get_session_dir, session_dir_text};
use crate::text::optional_text;
use vstd::prelude::*;

verus! {

/// What a capture waits for.
#[derive(Clone, Copy, Debug, PartialEq, Eq, Structural)]
pub enum CaptureStage {
    /// The frame of the primary display.
    AwaitFrame,
    /// The full image to be written.
    AwaitFullImage,
    /// The bounds of the active window.
    AwaitWindow,
    /// The window image to be written.
    AwaitWindowImage,
    /// The click image to be written.
    AwaitClickImage,
}

/// What the caller reports back after a step.
#[derive(Clone, Debug)]
pub enum CaptureReport {
    /// A frame was captured.
    Frame { frame: RawImage },
    /// The active window was found.
    Window { bounds: WindowBounds },
    /// The directory exists and the image was written.
    Saved,
    /// The step failed.
    Failed { reason: String },
}

/// The mathematical value of a [`CaptureReport`].
pub enum ReportView {
    Frame { frame: ImageView },
    Window { bounds: WindowBounds },
    Saved,
    Failed { reason: Seq<char> },
}

impl View for CaptureReport {
    type V = ReportView;

    open spec fn view(&self) -> ReportView {
        match self {
            CaptureReport::Frame { frame } => ReportView::Frame { frame: frame@ },
            CaptureReport::Window { bounds } => ReportView::Window { bounds: *bounds },
            CaptureReport::Saved => ReportView::Saved,
            CaptureReport::Failed { reason } => ReportView::Failed { reason: reason@ },
        }
    }
}

/// What the caller has to do next.
#[derive(Clone, Debug)]
pub enum CaptureAction {
    /// Capture one frame of the primary display.
    GrabFrame,
    /// Make sure that `directory` exists and write the whole frame to
    /// `path`.
    SaveFull { directory: String, path: String },
    /// Look up the bounds of the active window.
    FindWindow,
    /// Write `crop`, a region cut out of the frame, to `path`.
    SaveCrop { crop: RawImage, path: String },
}

/// The mathematical value of a [`CaptureAction`].
pub enum ActionView {
    GrabFrame,
    SaveFull { directory: Seq<char>, path: Seq<char> },
    FindWindow,
    SaveCrop { crop: ImageView, path: Seq<char> },
}

impl View for CaptureAction {
    type V = ActionView;

    open spec fn view(&self) -> ActionView {
        match self {
            CaptureAction::GrabFrame => ActionView::GrabFrame,
            CaptureAction::SaveFull { directory, path } => ActionView::SaveFull {
                directory: directory@,
                path: path@,
            },
            CaptureAction::FindWindow => ActionView::FindWindow,
            CaptureAction::SaveCrop { crop, path } => ActionView::SaveCrop {
                crop: crop@,
                path: path@,
            },
        }
    }
}

/// The capture of the screenshots of one click, between two steps.
#[derive(Debug)]
pub struct ClickCapture {
    session_id: String,
    event_id: String,
    click_x: i32,
    click_y: i32,
    stage: CaptureStage,
    frame: RawImage,
    window_saved: bool,
}

/// The mathematical value of a [`ClickCapture`].
pub struct CaptureView {
    pub session_id: Seq<char>,
    pub event_id: Seq<char>,
    pub click_x: i32,
    pub click_y: i32,
    pub stage: CaptureStage,
    /// The captured frame; an empty image until there is one.
    pub frame: ImageView,
    /// Whether the window image was written.
    pub window_saved: bool,
}

impl View for ClickCapture {
    type V = CaptureView;

    closed spec fn view(&self) -> CaptureView {
        CaptureView {
            session_id: self.session_id@,
            event_id: self.event_id@,
            click_x: self.click_x,
            click_y: self.click_y,
            stage: self.stage,
            frame: self.frame@,
            window_saved: self.window_saved,
        }
    }
}

/// The paths that a capture hands back: the full image always, each crop
/// where it was written.
pub struct CapturedView {
    pub full: Seq<char>,
    pub window: Option<Seq<char>>,
    pub click: Option<Seq<char>>,
}

/// How a step ends.
pub enum CaptureStep {
    /// The capture goes on: the caller performs `action` and reports back.
    Continue { capture: ClickCapture, action: CaptureAction },
    /// The capture is over.
    Done { outcome: Result<(String, Option<String>, Option<String>), String> },
}

/// The mathematical value of a [`CaptureStep`].
pub enum StepView {
    Continue { capture: CaptureView, action: ActionView },
    Done { outcome: Result<CapturedView, Seq<char>> },
}

/// The value of a capture's outcome.
pub open spec fn outcome_view(
    outcome: Result<(String, Option<String>, Option<String>), String>,
) -> Result<CapturedView, Seq<char>> {
    match outcome {
        Ok(paths) => Ok(
            CapturedView {
                full: paths.0@,
                window: optional_text(paths.1),
                click: optional_text(paths.2),
            },
        ),
        Err(reason) => Err(reason@),
    }
}

impl View for CaptureStep {
    type V = StepView;

    open spec fn view(&self) -> StepView {
        match self {
            CaptureStep::Continue { capture, action } => StepView::Continue {
                capture: capture@,
                action: action@,
            },
            CaptureStep::Done { outcome } => StepView::Done { outcome: outcome_view(*outcome) },
        }
    }
}

/// A capture that has not begun: it waits for the frame.
pub open spec fn new_capture(
    session_id: Seq<char>,
    event_id: Seq<char>,
    click_x: i32,
    click_y: i32,
) -> CaptureView {
    CaptureView {
        session_id,
        event_id,
        click_x,
        click_y,
        stage: CaptureStage::AwaitFrame,
        frame: empty_image(),
        window_saved: false,
    }
}

/// Why a frame that lacks bytes is refused.
pub open spec fn incomplete_frame_text() -> Seq<char> {
    "Failed to convert screenshot to image format"@
}

/// Why a step that must not fail did: the reported reason, or a fixed text
/// for a report that does not answer the step.
pub open spec fn failure_reason(report: ReportView) -> Seq<char> {
    match report {
        ReportView::Failed { reason } => reason,
        _ => "Unexpected capture report"@,
    }
}

/// The path of one of the capture's images.
pub open spec fn capture_path(capture: CaptureView, kind: ScreenshotKind) -> Seq<char> {
    screenshot_path_text(capture.session_id, capture.event_id, kind)
}

/// The step that writes the click image: the last one.
pub open spec fn click_step(capture: CaptureView, window_saved: bool) -> StepView {
    StepView::Continue {
        capture: CaptureView { stage: CaptureStage::AwaitClickImage, window_saved, ..capture },
        action: ActionView::SaveCrop {
            crop: region_of(
                capture.frame,
                click_crop(
                    capture.click_x,
                    capture.click_y,
                    capture.frame.width,
                    capture.frame.height,
                ),
            ),
            path: capture_path(capture, ScreenshotKind::Click),
        },
    }
}

/// How the capture goes on after a report.
///
/// Without a frame that holds all its pixels, or without the full image on
/// disk, the capture is over and has failed. From then on nothing makes it
/// fail: a window that is not found or lies off the frame, and a crop that
/// is not written, only leave their slot empty.
pub open spec fn step_of(capture: CaptureView, report: ReportView) -> StepView {
    match capture.stage {
        CaptureStage::AwaitFrame => match report {
            ReportView::Frame { frame } => if is_whole(frame) {
                StepView::Continue {
                    capture: CaptureView { stage: CaptureStage::AwaitFullImage, frame, ..capture },
                    action: ActionView::SaveFull {
                        directory: session_dir_text(capture.session_id),
                        path: capture_path(capture, ScreenshotKind::Full),
                    },
                }
            } else {
                StepView::Done { outcome: Err(incomplete_frame_text()) }
            },
            _ => StepView::Done { outcome: Err(failure_reason(report)) },
        },
        CaptureStage::AwaitFullImage => match report {
            ReportView::Saved => StepView::Continue {
                capture: CaptureView { stage: CaptureStage::AwaitWindow, ..capture },
                action: ActionView::FindWindow,
            },
            _ => StepView::Done { outcome: Err(failure_reason(report)) },
        },
        CaptureStage::AwaitWindow => match report {
            ReportView::Window { bounds } => match window_crop(
                bounds,
                capture.frame.width,
                capture.frame.height,
            ) {
                Some(rect) => StepView::Continue {
                    capture: CaptureView { stage: CaptureStage::AwaitWindowImage, ..capture },
                    action: ActionView::SaveCrop {
                        crop: region_of(capture.frame, rect),
                        path: capture_path(capture, ScreenshotKind::Window),
                    },
                },
                None => click_step(capture, false),
            },
            _ => click_step(capture, false),
        },
        CaptureStage::AwaitWindowImage => click_step(capture, report is Saved),
        CaptureStage::AwaitClickImage => StepView::Done {
            outcome: Ok(
                CapturedView {
                    full: capture_path(capture, ScreenshotKind::Full),
                    window: if capture.window_saved {
                        Some(capture_path(capture, ScreenshotKind::Window))
                    } else {
                        None
                    },
                    click: if report is Saved {
                        Some(capture_path(capture, ScreenshotKind::Click))
                    } else {
                        None
                    },
                },
            ),
        },
    }
}

impl ClickCapture {
    /// The frame in hand holds all its pixels, so that every region inside
    /// it can be cut out.
    #[verifier::type_invariant]
    spec fn frame_is_whole(&self) -> bool {
        is_whole(self.frame@)
    }

    /// Begins the capture for a click at `(click_x, click_y)` that belongs
    /// to the event `event_id` of the session `session_id`. The first thing
    /// to do is to grab the frame.
    pub fn begin(session_id: &str, event_id: &str, click_x: i32, click_y: i32) -> (started: (
        ClickCapture,
        CaptureAction,
    ))
        ensures
            started.0@ == new_capture(session_id@, event_id@, click_x, click_y),
            started.1@ == ActionView::GrabFrame,
    {
        let capture = ClickCapture {
            session_id: session_id.to_owned(),
            event_id: event_id.to_owned(),
            click_x,
            click_y,
            stage: CaptureStage::AwaitFrame,
            frame: RawImage::empty(),
            window_saved: false,
        };
        (capture, CaptureAction::GrabFrame)
    }

    fn path_of(&self, kind: ScreenshotKind) -> (path: String)
        ensures
            path@ == capture_path(self@, kind),
    {
        screenshot_path(self.session_id.as_str(), self.event_id.as_str(), kind)
    }

    fn to_click_image(self, window_saved: bool) -> (step: CaptureStep)
        ensures
            step@ == click_step(self@, window_saved),
    {
        proof {
            use_type_invariant(&self);
        }
        let rect = click_crop_rect(self.click_x, self.click_y, self.frame.width, self.frame.height);
        let crop = cut_region(&self.frame, rect);
        let path = self.path_of(ScreenshotKind::Click);
        let capture = ClickCapture { stage: CaptureStage::AwaitClickImage, window_saved, ..self };
        CaptureStep::Continue { capture, action: CaptureAction::SaveCrop { crop, path } }
    }

    fn failed(report: CaptureReport) -> (step: CaptureStep)
        ensures
            step@ == (StepView::Done { outcome: Err(failure_reason(report@)) }),
    {
        match report {
            CaptureReport::Failed { reason } => CaptureStep::Done { outcome: Err(reason) },
            _ => CaptureStep::Done { outcome: Err("Unexpected capture report".to_owned()) },
        }
    }

    /// Takes the report on the step that was asked for and says how the
    /// capture goes on.
    pub fn step(self, report: CaptureReport) -> (next: CaptureStep)
        ensures
            next@ == step_of(self@, report@),
    {
        match self.stage {
            CaptureStage::AwaitFrame => match report {
                CaptureReport::Frame { frame } => {
                    if !frame.is_complete() {
                        return CaptureStep::Done {
                            outcome: Err("Failed to convert screenshot to image format".to_owned()),
                        };
                    }
                    let directory = get_session_dir(self.session_id.as_str());
                    let path = self.path_of(ScreenshotKind::Full);
                    let capture = ClickCapture {
                        stage: CaptureStage::AwaitFullImage,
                        frame,
                        ..self
                    };
                    CaptureStep::Continue {
                        capture,
                        action: CaptureAction::SaveFull { directory, path },
                    }
                },
                _ => ClickCapture::failed(report),
            },
            CaptureStage::AwaitFullImage => match report {
                CaptureReport::Saved => {
                    proof {
                        use_type_invariant(&self);
                    }
                    let capture = ClickCapture { stage: CaptureStage::AwaitWindow, ..self };
                    CaptureStep::Continue { capture, action: CaptureAction::FindWindow }
                },
                _ => ClickCapture::failed(report),
            },
            CaptureStage::AwaitWindow => match report {
                CaptureReport::Window { bounds } => {
                    proof {
                        use_type_invariant(&self);
                    }
                    match window_crop_rect(&bounds, self.frame.width, self.frame.height) {
                        Some(rect) => {
                            let crop = cut_region(&self.frame, rect);
                            let path = self.path_of(ScreenshotKind::Window);
                            let capture = ClickCapture {
                                stage: CaptureStage::AwaitWindowImage,
                                ..self
                            };
                            CaptureStep::Continue {
                                capture,
                                action: CaptureAction::SaveCrop { crop, path },
                            }
                        },
                        None => self.to_click_image(false),
                    }
                },
                _ => self.to_click_image(false),
            },
            CaptureStage::AwaitWindowImage => {
                let saved = match report {
                    CaptureReport::Saved => true,
                    _ => false,
                };
                self.to_click_image(saved)
            },
            CaptureStage::AwaitClickImage => {
                let full = self.path_of(ScreenshotKind::Full);
                let window = if self.window_saved {
                    Some(self.path_of(ScreenshotKind::Window))
                } else {
                    None
                };
                let click = match report {
                    CaptureReport::Saved => Some(self.path_of(ScreenshotKind::Click)),
                    _ => None,
                };
                CaptureStep::Done { outcome: Ok((full, window, click)) }
            },
        }
    }
}

/// How a capture ends when the caller's reports are `reports`, in this
/// order: the outcome of the step that ends it, or `None` while the
/// reports do not reach that far. Reports behind the last step are not
/// read.
pub open spec fn outcome_after(capture: CaptureView, reports: Seq<ReportView>) -> Option<
    Result<CapturedView, Seq<char>>,
>
    decreases reports.len(),
{
    if reports.len() == 0 {
        None
    } else {
        match step_of(capture, reports[0]) {
            StepView::Done { outcome } => Some(outcome),
            StepView::Continue { capture: next, action } => outcome_after(
                next,
                reports.drop_first(),
            ),
        }
    }
}

/// Once the full image is written, the capture cannot fail any more: no
/// report makes a later step end in an error.
pub proof fn lemma_only_the_full_frame_is_fatal(capture: CaptureView, report: ReportView)
    requires
        capture.stage != CaptureStage::AwaitFrame,
        capture.stage != CaptureStage::AwaitFullImage,
    ensures
        !(step_of(capture, report) matches StepView::Done { outcome: Err(_) }),
{
}

/// A window lookup that fails costs the window image and nothing else: the
/// capture goes on to the click image and then ends well, with the path of
/// the full image and without one for the window, whatever becomes of the
/// click image.
pub proof fn lemma_window_failure_is_tolerated(
    capture: CaptureView,
    lookup: ReportView,
    written: ReportView,
)
    requires
        capture.stage == CaptureStage::AwaitWindow,
        !(lookup is Window),
    ensures
        step_of(capture, lookup) == click_step(capture, false),
        step_of(click_step(capture, false)->capture, written) matches StepView::Done {
            outcome: Ok(paths),
        } && paths.full == capture_path(capture, ScreenshotKind::Full) && paths.window is None,
{
}

/// The frame that a capture holds is whole from its first step to its
/// last, so that each region it hands out is cut out of pixels that exist.
pub proof fn lemma_frame_stays_whole(capture: CaptureView, report: ReportView)
    requires
        is_whole(capture.frame),
    ensures
        is_whole(empty_image()),
        step_of(capture, report) matches StepView::Continue { capture: next, action } ==> is_whole(
            next.frame,
        ),
{
}

/// A capture is over after five reports at the latest. It fails exactly
/// where the frame or the full image is missing; otherwise it hands back
/// the path of the full image, and the path of each crop that was written.
pub proof fn lemma_capture_outcome(
    session_id: Seq<char>,
    event_id: Seq<char>,
    click_x: i32,
    click_y: i32,
    reports: Seq<ReportView>,
)
    requires
        reports.len() >= 5,
    ensures
        ({
            let capture = new_capture(session_id, event_id, click_x, click_y);
            let outcome = outcome_after(capture, reports);
            let full = screenshot_path_text(session_id, event_id, ScreenshotKind::Full);
            let window = screenshot_path_text(session_id, event_id, ScreenshotKind::Window);
            let click = screenshot_path_text(session_id, event_id, ScreenshotKind::Click);
            let framed = reports[0] matches ReportView::Frame { frame } && is_whole(frame);
            &&& outcome is Some
            &&& !(reports[0] is Frame) ==> outcome == Some(
                Err::<CapturedView, Seq<char>>(failure_reason(reports[0])),
            )
            &&& reports[0] is Frame && !framed ==> outcome == Some(
                Err::<CapturedView, Seq<char>>(incomplete_frame_text()),
            )
            &&& framed && !(reports[1] is Saved) ==> outcome == Some(
                Err::<CapturedView, Seq<char>>(failure_reason(reports[1])),
            )
            &&& framed && reports[1] is Saved ==> (outcome matches Some(Ok(paths)) && paths.full
                == full && (paths.window is Some ==> paths.window == Some(window)) && (
            paths.click is Some ==> paths.click == Some(click)))
            &&& framed && reports[1] is Saved && !(reports[2] is Window) ==> outcome == Some(
                Ok::<CapturedView, Seq<char>>(
                    CapturedView {
                        full,
                        window: None,
                        click: if reports[3] is Saved {
                            Some(click)
                        } else {
                            None
                        },
                    },
                ),
            )
        }),
{
    reveal_with_fuel(outcome_after, 6);
}

} // verus!
