//! The capture driver: the strictly ordered protocol that takes one URL from
//! a fresh tab to a full-page raster image. The browser round-trips happen at
//! the boundary; this module decides, for every state of one capture, which
//! exchange comes next and how the browser's answer moves the capture on, so
//! that the order set viewport, navigate, measure, resize, screenshot can
//! never be left.

use vstd::prelude::*;

verus! {

/// The fixed viewport width every capture uses, in pixels: layout reflows
/// with width, so fixing it stabilizes the height measurement.
pub const VIEWPORT_WIDTH: u64 = 1200;

/// Why one URL's capture failed. Every variant is local to its URL: it is
/// reported and the run continues with the next URL.
#[derive(Clone, Copy, Debug, PartialEq, Eq, Structural)]
pub enum CaptureError {
    /// Navigation did not complete, or timed out.
    Navigation,
    /// The page's full height could not be measured.
    Measurement,
    /// The browser could not produce the raster image.
    Screenshot,
}

/// How far one capture has come.
#[derive(Clone, Copy, Debug, PartialEq, Eq, Structural)]
pub enum CaptureState {
    /// A fresh tab: nothing has been done yet.
    Idle,
    /// The initial viewport is set, with the width fixed and the height left
    /// free; the tab can be navigated.
    Prepared,
    /// Navigation completed: the rendered page's full height can be measured.
    Loaded,
    /// The full height is known; the viewport must be resized to cover it.
    Measured { height: u64 },
    /// The viewport covers the whole page: the screenshot can be taken.
    Covering { height: u64 },
    /// The raster image is in hand; the capture is over.
    Complete,
    /// The capture failed; the error is reported and the capture is over.
    Failed { error: CaptureError },
}

/// The next exchange the driver asks the boundary to make with the browser.
#[derive(Clone, Copy, Debug, PartialEq, Eq, Structural)]
pub enum CaptureAction {
    /// Set the viewport to the fixed width, and to the given height where
    /// one is given.
    SetViewport { width: u64, height: Option<u64> },
    /// Navigate the tab to the URL and wait for the load to complete.
    Navigate,
    /// Measure the rendered page's full height.
    MeasureHeight,
    /// Capture the raster screenshot of the whole viewport.
    TakeScreenshot,
    /// Nothing is left to do: the capture succeeded.
    Finish,
    /// Nothing is left to do: the capture failed with the given error.
    Abort { error: CaptureError },
}

/// What the browser answered to the pending exchange.
#[derive(Clone, Copy, Debug, PartialEq, Eq, Structural)]
pub enum CaptureEvent {
    /// The viewport was set as asked.
    ViewportSet,
    /// Navigation completed.
    NavigationDone,
    /// Navigation failed or timed out.
    NavigationFailed,
    /// The full height was measured.
    HeightMeasured { height: u64 },
    /// The height could not be measured.
    MeasurementFailed,
    /// The screenshot was taken; the boundary holds its bytes.
    ScreenshotTaken,
    /// The screenshot could not be taken.
    ScreenshotFailed,
}

/// The exchange owed in each state.
pub open spec fn next_action_spec(s: CaptureState) -> CaptureAction {
    match s {
        CaptureState::Idle => CaptureAction::SetViewport {
            width: VIEWPORT_WIDTH,
            height: None,
        },
        CaptureState::Prepared => CaptureAction::Navigate,
        CaptureState::Loaded => CaptureAction::MeasureHeight,
        CaptureState::Measured { height } => CaptureAction::SetViewport {
            width: VIEWPORT_WIDTH,
            height: Some(height),
        },
        CaptureState::Covering { .. } => CaptureAction::TakeScreenshot,
        CaptureState::Complete => CaptureAction::Finish,
        CaptureState::Failed { error } => CaptureAction::Abort { error },
    }
}

/// Whether `e` answers the exchange owed in state `s`. A finished capture,
/// successful or failed, owes none.
pub open spec fn responds_to(s: CaptureState, e: CaptureEvent) -> bool {
    match s {
        CaptureState::Idle => e is ViewportSet,
        CaptureState::Prepared => e is NavigationDone || e is NavigationFailed,
        CaptureState::Loaded => e is HeightMeasured || e is MeasurementFailed,
        CaptureState::Measured { .. } => e is ViewportSet,
        CaptureState::Covering { .. } => e is ScreenshotTaken || e is ScreenshotFailed,
        CaptureState::Complete => false,
        CaptureState::Failed { .. } => false,
    }
}

/// Where the browser's answer moves the capture: the happy path walks the
/// five protocol steps in their fixed order, and every failure answer lands
/// in the failed state carrying the error of the step it interrupted.
pub open spec fn step_spec(s: CaptureState, e: CaptureEvent) -> CaptureState {
    match (s, e) {
        (CaptureState::Idle, CaptureEvent::ViewportSet) => CaptureState::Prepared,
        (CaptureState::Prepared, CaptureEvent::NavigationDone) => CaptureState::Loaded,
        (CaptureState::Prepared, CaptureEvent::NavigationFailed) => CaptureState::Failed {
            error: CaptureError::Navigation,
        },
        (CaptureState::Loaded, CaptureEvent::HeightMeasured { height }) => CaptureState::Measured {
            height,
        },
        (CaptureState::Loaded, CaptureEvent::MeasurementFailed) => CaptureState::Failed {
            error: CaptureError::Measurement,
        },
        (CaptureState::Measured { height }, CaptureEvent::ViewportSet) => CaptureState::Covering {
            height,
        },
        (CaptureState::Covering { .. }, CaptureEvent::ScreenshotTaken) => CaptureState::Complete,
        (CaptureState::Covering { .. }, CaptureEvent::ScreenshotFailed) => CaptureState::Failed {
            error: CaptureError::Screenshot,
        },
        _ => s,
    }
}

/// The exchange owed in state `s`.
pub fn next_action(s: &CaptureState) -> (a: CaptureAction)
    ensures
        a == next_action_spec(*s),
{
    match s {
        CaptureState::Idle => CaptureAction::SetViewport { width: VIEWPORT_WIDTH, height: None },
        CaptureState::Prepared => CaptureAction::Navigate,
        CaptureState::Loaded => CaptureAction::MeasureHeight,
        CaptureState::Measured { height } => CaptureAction::SetViewport {
            width: VIEWPORT_WIDTH,
            height: Some(*height),
        },
        CaptureState::Covering { .. } => CaptureAction::TakeScreenshot,
        CaptureState::Complete => CaptureAction::Finish,
        CaptureState::Failed { error } => CaptureAction::Abort { error: *error },
    }
}

/// Move one capture on by the browser's answer to its pending exchange. An
/// answer that does not respond to the owed exchange moves nothing, so a
/// confused boundary can never skip a protocol step.
pub fn apply_event(s: CaptureState, e: CaptureEvent) -> (r: CaptureState)
    ensures
        r == step_spec(s, e),
        !responds_to(s, e) ==> r == s,
{
    match (s, e) {
        (CaptureState::Idle, CaptureEvent::ViewportSet) => CaptureState::Prepared,
        (CaptureState::Prepared, CaptureEvent::NavigationDone) => CaptureState::Loaded,
        (CaptureState::Prepared, CaptureEvent::NavigationFailed) => CaptureState::Failed {
            error: CaptureError::Navigation,
        },
        (CaptureState::Loaded, CaptureEvent::HeightMeasured { height }) => CaptureState::Measured {
            height,
        },
        (CaptureState::Loaded, CaptureEvent::MeasurementFailed) => CaptureState::Failed {
            error: CaptureError::Measurement,
        },
        (CaptureState::Measured { height }, CaptureEvent::ViewportSet) => CaptureState::Covering {
            height,
        },
        (CaptureState::Covering { .. }, CaptureEvent::ScreenshotTaken) => CaptureState::Complete,
        (CaptureState::Covering { .. }, CaptureEvent::ScreenshotFailed) => CaptureState::Failed {
            error: CaptureError::Screenshot,
        },
        (other, _) => other,
    }
}

/// The rendered page's full height: the maximum of the body's and the root
/// element's scroll, offset and client heights, so that content not counted
/// by any single property is still covered.
pub open spec fn page_height_spec(
    body_scroll: u64,
    body_offset: u64,
    html_client: u64,
    html_scroll: u64,
    html_offset: u64,
) -> u64 {
    let m1 = if body_scroll >= body_offset {
        body_scroll
    } else {
        body_offset
    };
    let m2 = if m1 >= html_client {
        m1
    } else {
        html_client
    };
    let m3 = if m2 >= html_scroll {
        m2
    } else {
        html_scroll
    };
    if m3 >= html_offset {
        m3
    } else {
        html_offset
    }
}

/// Compute the full document height from the five height properties the
/// rendered page reports: their maximum, never less than any one of them.
pub fn page_height(
    body_scroll: u64,
    body_offset: u64,
    html_client: u64,
    html_scroll: u64,
    html_offset: u64,
) -> (h: u64)
    ensures
        h == page_height_spec(body_scroll, body_offset, html_client, html_scroll, html_offset),
        h >= body_scroll && h >= body_offset && h >= html_client && h >= html_scroll && h
            >= html_offset,
        h == body_scroll || h == body_offset || h == html_client || h == html_scroll || h
            == html_offset,
{
    let mut h = body_scroll;
    if body_offset > h {
        h = body_offset;
    }
    if html_client > h {
        h = html_client;
    }
    if html_scroll > h {
        h = html_scroll;
    }
    if html_offset > h {
        h = html_offset;
    }
    h
}

/// The protocol is strictly ordered: from the idle state, the happy-path
/// answers walk the capture through prepared, loaded, measured, covering and
/// complete, in that order and no other; and the viewport is resized to the
/// measured height before the screenshot is taken.
pub proof fn lemma_protocol_order(height: u64)
    ensures
        step_spec(CaptureState::Idle, CaptureEvent::ViewportSet) == CaptureState::Prepared,
        step_spec(CaptureState::Prepared, CaptureEvent::NavigationDone) == CaptureState::Loaded,
        step_spec(CaptureState::Loaded, CaptureEvent::HeightMeasured { height })
            == (CaptureState::Measured { height }),
        step_spec(CaptureState::Measured { height }, CaptureEvent::ViewportSet)
            == (CaptureState::Covering { height }),
        next_action_spec(CaptureState::Measured { height }) == (CaptureAction::SetViewport {
            width: VIEWPORT_WIDTH,
            height: Some(height),
        }),
        step_spec(CaptureState::Covering { height }, CaptureEvent::ScreenshotTaken)
            == CaptureState::Complete,
{
}

/// One URL's failure is isolated: a failure answer at any step lands in the
/// failed state, the failed state owes no further exchange, and no answer
/// moves it anywhere else.
pub proof fn lemma_failure_is_terminal(s: CaptureState, e: CaptureEvent)
    ensures
        s is Failed ==> !responds_to(s, e),
        s is Failed ==> step_spec(s, e) == s,
        e is NavigationFailed && responds_to(s, e) ==> step_spec(s, e) == (CaptureState::Failed {
            error: CaptureError::Navigation,
        }),
        e is MeasurementFailed && responds_to(s, e) ==> step_spec(s, e) == (CaptureState::Failed {
            error: CaptureError::Measurement,
        }),
        e is ScreenshotFailed && responds_to(s, e) ==> step_spec(s, e) == (CaptureState::Failed {
            error: CaptureError::Screenshot,
        }),
{
}

} // verus!
