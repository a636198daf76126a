use monitrous::capture::{
    apply_event, next_action, page_height, CaptureAction, CaptureError, CaptureEvent, CaptureState,
    VIEWPORT_WIDTH,
};

#[test]
fn happy_path_walks_the_protocol_in_order() {
    let s = CaptureState::Idle;
    assert_eq!(
        next_action(&s),
        CaptureAction::SetViewport { width: VIEWPORT_WIDTH, height: None }
    );
    let s = apply_event(s, CaptureEvent::ViewportSet);
    assert_eq!(s, CaptureState::Prepared);
    assert_eq!(next_action(&s), CaptureAction::Navigate);
    let s = apply_event(s, CaptureEvent::NavigationDone);
    assert_eq!(s, CaptureState::Loaded);
    assert_eq!(next_action(&s), CaptureAction::MeasureHeight);
    let s = apply_event(s, CaptureEvent::HeightMeasured { height: 4321 });
    assert_eq!(s, CaptureState::Measured { height: 4321 });
    assert_eq!(
        next_action(&s),
        CaptureAction::SetViewport { width: VIEWPORT_WIDTH, height: Some(4321) }
    );
    let s = apply_event(s, CaptureEvent::ViewportSet);
    assert_eq!(s, CaptureState::Covering { height: 4321 });
    assert_eq!(next_action(&s), CaptureAction::TakeScreenshot);
    let s = apply_event(s, CaptureEvent::ScreenshotTaken);
    assert_eq!(s, CaptureState::Complete);
    assert_eq!(next_action(&s), CaptureAction::Finish);
}

#[test]
fn navigation_failure_aborts_this_capture() {
    let s = apply_event(CaptureState::Idle, CaptureEvent::ViewportSet);
    let s = apply_event(s, CaptureEvent::NavigationFailed);
    assert_eq!(s, CaptureState::Failed { error: CaptureError::Navigation });
    assert_eq!(
        next_action(&s),
        CaptureAction::Abort { error: CaptureError::Navigation }
    );
}

#[test]
fn measurement_failure_aborts_this_capture() {
    let s = apply_event(CaptureState::Loaded, CaptureEvent::MeasurementFailed);
    assert_eq!(s, CaptureState::Failed { error: CaptureError::Measurement });
}

#[test]
fn screenshot_failure_aborts_this_capture() {
    let s = apply_event(CaptureState::Covering { height: 10 }, CaptureEvent::ScreenshotFailed);
    assert_eq!(s, CaptureState::Failed { error: CaptureError::Screenshot });
}

#[test]
fn unanswered_exchanges_move_nothing() {
    // An answer that does not respond to the owed exchange leaves the state,
    // so no protocol step can be skipped.
    let s = CaptureState::Idle;
    assert_eq!(apply_event(s, CaptureEvent::ScreenshotTaken), s);
    let s = CaptureState::Failed { error: CaptureError::Navigation };
    assert_eq!(apply_event(s, CaptureEvent::NavigationDone), s);
    let s = CaptureState::Complete;
    assert_eq!(apply_event(s, CaptureEvent::ViewportSet), s);
}

#[test]
fn page_height_is_the_maximum_of_all_five_properties() {
    assert_eq!(page_height(10, 20, 30, 40, 50), 50);
    assert_eq!(page_height(50, 40, 30, 20, 10), 50);
    assert_eq!(page_height(10, 90, 30, 40, 50), 90);
    assert_eq!(page_height(7, 7, 7, 7, 7), 7);
    assert_eq!(page_height(0, 0, 0, 0, 0), 0);
}
