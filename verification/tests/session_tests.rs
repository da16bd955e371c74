use gpu_examples::session::RenderSession;
use gpu_examples::session::SessionAction;
use gpu_examples::session::SessionEvent;

#[test]
fn close_request_exits() {
    let mut s = RenderSession::new(800, 600);
    assert_eq!(s.handle(SessionEvent::CloseRequested), SessionAction::Exit);
}

#[test]
fn escape_exits() {
    let mut s = RenderSession::new(800, 600);
    assert_eq!(s.handle(SessionEvent::EscapePressed), SessionAction::Exit);
}

#[test]
fn other_events_are_ignored() {
    let mut s = RenderSession::new(800, 600);
    assert_eq!(s.handle(SessionEvent::Other), SessionAction::Ignore);
}

#[test]
fn first_redraw_configures_the_surface() {
    let mut s = RenderSession::new(800, 600);
    assert!(!s.configured);
    let a = s.handle(SessionEvent::RedrawReady);
    assert_eq!(a, SessionAction::Reconfigure { width: 800, height: 600 });
    assert!(s.configured);
    assert_eq!(s.handle(SessionEvent::RedrawReady), SessionAction::Render);
}

#[test]
fn resize_reconfigures_with_the_new_dimensions_before_rendering() {
    let mut s = RenderSession::new(800, 600);
    s.handle(SessionEvent::RedrawReady);
    let a = s.handle(SessionEvent::Resized { width: 1024, height: 768 });
    assert_eq!(a, SessionAction::Reconfigure { width: 1024, height: 768 });
    assert_eq!(s.configured_width, 1024);
    assert_eq!(s.configured_height, 768);
    // The next frame renders with the surface already at the new size.
    assert_eq!(s.handle(SessionEvent::RedrawReady), SessionAction::Render);
    assert_eq!(s.configured_width, s.window_width);
    assert_eq!(s.configured_height, s.window_height);
}

#[test]
fn frame_rate_reports_every_hundredth_frame() {
    let mut s = RenderSession::new(800, 600);
    for frame in 1..=250u64 {
        let report = s.finish_frame();
        assert_eq!(report, frame % 100 == 0);
    }
    assert_eq!(s.frames_rendered, 250);
}
