use emulsion::application::Application;
use emulsion::application::IdleOutcome;
use emulsion::application::Window;
use emulsion::application::WindowEventKind;
use emulsion::application::request_exit;
use emulsion::picture_widget::TextureHandle;
use emulsion::picture_widget::WidgetEvent;
use emulsion::schedule::WakeRequest;

fn app_with_windows(ids: &[u64]) -> Application {
    let mut app = Application::new();
    for &id in ids {
        app.register_window(Window::new(id));
    }
    app
}

#[test]
fn destroyed_window_leaves_the_registry() {
    let mut app = app_with_windows(&[1, 2]);
    assert!(app.contains_window(1));
    app.route_window_event(1, WindowEventKind::Destroyed, WakeRequest::Wait);
    // Dispatching to the destroyed id again would violate the registry
    // invariant; the caller must check first, and the check now fails.
    assert!(!app.contains_window(1));
    assert!(app.contains_window(2));
}

#[test]
fn destroyed_window_releases_its_texture() {
    let mut app = app_with_windows(&[1, 2]);
    app.route_window_event(
        1,
        WindowEventKind::Widget(WidgetEvent::DroppedFile("/pics/cat.png".to_string())),
        WakeRequest::Wait,
    );
    let h = TextureHandle { id: 9, width: 8, height: 8 };
    let drawn = app.draw_window_picture(1, Some(Ok(h)));
    assert_eq!(drawn, Some(h));

    app.route_window_event(1, WindowEventKind::Destroyed, WakeRequest::Wait);
    // No tracked window references the handle any more.
    for w in &app.windows {
        assert_eq!(w.widget.resident_texture(), None);
    }
}

#[test]
fn close_request_exits_at_next_idle_pass() {
    let mut app = app_with_windows(&[1]);
    app.route_window_event(1, WindowEventKind::CloseRequested, WakeRequest::Wait);
    // The close request does not terminate anything by itself.
    assert!(app.contains_window(1));
    match app.idle_pass() {
        IdleOutcome::Exit => {}
        IdleOutcome::Continue(_) => panic!("expected the idle pass to exit"),
    }
}

#[test]
fn request_exit_is_honored() {
    let mut app = app_with_windows(&[1]);
    request_exit(&mut app);
    assert!(matches!(app.idle_pass(), IdleOutcome::Exit));
}

#[test]
fn idle_pass_lists_dirty_windows_and_forces_immediate_wake() {
    let mut app = app_with_windows(&[1, 2, 3]);
    // Window 2 finished drawing; 1 and 3 are still dirty.
    let _ = app.draw_window_picture(2, None);
    app.control = WakeRequest::Wait;
    match app.idle_pass() {
        IdleOutcome::Continue(ids) => assert_eq!(ids, vec![1, 3]),
        IdleOutcome::Exit => panic!("no exit was requested"),
    }
    assert_eq!(app.control, WakeRequest::Poll);
}

#[test]
fn idle_pass_relaxes_to_indefinite_sleep() {
    let mut app = app_with_windows(&[1]);
    let _ = app.draw_window_picture(1, None);
    app.control = WakeRequest::Poll;
    match app.idle_pass() {
        IdleOutcome::Continue(ids) => assert!(ids.is_empty()),
        IdleOutcome::Exit => panic!("no exit was requested"),
    }
    assert_eq!(app.control, WakeRequest::Wait);
}

#[test]
fn idle_pass_never_weakens_a_timed_wake() {
    let mut app = app_with_windows(&[1]);
    let _ = app.draw_window_picture(1, None);
    app.control = WakeRequest::WaitUntil(5_000);
    let _ = app.idle_pass();
    assert_eq!(app.control, WakeRequest::WaitUntil(5_000));
}

#[test]
fn window_objecting_to_sleep_keeps_target() {
    let mut app = app_with_windows(&[1]);
    let _ = app.draw_window_picture(1, None);
    app.note_maintenance(1, false, false);
    app.control = WakeRequest::Poll;
    let _ = app.idle_pass();
    assert_eq!(app.control, WakeRequest::Poll);
}

#[test]
fn maintenance_can_invalidate_a_window() {
    let mut app = app_with_windows(&[1]);
    let _ = app.draw_window_picture(1, None);
    app.note_maintenance(1, true, true);
    match app.idle_pass() {
        IdleOutcome::Continue(ids) => assert_eq!(ids, vec![1]),
        IdleOutcome::Exit => panic!("no exit was requested"),
    }
}

#[test]
fn redraw_event_marks_window_valid_and_absorbs_report() {
    let mut app = app_with_windows(&[1]);
    app.control = WakeRequest::Wait;
    app.route_window_event(1, WindowEventKind::RedrawRequested, WakeRequest::WaitUntil(2_000));
    assert_eq!(app.control, WakeRequest::WaitUntil(2_000));
    assert!(app.windows[0].widget.is_valid());
}

#[test]
fn dropped_file_reaches_the_right_window() {
    let mut app = app_with_windows(&[1, 2]);
    app.route_window_event(
        2,
        WindowEventKind::Widget(WidgetEvent::DroppedFile("/pics/dog.png".to_string())),
        WakeRequest::Wait,
    );
    assert_eq!(app.pending_picture_path(1), None);
    assert_eq!(app.pending_picture_path(2), Some("/pics/dog.png".to_string()));
}

#[test]
fn begin_iteration_renormalizes_the_stored_target() {
    let mut app = app_with_windows(&[]);
    app.control = WakeRequest::WaitUntil(1_000_050);
    app.begin_iteration(1_000_000);
    assert_eq!(app.control, WakeRequest::Poll);
}

#[test]
fn handler_reports_are_absorbed_in_one_pass() {
    let mut app = app_with_windows(&[]);
    app.control = WakeRequest::Wait;
    let reports = vec![WakeRequest::WaitUntil(9_000), WakeRequest::WaitUntil(4_000)];
    app.absorb_wake_requests(&reports);
    assert_eq!(app.control, WakeRequest::WaitUntil(4_000));
}
