use emulsion::picture_widget::DecodeError;
use emulsion::picture_widget::Picture;
use emulsion::picture_widget::PictureWidget;
use emulsion::picture_widget::TextureHandle;
use emulsion::picture_widget::WidgetEvent;

fn handle(id: u64) -> TextureHandle {
    TextureHandle { id, width: 640, height: 480 }
}

#[test]
fn second_resolve_reuses_handle_without_decode() {
    let mut w = PictureWidget::new();
    w.handle_event(WidgetEvent::DroppedFile("/pics/cat.png".to_string()));
    assert_eq!(w.pending_path(), Some("/pics/cat.png".to_string()));

    // First draw: the caller decodes and uploads, exactly once.
    let h = handle(7);
    let first = w.draw(Some(Ok(h)));
    assert_eq!(first, Some(h));

    // Second draw: nothing is pending, so no decode happens at all, and the
    // very same handle comes back.
    assert_eq!(w.pending_path(), None);
    let second = w.draw(None);
    assert_eq!(second, Some(h));
}

#[test]
fn decode_failure_clears_resource() {
    let mut w = PictureWidget::new();
    w.handle_event(WidgetEvent::DroppedFile("/pics/missing.png".to_string()));
    let r = w.draw(Some(Err(DecodeError::MissingFile)));
    assert_eq!(r, None);
    // No stale resident state: nothing pending, nothing resident.
    assert_eq!(w.pending_path(), None);
    assert_eq!(w.resident_texture(), None);
    // A subsequent draw produces no texture, not a crash.
    let again = w.draw(None);
    assert_eq!(again, None);
}

#[test]
fn new_load_request_discards_resident_texture() {
    let mut w = PictureWidget::new();
    w.handle_event(WidgetEvent::DroppedFile("/pics/a.png".to_string()));
    let first = w.draw(Some(Ok(handle(1))));
    assert_eq!(first, Some(handle(1)));
    w.handle_event(WidgetEvent::DroppedFile("/pics/b.png".to_string()));
    assert!(!w.is_valid());
    assert_eq!(w.resident_texture(), None);
    assert_eq!(w.pending_path(), Some("/pics/b.png".to_string()));
    let second = w.draw(Some(Ok(handle(2))));
    assert_eq!(second, Some(handle(2)));
}

#[test]
fn draw_marks_rendering_valid() {
    let mut w = PictureWidget::new();
    assert!(!w.is_valid());
    let r = w.draw(None);
    assert_eq!(r, None);
    assert!(w.is_valid());
}

#[test]
fn mouse_events_update_hover_click_and_validity() {
    let mut w = PictureWidget::new();
    let _ = w.draw(None);
    assert!(w.is_valid());

    w.handle_event(WidgetEvent::MouseMove { over_widget: true });
    assert!(w.hover);
    // Hover alone does not invalidate the rendering.
    assert!(w.is_valid());

    w.handle_event(WidgetEvent::MouseButton { left: true, pressed: true });
    assert!(w.click);
    assert!(!w.is_valid());

    w.handle_event(WidgetEvent::MouseButton { left: true, pressed: false });
    assert!(!w.click);

    // A press outside the widget arms no click.
    w.handle_event(WidgetEvent::MouseMove { over_widget: false });
    w.handle_event(WidgetEvent::MouseButton { left: true, pressed: true });
    assert!(!w.click);
}

#[test]
fn non_left_buttons_are_ignored() {
    let mut w = PictureWidget::new();
    let _ = w.draw(None);
    w.handle_event(WidgetEvent::MouseButton { left: false, pressed: true });
    assert!(w.is_valid());
    assert!(!w.click);
}

#[test]
fn picture_states_are_mutually_exclusive() {
    let mut p = Picture::LoadRequested("/pics/cat.png".to_string());
    assert_eq!(p.requested_path(), Some("/pics/cat.png".to_string()));
    assert_eq!(p.texture(), None);

    let r = p.upload_to_texture(Ok(handle(3)));
    assert!(r.is_ok());
    assert_eq!(p.requested_path(), None);
    assert_eq!(p.texture(), Some(handle(3)));
}

#[test]
fn redundant_upload_to_resident_picture_is_a_no_op() {
    let mut p = Picture::LoadRequested("/pics/cat.png".to_string());
    assert!(p.upload_to_texture(Ok(handle(4))).is_ok());
    // Applying another outcome to the already-resident picture changes
    // nothing and succeeds: redundant draw requests do not re-decode.
    assert!(p.upload_to_texture(Ok(handle(5))).is_ok());
    assert_eq!(p.texture(), Some(handle(4)));
    assert!(p.upload_to_texture(Err(DecodeError::CorruptData)).is_ok());
    assert_eq!(p.texture(), Some(handle(4)));
}

#[test]
fn picture_upload_failure_reports_error() {
    let mut p = Picture::LoadRequested("/pics/cat.png".to_string());
    let r = p.upload_to_texture(Err(DecodeError::CorruptData));
    assert_eq!(r, Err(DecodeError::CorruptData));
    // The picture itself is untouched; its owner decides to clear it.
    assert_eq!(p.requested_path(), Some("/pics/cat.png".to_string()));
}
