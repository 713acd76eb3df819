use x11_window::cursor::{CursorState, GrabOutcome, MouseCursor};
use x11_window::modes::Mode;
use x11_window::proxy::ProxySlot;
use x11_window::window::{CreationError, TeardownAction, Window, WindowAttributes, XConnection};

fn test_connection() -> XConnection {
    XConnection {
        display: 7,
        default_screen: 0,
        next_window: 100,
        wm_delete_window: 55,
        modes: Vec::new(),
        im: Some(21),
        ic: Some(22),
        detectable_autorepeat: true,
    }
}

fn windowed_attrs() -> WindowAttributes {
    WindowAttributes {
        dimensions: None,
        min_dimensions: None,
        max_dimensions: None,
        monitor: None,
        title: String::from("demo"),
        visible: true,
        transparent: false,
    }
}

#[test]
fn construct_windowed_visible() {
    // dimensions (1024,768), not transparent, visible, no monitor
    let conn = test_connection();
    let mut attrs = windowed_attrs();
    attrs.dimensions = Some((1024, 768));
    let w = Window::new(&conn, &attrs).unwrap();
    assert_eq!(w.get_inner_size(), Some((1024, 768)));
    assert_eq!(w.cursor_state, CursorState::Normal);
    assert!(w.visible);
    assert!(!w.x.is_fullscreen);
    assert!(!w.is_closed);
    assert_eq!(w.title, "demo");
}

#[test]
fn default_dimensions_are_800_by_600() {
    let conn = test_connection();
    let attrs = windowed_attrs();
    let w = Window::new(&conn, &attrs).unwrap();
    assert_eq!(w.get_inner_size(), Some((800, 600)));
}

#[test]
fn fullscreen_with_no_reported_modes_succeeds() {
    // degenerate path: the extension reported no modes at all
    let conn = test_connection();
    let mut attrs = windowed_attrs();
    attrs.monitor = Some(0);
    attrs.dimensions = Some((1024, 768));
    let w = Window::new(&conn, &attrs).unwrap();
    assert!(w.x.is_fullscreen);
    assert_eq!(w.x.xf86_desk_mode, None);
    // teardown must not attempt to restore a saved mode
    let mut x = w.x;
    let actions = x.teardown();
    assert_eq!(
        actions,
        vec![
            TeardownAction::SetViewPort,
            TeardownAction::DestroyIc,
            TeardownAction::CloseIm,
            TeardownAction::DestroyWindow,
        ]
    );
    assert!(x.window_proxy_data.data.is_none());
}

#[test]
fn fullscreen_with_matching_mode_saves_desk_mode() {
    let mut conn = test_connection();
    conn.modes = vec![Mode { width: 1920, height: 1080 }, Mode { width: 1024, height: 768 }];
    let mut attrs = windowed_attrs();
    attrs.monitor = Some(1);
    attrs.dimensions = Some((1024, 768));
    let w = Window::new(&conn, &attrs).unwrap();
    assert!(w.x.is_fullscreen);
    // the saved desktop mode is the first reported mode
    assert_eq!(w.x.xf86_desk_mode, Some(Mode { width: 1920, height: 1080 }));
    assert_eq!(w.x.screen_id, 1);
    let mut x = w.x;
    let actions = x.teardown();
    assert_eq!(
        actions,
        vec![
            TeardownAction::SwitchToMode(Mode { width: 1920, height: 1080 }),
            TeardownAction::SetViewPort,
            TeardownAction::DestroyIc,
            TeardownAction::CloseIm,
            TeardownAction::DestroyWindow,
        ]
    );
}

#[test]
fn windowed_teardown_only_destroys_resources() {
    let conn = test_connection();
    let attrs = windowed_attrs();
    let w = Window::new(&conn, &attrs).unwrap();
    let mut x = w.x;
    let actions = x.teardown();
    assert_eq!(
        actions,
        vec![
            TeardownAction::DestroyIc,
            TeardownAction::CloseIm,
            TeardownAction::DestroyWindow,
        ]
    );
}

#[test]
fn fullscreen_without_suitable_mode_fails() {
    let mut conn = test_connection();
    conn.modes = vec![Mode { width: 640, height: 480 }];
    let mut attrs = windowed_attrs();
    attrs.monitor = Some(0);
    attrs.dimensions = Some((1024, 768));
    let e = Window::new(&conn, &attrs).unwrap_err();
    assert_eq!(e, CreationError::NoSuitableGraphicsMode);
    assert_eq!(e.description(), "Could not find a suitable graphics mode");
}

#[test]
fn windowed_ignores_unsuitable_modes() {
    // without a requested monitor the mode search is skipped entirely
    let mut conn = test_connection();
    conn.modes = vec![Mode { width: 640, height: 480 }];
    let mut attrs = windowed_attrs();
    attrs.dimensions = Some((1024, 768));
    attrs.monitor = None;
    let w = Window::new(&conn, &attrs).unwrap();
    assert!(!w.x.is_fullscreen);
    assert_eq!(w.x.xf86_desk_mode, None);
}

#[test]
fn input_method_failure_is_fatal() {
    let mut conn = test_connection();
    conn.im = None;
    let e = Window::new(&conn, &windowed_attrs()).unwrap_err();
    assert_eq!(e, CreationError::InputMethodOpenFailed);
    assert_eq!(e.description(), "XOpenIM failed");
}

#[test]
fn input_context_failure_is_fatal() {
    let mut conn = test_connection();
    conn.ic = None;
    let e = Window::new(&conn, &windowed_attrs()).unwrap_err();
    assert_eq!(e, CreationError::InputContextCreateFailed);
    assert_eq!(e.description(), "XCreateIC failed");
}

#[test]
fn missing_autorepeat_support_is_fatal() {
    let mut conn = test_connection();
    conn.detectable_autorepeat = false;
    let e = Window::new(&conn, &windowed_attrs()).unwrap_err();
    assert_eq!(e, CreationError::DetectableAutoRepeatUnsupported);
    assert_eq!(e.description(), "XkbSetDetectableAutoRepeat failed");
}

#[test]
fn mode_error_takes_precedence() {
    let mut conn = test_connection();
    conn.modes = vec![Mode { width: 640, height: 480 }];
    conn.im = None;
    let mut attrs = windowed_attrs();
    attrs.monitor = Some(0);
    attrs.dimensions = Some((1024, 768));
    let e = Window::new(&conn, &attrs).unwrap_err();
    assert_eq!(e, CreationError::NoSuitableGraphicsMode);
}

#[test]
fn cursor_state_double_normal_is_noop() {
    // Normal -> Grab -> Normal -> Normal
    let conn = test_connection();
    let mut w = Window::new(&conn, &windowed_attrs()).unwrap();
    assert_eq!(w.set_cursor_state(CursorState::Grab, GrabOutcome::Success), Ok(()));
    assert_eq!(w.cursor_state, CursorState::Grab);
    assert_eq!(w.set_cursor_state(CursorState::Normal, GrabOutcome::Success), Ok(()));
    assert_eq!(w.cursor_state, CursorState::Normal);
    // the second request for the active state is a no-op success
    assert_eq!(w.set_cursor_state(CursorState::Normal, GrabOutcome::Success), Ok(()));
    assert_eq!(w.cursor_state, CursorState::Normal);
}

#[test]
fn refused_grab_reports_error_and_keeps_state() {
    let conn = test_connection();
    let mut w = Window::new(&conn, &windowed_attrs()).unwrap();
    let r = w.set_cursor_state(CursorState::Grab, GrabOutcome::AlreadyGrabbed);
    assert_eq!(r, Err(String::from("cursor could not be grabbed")));
    assert_eq!(w.cursor_state, CursorState::Normal);
    let r = w.set_cursor_state(CursorState::Grab, GrabOutcome::Frozen);
    assert_eq!(r, Err(String::from("cursor could not be grabbed")));
    assert_eq!(w.cursor_state, CursorState::Normal);
}

#[test]
fn grab_when_already_grabbed_ignores_verdict() {
    let conn = test_connection();
    let mut w = Window::new(&conn, &windowed_attrs()).unwrap();
    assert_eq!(w.set_cursor_state(CursorState::Grab, GrabOutcome::Success), Ok(()));
    // already grabbed: no new grab is requested, so the verdict is moot
    assert_eq!(w.set_cursor_state(CursorState::Grab, GrabOutcome::NotViewable), Ok(()));
    assert_eq!(w.cursor_state, CursorState::Grab);
}

#[test]
fn geometry_operations_track_state() {
    let conn = test_connection();
    let mut w = Window::new(&conn, &windowed_attrs()).unwrap();
    assert_eq!(w.get_position(), Some((0, 0)));
    w.set_position(30, -4);
    assert_eq!(w.get_position(), Some((30, -4)));
    w.set_inner_size(640, 350);
    assert_eq!(w.get_inner_size(), Some((640, 350)));
    assert_eq!(w.get_outer_size(), Some((640, 350)));
}

#[test]
fn show_and_hide_toggle_visibility() {
    let conn = test_connection();
    let mut attrs = windowed_attrs();
    attrs.visible = false;
    let mut w = Window::new(&conn, &attrs).unwrap();
    assert!(!w.visible);
    w.show();
    assert!(w.visible);
    w.hide_window();
    assert!(!w.visible);
}

#[test]
fn set_title_replaces_title() {
    let conn = test_connection();
    let mut w = Window::new(&conn, &windowed_attrs()).unwrap();
    w.set_title("new name");
    assert_eq!(w.title, "new name");
}

#[test]
fn native_handles_are_exposed() {
    let conn = test_connection();
    let w = Window::new(&conn, &windowed_attrs()).unwrap();
    assert_eq!(w.get_xlib_display(), 7);
    assert_eq!(w.platform_display(), 7);
    assert_eq!(w.get_xlib_window(), 100);
    assert_eq!(w.platform_window(), 100);
}

#[test]
fn set_cursor_names_theme_cursor() {
    let conn = test_connection();
    let w = Window::new(&conn, &windowed_attrs()).unwrap();
    assert_eq!(w.set_cursor(MouseCursor::Hand), "hand");
    assert_eq!(w.set_cursor(MouseCursor::ZoomIn), "left_ptr");
}

#[test]
fn set_cursor_position_records_warp() {
    let conn = test_connection();
    let mut w = Window::new(&conn, &windowed_attrs()).unwrap();
    assert_eq!(w.set_cursor_position(12, 34), Ok(()));
    assert_eq!(w.cursor_position, Some((12, 34)));
}

#[test]
fn default_attributes_are_windowed_and_visible() {
    let attrs = WindowAttributes::default();
    assert_eq!(attrs.dimensions, None);
    assert_eq!(attrs.monitor, None);
    assert!(attrs.visible);
    assert!(!attrs.transparent);
    assert_eq!(attrs.title, "");
}

#[test]
fn creation_populates_proxy_slot() {
    let conn = test_connection();
    let w = Window::new(&conn, &windowed_attrs()).unwrap();
    let slot: &ProxySlot = &w.x.window_proxy_data;
    let data = slot.data.unwrap();
    assert_eq!(data.display, 7);
    assert_eq!(data.window, 100);
}
