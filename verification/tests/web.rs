use kapp::common::{Cursor, RawWindowHandle, Unsupported, WindowId};
use kapp::messaging::PlatformChannel;
use kapp::platform_traits::PlatformApplicationTrait;
use kapp::web::{cursor_name, PlatformApplication};

fn document() -> PlatformApplication {
    let made: (PlatformChannel, PlatformApplication) = PlatformApplication::new();
    made.1
}

#[test]
fn cursor_names_are_style_values() {
    assert_eq!(cursor_name(Cursor::Arrow), "default");
    assert_eq!(cursor_name(Cursor::IBeam), "text");
    assert_eq!(cursor_name(Cursor::PointingHand), "pointer");
    assert_eq!(cursor_name(Cursor::OpenHand), "grab");
    assert_eq!(cursor_name(Cursor::ClosedHand), "grabbing");
}

#[test]
fn web_show_restores_the_cursor_set_last() {
    let mut app = document();
    assert_eq!(app.set_cursor(Cursor::IBeam), "text");
    assert_eq!(app.set_cursor(Cursor::PointingHand), "pointer");
    assert_eq!(app.hide_cursor(), "none");
    assert_eq!(app.hide_cursor(), "none");
    assert_eq!(app.show_cursor(), "pointer");
}

#[test]
fn web_show_without_a_cursor_is_the_host_default() {
    let mut app = document();
    assert_eq!(app.hide_cursor(), "none");
    assert_eq!(app.hide_cursor(), "none");
    assert_eq!(app.hide_cursor(), "none");
    assert_eq!(app.show_cursor(), "auto");
}

#[test]
fn web_window_is_the_null_window() {
    let mut app = document();
    let window = app.new_window();
    assert_eq!(window, WindowId::new(0));
    assert_eq!(app.raw_window_handle(window), RawWindowHandle::Web { id: 0 });
}

#[test]
fn web_refuses_to_restore() {
    let mut app = document();
    assert_eq!(app.restore_window(WindowId::new(0)), Err(Unsupported));
    assert_eq!(app.show_cursor(), "auto");
}

#[test]
fn web_event_loop_leaves_the_application_alone() {
    let mut app = document();
    app.set_cursor(Cursor::OpenHand);
    let before = app;
    let _event_loop = app.event_loop();
    assert_eq!(app, before);
    assert_eq!(app.show_cursor(), "grab");
}

#[test]
fn web_window_setters_change_nothing() {
    let mut app = document();
    app.set_cursor(Cursor::ClosedHand);
    let before = app;
    let window = app.new_window();
    app.set_window_position(window, 10, 20);
    app.set_window_size(window, 640, 480);
    app.set_window_title(window, "T");
    app.minimize_window(window);
    app.maximize_window(window);
    app.close_window(window);
    assert_eq!(app, before);
    assert_eq!(app.show_cursor(), "grabbing");
}
