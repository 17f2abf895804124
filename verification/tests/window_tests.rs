use rod_bridge::config::{decode_window_config, decode_constraint_arg, DimUpdate};
use rod_bridge::progress::{progress_kind_of, ProgressKind};
use rod_bridge::window::WindowState;

fn default_window() -> WindowState {
    WindowState::new(&decode_window_config("{}").unwrap())
}

#[test]
fn title_roundtrip() {
    let mut w = default_window();
    w.set_title("X");
    assert_eq!(w.get_title(), "X");
    w.set_title("a longer title");
    assert_eq!(w.get_title(), "a longer title");
}

#[test]
fn size_roundtrip() {
    let mut w = default_window();
    w.set_size(800, 600);
    assert_eq!(w.get_size(), (800, 600));
    assert_eq!(w.size_json(), "{\"width\":800,\"height\":600}");
}

#[test]
fn position_roundtrip_keeps_both_coordinates() {
    let mut w = default_window();
    w.set_position(3, 4);
    assert_eq!(w.get_position(), (3, 4));
    assert_eq!(w.position_json(), "{\"x\":3,\"y\":4}");
    w.set_position(-7, 9);
    assert_eq!(w.position_json(), "{\"x\":-7,\"y\":9}");
}

#[test]
fn resize_is_clamped_into_constraints() {
    let mut w = default_window();
    w.set_maximum_size(DimUpdate::Assign(500, 400));
    w.set_size(800, 600);
    assert_eq!(w.get_size(), (500, 400));
    w.set_minimum_size(DimUpdate::Assign(100, 200));
    w.set_size(50, 60);
    assert_eq!(w.get_size(), (100, 200));
}

#[test]
fn sentinel_clears_maximum_constraint() {
    let mut w = default_window();
    w.set_maximum_size(DimUpdate::Assign(500, 400));
    w.set_size(800, 600);
    assert_eq!(w.get_size(), (500, 400));
    // The empty-string sentinel clears the constraint; a resize beyond the
    // prior maximum now succeeds.
    w.set_maximum_size(decode_constraint_arg("").unwrap());
    w.set_size(800, 600);
    assert_eq!(w.get_size(), (800, 600));
}

#[test]
fn sentinel_clears_minimum_constraint() {
    let mut w = default_window();
    w.set_minimum_size(DimUpdate::Assign(300, 300));
    w.set_size(10, 10);
    assert_eq!(w.get_size(), (300, 300));
    w.set_minimum_size(decode_constraint_arg("").unwrap());
    w.set_size(10, 10);
    assert_eq!(w.get_size(), (10, 10));
}

#[test]
fn construction_applies_config() {
    let c = decode_window_config(
        r#"{
            "title": "made",
            "size": {"width": 320, "height": 200},
            "position": {"x": 11, "y": -22},
            "resizable": false,
            "visible": false,
            "decorations": false,
            "focused": true
        }"#,
    )
    .unwrap();
    let w = WindowState::new(&c);
    assert_eq!(w.get_title(), "made");
    assert_eq!(w.get_size(), (320, 200));
    assert_eq!(w.get_position(), (11, -22));
    assert!(!w.is_resizable());
    assert!(!w.is_visible());
    assert!(!w.is_decorated());
    assert!(w.is_focused());
}

#[test]
fn construction_defaults() {
    let w = default_window();
    assert_eq!(w.get_title(), "");
    assert_eq!(w.get_size(), (800, 600));
    assert_eq!(w.get_position(), (0, 0));
    assert!(w.is_visible());
    assert!(w.is_resizable());
    assert!(w.is_decorated());
    assert!(w.is_closable());
    assert!(w.is_maximizable());
    assert!(w.is_minimizable());
    assert!(!w.is_focused());
    assert!(!w.is_maximized());
    assert!(!w.is_minimized());
    assert!(!w.is_always_on_top());
}

#[test]
fn construction_clamps_initial_size() {
    let c = decode_window_config(
        r#"{"size": {"width": 5000, "height": 5000},
            "maximum_size": {"width": 1000, "height": 900}}"#,
    )
    .unwrap();
    let w = WindowState::new(&c);
    assert_eq!(w.get_size(), (1000, 900));
}

#[test]
fn boolean_setters_roundtrip() {
    let mut w = default_window();
    w.set_always_on_top(true);
    assert!(w.is_always_on_top());
    w.set_closable(false);
    assert!(!w.is_closable());
    w.set_decorations(false);
    assert!(!w.is_decorated());
    w.set_maximized(true);
    assert!(w.is_maximized());
    w.set_minimized(true);
    assert!(w.is_minimized());
    w.set_resizable(false);
    assert!(!w.is_resizable());
    w.set_visible(false);
    assert!(!w.is_visible());
    w.set_focus();
    assert!(w.is_focused());
}

#[test]
fn progress_states_map_to_indicator_states() {
    assert_eq!(progress_kind_of(0), ProgressKind::Normal);
    assert_eq!(progress_kind_of(1), ProgressKind::Indeterminate);
    assert_eq!(progress_kind_of(2), ProgressKind::Paused);
    assert_eq!(progress_kind_of(3), ProgressKind::Error);
    assert_eq!(progress_kind_of(4), ProgressKind::Hidden);
    assert_eq!(progress_kind_of(-1), ProgressKind::Hidden);
    assert_eq!(progress_kind_of(100), ProgressKind::Hidden);
}

#[test]
fn progress_bar_setter_stores_mapped_state() {
    let mut w = default_window();
    assert_eq!(w.get_progress_bar(), None);
    w.set_progress_bar(progress_kind_of(1), 40);
    assert_eq!(w.get_progress_bar(), Some((ProgressKind::Indeterminate, 40)));
}
