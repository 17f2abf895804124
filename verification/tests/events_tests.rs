use rod_bridge::events::{EventLoopCore, PlatformEvent, TrayAction};

fn multi_core_with(bindings: &[(u64, u16)]) -> EventLoopCore {
    let mut core = EventLoopCore::new(true);
    for (native, caller) in bindings {
        core.bind_window(*native, *caller);
    }
    core
}

#[test]
fn close_request_on_bound_window_reports_caller_id() {
    let core = multi_core_with(&[(99, 7)]);
    let (name, payload) = core
        .translate_event(&PlatformEvent::CloseRequested { window: 99 })
        .unwrap();
    assert_eq!(name, "window_close_requested");
    assert_eq!(payload, "{\"id\":7}");
}

#[test]
fn unbound_window_reports_null_id() {
    let core = multi_core_with(&[(99, 7)]);
    let (name, payload) = core
        .translate_event(&PlatformEvent::CloseRequested { window: 5 })
        .unwrap();
    assert_eq!(name, "window_close_requested");
    assert_eq!(payload, "{\"id\":null}");
}

#[test]
fn single_window_build_omits_id() {
    let core = EventLoopCore::new(false);
    let (name, payload) = core
        .translate_event(&PlatformEvent::CloseRequested { window: 5 })
        .unwrap();
    assert_eq!(name, "window_close_requested");
    assert_eq!(payload, "{}");
    let (name, payload) = core
        .translate_event(&PlatformEvent::FocusChanged { window: 5, focused: true })
        .unwrap();
    assert_eq!(name, "window_focused");
    assert_eq!(payload, "{\"focused\":true}");
}

#[test]
fn focus_event_payload() {
    let core = multi_core_with(&[(1, 3)]);
    let (name, payload) = core
        .translate_event(&PlatformEvent::FocusChanged { window: 1, focused: false })
        .unwrap();
    assert_eq!(name, "window_focused");
    assert_eq!(payload, "{\"id\":3,\"focused\":false}");
}

#[test]
fn moved_event_payload_keeps_both_coordinates() {
    let core = multi_core_with(&[(1, 3)]);
    let (name, payload) = core
        .translate_event(&PlatformEvent::Moved { window: 1, x: -12, y: 34 })
        .unwrap();
    assert_eq!(name, "window_moved");
    assert_eq!(payload, "{\"id\":3,\"x\":-12,\"y\":34}");

    let single = EventLoopCore::new(false);
    let (_, payload) = single
        .translate_event(&PlatformEvent::Moved { window: 1, x: 5, y: 8 })
        .unwrap();
    assert_eq!(payload, "{\"x\":5,\"y\":8}");
}

#[test]
fn resized_event_payload() {
    let core = multi_core_with(&[(1, 3)]);
    let (name, payload) = core
        .translate_event(&PlatformEvent::Resized { window: 1, width: 800, height: 600 })
        .unwrap();
    assert_eq!(name, "window_resized");
    assert_eq!(payload, "{\"id\":3,\"width\":800,\"height\":600}");
}

#[test]
fn tray_click_release_reported_press_and_drag_not() {
    let core = EventLoopCore::new(true);
    let (name, payload) = core
        .translate_event(&PlatformEvent::TrayClick { tray: 4, action: TrayAction::Release })
        .unwrap();
    assert_eq!(name, "tray_clicked");
    assert_eq!(payload, "{\"id\":4}");
    assert!(core
        .translate_event(&PlatformEvent::TrayClick { tray: 4, action: TrayAction::Press })
        .is_none());
    assert!(core
        .translate_event(&PlatformEvent::TrayClick { tray: 4, action: TrayAction::Drag })
        .is_none());
}

#[test]
fn drain_reports_every_event_in_arrival_order() {
    let core = multi_core_with(&[(10, 1), (20, 2)]);
    let events = vec![
        PlatformEvent::FocusChanged { window: 10, focused: true },
        PlatformEvent::Moved { window: 20, x: 1, y: 2 },
        PlatformEvent::Resized { window: 10, width: 30, height: 40 },
        PlatformEvent::CloseRequested { window: 20 },
        PlatformEvent::TrayClick { tray: 9, action: TrayAction::Release },
    ];
    let out = core.drain(&events);
    assert_eq!(out.len(), 5);
    assert_eq!(out[0], ("window_focused".to_string(), "{\"id\":1,\"focused\":true}".to_string()));
    assert_eq!(out[1], ("window_moved".to_string(), "{\"id\":2,\"x\":1,\"y\":2}".to_string()));
    assert_eq!(
        out[2],
        ("window_resized".to_string(), "{\"id\":1,\"width\":30,\"height\":40}".to_string())
    );
    assert_eq!(out[3], ("window_close_requested".to_string(), "{\"id\":2}".to_string()));
    assert_eq!(out[4], ("tray_clicked".to_string(), "{\"id\":9}".to_string()));
}

#[test]
fn drain_skips_unreported_events_only() {
    let core = EventLoopCore::new(true);
    let events = vec![
        PlatformEvent::TrayClick { tray: 1, action: TrayAction::Press },
        PlatformEvent::TrayClick { tray: 1, action: TrayAction::Release },
        PlatformEvent::TrayClick { tray: 1, action: TrayAction::Drag },
    ];
    let out = core.drain(&events);
    assert_eq!(out.len(), 1);
    assert_eq!(out[0].0, "tray_clicked");
    assert_eq!(out[0].1, "{\"id\":1}");
}

#[test]
fn drain_of_empty_batch_is_empty() {
    let core = EventLoopCore::new(true);
    let out = core.drain(&Vec::new());
    assert!(out.is_empty());
}

#[test]
fn destroyed_window_events_still_reported_with_null_id() {
    let mut core = EventLoopCore::new(true);
    core.bind_window(77, 7);
    core.unbind_window(77);
    let (_, payload) = core
        .translate_event(&PlatformEvent::CloseRequested { window: 77 })
        .unwrap();
    assert_eq!(payload, "{\"id\":null}");
}

#[test]
fn rebinding_routes_to_newest_caller_id() {
    let mut core = EventLoopCore::new(true);
    core.bind_window(77, 7);
    core.bind_window(77, 8);
    assert_eq!(core.lookup_window(77), Some(8));
}
