use rod_bridge::config::{
    decode_window_config, decode_webview_config, decode_tray_config, decode_size_arg,
    decode_constraint_arg, decode_position_arg, decode_progress_arg, ConfigError, DimUpdate,
};
use rod_bridge::progress::ProgressKind;

#[test]
fn window_config_full() {
    let text = r#"{
        "always_on_bottom": false,
        "always_on_top": true,
        "closable": false,
        "content_protection": true,
        "decorations": false,
        "focusable": true,
        "focused": true,
        "size": {"width": 800, "height": 600},
        "minimum_size": {"width": 100, "height": 50},
        "maximum_size": {"width": 1920, "height": 1080},
        "maximizable": false,
        "maximized": true,
        "minimizable": false,
        "position": {"x": -10, "y": 20},
        "resizable": false,
        "title": "hello",
        "transparent": true,
        "visible": false,
        "visible_on_all_workspaces": true
    }"#;
    let c = decode_window_config(text).unwrap();
    assert_eq!(c.always_on_bottom, Some(false));
    assert_eq!(c.always_on_top, Some(true));
    assert_eq!(c.closable, Some(false));
    assert_eq!(c.content_protection, Some(true));
    assert_eq!(c.decorations, Some(false));
    assert_eq!(c.focusable, Some(true));
    assert_eq!(c.focused, Some(true));
    assert_eq!(c.size, Some((800, 600)));
    assert_eq!(c.minimum_size, Some(DimUpdate::Assign(100, 50)));
    assert_eq!(c.maximum_size, Some(DimUpdate::Assign(1920, 1080)));
    assert_eq!(c.maximizable, Some(false));
    assert_eq!(c.maximized, Some(true));
    assert_eq!(c.minimizable, Some(false));
    assert_eq!(c.position, Some((-10, 20)));
    assert_eq!(c.resizable, Some(false));
    assert_eq!(c.title, Some("hello".to_string()));
    assert_eq!(c.transparent, Some(true));
    assert_eq!(c.visible, Some(false));
    assert_eq!(c.visible_on_all_workspaces, Some(true));
}

#[test]
fn window_config_empty_object() {
    let c = decode_window_config("{}").unwrap();
    assert_eq!(c.size, None);
    assert_eq!(c.title, None);
    assert_eq!(c.decorations, None);
    assert_eq!(c.position, None);
}

#[test]
fn window_config_unknown_keys_ignored() {
    let c = decode_window_config(r#"{"frobnicate": true, "title": "t"}"#).unwrap();
    assert_eq!(c.title, Some("t".to_string()));
    assert_eq!(c.visible, None);
}

#[test]
fn window_config_mistyped_keys_ignored() {
    let c = decode_window_config(r#"{"visible": "yes", "title": 7, "resizable": 0}"#).unwrap();
    assert_eq!(c.visible, None);
    assert_eq!(c.title, None);
    assert_eq!(c.resizable, None);
}

#[test]
fn window_config_decorations_true_does_not_act() {
    let c = decode_window_config(r#"{"decorations": true}"#).unwrap();
    assert_eq!(c.decorations, None);
    let c = decode_window_config(r#"{"decorations": false}"#).unwrap();
    assert_eq!(c.decorations, Some(false));
}

#[test]
fn window_config_size_non_object_ignored() {
    let c = decode_window_config(r#"{"size": "800x600"}"#).unwrap();
    assert_eq!(c.size, None);
}

#[test]
fn window_config_incomplete_size_fails_fast() {
    assert_eq!(
        decode_window_config(r#"{"size": {"width": 800}}"#),
        Err(ConfigError::MissingField)
    );
    assert_eq!(
        decode_window_config(r#"{"size": {"width": 800, "height": "x"}}"#),
        Err(ConfigError::MissingField)
    );
    assert_eq!(
        decode_window_config(r#"{"position": {"x": 1}}"#),
        Err(ConfigError::MissingField)
    );
}

#[test]
fn window_config_fractional_dimension_fails_fast() {
    // A number stored as floating point has no u64 reading.
    assert_eq!(
        decode_window_config(r#"{"size": {"width": 800.5, "height": 600}}"#),
        Err(ConfigError::MissingField)
    );
}

#[test]
fn window_config_negative_dimension_fails_fast() {
    assert_eq!(
        decode_window_config(r#"{"minimum_size": {"width": -1, "height": 5}}"#),
        Err(ConfigError::MissingField)
    );
}

#[test]
fn window_config_constraint_sentinel() {
    let c = decode_window_config(r#"{"maximum_size": "", "minimum_size": ""}"#).unwrap();
    assert_eq!(c.maximum_size, Some(DimUpdate::Clear));
    assert_eq!(c.minimum_size, Some(DimUpdate::Clear));
    // A non-empty string is not the sentinel and is ignored.
    let c = decode_window_config(r#"{"maximum_size": "big"}"#).unwrap();
    assert_eq!(c.maximum_size, None);
}

#[test]
fn window_config_malformed_json() {
    assert_eq!(decode_window_config("{not json"), Err(ConfigError::MalformedJson));
    assert_eq!(decode_window_config(""), Err(ConfigError::MalformedJson));
}

#[test]
fn window_config_non_object_document_all_defaults() {
    let c = decode_window_config("5").unwrap();
    assert_eq!(c.title, None);
    assert_eq!(c.size, None);
}

#[test]
fn window_config_decode_twice_same_result() {
    let text = r#"{"title": "twice", "size": {"width": 1, "height": 2}, "visible": true}"#;
    let first = decode_window_config(text).unwrap();
    let second = decode_window_config(text).unwrap();
    assert_eq!(first, second);
}

#[test]
fn webview_config_full() {
    let text = r#"{
        "autoplay": true,
        "back_forward_navigation_gestures": true,
        "dev_tools": true,
        "hotkeys_zoom": false,
        "html": "<h1>hi</h1>",
        "url": "https://example.com",
        "transparent": true
    }"#;
    let c = decode_webview_config(text).unwrap();
    assert_eq!(c.autoplay, Some(true));
    assert_eq!(c.back_forward_navigation_gestures, Some(true));
    assert_eq!(c.devtools, Some(true));
    assert_eq!(c.hotkeys_zoom, Some(false));
    assert_eq!(c.html, Some("<h1>hi</h1>".to_string()));
    assert_eq!(c.url, Some("https://example.com".to_string()));
    assert_eq!(c.transparent, Some(true));
}

#[test]
fn webview_config_malformed() {
    assert_eq!(decode_webview_config("nope"), Err(ConfigError::MalformedJson));
}

#[test]
fn tray_config_decodes_strings() {
    let c = decode_tray_config(r#"{"icon_path": "/tmp/icon.png", "tooltip": "tip", "title": "T"}"#)
        .unwrap();
    assert_eq!(c.icon_path, Some("/tmp/icon.png".to_string()));
    assert_eq!(c.tooltip, Some("tip".to_string()));
    assert_eq!(c.title, Some("T".to_string()));
    let c = decode_tray_config("{}").unwrap();
    assert_eq!(c.icon_path, None);
}

#[test]
fn size_arg_decodes() {
    assert_eq!(decode_size_arg(r#"{"width": 640, "height": 480}"#), Ok((640, 480)));
    assert_eq!(decode_size_arg(r#"{"width": 640}"#), Err(ConfigError::MissingField));
    assert_eq!(decode_size_arg("oops"), Err(ConfigError::MalformedJson));
}

#[test]
fn constraint_arg_sentinel_and_pair() {
    assert_eq!(decode_constraint_arg(""), Ok(DimUpdate::Clear));
    assert_eq!(
        decode_constraint_arg(r#"{"width": 5, "height": 6}"#),
        Ok(DimUpdate::Assign(5, 6))
    );
    assert_eq!(decode_constraint_arg("junk"), Err(ConfigError::MalformedJson));
    assert_eq!(
        decode_constraint_arg(r#"{"width": 5}"#),
        Err(ConfigError::MissingField)
    );
}

#[test]
fn position_arg_decodes() {
    assert_eq!(decode_position_arg(r#"{"x": -3, "y": 44}"#), Ok((-3, 44)));
    assert_eq!(decode_position_arg(r#"{"y": 44}"#), Err(ConfigError::MissingField));
}

#[test]
fn progress_arg_decodes() {
    assert_eq!(
        decode_progress_arg(r#"{"state": 2, "progress": 55}"#),
        Ok((ProgressKind::Paused, 55))
    );
    assert_eq!(
        decode_progress_arg(r#"{"state": 9, "progress": 0}"#),
        Ok((ProgressKind::Hidden, 0))
    );
    assert_eq!(
        decode_progress_arg(r#"{"state": 1}"#),
        Err(ConfigError::MissingField)
    );
}
