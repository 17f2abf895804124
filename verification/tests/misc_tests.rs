use rod_bridge::fmt::{u64_to_string, i64_to_string};
use rod_bridge::config::{decode_webview_config, decode_tray_config};
use rod_bridge::webview::{WebViewState, WebContextState};
use rod_bridge::tray::TrayState;

#[test]
fn u64_rendering() {
    assert_eq!(u64_to_string(0), "0");
    assert_eq!(u64_to_string(7), "7");
    assert_eq!(u64_to_string(10), "10");
    assert_eq!(u64_to_string(800), "800");
    assert_eq!(u64_to_string(u64::MAX), "18446744073709551615");
}

#[test]
fn i64_rendering() {
    assert_eq!(i64_to_string(0), "0");
    assert_eq!(i64_to_string(42), "42");
    assert_eq!(i64_to_string(-1), "-1");
    assert_eq!(i64_to_string(-640), "-640");
    assert_eq!(i64_to_string(i64::MIN), "-9223372036854775808");
    assert_eq!(i64_to_string(i64::MAX), "9223372036854775807");
}

#[test]
fn webview_url_wins_over_html() {
    let c = decode_webview_config(r#"{"html": "<p>x</p>", "url": "https://example.com"}"#)
        .unwrap();
    let v = WebViewState::new(&c);
    assert_eq!(v.get_url(), "https://example.com");
}

#[test]
fn webview_html_alone_leaves_empty_url() {
    let c = decode_webview_config(r#"{"html": "<p>x</p>"}"#).unwrap();
    let v = WebViewState::new(&c);
    assert_eq!(v.get_url(), "");
}

#[test]
fn webview_navigation_roundtrip() {
    let c = decode_webview_config("{}").unwrap();
    let mut v = WebViewState::new(&c);
    assert_eq!(v.get_url(), "");
    v.set_url("https://example.org/a");
    assert_eq!(v.get_url(), "https://example.org/a");
    v.set_html("<h1>now markup</h1>");
    assert_eq!(v.get_url(), "");
}

#[test]
fn webview_devtools_roundtrip() {
    let c = decode_webview_config(r#"{"dev_tools": true}"#).unwrap();
    let mut v = WebViewState::new(&c);
    assert!(!v.is_devtools_open());
    v.open_devtools();
    assert!(v.is_devtools_open());
    v.close_devtools();
    assert!(!v.is_devtools_open());
}

#[test]
fn webcontext_keeps_storage_path() {
    let c = WebContextState::new("/var/data/profile");
    assert_eq!(c.storage_path(), "/var/data/profile");
}

#[test]
fn tray_state_from_config() {
    let c = decode_tray_config(r#"{"icon_path": "icon.png", "tooltip": "tip"}"#).unwrap();
    let t = TrayState::new(4, &c);
    assert_eq!(t.id(), 4);
    assert_eq!(t.icon_path(), Some("icon.png".to_string()));
    assert_eq!(t.tooltip(), Some("tip".to_string()));
    assert_eq!(t.title(), None);
}
