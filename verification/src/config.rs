//! The configuration decoder.
//!
//! Creation calls hand the bridge a JSON object. For each recognized key
//! that is present and of the expected type the decoder records a builder
//! setting; unrecognized or mistyped keys are silently ignored — permissive,
//! forward-compatible decoding, a deliberate policy. The one exception is a
//! dimension pair: once a `size`, `minimum_size`, `maximum_size` or
//! `position` key carries an object, that object must hold both of its
//! numeric members, and the decode fails fast when one is absent or
//! mistyped.

use vstd::prelude::*;
use crate::json::{
    JsonData,
    JsonNum,
    jmodel,
    parsed_json,
    parse_json,
    json_get,
    json_as_bool,
    json_as_u64,
    json_as_i64,
    json_as_str,
    json_is_object,
};
use crate::progress::{ProgressKind, spec_progress_kind, progress_kind_of};

verus! {

/// Why a configuration or argument payload was rejected.
#[derive(Clone, Copy, Debug, PartialEq, Eq, Structural)]
pub enum ConfigError {
    /// The payload is not valid JSON.
    MalformedJson,
    /// A structurally required member of a payload object — one half of a
    /// dimension pair, or a progress field — is absent or mistyped.
    MissingField,
}

/// An update to an optional size constraint: assign a new bound, or clear
/// the constraint (requested by the empty-string sentinel).
#[derive(Clone, Copy, Debug, PartialEq, Eq, Structural)]
pub enum DimUpdate {
    Clear,
    Assign(u64, u64),
}

/// The builder settings decoded from a window configuration object. A
/// `None` field means the key was absent (or unusable) and the builder
/// default stays.
#[derive(Clone, Debug, PartialEq)]
pub struct WindowConfig {
    pub always_on_bottom: Option<bool>,
    pub always_on_top: Option<bool>,
    pub closable: Option<bool>,
    pub content_protection: Option<bool>,
    /// Only an explicit `false` acts: it removes the native chrome.
    pub decorations: Option<bool>,
    pub focusable: Option<bool>,
    pub focused: Option<bool>,
    pub size: Option<(u64, u64)>,
    pub minimum_size: Option<DimUpdate>,
    pub maximum_size: Option<DimUpdate>,
    pub maximizable: Option<bool>,
    pub maximized: Option<bool>,
    pub minimizable: Option<bool>,
    pub position: Option<(i64, i64)>,
    pub resizable: Option<bool>,
    pub title: Option<String>,
    pub transparent: Option<bool>,
    pub visible: Option<bool>,
    pub visible_on_all_workspaces: Option<bool>,
}

/// Ghost image of [`WindowConfig`].
#[verifier::ext_equal]
pub struct WindowConfigView {
    pub always_on_bottom: Option<bool>,
    pub always_on_top: Option<bool>,
    pub closable: Option<bool>,
    pub content_protection: Option<bool>,
    pub decorations: Option<bool>,
    pub focusable: Option<bool>,
    pub focused: Option<bool>,
    pub size: Option<(u64, u64)>,
    pub minimum_size: Option<DimUpdate>,
    pub maximum_size: Option<DimUpdate>,
    pub maximizable: Option<bool>,
    pub maximized: Option<bool>,
    pub minimizable: Option<bool>,
    pub position: Option<(i64, i64)>,
    pub resizable: Option<bool>,
    pub title: Option<Seq<char>>,
    pub transparent: Option<bool>,
    pub visible: Option<bool>,
    pub visible_on_all_workspaces: Option<bool>,
}

impl View for WindowConfig {
    type V = WindowConfigView;

    open spec fn view(&self) -> WindowConfigView {
        WindowConfigView {
            always_on_bottom: self.always_on_bottom,
            always_on_top: self.always_on_top,
            closable: self.closable,
            content_protection: self.content_protection,
            decorations: self.decorations,
            focusable: self.focusable,
            focused: self.focused,
            size: self.size,
            minimum_size: self.minimum_size,
            maximum_size: self.maximum_size,
            maximizable: self.maximizable,
            maximized: self.maximized,
            minimizable: self.minimizable,
            position: self.position,
            resizable: self.resizable,
            title: match self.title {
                Some(t) => Some(t@),
                None => None,
            },
            transparent: self.transparent,
            visible: self.visible,
            visible_on_all_workspaces: self.visible_on_all_workspaces,
        }
    }
}

/// The value under `key` in a JSON object; nothing on any other document.
pub open spec fn spec_field(doc: JsonData, key: Seq<char>) -> Option<JsonData> {
    match doc {
        JsonData::Obj(m) => if m.dom().contains(key) {
            Some(m[key])
        } else {
            None
        },
        _ => None,
    }
}

/// The boolean under `key`, if the key holds a boolean.
pub open spec fn spec_bool_field(doc: JsonData, key: Seq<char>) -> Option<bool> {
    match spec_field(doc, key) {
        Some(JsonData::Bool(b)) => Some(b),
        _ => None,
    }
}

/// The non-negative integer reading of a JSON value.
pub open spec fn spec_uint_of(d: JsonData) -> Option<u64> {
    match d {
        JsonData::Num(JsonNum::UInt(n)) => Some(n),
        _ => None,
    }
}

/// The signed integer reading of a JSON value.
pub open spec fn spec_i64_of(d: JsonData) -> Option<i64> {
    match d {
        JsonData::Num(JsonNum::UInt(n)) => if n <= i64::MAX as u64 {
            Some(n as i64)
        } else {
            None
        },
        JsonData::Num(JsonNum::IInt(n)) => Some(n),
        _ => None,
    }
}

/// The non-negative integer under `key`, if it holds one.
pub open spec fn spec_uint_field(doc: JsonData, key: Seq<char>) -> Option<u64> {
    match spec_field(doc, key) {
        Some(d) => spec_uint_of(d),
        None => None,
    }
}

/// The signed integer under `key`, if it holds one.
pub open spec fn spec_i64_field(doc: JsonData, key: Seq<char>) -> Option<i64> {
    match spec_field(doc, key) {
        Some(d) => spec_i64_of(d),
        None => None,
    }
}

/// The string under `key`, if it holds one.
pub open spec fn spec_text_field(doc: JsonData, key: Seq<char>) -> Option<Seq<char>> {
    match spec_field(doc, key) {
        Some(JsonData::Text(t)) => Some(t),
        _ => None,
    }
}

/// A `{width, height}` dimension pair under `key`. Absent keys and
/// non-object values are ignored; an object missing either member fails
/// fast.
pub open spec fn spec_size_field(doc: JsonData, key: Seq<char>) -> Result<
    Option<(u64, u64)>,
    ConfigError,
> {
    match spec_field(doc, key) {
        Some(sub) => if sub is Obj {
            match (spec_uint_field(sub, "width"@), spec_uint_field(sub, "height"@)) {
                (Some(w), Some(h)) => Ok(Some((w, h))),
                _ => Err(ConfigError::MissingField),
            }
        } else {
            Ok(None)
        },
        None => Ok(None),
    }
}

/// A size-constraint key: a dimension pair assigns a bound, the
/// empty-string sentinel clears it, anything else is ignored.
pub open spec fn spec_constraint_field(doc: JsonData, key: Seq<char>) -> Result<
    Option<DimUpdate>,
    ConfigError,
> {
    match spec_field(doc, key) {
        Some(sub) => if sub is Obj {
            match (spec_uint_field(sub, "width"@), spec_uint_field(sub, "height"@)) {
                (Some(w), Some(h)) => Ok(Some(DimUpdate::Assign(w, h))),
                _ => Err(ConfigError::MissingField),
            }
        } else if sub matches JsonData::Text(t) && t.len() == 0 {
            Ok(Some(DimUpdate::Clear))
        } else {
            Ok(None)
        },
        None => Ok(None),
    }
}

/// An `{x, y}` placement pair under `key`, with the same fail-fast rule as
/// dimension pairs.
pub open spec fn spec_position_field(doc: JsonData, key: Seq<char>) -> Result<
    Option<(i64, i64)>,
    ConfigError,
> {
    match spec_field(doc, key) {
        Some(sub) => if sub is Obj {
            match (spec_i64_field(sub, "x"@), spec_i64_field(sub, "y"@)) {
                (Some(x), Some(y)) => Ok(Some((x, y))),
                _ => Err(ConfigError::MissingField),
            }
        } else {
            Ok(None)
        },
        None => Ok(None),
    }
}

/// What the window decoder makes of a parsed document.
pub open spec fn spec_decode_window(doc: JsonData) -> Result<WindowConfigView, ConfigError> {
    match spec_size_field(doc, "size"@) {
        Err(e) => Err(e),
        Ok(size) => match spec_constraint_field(doc, "minimum_size"@) {
            Err(e) => Err(e),
            Ok(minimum_size) => match spec_constraint_field(doc, "maximum_size"@) {
                Err(e) => Err(e),
                Ok(maximum_size) => match spec_position_field(doc, "position"@) {
                    Err(e) => Err(e),
                    Ok(position) => Ok(
                        WindowConfigView {
                            always_on_bottom: spec_bool_field(doc, "always_on_bottom"@),
                            always_on_top: spec_bool_field(doc, "always_on_top"@),
                            closable: spec_bool_field(doc, "closable"@),
                            content_protection: spec_bool_field(doc, "content_protection"@),
                            decorations: match spec_bool_field(doc, "decorations"@) {
                                Some(false) => Some(false),
                                _ => None,
                            },
                            focusable: spec_bool_field(doc, "focusable"@),
                            focused: spec_bool_field(doc, "focused"@),
                            size,
                            minimum_size,
                            maximum_size,
                            maximizable: spec_bool_field(doc, "maximizable"@),
                            maximized: spec_bool_field(doc, "maximized"@),
                            minimizable: spec_bool_field(doc, "minimizable"@),
                            position,
                            resizable: spec_bool_field(doc, "resizable"@),
                            title: spec_text_field(doc, "title"@),
                            transparent: spec_bool_field(doc, "transparent"@),
                            visible: spec_bool_field(doc, "visible"@),
                            visible_on_all_workspaces: spec_bool_field(
                                doc,
                                "visible_on_all_workspaces"@,
                            ),
                        },
                    ),
                },
            },
        },
    }
}

/// What the window decoder makes of a configuration text.
pub open spec fn spec_decode_window_text(s: Seq<char>) -> Result<WindowConfigView, ConfigError> {
    match parsed_json(s) {
        None => Err(ConfigError::MalformedJson),
        Some(doc) => spec_decode_window(doc),
    }
}

/// Reads the boolean under `key`, ignoring absent and mistyped keys.
fn get_bool_field(v: &serde_json::Value, key: &str) -> (r: Option<bool>)
    ensures
        r == spec_bool_field(jmodel(*v), key@),
{
    match json_get(v, key) {
        Some(f) => json_as_bool(f),
        None => None,
    }
}

/// Reads the non-negative integer under `key`.
fn get_uint_field(v: &serde_json::Value, key: &str) -> (r: Option<u64>)
    ensures
        r == spec_uint_field(jmodel(*v), key@),
{
    match json_get(v, key) {
        Some(f) => json_as_u64(f),
        None => None,
    }
}

/// Reads the signed integer under `key`.
fn get_i64_field(v: &serde_json::Value, key: &str) -> (r: Option<i64>)
    ensures
        r == spec_i64_field(jmodel(*v), key@),
{
    match json_get(v, key) {
        Some(f) => json_as_i64(f),
        None => None,
    }
}

/// Reads the string under `key`, as an owned copy.
fn get_text_field(v: &serde_json::Value, key: &str) -> (r: Option<String>)
    ensures
        match spec_text_field(jmodel(*v), key@) {
            Some(t) => r matches Some(s) && s@ == t,
            None => r is None,
        },
{
    match json_get(v, key) {
        Some(f) => match json_as_str(f) {
            Some(s) => Some(s.to_owned()),
            None => None,
        },
        None => None,
    }
}

/// Reads a `{width, height}` pair under `key`, failing fast on an
/// incomplete object.
fn get_size_field(v: &serde_json::Value, key: &str) -> (r: Result<Option<(u64, u64)>, ConfigError>)
    ensures
        r == spec_size_field(jmodel(*v), key@),
{
    match json_get(v, key) {
        Some(sub) => {
            if json_is_object(sub) {
                match (get_uint_field(sub, "width"), get_uint_field(sub, "height")) {
                    (Some(w), Some(h)) => Ok(Some((w, h))),
                    _ => Err(ConfigError::MissingField),
                }
            } else {
                Ok(None)
            }
        },
        None => Ok(None),
    }
}

/// Reads a size-constraint key: a pair, the empty-string sentinel, or
/// nothing.
fn get_constraint_field(v: &serde_json::Value, key: &str) -> (r: Result<
    Option<DimUpdate>,
    ConfigError,
>)
    ensures
        r == spec_constraint_field(jmodel(*v), key@),
{
    match json_get(v, key) {
        Some(sub) => {
            if json_is_object(sub) {
                match (get_uint_field(sub, "width"), get_uint_field(sub, "height")) {
                    (Some(w), Some(h)) => Ok(Some(DimUpdate::Assign(w, h))),
                    _ => Err(ConfigError::MissingField),
                }
            } else {
                match json_as_str(sub) {
                    Some(s) => if s.is_empty() {
                        Ok(Some(DimUpdate::Clear))
                    } else {
                        Ok(None)
                    },
                    None => Ok(None),
                }
            }
        },
        None => Ok(None),
    }
}

/// Reads an `{x, y}` pair under `key`, failing fast on an incomplete
/// object.
fn get_position_field(v: &serde_json::Value, key: &str) -> (r: Result<
    Option<(i64, i64)>,
    ConfigError,
>)
    ensures
        r == spec_position_field(jmodel(*v), key@),
{
    match json_get(v, key) {
        Some(sub) => {
            if json_is_object(sub) {
                match (get_i64_field(sub, "x"), get_i64_field(sub, "y")) {
                    (Some(x), Some(y)) => Ok(Some((x, y))),
                    _ => Err(ConfigError::MissingField),
                }
            } else {
                Ok(None)
            }
        },
        None => Ok(None),
    }
}

/// Decodes a window configuration payload.
pub fn decode_window_config(text: &str) -> (r: Result<WindowConfig, ConfigError>)
    ensures
        match r {
            Ok(c) => spec_decode_window_text(text@) == Ok::<WindowConfigView, ConfigError>(c@),
            Err(e) => spec_decode_window_text(text@) == Err::<WindowConfigView, ConfigError>(e),
        },
{
    let doc = match parse_json(text) {
        Some(d) => d,
        None => {
            return Err(ConfigError::MalformedJson);
        },
    };
    let size = match get_size_field(&doc, "size") {
        Ok(s) => s,
        Err(e) => {
            return Err(e);
        },
    };
    let minimum_size = match get_constraint_field(&doc, "minimum_size") {
        Ok(s) => s,
        Err(e) => {
            return Err(e);
        },
    };
    let maximum_size = match get_constraint_field(&doc, "maximum_size") {
        Ok(s) => s,
        Err(e) => {
            return Err(e);
        },
    };
    let position = match get_position_field(&doc, "position") {
        Ok(s) => s,
        Err(e) => {
            return Err(e);
        },
    };
    let decorations = match get_bool_field(&doc, "decorations") {
        Some(false) => Some(false),
        _ => None,
    };
    Ok(
        WindowConfig {
            always_on_bottom: get_bool_field(&doc, "always_on_bottom"),
            always_on_top: get_bool_field(&doc, "always_on_top"),
            closable: get_bool_field(&doc, "closable"),
            content_protection: get_bool_field(&doc, "content_protection"),
            decorations,
            focusable: get_bool_field(&doc, "focusable"),
            focused: get_bool_field(&doc, "focused"),
            size,
            minimum_size,
            maximum_size,
            maximizable: get_bool_field(&doc, "maximizable"),
            maximized: get_bool_field(&doc, "maximized"),
            minimizable: get_bool_field(&doc, "minimizable"),
            position,
            resizable: get_bool_field(&doc, "resizable"),
            title: get_text_field(&doc, "title"),
            transparent: get_bool_field(&doc, "transparent"),
            visible: get_bool_field(&doc, "visible"),
            visible_on_all_workspaces: get_bool_field(&doc, "visible_on_all_workspaces"),
        },
    )
}

/// The builder state that results from laying a decoded configuration over
/// a base state: keys that were present overwrite, absent keys leave the
/// base untouched.
pub open spec fn spec_apply_window(base: WindowConfigView, c: WindowConfigView) -> WindowConfigView {
    WindowConfigView {
        always_on_bottom: if c.always_on_bottom is Some {
            c.always_on_bottom
        } else {
            base.always_on_bottom
        },
        always_on_top: if c.always_on_top is Some {
            c.always_on_top
        } else {
            base.always_on_top
        },
        closable: if c.closable is Some {
            c.closable
        } else {
            base.closable
        },
        content_protection: if c.content_protection is Some {
            c.content_protection
        } else {
            base.content_protection
        },
        decorations: if c.decorations is Some {
            c.decorations
        } else {
            base.decorations
        },
        focusable: if c.focusable is Some {
            c.focusable
        } else {
            base.focusable
        },
        focused: if c.focused is Some {
            c.focused
        } else {
            base.focused
        },
        size: if c.size is Some {
            c.size
        } else {
            base.size
        },
        minimum_size: if c.minimum_size is Some {
            c.minimum_size
        } else {
            base.minimum_size
        },
        maximum_size: if c.maximum_size is Some {
            c.maximum_size
        } else {
            base.maximum_size
        },
        maximizable: if c.maximizable is Some {
            c.maximizable
        } else {
            base.maximizable
        },
        maximized: if c.maximized is Some {
            c.maximized
        } else {
            base.maximized
        },
        minimizable: if c.minimizable is Some {
            c.minimizable
        } else {
            base.minimizable
        },
        position: if c.position is Some {
            c.position
        } else {
            base.position
        },
        resizable: if c.resizable is Some {
            c.resizable
        } else {
            base.resizable
        },
        title: if c.title is Some {
            c.title
        } else {
            base.title
        },
        transparent: if c.transparent is Some {
            c.transparent
        } else {
            base.transparent
        },
        visible: if c.visible is Some {
            c.visible
        } else {
            base.visible
        },
        visible_on_all_workspaces: if c.visible_on_all_workspaces is Some {
            c.visible_on_all_workspaces
        } else {
            base.visible_on_all_workspaces
        },
    }
}

/// Law: laying one decoded window configuration over a builder state twice
/// yields the same state as laying it once — key application is idempotent.
pub proof fn lemma_window_config_idempotent(base: WindowConfigView, c: WindowConfigView)
    ensures
        spec_apply_window(spec_apply_window(base, c), c) == spec_apply_window(base, c),
{
    assert(spec_apply_window(spec_apply_window(base, c), c) =~= spec_apply_window(base, c));
}

/// The builder settings decoded from a web-view configuration object.
#[derive(Clone, Debug, PartialEq)]
pub struct WebViewConfig {
    pub autoplay: Option<bool>,
    pub back_forward_navigation_gestures: Option<bool>,
    pub devtools: Option<bool>,
    pub hotkeys_zoom: Option<bool>,
    /// Initial page markup. Applied before `url`, so when both are given the
    /// address wins.
    pub html: Option<String>,
    /// Initial page address.
    pub url: Option<String>,
    pub transparent: Option<bool>,
}

/// Ghost image of [`WebViewConfig`].
#[verifier::ext_equal]
pub struct WebViewConfigView {
    pub autoplay: Option<bool>,
    pub back_forward_navigation_gestures: Option<bool>,
    pub devtools: Option<bool>,
    pub hotkeys_zoom: Option<bool>,
    pub html: Option<Seq<char>>,
    pub url: Option<Seq<char>>,
    pub transparent: Option<bool>,
}

impl View for WebViewConfig {
    type V = WebViewConfigView;

    open spec fn view(&self) -> WebViewConfigView {
        WebViewConfigView {
            autoplay: self.autoplay,
            back_forward_navigation_gestures: self.back_forward_navigation_gestures,
            devtools: self.devtools,
            hotkeys_zoom: self.hotkeys_zoom,
            html: match self.html {
                Some(t) => Some(t@),
                None => None,
            },
            url: match self.url {
                Some(t) => Some(t@),
                None => None,
            },
            transparent: self.transparent,
        }
    }
}

/// What the web-view decoder makes of a parsed document. No key of this
/// object is structurally required, so only unparsable text is rejected.
pub open spec fn spec_decode_webview(doc: JsonData) -> WebViewConfigView {
    WebViewConfigView {
        autoplay: spec_bool_field(doc, "autoplay"@),
        back_forward_navigation_gestures: spec_bool_field(
            doc,
            "back_forward_navigation_gestures"@,
        ),
        devtools: spec_bool_field(doc, "dev_tools"@),
        hotkeys_zoom: spec_bool_field(doc, "hotkeys_zoom"@),
        html: spec_text_field(doc, "html"@),
        url: spec_text_field(doc, "url"@),
        transparent: spec_bool_field(doc, "transparent"@),
    }
}

/// What the web-view decoder makes of a configuration text.
pub open spec fn spec_decode_webview_text(s: Seq<char>) -> Result<WebViewConfigView, ConfigError> {
    match parsed_json(s) {
        None => Err(ConfigError::MalformedJson),
        Some(doc) => Ok(spec_decode_webview(doc)),
    }
}

/// Decodes a web-view configuration payload.
pub fn decode_webview_config(text: &str) -> (r: Result<WebViewConfig, ConfigError>)
    ensures
        match r {
            Ok(c) => spec_decode_webview_text(text@) == Ok::<WebViewConfigView, ConfigError>(c@),
            Err(e) => spec_decode_webview_text(text@) == Err::<WebViewConfigView, ConfigError>(e),
        },
{
    let doc = match parse_json(text) {
        Some(d) => d,
        None => {
            return Err(ConfigError::MalformedJson);
        },
    };
    Ok(
        WebViewConfig {
            autoplay: get_bool_field(&doc, "autoplay"),
            back_forward_navigation_gestures: get_bool_field(
                &doc,
                "back_forward_navigation_gestures",
            ),
            devtools: get_bool_field(&doc, "dev_tools"),
            hotkeys_zoom: get_bool_field(&doc, "hotkeys_zoom"),
            html: get_text_field(&doc, "html"),
            url: get_text_field(&doc, "url"),
            transparent: get_bool_field(&doc, "transparent"),
        },
    )
}

/// The builder state from laying a decoded web-view configuration over a
/// base state.
pub open spec fn spec_apply_webview(
    base: WebViewConfigView,
    c: WebViewConfigView,
) -> WebViewConfigView {
    WebViewConfigView {
        autoplay: if c.autoplay is Some {
            c.autoplay
        } else {
            base.autoplay
        },
        back_forward_navigation_gestures: if c.back_forward_navigation_gestures is Some {
            c.back_forward_navigation_gestures
        } else {
            base.back_forward_navigation_gestures
        },
        devtools: if c.devtools is Some {
            c.devtools
        } else {
            base.devtools
        },
        hotkeys_zoom: if c.hotkeys_zoom is Some {
            c.hotkeys_zoom
        } else {
            base.hotkeys_zoom
        },
        html: if c.html is Some {
            c.html
        } else {
            base.html
        },
        url: if c.url is Some {
            c.url
        } else {
            base.url
        },
        transparent: if c.transparent is Some {
            c.transparent
        } else {
            base.transparent
        },
    }
}

/// Law: laying one decoded web-view configuration over a builder state
/// twice yields the same state as laying it once.
pub proof fn lemma_webview_config_idempotent(base: WebViewConfigView, c: WebViewConfigView)
    ensures
        spec_apply_webview(spec_apply_webview(base, c), c) == spec_apply_webview(base, c),
{
    assert(spec_apply_webview(spec_apply_webview(base, c), c) =~= spec_apply_webview(base, c));
}

/// The builder settings decoded from a tray-icon configuration object. The
/// icon path is kept as the caller gave it; resolving it to a decoded
/// bitmap is the image decoder's business, outside this core.
#[derive(Clone, Debug, PartialEq)]
pub struct TrayConfig {
    pub icon_path: Option<String>,
    pub tooltip: Option<String>,
    pub title: Option<String>,
}

/// Ghost image of [`TrayConfig`].
#[verifier::ext_equal]
pub struct TrayConfigView {
    pub icon_path: Option<Seq<char>>,
    pub tooltip: Option<Seq<char>>,
    pub title: Option<Seq<char>>,
}

impl View for TrayConfig {
    type V = TrayConfigView;

    open spec fn view(&self) -> TrayConfigView {
        TrayConfigView {
            icon_path: match self.icon_path {
                Some(t) => Some(t@),
                None => None,
            },
            tooltip: match self.tooltip {
                Some(t) => Some(t@),
                None => None,
            },
            title: match self.title {
                Some(t) => Some(t@),
                None => None,
            },
        }
    }
}

/// What the tray decoder makes of a parsed document.
pub open spec fn spec_decode_tray(doc: JsonData) -> TrayConfigView {
    TrayConfigView {
        icon_path: spec_text_field(doc, "icon_path"@),
        tooltip: spec_text_field(doc, "tooltip"@),
        title: spec_text_field(doc, "title"@),
    }
}

/// What the tray decoder makes of a configuration text.
pub open spec fn spec_decode_tray_text(s: Seq<char>) -> Result<TrayConfigView, ConfigError> {
    match parsed_json(s) {
        None => Err(ConfigError::MalformedJson),
        Some(doc) => Ok(spec_decode_tray(doc)),
    }
}

/// Decodes a tray-icon configuration payload.
pub fn decode_tray_config(text: &str) -> (r: Result<TrayConfig, ConfigError>)
    ensures
        match r {
            Ok(c) => spec_decode_tray_text(text@) == Ok::<TrayConfigView, ConfigError>(c@),
            Err(e) => spec_decode_tray_text(text@) == Err::<TrayConfigView, ConfigError>(e),
        },
{
    let doc = match parse_json(text) {
        Some(d) => d,
        None => {
            return Err(ConfigError::MalformedJson);
        },
    };
    Ok(
        TrayConfig {
            icon_path: get_text_field(&doc, "icon_path"),
            tooltip: get_text_field(&doc, "tooltip"),
            title: get_text_field(&doc, "title"),
        },
    )
}

/// The builder state from laying a decoded tray configuration over a base
/// state.
pub open spec fn spec_apply_tray(base: TrayConfigView, c: TrayConfigView) -> TrayConfigView {
    TrayConfigView {
        icon_path: if c.icon_path is Some {
            c.icon_path
        } else {
            base.icon_path
        },
        tooltip: if c.tooltip is Some {
            c.tooltip
        } else {
            base.tooltip
        },
        title: if c.title is Some {
            c.title
        } else {
            base.title
        },
    }
}

/// Law: laying one decoded tray configuration over a builder state twice
/// yields the same state as laying it once.
pub proof fn lemma_tray_config_idempotent(base: TrayConfigView, c: TrayConfigView)
    ensures
        spec_apply_tray(spec_apply_tray(base, c), c) == spec_apply_tray(base, c),
{
    assert(spec_apply_tray(spec_apply_tray(base, c), c) =~= spec_apply_tray(base, c));
}

/// What the `{width, height}` argument of a size setter decodes to. Unlike
/// a configuration key, the argument object is the whole payload, and both
/// members are required.
pub open spec fn spec_decode_size_arg(s: Seq<char>) -> Result<(u64, u64), ConfigError> {
    match parsed_json(s) {
        None => Err(ConfigError::MalformedJson),
        Some(doc) => match (spec_uint_field(doc, "width"@), spec_uint_field(doc, "height"@)) {
            (Some(w), Some(h)) => Ok((w, h)),
            _ => Err(ConfigError::MissingField),
        },
    }
}

/// Decodes the `{width, height}` argument of a size setter.
pub fn decode_size_arg(text: &str) -> (r: Result<(u64, u64), ConfigError>)
    ensures
        r == spec_decode_size_arg(text@),
{
    let doc = match parse_json(text) {
        Some(d) => d,
        None => {
            return Err(ConfigError::MalformedJson);
        },
    };
    match (get_uint_field(&doc, "width"), get_uint_field(&doc, "height")) {
        (Some(w), Some(h)) => Ok((w, h)),
        _ => Err(ConfigError::MissingField),
    }
}

/// What the argument of a size-constraint setter decodes to: the empty
/// string is the sentinel that clears the constraint, anything else must be
/// a complete dimension pair.
pub open spec fn spec_decode_constraint_arg(s: Seq<char>) -> Result<DimUpdate, ConfigError> {
    if s.len() == 0 {
        Ok(DimUpdate::Clear)
    } else {
        match spec_decode_size_arg(s) {
            Ok((w, h)) => Ok(DimUpdate::Assign(w, h)),
            Err(e) => Err(e),
        }
    }
}

/// Decodes the argument of a size-constraint setter.
pub fn decode_constraint_arg(text: &str) -> (r: Result<DimUpdate, ConfigError>)
    ensures
        r == spec_decode_constraint_arg(text@),
{
    if text.is_empty() {
        return Ok(DimUpdate::Clear);
    }
    match decode_size_arg(text) {
        Ok((w, h)) => Ok(DimUpdate::Assign(w, h)),
        Err(e) => Err(e),
    }
}

/// What the `{x, y}` argument of the position setter decodes to.
pub open spec fn spec_decode_position_arg(s: Seq<char>) -> Result<(i64, i64), ConfigError> {
    match parsed_json(s) {
        None => Err(ConfigError::MalformedJson),
        Some(doc) => match (spec_i64_field(doc, "x"@), spec_i64_field(doc, "y"@)) {
            (Some(x), Some(y)) => Ok((x, y)),
            _ => Err(ConfigError::MissingField),
        },
    }
}

/// Decodes the `{x, y}` argument of the position setter.
pub fn decode_position_arg(text: &str) -> (r: Result<(i64, i64), ConfigError>)
    ensures
        r == spec_decode_position_arg(text@),
{
    let doc = match parse_json(text) {
        Some(d) => d,
        None => {
            return Err(ConfigError::MalformedJson);
        },
    };
    match (get_i64_field(&doc, "x"), get_i64_field(&doc, "y")) {
        (Some(x), Some(y)) => Ok((x, y)),
        _ => Err(ConfigError::MissingField),
    }
}

/// What the `{state, progress}` argument of the progress-bar setter decodes
/// to: the numeric state mapped to its indicator state, and the progress
/// value.
pub open spec fn spec_decode_progress_arg(s: Seq<char>) -> Result<
    (ProgressKind, u64),
    ConfigError,
> {
    match parsed_json(s) {
        None => Err(ConfigError::MalformedJson),
        Some(doc) => match (spec_i64_field(doc, "state"@), spec_uint_field(doc, "progress"@)) {
            (Some(st), Some(p)) => Ok((spec_progress_kind(st as int), p)),
            _ => Err(ConfigError::MissingField),
        },
    }
}

/// Decodes the `{state, progress}` argument of the progress-bar setter.
pub fn decode_progress_arg(text: &str) -> (r: Result<(ProgressKind, u64), ConfigError>)
    ensures
        r == spec_decode_progress_arg(text@),
{
    let doc = match parse_json(text) {
        Some(d) => d,
        None => {
            return Err(ConfigError::MalformedJson);
        },
    };
    match (get_i64_field(&doc, "state"), get_uint_field(&doc, "progress")) {
        (Some(st), Some(p)) => Ok((progress_kind_of(st), p)),
        _ => Err(ConfigError::MissingField),
    }
}

} // verus!
