//! Core logic of a C-callable bridge that drives native desktop windows,
//! embedded web views and tray icons.
//!
//! This crate holds the verified part of the bridge: decoding of
//! loosely-typed configuration payloads into typed builder settings,
//! the identity registry that routes window events back to caller-assigned
//! ids, the translation of platform events into `(event_name, json_payload)`
//! callback invocations, and the state models of the native resources.
//! The thin foreign-function layer that owns the raw handles and calls the
//! platform windowing engine sits outside this crate and drives it with
//! plain values.

pub mod config;
pub mod events;
pub mod fmt;
pub mod json;
pub mod progress;
pub mod registry;
pub mod tray;
pub mod webview;
pub mod window;
