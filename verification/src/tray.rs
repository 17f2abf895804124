//! The tray-icon state model.
//!
//! A tray icon is identified by a caller-assigned small integer id, used
//! both as its native identity and for routing its click events back to
//! the caller. The configuration may name an icon image by path — decoding
//! the image is outside this core — and give a tooltip and a title.

use vstd::prelude::*;
use crate::config::TrayConfig;

verus! {

/// Ghost image of [`TrayState`].
#[verifier::ext_equal]
pub struct TrayStateView {
    pub id: u16,
    pub icon_path: Option<Seq<char>>,
    pub tooltip: Option<Seq<char>>,
    pub title: Option<Seq<char>>,
}

/// The state a tray icon is created in.
pub open spec fn spec_new_tray(id: u16, c: crate::config::TrayConfigView) -> TrayStateView {
    TrayStateView { id, icon_path: c.icon_path, tooltip: c.tooltip, title: c.title }
}

/// The bridge-side state of one tray icon.
pub struct TrayState {
    id: u16,
    icon_path: Option<String>,
    tooltip: Option<String>,
    title: Option<String>,
}

impl View for TrayState {
    type V = TrayStateView;

    closed spec fn view(&self) -> TrayStateView {
        TrayStateView {
            id: self.id,
            icon_path: match self.icon_path {
                Some(p) => Some(p@),
                None => None,
            },
            tooltip: match self.tooltip {
                Some(t) => Some(t@),
                None => None,
            },
            title: match self.title {
                Some(t) => Some(t@),
                None => None,
            },
        }
    }
}

impl TrayState {
    /// Builds the tray state a decoded configuration asks for.
    pub fn new(id: u16, c: &TrayConfig) -> (r: TrayState)
        ensures
            r@ == spec_new_tray(id, c@),
    {
        let icon_path = match &c.icon_path {
            Some(p) => Some(p.clone()),
            None => None,
        };
        let tooltip = match &c.tooltip {
            Some(t) => Some(t.clone()),
            None => None,
        };
        let title = match &c.title {
            Some(t) => Some(t.clone()),
            None => None,
        };
        let r = TrayState { id, icon_path, tooltip, title };
        proof {
            assert(r@ =~= spec_new_tray(id, c@));
        }
        r
    }

    /// The caller-assigned id this icon's click events are routed under.
    pub fn id(&self) -> (r: u16)
        ensures
            r == self@.id,
    {
        self.id
    }

    /// The configured icon image path, if one was given.
    pub fn icon_path(&self) -> (r: Option<String>)
        ensures
            match self@.icon_path {
                Some(p) => r matches Some(q) && q@ == p,
                None => r is None,
            },
    {
        match &self.icon_path {
            Some(p) => Some(p.clone()),
            None => None,
        }
    }

    /// The configured tooltip, if one was given.
    pub fn tooltip(&self) -> (r: Option<String>)
        ensures
            match self@.tooltip {
                Some(t) => r matches Some(q) && q@ == t,
                None => r is None,
            },
    {
        match &self.tooltip {
            Some(t) => Some(t.clone()),
            None => None,
        }
    }

    /// The configured title, if one was given.
    pub fn title(&self) -> (r: Option<String>)
        ensures
            match self@.title {
                Some(t) => r matches Some(q) && q@ == t,
                None => r is None,
            },
    {
        match &self.title {
            Some(t) => Some(t.clone()),
            None => None,
        }
    }
}

} // verus!
