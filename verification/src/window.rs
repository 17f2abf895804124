//! The window state model.
//!
//! A window is created against a live event loop from a decoded
//! configuration, mutated through setters and read through accessors. The
//! model keeps, as plain values, exactly the state the bridge's accessors
//! report: the foreign layer that owns the native window applies every
//! mutation to both.
//!
//! Sizes are logical dimension pairs; a resize is clamped into the window's
//! minimum- and maximum-size constraints, and clearing a constraint (the
//! empty-string sentinel of the constraint setters) frees later resizes
//! from it.

use vstd::prelude::*;
use vstd::string::StringExecFns;
use crate::config::{WindowConfig, WindowConfigView, DimUpdate};
use crate::fmt::{spec_uint_str, spec_int_str, u64_to_string, i64_to_string};
use crate::progress::ProgressKind;

verus! {

/// Ghost image of [`WindowState`].
#[verifier::ext_equal]
pub struct WindowStateView {
    pub title: Seq<char>,
    pub size: (u64, u64),
    pub position: (i64, i64),
    pub min_size: Option<(u64, u64)>,
    pub max_size: Option<(u64, u64)>,
    pub always_on_bottom: bool,
    pub always_on_top: bool,
    pub closable: bool,
    pub content_protection: bool,
    pub decorations: bool,
    pub focusable: bool,
    pub focused: bool,
    pub fullscreen: bool,
    pub ignore_cursor_events: bool,
    pub maximizable: bool,
    pub maximized: bool,
    pub minimizable: bool,
    pub minimized: bool,
    pub resizable: bool,
    pub transparent: bool,
    pub visible: bool,
    pub visible_on_all_workspaces: bool,
    pub progress: Option<(ProgressKind, u64)>,
}

/// One axis of a resize, forced into the optional bounds; the lower bound
/// wins over the upper one where they cross.
pub open spec fn spec_clamp_axis(v: u64, lo: Option<u64>, hi: Option<u64>) -> u64 {
    let capped = match hi {
        Some(h) => if v > h {
            h
        } else {
            v
        },
        None => v,
    };
    match lo {
        Some(l) => if capped < l {
            l
        } else {
            capped
        },
        None => capped,
    }
}

/// A requested size forced into the constraints.
pub open spec fn spec_clamp_size(
    s: (u64, u64),
    min: Option<(u64, u64)>,
    max: Option<(u64, u64)>,
) -> (u64, u64) {
    (
        spec_clamp_axis(
            s.0,
            match min {
                Some(m) => Some(m.0),
                None => None,
            },
            match max {
                Some(m) => Some(m.0),
                None => None,
            },
        ),
        spec_clamp_axis(
            s.1,
            match min {
                Some(m) => Some(m.1),
                None => None,
            },
            match max {
                Some(m) => Some(m.1),
                None => None,
            },
        ),
    )
}

/// The constraint a decoded constraint key leaves behind.
pub open spec fn spec_constraint_of(u: Option<DimUpdate>) -> Option<(u64, u64)> {
    match u {
        Some(DimUpdate::Assign(w, h)) => Some((w, h)),
        _ => None,
    }
}

/// The model's builder defaults: an untitled, visible, decorated,
/// resizable window.
pub open spec fn spec_default_window() -> WindowStateView {
    WindowStateView {
        title: Seq::empty(),
        size: (800u64, 600u64),
        position: (0i64, 0i64),
        min_size: None,
        max_size: None,
        always_on_bottom: false,
        always_on_top: false,
        closable: true,
        content_protection: false,
        decorations: true,
        focusable: true,
        focused: false,
        fullscreen: false,
        ignore_cursor_events: false,
        maximizable: true,
        maximized: false,
        minimizable: true,
        minimized: false,
        resizable: true,
        transparent: false,
        visible: true,
        visible_on_all_workspaces: false,
        progress: None,
    }
}

/// The state a window is created in: the defaults, overwritten by every
/// setting the configuration carries, the initial size forced into the
/// configured constraints.
pub open spec fn spec_new_window(c: WindowConfigView) -> WindowStateView {
    let d = spec_default_window();
    let min = spec_constraint_of(c.minimum_size);
    let max = spec_constraint_of(c.maximum_size);
    let requested = match c.size {
        Some(s) => s,
        None => d.size,
    };
    WindowStateView {
        title: match c.title {
            Some(t) => t,
            None => d.title,
        },
        size: spec_clamp_size(requested, min, max),
        position: match c.position {
            Some(p) => p,
            None => d.position,
        },
        min_size: min,
        max_size: max,
        always_on_bottom: match c.always_on_bottom {
            Some(b) => b,
            None => d.always_on_bottom,
        },
        always_on_top: match c.always_on_top {
            Some(b) => b,
            None => d.always_on_top,
        },
        closable: match c.closable {
            Some(b) => b,
            None => d.closable,
        },
        content_protection: match c.content_protection {
            Some(b) => b,
            None => d.content_protection,
        },
        decorations: match c.decorations {
            Some(b) => b,
            None => d.decorations,
        },
        focusable: match c.focusable {
            Some(b) => b,
            None => d.focusable,
        },
        focused: match c.focused {
            Some(b) => b,
            None => d.focused,
        },
        fullscreen: false,
        ignore_cursor_events: false,
        maximizable: match c.maximizable {
            Some(b) => b,
            None => d.maximizable,
        },
        maximized: match c.maximized {
            Some(b) => b,
            None => d.maximized,
        },
        minimizable: match c.minimizable {
            Some(b) => b,
            None => d.minimizable,
        },
        minimized: false,
        resizable: match c.resizable {
            Some(b) => b,
            None => d.resizable,
        },
        transparent: match c.transparent {
            Some(b) => b,
            None => d.transparent,
        },
        visible: match c.visible {
            Some(b) => b,
            None => d.visible,
        },
        visible_on_all_workspaces: match c.visible_on_all_workspaces {
            Some(b) => b,
            None => d.visible_on_all_workspaces,
        },
        progress: None,
    }
}

/// A resize: the requested size forced into the current constraints.
pub open spec fn spec_resize(s: WindowStateView, width: u64, height: u64) -> WindowStateView {
    WindowStateView { size: spec_clamp_size((width, height), s.min_size, s.max_size), ..s }
}

/// An update of the maximum-size constraint.
pub open spec fn spec_set_max(s: WindowStateView, u: DimUpdate) -> WindowStateView {
    WindowStateView {
        max_size: match u {
            DimUpdate::Assign(w, h) => Some((w, h)),
            DimUpdate::Clear => None,
        },
        ..s
    }
}

/// An update of the minimum-size constraint.
pub open spec fn spec_set_min(s: WindowStateView, u: DimUpdate) -> WindowStateView {
    WindowStateView {
        min_size: match u {
            DimUpdate::Assign(w, h) => Some((w, h)),
            DimUpdate::Clear => None,
        },
        ..s
    }
}

/// Law: after the empty-string sentinel clears the maximum-size constraint,
/// a resize lands exactly on the requested size — beyond any prior maximum —
/// as long as it is not below the minimum constraint still in force.
pub proof fn lemma_sentinel_clears_maximum(s: WindowStateView, width: u64, height: u64)
    requires
        match s.min_size {
            Some(m) => m.0 <= width && m.1 <= height,
            None => true,
        },
    ensures
        spec_resize(spec_set_max(s, DimUpdate::Clear), width, height).size == (width, height),
{
}

/// The `{"width":..,"height":..}` text the size accessor reports.
pub open spec fn spec_size_json(width: u64, height: u64) -> Seq<char> {
    "{\"width\":"@ + spec_uint_str(width as nat) + ",\"height\":"@ + spec_uint_str(height as nat)
        + "}"@
}

/// The `{"x":..,"y":..}` text the position accessor reports.
pub open spec fn spec_position_json(x: i64, y: i64) -> Seq<char> {
    "{\"x\":"@ + spec_int_str(x as int) + ",\"y\":"@ + spec_int_str(y as int) + "}"@
}

/// The bridge-side state of one native window.
pub struct WindowState {
    title: String,
    size: (u64, u64),
    position: (i64, i64),
    min_size: Option<(u64, u64)>,
    max_size: Option<(u64, u64)>,
    always_on_bottom: bool,
    always_on_top: bool,
    closable: bool,
    content_protection: bool,
    decorations: bool,
    focusable: bool,
    focused: bool,
    fullscreen: bool,
    ignore_cursor_events: bool,
    maximizable: bool,
    maximized: bool,
    minimizable: bool,
    minimized: bool,
    resizable: bool,
    transparent: bool,
    visible: bool,
    visible_on_all_workspaces: bool,
    progress: Option<(ProgressKind, u64)>,
}

impl View for WindowState {
    type V = WindowStateView;

    closed spec fn view(&self) -> WindowStateView {
        WindowStateView {
            title: self.title@,
            size: self.size,
            position: self.position,
            min_size: self.min_size,
            max_size: self.max_size,
            always_on_bottom: self.always_on_bottom,
            always_on_top: self.always_on_top,
            closable: self.closable,
            content_protection: self.content_protection,
            decorations: self.decorations,
            focusable: self.focusable,
            focused: self.focused,
            fullscreen: self.fullscreen,
            ignore_cursor_events: self.ignore_cursor_events,
            maximizable: self.maximizable,
            maximized: self.maximized,
            minimizable: self.minimizable,
            minimized: self.minimized,
            resizable: self.resizable,
            transparent: self.transparent,
            visible: self.visible,
            visible_on_all_workspaces: self.visible_on_all_workspaces,
            progress: self.progress,
        }
    }
}

/// One axis of a resize, forced into the optional bounds.
fn clamp_axis(v: u64, lo: Option<u64>, hi: Option<u64>) -> (r: u64)
    ensures
        r == spec_clamp_axis(v, lo, hi),
{
    let capped = match hi {
        Some(h) => if v > h {
            h
        } else {
            v
        },
        None => v,
    };
    match lo {
        Some(l) => if capped < l {
            l
        } else {
            capped
        },
        None => capped,
    }
}

/// A requested size forced into the constraints.
fn clamp_size(s: (u64, u64), min: Option<(u64, u64)>, max: Option<(u64, u64)>) -> (r: (u64, u64))
    ensures
        r == spec_clamp_size(s, min, max),
{
    let lo_w = match min {
        Some(m) => Some(m.0),
        None => None,
    };
    let hi_w = match max {
        Some(m) => Some(m.0),
        None => None,
    };
    let lo_h = match min {
        Some(m) => Some(m.1),
        None => None,
    };
    let hi_h = match max {
        Some(m) => Some(m.1),
        None => None,
    };
    (clamp_axis(s.0, lo_w, hi_w), clamp_axis(s.1, lo_h, hi_h))
}

impl WindowState {
    /// Builds the window state a decoded configuration asks for: defaults,
    /// overwritten by every present key.
    #[verifier::rlimit(100)]
    pub fn new(c: &WindowConfig) -> (r: WindowState)
        ensures
            r@ == spec_new_window(c@),
    {
        let min = match c.minimum_size {
            Some(DimUpdate::Assign(w, h)) => Some((w, h)),
            _ => None,
        };
        let max = match c.maximum_size {
            Some(DimUpdate::Assign(w, h)) => Some((w, h)),
            _ => None,
        };
        let requested = match c.size {
            Some(s) => s,
            None => (800u64, 600u64),
        };
        let title = match &c.title {
            Some(t) => t.clone(),
            None => String::new(),
        };
        let r = WindowState {
            title,
            size: clamp_size(requested, min, max),
            position: match c.position {
                Some(p) => p,
                None => (0i64, 0i64),
            },
            min_size: min,
            max_size: max,
            always_on_bottom: c.always_on_bottom.unwrap_or(false),
            always_on_top: c.always_on_top.unwrap_or(false),
            closable: c.closable.unwrap_or(true),
            content_protection: c.content_protection.unwrap_or(false),
            decorations: c.decorations.unwrap_or(true),
            focusable: c.focusable.unwrap_or(true),
            focused: c.focused.unwrap_or(false),
            fullscreen: false,
            ignore_cursor_events: false,
            maximizable: c.maximizable.unwrap_or(true),
            maximized: c.maximized.unwrap_or(false),
            minimizable: c.minimizable.unwrap_or(true),
            minimized: false,
            resizable: c.resizable.unwrap_or(true),
            transparent: c.transparent.unwrap_or(false),
            visible: c.visible.unwrap_or(true),
            visible_on_all_workspaces: c.visible_on_all_workspaces.unwrap_or(false),
            progress: None,
        };
        proof {
            assert(r@ =~= spec_new_window(c@));
        }
        r
    }

    /// The window title.
    pub fn get_title(&self) -> (r: String)
        ensures
            r@ == self@.title,
    {
        self.title.clone()
    }

    /// Retitles the window.
    pub fn set_title(&mut self, title: &str)
        ensures
            final(self)@ == (WindowStateView { title: title@, ..old(self)@ }),
    {
        self.title = title.to_owned();
    }

    /// The window's current size.
    pub fn get_size(&self) -> (r: (u64, u64))
        ensures
            r == self@.size,
    {
        self.size
    }

    /// The size accessor's payload text.
    pub fn size_json(&self) -> (r: String)
        ensures
            r@ == spec_size_json(self@.size.0, self@.size.1),
    {
        let mut s = "{\"width\":".to_owned();
        s.append(u64_to_string(self.size.0).as_str());
        s.append(",\"height\":");
        s.append(u64_to_string(self.size.1).as_str());
        s.append("}");
        proof {
            assert(s@ =~= spec_size_json(self@.size.0, self@.size.1));
        }
        s
    }

    /// Resizes the window; the request is forced into the current
    /// constraints.
    pub fn set_size(&mut self, width: u64, height: u64)
        ensures
            final(self)@ == spec_resize(old(self)@, width, height),
    {
        self.size = clamp_size((width, height), self.min_size, self.max_size);
    }

    /// The window's current position.
    pub fn get_position(&self) -> (r: (i64, i64))
        ensures
            r == self@.position,
    {
        self.position
    }

    /// The position accessor's payload text: the x member from the
    /// x-coordinate, the y member from the y-coordinate.
    pub fn position_json(&self) -> (r: String)
        ensures
            r@ == spec_position_json(self@.position.0, self@.position.1),
    {
        let mut s = "{\"x\":".to_owned();
        s.append(i64_to_string(self.position.0).as_str());
        s.append(",\"y\":");
        s.append(i64_to_string(self.position.1).as_str());
        s.append("}");
        proof {
            assert(s@ =~= spec_position_json(self@.position.0, self@.position.1));
        }
        s
    }

    /// Moves the window.
    pub fn set_position(&mut self, x: i64, y: i64)
        ensures
            final(self)@ == (WindowStateView { position: (x, y), ..old(self)@ }),
    {
        self.position = (x, y);
    }

    /// Updates or clears the minimum-size constraint. The bound acts on the
    /// next resize.
    pub fn set_minimum_size(&mut self, u: DimUpdate)
        ensures
            final(self)@ == spec_set_min(old(self)@, u),
    {
        self.min_size = match u {
            DimUpdate::Assign(w, h) => Some((w, h)),
            DimUpdate::Clear => None,
        };
    }

    /// Updates or clears the maximum-size constraint. The bound acts on the
    /// next resize.
    pub fn set_maximum_size(&mut self, u: DimUpdate)
        ensures
            final(self)@ == spec_set_max(old(self)@, u),
    {
        self.max_size = match u {
            DimUpdate::Assign(w, h) => Some((w, h)),
            DimUpdate::Clear => None,
        };
    }

    /// Sets the taskbar progress indicator.
    pub fn set_progress_bar(&mut self, kind: ProgressKind, progress: u64)
        ensures
            final(self)@ == (WindowStateView {
                progress: Some((kind, progress)),
                ..old(self)@
            }),
    {
        self.progress = Some((kind, progress));
    }

    /// The current progress indicator, if one was set.
    pub fn get_progress_bar(&self) -> (r: Option<(ProgressKind, u64)>)
        ensures
            r == self@.progress,
    {
        self.progress
    }

    /// Gives the window focus.
    pub fn set_focus(&mut self)
        ensures
            final(self)@ == (WindowStateView { focused: true, ..old(self)@ }),
    {
        self.focused = true;
    }

    pub fn is_always_on_top(&self) -> (r: bool)
        ensures
            r == self@.always_on_top,
    {
        self.always_on_top
    }

    pub fn is_closable(&self) -> (r: bool)
        ensures
            r == self@.closable,
    {
        self.closable
    }

    pub fn is_decorated(&self) -> (r: bool)
        ensures
            r == self@.decorations,
    {
        self.decorations
    }

    pub fn is_focused(&self) -> (r: bool)
        ensures
            r == self@.focused,
    {
        self.focused
    }

    pub fn is_maximizable(&self) -> (r: bool)
        ensures
            r == self@.maximizable,
    {
        self.maximizable
    }

    pub fn is_maximized(&self) -> (r: bool)
        ensures
            r == self@.maximized,
    {
        self.maximized
    }

    pub fn is_minimizable(&self) -> (r: bool)
        ensures
            r == self@.minimizable,
    {
        self.minimizable
    }

    pub fn is_minimized(&self) -> (r: bool)
        ensures
            r == self@.minimized,
    {
        self.minimized
    }

    pub fn is_resizable(&self) -> (r: bool)
        ensures
            r == self@.resizable,
    {
        self.resizable
    }

    pub fn is_visible(&self) -> (r: bool)
        ensures
            r == self@.visible,
    {
        self.visible
    }

    pub fn set_always_on_bottom(&mut self, v: bool)
        ensures
            final(self)@ == (WindowStateView { always_on_bottom: v, ..old(self)@ }),
    {
        self.always_on_bottom = v;
    }

    pub fn set_always_on_top(&mut self, v: bool)
        ensures
            final(self)@ == (WindowStateView { always_on_top: v, ..old(self)@ }),
    {
        self.always_on_top = v;
    }

    pub fn set_closable(&mut self, v: bool)
        ensures
            final(self)@ == (WindowStateView { closable: v, ..old(self)@ }),
    {
        self.closable = v;
    }

    pub fn set_content_protection(&mut self, v: bool)
        ensures
            final(self)@ == (WindowStateView { content_protection: v, ..old(self)@ }),
    {
        self.content_protection = v;
    }

    pub fn set_decorations(&mut self, v: bool)
        ensures
            final(self)@ == (WindowStateView { decorations: v, ..old(self)@ }),
    {
        self.decorations = v;
    }

    pub fn set_focusable(&mut self, v: bool)
        ensures
            final(self)@ == (WindowStateView { focusable: v, ..old(self)@ }),
    {
        self.focusable = v;
    }

    pub fn set_fullscreen(&mut self, v: bool)
        ensures
            final(self)@ == (WindowStateView { fullscreen: v, ..old(self)@ }),
    {
        self.fullscreen = v;
    }

    pub fn set_ignore_cursor_events(&mut self, v: bool)
        ensures
            final(self)@ == (WindowStateView { ignore_cursor_events: v, ..old(self)@ }),
    {
        self.ignore_cursor_events = v;
    }

    pub fn set_maximizable(&mut self, v: bool)
        ensures
            final(self)@ == (WindowStateView { maximizable: v, ..old(self)@ }),
    {
        self.maximizable = v;
    }

    pub fn set_maximized(&mut self, v: bool)
        ensures
            final(self)@ == (WindowStateView { maximized: v, ..old(self)@ }),
    {
        self.maximized = v;
    }

    pub fn set_minimizable(&mut self, v: bool)
        ensures
            final(self)@ == (WindowStateView { minimizable: v, ..old(self)@ }),
    {
        self.minimizable = v;
    }

    pub fn set_minimized(&mut self, v: bool)
        ensures
            final(self)@ == (WindowStateView { minimized: v, ..old(self)@ }),
    {
        self.minimized = v;
    }

    pub fn set_resizable(&mut self, v: bool)
        ensures
            final(self)@ == (WindowStateView { resizable: v, ..old(self)@ }),
    {
        self.resizable = v;
    }

    pub fn set_visible(&mut self, v: bool)
        ensures
            final(self)@ == (WindowStateView { visible: v, ..old(self)@ }),
    {
        self.visible = v;
    }

    pub fn set_visible_on_all_workspaces(&mut self, v: bool)
        ensures
            final(self)@ == (WindowStateView { visible_on_all_workspaces: v, ..old(self)@ }),
    {
        self.visible_on_all_workspaces = v;
    }
}

} // verus!
