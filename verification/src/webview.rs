//! The web-view state model.
//!
//! A web view is created against a live window from a decoded
//! configuration, optionally sharing a web context, and is destroyed
//! independently. The model keeps what the bridge's accessors report: the
//! page content currently loaded and whether the developer tools are open.
//! Advisory native operations — reload, zoom, clearing browsing data — have
//! no state this core reports and stay with the foreign layer.

use vstd::prelude::*;
use crate::config::WebViewConfig;

verus! {

/// What a web view currently displays.
#[verifier::ext_equal]
pub enum PageContent {
    /// Nothing was loaded yet.
    Blank,
    /// Markup handed over directly.
    Markup(Seq<char>),
    /// A page fetched from an address.
    Address(Seq<char>),
}

/// Ghost image of [`WebViewState`].
#[verifier::ext_equal]
pub struct WebViewStateView {
    pub content: PageContent,
    pub autoplay: bool,
    pub back_forward_navigation_gestures: bool,
    pub devtools_allowed: bool,
    pub devtools_open: bool,
    pub hotkeys_zoom: bool,
    pub transparent: bool,
}

/// The content a decoded configuration loads first: markup is applied
/// before the address, so when both are given the address wins.
pub open spec fn spec_initial_content(
    html: Option<Seq<char>>,
    url: Option<Seq<char>>,
) -> PageContent {
    match url {
        Some(u) => PageContent::Address(u),
        None => match html {
            Some(h) => PageContent::Markup(h),
            None => PageContent::Blank,
        },
    }
}

/// The state a web view is created in.
pub open spec fn spec_new_webview(c: crate::config::WebViewConfigView) -> WebViewStateView {
    WebViewStateView {
        content: spec_initial_content(c.html, c.url),
        autoplay: match c.autoplay {
            Some(b) => b,
            None => true,
        },
        back_forward_navigation_gestures: match c.back_forward_navigation_gestures {
            Some(b) => b,
            None => false,
        },
        devtools_allowed: match c.devtools {
            Some(b) => b,
            None => false,
        },
        devtools_open: false,
        hotkeys_zoom: match c.hotkeys_zoom {
            Some(b) => b,
            None => true,
        },
        transparent: match c.transparent {
            Some(b) => b,
            None => false,
        },
    }
}

/// The bridge-side state of one web view.
pub struct WebViewState {
    content_url: Option<String>,
    content_html: Option<String>,
    autoplay: bool,
    back_forward_navigation_gestures: bool,
    devtools_allowed: bool,
    devtools_open: bool,
    hotkeys_zoom: bool,
    transparent: bool,
}

impl View for WebViewState {
    type V = WebViewStateView;

    closed spec fn view(&self) -> WebViewStateView {
        WebViewStateView {
            content: match self.content_url {
                Some(u) => PageContent::Address(u@),
                None => match self.content_html {
                    Some(h) => PageContent::Markup(h@),
                    None => PageContent::Blank,
                },
            },
            autoplay: self.autoplay,
            back_forward_navigation_gestures: self.back_forward_navigation_gestures,
            devtools_allowed: self.devtools_allowed,
            devtools_open: self.devtools_open,
            hotkeys_zoom: self.hotkeys_zoom,
            transparent: self.transparent,
        }
    }
}

impl WebViewState {
    /// Builds the web-view state a decoded configuration asks for.
    pub fn new(c: &WebViewConfig) -> (r: WebViewState)
        ensures
            r@ == spec_new_webview(c@),
    {
        let content_url = match &c.url {
            Some(u) => Some(u.clone()),
            None => None,
        };
        let content_html = match &c.html {
            Some(h) => Some(h.clone()),
            None => None,
        };
        let r = WebViewState {
            content_url,
            content_html,
            autoplay: c.autoplay.unwrap_or(true),
            back_forward_navigation_gestures: c.back_forward_navigation_gestures.unwrap_or(false),
            devtools_allowed: c.devtools.unwrap_or(false),
            devtools_open: false,
            hotkeys_zoom: c.hotkeys_zoom.unwrap_or(true),
            transparent: c.transparent.unwrap_or(false),
        };
        proof {
            assert(r@ =~= spec_new_webview(c@));
        }
        r
    }

    /// The address of the current page: the loaded URL, or the empty string
    /// when the view shows markup or nothing.
    pub fn get_url(&self) -> (r: String)
        ensures
            r@ == match self@.content {
                PageContent::Address(u) => u,
                _ => Seq::<char>::empty(),
            },
    {
        match &self.content_url {
            Some(u) => u.clone(),
            None => String::new(),
        }
    }

    /// Navigates to an address.
    pub fn set_url(&mut self, url: &str)
        ensures
            final(self)@ == (WebViewStateView {
                content: PageContent::Address(url@),
                ..old(self)@
            }),
    {
        self.content_url = Some(url.to_owned());
        self.content_html = None;
        proof {
            assert(self@ =~= (WebViewStateView {
                content: PageContent::Address(url@),
                ..old(self)@
            }));
        }
    }

    /// Loads markup directly.
    pub fn set_html(&mut self, html: &str)
        ensures
            final(self)@ == (WebViewStateView {
                content: PageContent::Markup(html@),
                ..old(self)@
            }),
    {
        self.content_url = None;
        self.content_html = Some(html.to_owned());
        proof {
            assert(self@ =~= (WebViewStateView {
                content: PageContent::Markup(html@),
                ..old(self)@
            }));
        }
    }

    /// Whether the developer tools are open.
    pub fn is_devtools_open(&self) -> (r: bool)
        ensures
            r == self@.devtools_open,
    {
        self.devtools_open
    }

    /// Opens the developer tools.
    pub fn open_devtools(&mut self)
        ensures
            final(self)@ == (WebViewStateView { devtools_open: true, ..old(self)@ }),
    {
        self.devtools_open = true;
    }

    /// Closes the developer tools.
    pub fn close_devtools(&mut self)
        ensures
            final(self)@ == (WebViewStateView { devtools_open: false, ..old(self)@ }),
    {
        self.devtools_open = false;
    }
}

/// An owned browsing-data partition: a persistent storage directory a web
/// view can be created against. It must outlive every web view built from
/// it; the bridge only carries the path.
pub struct WebContextState {
    storage_path: String,
}

impl View for WebContextState {
    type V = Seq<char>;

    closed spec fn view(&self) -> Seq<char> {
        self.storage_path@
    }
}

impl WebContextState {
    /// A context over the given storage directory.
    pub fn new(storage_path: &str) -> (r: WebContextState)
        ensures
            r@ == storage_path@,
    {
        WebContextState { storage_path: storage_path.to_owned() }
    }

    /// The storage directory this context persists to.
    pub fn storage_path(&self) -> (r: String)
        ensures
            r@ == self@,
    {
        self.storage_path.clone()
    }
}

} // verus!
