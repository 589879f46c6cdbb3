//! The views of the web UI and the windows that show them.
use vstd::prelude::*;
use vstd::view::View as _;

use crate::config::{lemma_page_paths, spec_base_url, spec_url_for, Config};
use crate::text::same_text;
use crate::web_url::WebUrl;

verus! {

/// A view of the web UI that can be opened in a window of its own.
#[derive(Clone, Copy, Debug, PartialEq, Eq, Structural)]
pub enum View {
    Main,
    Stage,
    Requests,
    Overlay,
    Admin,
}

impl View {
    /// Every view, in menu order.
    pub const ALL: [View; 5] = [View::Main, View::Stage, View::Requests, View::Overlay, View::Admin];

    /// The window label of the view.
    pub open spec fn spec_label(self) -> Seq<char> {
        match self {
            View::Main => "main"@,
            View::Stage => "stage"@,
            View::Requests => "requests"@,
            View::Overlay => "overlay"@,
            View::Admin => "admin"@,
        }
    }

    /// The path of the view on the server.
    pub open spec fn spec_path(self) -> Seq<char> {
        match self {
            View::Main => "/"@,
            View::Stage => "/nowplaying"@,
            View::Requests => "/requests"@,
            View::Overlay => "/wish-overlay"@,
            View::Admin => "/admin"@,
        }
    }

    /// The window title of the view.
    pub open spec fn spec_title(self) -> Seq<char> {
        match self {
            View::Main => "Gutz Now Playing"@,
            View::Stage => "Gutz – Bühne"@,
            View::Requests => "Gutz – Anfragen"@,
            View::Overlay => "Gutz – Wunsch-Overlay"@,
            View::Admin => "Gutz – Admin"@,
        }
    }

    /// The view whose label is `s`, if any.
    pub open spec fn spec_from_label(s: Seq<char>) -> Option<View> {
        if s == "main"@ {
            Some(View::Main)
        } else if s == "stage"@ {
            Some(View::Stage)
        } else if s == "requests"@ {
            Some(View::Requests)
        } else if s == "overlay"@ {
            Some(View::Overlay)
        } else if s == "admin"@ {
            Some(View::Admin)
        } else {
            None
        }
    }

    pub fn label(self) -> (r: &'static str)
        ensures
            r@ == self.spec_label(),
    {
        match self {
            View::Main => "main",
            View::Stage => "stage",
            View::Requests => "requests",
            View::Overlay => "overlay",
            View::Admin => "admin",
        }
    }

    pub fn path(self) -> (r: &'static str)
        ensures
            r@ == self.spec_path(),
    {
        match self {
            View::Main => "/",
            View::Stage => "/nowplaying",
            View::Requests => "/requests",
            View::Overlay => "/wish-overlay",
            View::Admin => "/admin",
        }
    }

    pub fn title(self) -> (r: &'static str)
        ensures
            r@ == self.spec_title(),
    {
        match self {
            View::Main => "Gutz Now Playing",
            View::Stage => "Gutz – Bühne",
            View::Requests => "Gutz – Anfragen",
            View::Overlay => "Gutz – Wunsch-Overlay",
            View::Admin => "Gutz – Admin",
        }
    }

    /// The first view of `ALL` whose label is `label`.
    pub fn from_label(label: &str) -> (r: Option<View>)
        ensures
            r == View::spec_from_label(label@),
    {
        let all = View::ALL;
        let mut i: usize = 0;
        while i < 5
            invariant
                i <= 5,
                all@ == seq![View::Main, View::Stage, View::Requests, View::Overlay, View::Admin],
                forall|k: int| 0 <= k < i ==> (#[trigger] all@[k]).spec_label() != label@,
            decreases 5 - i,
        {
            let v = all[i];
            if same_text(v.label(), label) {
                proof {
                    law_label_round_trip(v);
                }
                return Some(v);
            }
            i = i + 1;
        }
        proof {
            assert(all@[0] == View::Main);
            assert(all@[1] == View::Stage);
            assert(all@[2] == View::Requests);
            assert(all@[3] == View::Overlay);
            assert(all@[4] == View::Admin);
            if let Some(v) = View::spec_from_label(label@) {
                law_label_round_trip(v);
            }
        }
        None
    }
}

/// A view is found again by its label.
pub proof fn law_label_round_trip(v: View)
    ensures
        View::spec_from_label(v.spec_label()) == Some(v),
{
    reveal_strlit("main");
    reveal_strlit("stage");
    reveal_strlit("requests");
    reveal_strlit("overlay");
    reveal_strlit("admin");
    assert("main"@[0] == 'm');
    assert("stage"@[0] == 's');
    assert("requests"@[0] == 'r');
    assert("overlay"@[0] == 'o');
    assert("admin"@[0] == 'a');
}

/// How a window for a view is to be built: where it points and how it looks.
/// Options that are `None` keep the window system's default.
pub struct WindowPlan {
    pub label: &'static str,
    pub url: WebUrl,
    pub title: &'static str,
    pub width: u32,
    pub height: u32,
    pub fullscreen: Option<bool>,
    pub decorations: Option<bool>,
    pub always_on_top: Option<bool>,
    pub skip_taskbar: Option<bool>,
}

/// The inner size (width, height) of a view's window.
pub open spec fn window_size(v: View) -> (u32, u32) {
    match v {
        View::Stage => (1280, 720),
        View::Overlay => (480, 270),
        _ => (1100, 800),
    }
}

/// Whether a plan for `v` under `config` points at `url` and looks as the view asks.
pub open spec fn plan_matches(p: WindowPlan, config: Config, v: View, url: Seq<char>) -> bool {
    &&& p.label@ == v.spec_label()
    &&& p.title@ == v.spec_title()
    &&& p.url@ == url
    &&& (p.width, p.height) == window_size(v)
    &&& p.fullscreen == (if v == View::Stage { Some(config.stage_fullscreen) } else { None::<bool> })
    &&& p.decorations == (match v {
        View::Stage => Some(!config.stage_fullscreen),
        View::Overlay => Some(false),
        _ => None::<bool>,
    })
    &&& p.always_on_top == (if v == View::Overlay { Some(true) } else { None::<bool> })
    &&& p.skip_taskbar == (if v == View::Overlay { Some(true) } else { None::<bool> })
}

/// The window to open for `view`, or why its URL cannot be built.
pub fn window_plan(config: &Config, view: View) -> (r: Result<WindowPlan, String>)
    ensures
        match spec_url_for(config.server_url@, view.spec_path()) {
            Ok(u) => r matches Ok(p) && plan_matches(p, *config, view, u),
            Err(e) => r matches Err(m) && m@ == e,
        },
        spec_base_url(config.server_url@) is Ok ==> r is Ok,
{
    proof {
        lemma_page_paths();
    }
    let url = match config.url_for(view.path()) {
        Ok(u) => u,
        Err(e) => {
            return Err(e);
        },
    };
    let (width, height, fullscreen, decorations, always_on_top, skip_taskbar) = match view {
        View::Stage => (
            1280,
            720,
            Some(config.stage_fullscreen),
            Some(!config.stage_fullscreen),
            None,
            None,
        ),
        View::Overlay => (480, 270, None, Some(false), Some(true), Some(true)),
        View::Main | View::Requests | View::Admin => (1100, 800, None, None, None, None),
    };
    Ok(
        WindowPlan {
            label: view.label(),
            url,
            title: view.title(),
            width,
            height,
            fullscreen,
            decorations,
            always_on_top,
            skip_taskbar,
        },
    )
}

/// The title of a view's window, marked while the server cannot be reached.
pub open spec fn spec_window_title(v: View, offline: bool) -> Seq<char> {
    if offline {
        v.spec_title() + " – Server nicht erreichbar"@
    } else {
        v.spec_title()
    }
}

/// The title that a view's window shows, given whether the server is offline.
pub fn window_title(view: View, offline: bool) -> (r: String)
    ensures
        r@ == spec_window_title(view, offline),
        offline ==> r@ == view.spec_title() + " – Server nicht erreichbar"@,
        !offline ==> r@ == view.spec_title(),
{
    let title = String::from_str(view.title());
    if offline {
        title.concat(" – Server nicht erreichbar")
    } else {
        title
    }
}

/// What to do with an open window when the remote windows are reloaded.
pub enum ReloadAction {
    /// Navigate to the (possibly new) URL of the view.
    Navigate(WebUrl),
    /// The URL cannot be built: reload the page in place.
    Reload,
}

/// How an open window of `view` is reloaded under `config`.
pub fn reload_action(config: &Config, view: View) -> (r: ReloadAction)
    ensures
        match spec_url_for(config.server_url@, view.spec_path()) {
            Ok(u) => r matches ReloadAction::Navigate(w) && w@ == u,
            Err(_) => r is Reload,
        },
        spec_base_url(config.server_url@) is Ok ==> r is Navigate,
{
    proof {
        lemma_page_paths();
    }
    match config.url_for(view.path()) {
        Ok(u) => ReloadAction::Navigate(u),
        Err(_) => ReloadAction::Reload,
    }
}

/// The window opened at start.
#[derive(Clone, Copy, Debug, PartialEq, Eq, Structural)]
pub enum StartWindow {
    /// No settings are stored yet: the settings window, to enter the server.
    Settings,
    /// The window of a view.
    View(View),
}

/// The window opened at start: the settings window where no settings are
/// stored yet, otherwise the requests view where the stored settings ask for
/// it and the main view else.
pub fn start_window(stored: Option<&Config>) -> (r: StartWindow)
    ensures
        r == (match stored {
            Some(c) => if c.start_view@ == "requests"@ {
                StartWindow::View(View::Requests)
            } else {
                StartWindow::View(View::Main)
            },
            None => StartWindow::Settings,
        }),
{
    match stored {
        Some(c) => {
            if same_text(c.start_view.as_str(), "requests") {
                StartWindow::View(View::Requests)
            } else {
                StartWindow::View(View::Main)
            }
        },
        None => StartWindow::Settings,
    }
}

/// Every window's title, offline, is its view's title followed by the
/// marker " – Server nicht erreichbar"; online it is the view's title alone.
pub proof fn law_offline_titles_are_marked(v: View)
    ensures
        spec_window_title(v, true) == v.spec_title() + " – Server nicht erreichbar"@,
        spec_window_title(v, false) == v.spec_title(),
        spec_window_title(v, false).is_prefix_of(spec_window_title(v, true)),
        spec_window_title(v, true).len() > spec_window_title(v, false).len(),
{
    reveal_strlit(" – Server nicht erreichbar");
    assert(v.spec_title().is_prefix_of(v.spec_title() + " – Server nicht erreichbar"@)) by {
        assert((v.spec_title() + " – Server nicht erreichbar"@).subrange(0, v.spec_title().len() as int)
            =~= v.spec_title());
    }
}

/// The overlay window is 480 by 270, bare, always on top, without a taskbar
/// entry and not full screen, whatever the settings.
pub proof fn law_overlay_is_bare(p: WindowPlan, c: Config, u: Seq<char>)
    requires
        plan_matches(p, c, View::Overlay, u),
    ensures
        p.width == 480 && p.height == 270,
        p.decorations == Some(false),
        p.always_on_top == Some(true),
        p.skip_taskbar == Some(true),
        p.fullscreen is None,
{
}

/// The stage window is 1280 by 720; it is full screen and without frame
/// exactly when the settings ask for a full-screen stage.
pub proof fn law_stage_follows_setting(p: WindowPlan, c: Config, u: Seq<char>)
    requires
        plan_matches(p, c, View::Stage, u),
    ensures
        p.width == 1280 && p.height == 720,
        p.fullscreen == Some(c.stage_fullscreen),
        p.decorations == Some(!c.stage_fullscreen),
        p.always_on_top is None,
        p.skip_taskbar is None,
{
}

/// The main, requests and admin windows are 1100 by 800 and keep every
/// default of the window system.
pub proof fn law_plain_windows_keep_defaults(p: WindowPlan, c: Config, v: View, u: Seq<char>)
    requires
        v == View::Main || v == View::Requests || v == View::Admin,
        plan_matches(p, c, v, u),
    ensures
        p.width == 1100 && p.height == 800,
        p.fullscreen is None,
        p.decorations is None,
        p.always_on_top is None,
        p.skip_taskbar is None,
{
}

/// Only the stage window depends on the full-screen setting: plans for any
/// other view under two settings look the same, and every plan shows its
/// view's label, title and URL.
pub proof fn law_only_stage_follows_setting(
    p: WindowPlan,
    q: WindowPlan,
    c: Config,
    d: Config,
    v: View,
    u: Seq<char>,
)
    requires
        v != View::Stage,
        plan_matches(p, c, v, u),
        plan_matches(q, d, v, u),
    ensures
        p.width == q.width && p.height == q.height,
        p.fullscreen == q.fullscreen,
        p.decorations == q.decorations,
        p.always_on_top == q.always_on_top,
        p.skip_taskbar == q.skip_taskbar,
        p.label@ == v.spec_label() && p.title@ == v.spec_title() && p.url@ == u,
{
}

} // verus!
