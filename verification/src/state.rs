//! The application state: the current settings and the last health status
//! of the server, and how the health monitor reacts to a probe.
use vstd::prelude::*;
use vstd::view::View as _;

use crate::config::{Config, DEFAULT_SERVER_URL};
use crate::views::View;

verus! {

/// Time between the starts of two health probes, in milliseconds.
pub const HEALTH_INTERVAL_MILLIS: u64 = 10000;

/// Time a health probe may take, in milliseconds.
pub const HEALTH_TIMEOUT_MILLIS: u64 = 3000;

/// How the windows react to a health probe.
#[derive(Clone, Copy, Debug, PartialEq, Eq, Structural)]
pub enum HealthReaction {
    /// The status is the one already known: nothing to do.
    Unchanged,
    /// The status changed: retitle the windows (offline when `!online`),
    /// announce the status, and reload the windows where `reload_windows`.
    Changed { online: bool, reload_windows: bool },
}

/// The reaction to a probe with outcome `ok` when `previous` was the known status.
pub open spec fn spec_reaction(previous: Option<bool>, ok: bool) -> HealthReaction {
    if previous == Some(ok) {
        HealthReaction::Unchanged
    } else {
        HealthReaction::Changed { online: ok, reload_windows: ok && previous == Some(false) }
    }
}

/// What follows once new settings are saved and put in use.
#[derive(Clone, Copy, Debug, PartialEq, Eq, Structural)]
pub struct SettingsFollowUp {
    /// Whether the wrapper is to start at login.
    pub autostart: bool,
    /// The view to open: the main view after the first settings were saved.
    pub open_view: Option<View>,
}

/// The settings in use, the last known health of the server (`None` while
/// it has not been probed), and whether the first settings are still to be
/// saved.
pub struct AppState {
    config: Config,
    server_ok: Option<bool>,
    awaiting_setup: bool,
}

impl AppState {
    /// The settings in use.
    pub closed spec fn current_config(self) -> Config {
        self.config
    }

    /// The last known health of the server.
    pub closed spec fn status(self) -> Option<bool> {
        self.server_ok
    }

    /// Whether no settings have been saved since a start without stored settings.
    pub closed spec fn setup_pending(self) -> bool {
        self.awaiting_setup
    }

    /// A state with `config` and no known health.
    pub fn new(config: Config) -> (r: AppState)
        ensures
            r.current_config() == config,
            r.status() is None,
            !r.setup_pending(),
    {
        AppState { config, server_ok: None, awaiting_setup: false }
    }

    /// The state at start: the stored settings, or the defaults where none are stored.
    pub fn from_stored(stored: Option<Config>) -> (r: AppState)
        ensures
            r.status() is None,
            r.setup_pending() == stored is None,
            match stored {
                Some(c) => r.current_config() == c,
                None => {
                    &&& r.current_config().server_url@ == DEFAULT_SERVER_URL@
                    &&& r.current_config().stage_fullscreen
                    &&& !r.current_config().autostart
                    &&& r.current_config().start_view@ == "main"@
                },
            },
    {
        match stored {
            Some(c) => AppState { config: c, server_ok: None, awaiting_setup: false },
            None => AppState { config: Config::default(), server_ok: None, awaiting_setup: true },
        }
    }

    /// A copy of the settings in use.
    pub fn config(&self) -> (r: Config)
        ensures
            r == self.current_config(),
    {
        self.config.clone()
    }

    /// The last known health of the server.
    pub fn server_status(&self) -> (r: Option<bool>)
        ensures
            r == self.status(),
    {
        self.server_ok
    }

    /// Puts saved settings in use; the health of the new server is not known
    /// yet. Says whether to start at login, and opens the main view after the
    /// first settings were saved.
    pub fn commit_settings(&mut self, config: Config) -> (r: SettingsFollowUp)
        ensures
            final(self).current_config() == config,
            final(self).status() is None,
            !final(self).setup_pending(),
            r.autostart == config.autostart,
            r.open_view == (if old(self).setup_pending() { Some(View::Main) } else { None::<View> }),
    {
        let autostart = config.autostart;
        let open_view = if self.awaiting_setup {
            Some(View::Main)
        } else {
            None
        };
        self.config = config;
        self.server_ok = None;
        self.awaiting_setup = false;
        SettingsFollowUp { autostart, open_view }
    }

    /// Records the outcome of a health probe and says how the windows react.
    pub fn record_probe(&mut self, ok: bool) -> (r: HealthReaction)
        ensures
            r == spec_reaction(old(self).status(), ok),
            final(self).status() == Some(ok),
            final(self).current_config() == old(self).current_config(),
            final(self).setup_pending() == old(self).setup_pending(),
    {
        let previous = self.server_ok;
        self.server_ok = Some(ok);
        if previous == Some(ok) {
            HealthReaction::Unchanged
        } else {
            let recovered = match previous {
                Some(was_ok) => ok && !was_ok,
                None => false,
            };
            HealthReaction::Changed { online: ok, reload_windows: recovered }
        }
    }
}

/// How long the health monitor waits after a probe that took `elapsed_millis`,
/// so that probes start one interval apart.
pub fn health_pause_millis(elapsed_millis: u64) -> (r: u64)
    ensures
        r == (if elapsed_millis < HEALTH_INTERVAL_MILLIS {
            HEALTH_INTERVAL_MILLIS - elapsed_millis
        } else {
            0
        }),
{
    if elapsed_millis < HEALTH_INTERVAL_MILLIS {
        HEALTH_INTERVAL_MILLIS - elapsed_millis
    } else {
        0
    }
}

/// Whether a request to exit is refused so that the app keeps running in the
/// tray: a request without an exit code (the last window closed) is refused,
/// an explicit exit, which has a code, is not.
pub fn keeps_running_on_exit_request(exit_code: Option<i32>) -> (r: bool)
    ensures
        r == exit_code is None,
{
    exit_code.is_none()
}

/// After a probe, the status is its outcome; a second probe with the same
/// outcome changes nothing.
pub proof fn law_repeated_probe_is_quiet(previous: Option<bool>, ok: bool)
    ensures
        spec_reaction(Some(ok), ok) == HealthReaction::Unchanged,
        previous != Some(ok) ==> spec_reaction(previous, ok) is Changed,
{
}

/// The windows are reloaded exactly when the server comes back after it was
/// known to be down.
pub proof fn law_reload_only_on_recovery(previous: Option<bool>, ok: bool)
    ensures
        (spec_reaction(previous, ok) matches HealthReaction::Changed { reload_windows, .. }
            && reload_windows) <==> (ok && previous == Some(false)),
{
}

/// A changed status is announced with the probe's outcome.
pub proof fn law_change_reports_outcome(previous: Option<bool>, ok: bool)
    ensures
        spec_reaction(previous, ok) matches HealthReaction::Changed { online, .. } ==> online == ok,
{
}

} // verus!
