//! The decisions of the update check: what follows each outcome of asking
//! for, downloading and installing an update.
use vstd::prelude::*;
use vstd::view::View as _;

verus! {

/// Time between two automatic update checks, in seconds.
pub const UPDATE_CHECK_INTERVAL_SECS: u64 = 21600;

/// Delay of the first automatic update check after start, in seconds.
pub const UPDATE_CHECK_STARTUP_DELAY_SECS: u64 = 30;

/// Time the restart notice stays up before the restart, in seconds.
pub const RESTART_NOTICE_SECS: u64 = 3;

/// An outcome of one step of the update check; errors come as their text.
pub enum UpdateEvent {
    /// The updater could not be set up.
    UpdaterUnavailable(String),
    /// Asking for an update failed.
    CheckFailed(String),
    /// No update is available.
    NoUpdate,
    /// An update from `current_version` to `version` is available.
    Found { current_version: String, version: String },
    /// Downloading or installing the update failed.
    InstallFailed(String),
    /// The update to `version` is installed.
    Installed { version: String },
}

/// What the update check does next.
pub enum UpdateCommand {
    /// Nothing more.
    Finish,
    /// Write `message` (to standard error where `to_stderr`), and nothing more.
    Report { message: String, to_stderr: bool },
    /// Write `message` to standard output, then download and install the update.
    Install { message: String },
    /// Show a notification with `title` and `body`, wait, and restart the app.
    Restart { title: String, body: String },
}

/// Whether `c` reports `message` to standard error.
pub open spec fn is_error_report(c: UpdateCommand, message: Seq<char>) -> bool {
    c matches UpdateCommand::Report { message: m, to_stderr } && m@ == message && to_stderr
}

/// The next step of the update check after `event`; `manual` tells whether
/// the user asked for the check.
pub fn update_step(event: &UpdateEvent, manual: bool) -> (r: UpdateCommand)
    ensures
        match event {
            UpdateEvent::UpdaterUnavailable(e) => is_error_report(
                r,
                "Updater nicht verfuegbar: "@ + e@,
            ),
            UpdateEvent::CheckFailed(e) => is_error_report(r, "Update-Check fehlgeschlagen: "@ + e@),
            UpdateEvent::NoUpdate => if manual {
                r matches UpdateCommand::Report { message, to_stderr } && message@
                    == "Kein Update verfuegbar."@ && !to_stderr
            } else {
                r is Finish
            },
            UpdateEvent::Found { current_version, version } => r matches UpdateCommand::Install {
                message,
            } && message@ == "Update gefunden: "@ + current_version@ + " -> "@ + version@
                + ", wird heruntergeladen"@,
            UpdateEvent::InstallFailed(e) => is_error_report(
                r,
                "Update-Installation fehlgeschlagen: "@ + e@,
            ),
            UpdateEvent::Installed { version } => r matches UpdateCommand::Restart { title, body }
                && title@ == "Gutz Now Playing"@ && body@ == "Update auf Version "@ + version@
                + " installiert - die App startet jetzt neu."@,
        },
{
    match event {
        UpdateEvent::UpdaterUnavailable(e) => UpdateCommand::Report {
            message: String::from_str("Updater nicht verfuegbar: ").concat(e.as_str()),
            to_stderr: true,
        },
        UpdateEvent::CheckFailed(e) => UpdateCommand::Report {
            message: String::from_str("Update-Check fehlgeschlagen: ").concat(e.as_str()),
            to_stderr: true,
        },
        UpdateEvent::NoUpdate => {
            if manual {
                UpdateCommand::Report {
                    message: String::from_str("Kein Update verfuegbar."),
                    to_stderr: false,
                }
            } else {
                UpdateCommand::Finish
            }
        },
        UpdateEvent::Found { current_version, version } => UpdateCommand::Install {
            message: String::from_str("Update gefunden: ").concat(current_version.as_str()).concat(
                " -> ",
            ).concat(version.as_str()).concat(", wird heruntergeladen"),
        },
        UpdateEvent::InstallFailed(e) => UpdateCommand::Report {
            message: String::from_str("Update-Installation fehlgeschlagen: ").concat(e.as_str()),
            to_stderr: true,
        },
        UpdateEvent::Installed { version } => UpdateCommand::Restart {
            title: String::from_str("Gutz Now Playing"),
            body: String::from_str("Update auf Version ").concat(version.as_str()).concat(
                " installiert - die App startet jetzt neu.",
            ),
        },
    }
}

} // verus!
