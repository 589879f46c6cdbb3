use gutz_nowplaying::update::{update_step, UpdateCommand, UpdateEvent};

fn report(command: UpdateCommand) -> (String, bool) {
    match command {
        UpdateCommand::Report { message, to_stderr } => (message, to_stderr),
        _ => panic!("expected a report"),
    }
}

#[test]
fn updater_errors_are_reported() {
    let step = update_step(&UpdateEvent::UpdaterUnavailable("no endpoint".to_string()), false);
    assert_eq!(report(step), ("Updater nicht verfuegbar: no endpoint".to_string(), true));
    let step = update_step(&UpdateEvent::CheckFailed("offline".to_string()), true);
    assert_eq!(report(step), ("Update-Check fehlgeschlagen: offline".to_string(), true));
    let step = update_step(&UpdateEvent::InstallFailed("bad signature".to_string()), false);
    assert_eq!(
        report(step),
        ("Update-Installation fehlgeschlagen: bad signature".to_string(), true)
    );
}

#[test]
fn no_update_is_reported_only_when_asked_for() {
    assert!(matches!(update_step(&UpdateEvent::NoUpdate, false), UpdateCommand::Finish));
    let step = update_step(&UpdateEvent::NoUpdate, true);
    assert_eq!(report(step), ("Kein Update verfuegbar.".to_string(), false));
}

#[test]
fn a_found_update_is_installed() {
    let event = UpdateEvent::Found {
        current_version: "0.3.1".to_string(),
        version: "0.4.0".to_string(),
    };
    match update_step(&event, false) {
        UpdateCommand::Install { message } => {
            assert_eq!(message, "Update gefunden: 0.3.1 -> 0.4.0, wird heruntergeladen")
        }
        _ => panic!("expected an install"),
    }
}

#[test]
fn an_installed_update_restarts_the_app() {
    let event = UpdateEvent::Installed { version: "0.4.0".to_string() };
    match update_step(&event, true) {
        UpdateCommand::Restart { title, body } => {
            assert_eq!(title, "Gutz Now Playing");
            assert_eq!(body, "Update auf Version 0.4.0 installiert - die App startet jetzt neu.");
        }
        _ => panic!("expected a restart"),
    }
}
