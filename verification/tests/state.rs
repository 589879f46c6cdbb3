use gutz_nowplaying::config::Config;
use gutz_nowplaying::state::{
    health_pause_millis, keeps_running_on_exit_request, AppState, HealthReaction, SettingsFollowUp,
    HEALTH_INTERVAL_MILLIS,
};
use gutz_nowplaying::views::View;

fn config(server_url: &str) -> Config {
    Config {
        server_url: server_url.to_string(),
        stage_fullscreen: false,
        autostart: true,
        start_view: "requests".to_string(),
    }
}

#[test]
fn a_new_state_knows_no_health() {
    let state = AppState::new(config("https://a.example"));
    assert_eq!(state.server_status(), None);
    assert_eq!(state.config().server_url, "https://a.example");
}

#[test]
fn from_stored_falls_back_to_the_defaults() {
    let state = AppState::from_stored(None);
    let c = state.config();
    assert_eq!(c.server_url, "http://gutz-bmax:8080");
    assert!(c.stage_fullscreen);
    assert!(!c.autostart);
    assert_eq!(c.start_view, "main");
    assert_eq!(state.server_status(), None);

    let state = AppState::from_stored(Some(config("https://b.example")));
    let c = state.config();
    assert_eq!(c.server_url, "https://b.example");
    assert!(c.autostart);
    assert_eq!(c.start_view, "requests");
}

#[test]
fn first_probe_announces_the_status() {
    let mut state = AppState::new(config("https://a.example"));
    assert_eq!(
        state.record_probe(true),
        HealthReaction::Changed { online: true, reload_windows: false }
    );
    assert_eq!(state.server_status(), Some(true));

    let mut state = AppState::new(config("https://a.example"));
    assert_eq!(
        state.record_probe(false),
        HealthReaction::Changed { online: false, reload_windows: false }
    );
    assert_eq!(state.server_status(), Some(false));
}

#[test]
fn repeated_probe_is_quiet() {
    let mut state = AppState::new(config("https://a.example"));
    state.record_probe(false);
    assert_eq!(state.record_probe(false), HealthReaction::Unchanged);
    state.record_probe(true);
    assert_eq!(state.record_probe(true), HealthReaction::Unchanged);
}

#[test]
fn recovery_reloads_the_windows() {
    let mut state = AppState::new(config("https://a.example"));
    state.record_probe(false);
    assert_eq!(
        state.record_probe(true),
        HealthReaction::Changed { online: true, reload_windows: true }
    );
    assert_eq!(
        state.record_probe(false),
        HealthReaction::Changed { online: false, reload_windows: false }
    );
}

#[test]
fn new_settings_forget_the_health() {
    let mut state = AppState::new(config("https://a.example"));
    state.record_probe(false);
    let follow = state.commit_settings(config("https://c.example"));
    assert_eq!(follow, SettingsFollowUp { autostart: true, open_view: None });
    assert_eq!(state.server_status(), None);
    assert_eq!(state.config().server_url, "https://c.example");
    assert_eq!(
        state.record_probe(true),
        HealthReaction::Changed { online: true, reload_windows: false }
    );
}

#[test]
fn probes_keep_the_settings() {
    let mut state = AppState::new(config("https://a.example"));
    state.record_probe(true);
    assert_eq!(state.config().server_url, "https://a.example");
}

#[test]
fn the_monitor_waits_out_the_interval() {
    assert_eq!(HEALTH_INTERVAL_MILLIS, 10000);
    assert_eq!(health_pause_millis(0), 10000);
    assert_eq!(health_pause_millis(2500), 7500);
    assert_eq!(health_pause_millis(9999), 1);
    assert_eq!(health_pause_millis(10000), 0);
    assert_eq!(health_pause_millis(45000), 0);
}

#[test]
fn first_saved_settings_open_the_main_view_once() {
    let mut state = AppState::from_stored(None);
    let follow = state.commit_settings(config("https://d.example"));
    assert_eq!(follow, SettingsFollowUp { autostart: true, open_view: Some(View::Main) });
    assert_eq!(state.config().server_url, "https://d.example");
    let mut second = config("https://e.example");
    second.autostart = false;
    let follow = state.commit_settings(second);
    assert_eq!(follow, SettingsFollowUp { autostart: false, open_view: None });
}

#[test]
fn stored_settings_need_no_setup() {
    let mut state = AppState::from_stored(Some(config("https://b.example")));
    assert_eq!(state.commit_settings(config("https://b.example")).open_view, None);
    let mut state = AppState::new(config("https://b.example"));
    assert_eq!(state.commit_settings(config("https://b.example")).open_view, None);
}

#[test]
fn only_an_exit_without_code_is_refused() {
    assert!(keeps_running_on_exit_request(None));
    assert!(!keeps_running_on_exit_request(Some(0)));
    assert!(!keeps_running_on_exit_request(Some(1)));
}
