use gutz_nowplaying::config::Config;
use gutz_nowplaying::views::{
    reload_action, start_window, window_plan, window_title, ReloadAction, StartWindow, View,
};

fn config(server_url: &str, stage_fullscreen: bool) -> Config {
    Config {
        server_url: server_url.to_string(),
        stage_fullscreen,
        autostart: false,
        start_view: "main".to_string(),
    }
}

#[test]
fn views_have_labels_paths_and_titles() {
    let expected = [
        (View::Main, "main", "/", "Gutz Now Playing"),
        (View::Stage, "stage", "/nowplaying", "Gutz – Bühne"),
        (View::Requests, "requests", "/requests", "Gutz – Anfragen"),
        (View::Overlay, "overlay", "/wish-overlay", "Gutz – Wunsch-Overlay"),
        (View::Admin, "admin", "/admin", "Gutz – Admin"),
    ];
    for (i, (view, label, path, title)) in expected.iter().enumerate() {
        assert_eq!(View::ALL[i], *view);
        assert_eq!(view.label(), *label);
        assert_eq!(view.path(), *path);
        assert_eq!(view.title(), *title);
    }
}

#[test]
fn every_view_is_found_by_its_label() {
    for view in View::ALL {
        assert_eq!(View::from_label(view.label()), Some(view));
    }
}

#[test]
fn unknown_labels_find_no_view() {
    assert_eq!(View::from_label("settings"), None);
    assert_eq!(View::from_label(""), None);
    assert_eq!(View::from_label("Main"), None);
    assert_eq!(View::from_label("main "), None);
}

#[test]
fn stage_window_follows_the_fullscreen_setting() {
    let plan = window_plan(&config("http://gutz-bmax:8080", true), View::Stage).unwrap();
    assert_eq!(plan.label, "stage");
    assert_eq!(plan.title, "Gutz – Bühne");
    assert_eq!(plan.url.as_str(), "http://gutz-bmax:8080/nowplaying");
    assert_eq!((plan.width, plan.height), (1280, 720));
    assert_eq!(plan.fullscreen, Some(true));
    assert_eq!(plan.decorations, Some(false));
    assert_eq!(plan.always_on_top, None);
    assert_eq!(plan.skip_taskbar, None);

    let plan = window_plan(&config("http://gutz-bmax:8080", false), View::Stage).unwrap();
    assert_eq!(plan.fullscreen, Some(false));
    assert_eq!(plan.decorations, Some(true));
}

#[test]
fn overlay_window_is_small_bare_and_on_top() {
    let plan = window_plan(&config("http://gutz-bmax:8080", true), View::Overlay).unwrap();
    assert_eq!(plan.url.as_str(), "http://gutz-bmax:8080/wish-overlay");
    assert_eq!((plan.width, plan.height), (480, 270));
    assert_eq!(plan.fullscreen, None);
    assert_eq!(plan.decorations, Some(false));
    assert_eq!(plan.always_on_top, Some(true));
    assert_eq!(plan.skip_taskbar, Some(true));
}

#[test]
fn other_windows_have_the_default_look() {
    for view in [View::Main, View::Requests, View::Admin] {
        let plan = window_plan(&config("https://np.example.org", true), view).unwrap();
        assert_eq!(plan.label, view.label());
        assert_eq!(plan.title, view.title());
        assert_eq!((plan.width, plan.height), (1100, 800));
        assert_eq!(plan.fullscreen, None);
        assert_eq!(plan.decorations, None);
        assert_eq!(plan.always_on_top, None);
        assert_eq!(plan.skip_taskbar, None);
    }
    let plan = window_plan(&config("https://np.example.org", true), View::Requests).unwrap();
    assert_eq!(plan.url.as_str(), "https://np.example.org/requests");
}

#[test]
fn window_plan_fails_as_the_url_does() {
    let result = window_plan(&config("ws://np.example.org", true), View::Admin);
    assert_eq!(
        result.err(),
        Some("Server-URL muss mit http:// oder https:// beginnen".to_string())
    );
}

#[test]
fn offline_titles_are_marked() {
    assert_eq!(window_title(View::Admin, false), "Gutz – Admin");
    assert_eq!(window_title(View::Admin, true), "Gutz – Admin – Server nicht erreichbar");
    assert_eq!(window_title(View::Main, true), "Gutz Now Playing – Server nicht erreichbar");
}

#[test]
fn reload_navigates_where_the_url_can_be_built() {
    match reload_action(&config("http://gutz-bmax:8080", true), View::Stage) {
        ReloadAction::Navigate(u) => assert_eq!(u.as_str(), "http://gutz-bmax:8080/nowplaying"),
        ReloadAction::Reload => panic!("expected navigation"),
    }
    assert!(matches!(
        reload_action(&config("nonsense", true), View::Stage),
        ReloadAction::Reload
    ));
}

#[test]
fn first_start_opens_the_settings_window() {
    assert_eq!(start_window(None), StartWindow::Settings);
}

#[test]
fn stored_settings_open_the_requests_view_only_when_asked_for() {
    let mut stored = config("http://gutz-bmax:8080", true);
    assert_eq!(start_window(Some(&stored)), StartWindow::View(View::Main));
    stored.start_view = "requests".to_string();
    assert_eq!(start_window(Some(&stored)), StartWindow::View(View::Requests));
    stored.start_view = "admin".to_string();
    assert_eq!(start_window(Some(&stored)), StartWindow::View(View::Main));
}

#[test]
fn valid_settings_navigate_every_window() {
    let c = config("https://np.example.org/app", true);
    assert_eq!(c.validate(), Ok(()));
    for view in View::ALL {
        match reload_action(&c, view) {
            ReloadAction::Navigate(u) => {
                assert_eq!(u.as_str(), c.url_for(view.path()).unwrap().as_str())
            }
            ReloadAction::Reload => panic!("expected navigation"),
        }
        assert!(window_plan(&c, view).is_ok());
    }
}
