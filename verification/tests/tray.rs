use gutz_nowplaying::tray::{tray_action, tray_menu, view_item_id, TrayAction, TrayEntry};
use gutz_nowplaying::views::View;

fn shown(entries: &[TrayEntry]) -> Vec<Option<(String, String)>> {
    entries
        .iter()
        .map(|e| match e {
            TrayEntry::Item { id, text } => Some((id.clone(), text.clone())),
            TrayEntry::Separator => None,
        })
        .collect()
}

fn item(id: &str, text: &str) -> Option<(String, String)> {
    Some((id.to_string(), text.to_string()))
}

#[test]
fn tray_menu_lists_views_then_commands() {
    assert_eq!(
        shown(&tray_menu()),
        vec![
            item("view:main", "Gutz Now Playing"),
            item("view:stage", "Gutz – Bühne"),
            item("view:requests", "Gutz – Anfragen"),
            item("view:overlay", "Gutz – Wunsch-Overlay"),
            item("view:admin", "Gutz – Admin"),
            None,
            item("settings", "Einstellungen…"),
            item("reload", "Alle Fenster neu laden"),
            item("check_update", "Nach Updates suchen"),
            None,
            item("quit", "Beenden"),
        ]
    );
}

#[test]
fn view_item_ids_carry_the_label() {
    assert_eq!(view_item_id(View::Overlay), "view:overlay");
}

#[test]
fn every_view_item_opens_its_view() {
    for view in View::ALL {
        assert_eq!(tray_action(&view_item_id(view)), TrayAction::OpenView(view));
    }
}

#[test]
fn every_menu_item_has_an_action() {
    for entry in tray_menu() {
        if let TrayEntry::Item { id, .. } = entry {
            assert_ne!(tray_action(&id), TrayAction::Ignore);
        }
    }
}

#[test]
fn command_ids_lead_to_their_actions() {
    assert_eq!(tray_action("settings"), TrayAction::OpenSettings);
    assert_eq!(tray_action("reload"), TrayAction::ReloadWindows);
    assert_eq!(tray_action("check_update"), TrayAction::CheckForUpdate);
    assert_eq!(tray_action("quit"), TrayAction::Quit);
}

#[test]
fn unknown_ids_are_ignored() {
    assert_eq!(tray_action("view:settings"), TrayAction::Ignore);
    assert_eq!(tray_action("view:"), TrayAction::Ignore);
    assert_eq!(tray_action("stage"), TrayAction::Ignore);
    assert_eq!(tray_action("views:stage"), TrayAction::Ignore);
    assert_eq!(tray_action(""), TrayAction::Ignore);
}
