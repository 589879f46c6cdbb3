//! The tray menu: its entries and what a click on one of them asks for.
use vstd::prelude::*;
use vstd::view::View as _;

use crate::text::{same_text, strip_prefix};
use crate::views::View;

verus! {

/// What a click on a tray menu entry asks for.
#[derive(Clone, Copy, Debug, PartialEq, Eq, Structural)]
pub enum TrayAction {
    OpenSettings,
    ReloadWindows,
    CheckForUpdate,
    Quit,
    OpenView(View),
    /// An id that no entry has: nothing happens.
    Ignore,
}

/// An entry of the tray menu.
pub enum TrayEntry {
    Item { id: String, text: String },
    Separator,
}

/// An entry as the id and text it shows, `None` for a separator.
pub open spec fn entry_view(e: TrayEntry) -> Option<(Seq<char>, Seq<char>)> {
    match e {
        TrayEntry::Item { id, text } => Some((id@, text@)),
        TrayEntry::Separator => None,
    }
}

/// The id of the menu entry that opens a view.
pub open spec fn spec_view_item_id(v: View) -> Seq<char> {
    "view:"@ + v.spec_label()
}

/// The action that a click on the entry with id `id` asks for.
pub open spec fn spec_tray_action(id: Seq<char>) -> TrayAction {
    if id == "settings"@ {
        TrayAction::OpenSettings
    } else if id == "reload"@ {
        TrayAction::ReloadWindows
    } else if id == "check_update"@ {
        TrayAction::CheckForUpdate
    } else if id == "quit"@ {
        TrayAction::Quit
    } else if "view:"@.is_prefix_of(id) {
        match View::spec_from_label(id.skip("view:"@.len() as int)) {
            Some(v) => TrayAction::OpenView(v),
            None => TrayAction::Ignore,
        }
    } else {
        TrayAction::Ignore
    }
}

/// The entries of the tray menu, in order: one per view, a separator, the
/// settings, reload and update entries, a separator and the quit entry.
pub open spec fn spec_tray_menu() -> Seq<Option<(Seq<char>, Seq<char>)>> {
    seq![
        Some((spec_view_item_id(View::Main), View::Main.spec_title())),
        Some((spec_view_item_id(View::Stage), View::Stage.spec_title())),
        Some((spec_view_item_id(View::Requests), View::Requests.spec_title())),
        Some((spec_view_item_id(View::Overlay), View::Overlay.spec_title())),
        Some((spec_view_item_id(View::Admin), View::Admin.spec_title())),
        None,
        Some(("settings"@, "Einstellungen…"@)),
        Some(("reload"@, "Alle Fenster neu laden"@)),
        Some(("check_update"@, "Nach Updates suchen"@)),
        None,
        Some(("quit"@, "Beenden"@)),
    ]
}

/// The id of the menu entry that opens `view`.
pub fn view_item_id(view: View) -> (r: String)
    ensures
        r@ == spec_view_item_id(view),
{
    String::from_str("view:").concat(view.label())
}

fn item(id: &str, text: &str) -> (r: TrayEntry)
    ensures
        entry_view(r) == Some((id@, text@)),
{
    TrayEntry::Item { id: String::from_str(id), text: String::from_str(text) }
}

/// The entries of the tray menu.
pub fn tray_menu() -> (r: Vec<TrayEntry>)
    ensures
        r@.map_values(|e: TrayEntry| entry_view(e)) == spec_tray_menu(),
{
    let mut entries: Vec<TrayEntry> = Vec::new();
    let all = View::ALL;
    let mut i: usize = 0;
    while i < 5
        invariant
            i <= 5,
            all@ == seq![View::Main, View::Stage, View::Requests, View::Overlay, View::Admin],
            entries@.len() == i,
            forall|k: int|
                0 <= k < i ==> entry_view(#[trigger] entries@[k]) == Some(
                    (spec_view_item_id(all@[k]), all@[k].spec_title()),
                ),
        decreases 5 - i,
    {
        let v = all[i];
        entries.push(TrayEntry::Item { id: view_item_id(v), text: String::from_str(v.title()) });
        i = i + 1;
    }
    entries.push(TrayEntry::Separator);
    entries.push(item("settings", "Einstellungen…"));
    entries.push(item("reload", "Alle Fenster neu laden"));
    entries.push(item("check_update", "Nach Updates suchen"));
    entries.push(TrayEntry::Separator);
    entries.push(item("quit", "Beenden"));
    assert(entries@.map_values(|e: TrayEntry| entry_view(e)) =~= spec_tray_menu());
    entries
}

/// What a click on the tray menu entry with id `id` asks for.
pub fn tray_action(id: &str) -> (r: TrayAction)
    ensures
        r == spec_tray_action(id@),
{
    if same_text(id, "settings") {
        TrayAction::OpenSettings
    } else if same_text(id, "reload") {
        TrayAction::ReloadWindows
    } else if same_text(id, "check_update") {
        TrayAction::CheckForUpdate
    } else if same_text(id, "quit") {
        TrayAction::Quit
    } else {
        match strip_prefix(id, "view:") {
            Some(label) => match View::from_label(label) {
                Some(v) => TrayAction::OpenView(v),
                None => TrayAction::Ignore,
            },
            None => TrayAction::Ignore,
        }
    }
}

/// Each view's menu entry opens that view.
pub proof fn law_view_item_opens_view(v: View)
    ensures
        spec_tray_action(spec_view_item_id(v)) == TrayAction::OpenView(v),
{
    reveal_strlit("view:");
    reveal_strlit("settings");
    reveal_strlit("reload");
    reveal_strlit("check_update");
    reveal_strlit("quit");
    let id = spec_view_item_id(v);
    assert(id[0] == 'v');
    assert("settings"@[0] == 's');
    assert("reload"@[0] == 'r');
    assert("check_update"@[0] == 'c');
    assert("quit"@[0] == 'q');
    assert("view:"@.is_prefix_of(id));
    assert(id.skip("view:"@.len() as int) =~= v.spec_label());
    crate::views::law_label_round_trip(v);
}

/// Every entry of the tray menu that is not a separator leads to an action.
pub proof fn law_menu_entries_have_actions(i: int)
    requires
        0 <= i < spec_tray_menu().len(),
        spec_tray_menu()[i] is Some,
    ensures
        spec_tray_action((spec_tray_menu()[i]->0).0) != TrayAction::Ignore,
{
    if i < 5 {
        let all = seq![View::Main, View::Stage, View::Requests, View::Overlay, View::Admin];
        law_view_item_opens_view(all[i]);
    }
}

/// Every view has an entry in the tray menu, showing its title.
pub proof fn law_every_view_in_menu(v: View)
    ensures
        exists|i: int|
            0 <= i < 5 && #[trigger] spec_tray_menu()[i] == Some(
                (spec_view_item_id(v), v.spec_title()),
            ),
{
    let m = spec_tray_menu();
    match v {
        View::Main => assert(m[0] == Some((spec_view_item_id(v), v.spec_title()))),
        View::Stage => assert(m[1] == Some((spec_view_item_id(v), v.spec_title()))),
        View::Requests => assert(m[2] == Some((spec_view_item_id(v), v.spec_title()))),
        View::Overlay => assert(m[3] == Some((spec_view_item_id(v), v.spec_title()))),
        View::Admin => assert(m[4] == Some((spec_view_item_id(v), v.spec_title()))),
    }
}

} // verus!
