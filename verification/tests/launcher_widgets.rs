use ironbar_core::launcher::ToplevelInfo;
use ironbar_core::launcher::buttons::{ButtonChange, ItemButton, LauncherButtons, icon_input};
use ironbar_core::launcher::controller::{ItemEvent, LauncherUpdate};
use ironbar_core::launcher::item::{Item, Window};
use ironbar_core::launcher::open_state::OpenState;
use ironbar_core::launcher::popup::LauncherPopup;

fn info(id: usize, app_id: &str, title: &str, focused: bool) -> ToplevelInfo {
    ToplevelInfo { id, app_id: app_id.to_string(), title: title.to_string(), focused }
}

#[test]
fn buttons_follow_updates() {
    let mut bar = LauncherButtons::new();
    let fav = Item::new("files".to_string(), OpenState::Closed, true);
    assert!(matches!(bar.apply(&LauncherUpdate::AddItem(fav), true), ButtonChange::Added(a) if a == "files"));
    let term = Item::from(info(1, "term", "sh", true));
    assert!(matches!(bar.apply(&LauncherUpdate::AddItem(term), true), ButtonChange::Added(_)));
    let b = &bar.buttons["term"];
    assert!(b.open && b.focused && b.num_windows == 1 && b.label == "sh");

    let w = Window::from(info(2, "term", "vim", false));
    let u = LauncherUpdate::AddWindow("term".to_string(), w);
    assert!(bar.counts_in_range(&u));
    bar.apply(&u, true);
    let b = &bar.buttons["term"];
    assert!(b.open && !b.focused && b.num_windows == 2);

    bar.apply(&LauncherUpdate::Title("term".to_string(), 2, "nvim".to_string()), true);
    assert_eq!(bar.buttons["term"].label, "nvim");
    bar.apply(&LauncherUpdate::Focus("term".to_string(), true), true);
    assert!(bar.buttons["term"].focused);
    bar.apply(&LauncherUpdate::RemoveWindow("term".to_string(), 2), true);
    assert_eq!(bar.buttons["term"].num_windows, 1);
    assert!(!bar.buttons["term"].focused);

    assert!(matches!(bar.apply(&LauncherUpdate::RemoveItem("term".to_string()), true), ButtonChange::Removed(a) if a == "term"));
    assert!(bar.buttons.get("term").is_none());
    assert!(matches!(bar.apply(&LauncherUpdate::RemoveItem("files".to_string()), true), ButtonChange::Kept));
    assert_eq!(bar.buttons["files"].label, "files");
    assert!(!bar.buttons["files"].open);

    let u = LauncherUpdate::RemoveWindow("files".to_string(), 9);
    assert!(!bar.counts_in_range(&u));
}

#[test]
fn button_click_and_hover_decisions() {
    let mut b = ItemButton { open: true, focused: true, num_windows: 1, persistent: false, label: String::new() };
    let id = "app".to_string();
    assert!(matches!(b.on_click(&id), ItemEvent::MinimizeItem(a) if a == "app"));
    b.num_windows = 2;
    assert!(matches!(b.on_click(&id), ItemEvent::FocusItem(_)));
    b.set_open(false);
    assert!(!b.focused);
    assert!(matches!(b.on_click(&id), ItemEvent::OpenItem(_)));
    assert!(b.opens_popup(false));
    b.num_windows = 1;
    assert!(!b.opens_popup(false));
    assert!(b.opens_popup(true));
    let mut item = Item::new(String::new(), OpenState::Closed, false);
    item.name = "Name".to_string();
    assert_eq!(icon_input(&item), "Name");
    let item = Item::new("app".to_string(), OpenState::Closed, false);
    assert_eq!(icon_input(&item), "app");
}

#[test]
fn popup_lists_window_titles() {
    let mut p = LauncherPopup::new();
    let mut term = Item::from(info(1, "term", "sh", true));
    term.merge_toplevel(info(3, "term", "top", false));
    p.apply(&LauncherUpdate::AddItem(term));
    p.apply(&LauncherUpdate::AddWindow("term".to_string(), Window::from(info(4, "term", "vim", false))));
    p.apply(&LauncherUpdate::Title("term".to_string(), 3, "htop".to_string()));
    p.apply(&LauncherUpdate::Title("term".to_string(), 99, "ghost".to_string()));
    p.apply(&LauncherUpdate::RemoveWindow("term".to_string(), 1));
    assert_eq!(
        p.hover("term"),
        Some(vec![(3, "htop".to_string()), (4, "vim".to_string())])
    );
    assert_eq!(p.hover("other"), None);
}

#[test]
fn try_apply_refuses_out_of_range_counts() {
    let mut bar = LauncherButtons::new();
    let fav = Item::new("files".to_string(), OpenState::Closed, true);
    assert!(matches!(bar.try_apply(&LauncherUpdate::AddItem(fav), true), Some(ButtonChange::Added(_))));
    assert!(bar.try_apply(&LauncherUpdate::RemoveWindow("files".to_string(), 9), true).is_none());
    assert_eq!(bar.buttons["files"].num_windows, 0);
    let w = Window::from(info(3, "files", "home", true));
    assert!(matches!(bar.try_apply(&LauncherUpdate::AddWindow("files".to_string(), w), true), Some(ButtonChange::Kept)));
    assert_eq!(bar.buttons["files"].num_windows, 1);
}
