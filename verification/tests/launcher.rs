use ironbar_core::launcher::ToplevelInfo;
use ironbar_core::launcher::controller::{
    ItemEvent, LauncherUpdate, ToplevelEvent, WindowAction, handle_toplevel_event, initial_items,
    initial_updates, item_event_action,
};
use ironbar_core::launcher::item::Item;
use ironbar_core::launcher::open_state::OpenState;

fn info(id: usize, app_id: &str, title: &str, focused: bool) -> ToplevelInfo {
    ToplevelInfo {
        id,
        app_id: app_id.to_string(),
        title: title.to_string(),
        focused,
    }
}

#[test]
fn open_state_merge_is_open_when_any_is_and_focused_when_any_is() {
    let closed = OpenState::Closed;
    let open = OpenState::Open { focused: false };
    let focused = OpenState::Open { focused: true };
    assert_eq!(OpenState::merge_states(&[]), OpenState::Closed);
    assert_eq!(OpenState::merge_states(&[&closed, &closed]), OpenState::Closed);
    assert_eq!(OpenState::merge_states(&[&closed, &open]), open);
    assert_eq!(OpenState::merge_states(&[&open, &focused, &closed]), focused);
    assert!(focused.is_open() && focused.is_focused());
    assert!(open.is_open() && !open.is_focused());
    assert!(!closed.is_open() && !closed.is_focused());
    assert_eq!(OpenState::focused(true), focused);
    assert_eq!(OpenState::from_toplevel(&info(1, "a", "t", false)), open);
}

#[test]
fn item_tracks_windows_and_name() {
    let mut item = Item::from(info(1, "firefox", "First", false));
    assert_eq!(item.name, "First");
    assert_eq!(item.open_state, OpenState::Open { focused: false });
    let w = item.merge_toplevel(info(2, "firefox", "Second", true));
    assert_eq!(w.id, 2);
    assert_eq!(item.name, "First");
    assert_eq!(item.open_state, OpenState::Open { focused: true });
    item.set_window_name(2, "Renamed".to_string());
    assert_eq!(item.name, "Renamed");
    // Focus is merged in: a window once focused stays so.
    item.set_window_focused(2, false);
    assert_eq!(item.open_state, OpenState::Open { focused: true });
    item.set_window_focused(1, true);
    assert_eq!(item.open_state, OpenState::Open { focused: true });
    item.unmerge_toplevel(&info(1, "firefox", "First", false));
    item.unmerge_toplevel(&info(2, "firefox", "Renamed", false));
    assert_eq!(item.open_state, OpenState::Closed);
    assert_eq!(item.windows.len(), 0);
}

#[test]
fn favourites_start_closed_and_windows_join_them() {
    let favs = vec!["firefox".to_string()];
    let mut items = initial_items(Some(&favs));
    assert_eq!(items.len(), 1);
    let updates = initial_updates(&items);
    assert_eq!(updates.len(), 1);
    assert!(matches!(&updates[0], LauncherUpdate::AddItem(i) if i.app_id == "firefox" && i.favorite));

    let ups = handle_toplevel_event(&mut items, ToplevelEvent::New(info(7, "firefox", "Home", true)));
    assert_eq!(ups.len(), 1);
    assert!(matches!(&ups[0], LauncherUpdate::AddWindow(a, w) if a == "firefox" && w.id == 7));

    let ups = handle_toplevel_event(&mut items, ToplevelEvent::New(info(8, "term", "sh", false)));
    assert!(matches!(&ups[0], LauncherUpdate::AddItem(i) if i.app_id == "term"));
    assert_eq!(items.len(), 2);

    let ups = handle_toplevel_event(&mut items, ToplevelEvent::Update(info(8, "term", "vim", true)));
    assert_eq!(ups.len(), 2);
    assert!(matches!(&ups[0], LauncherUpdate::Focus(a, true) if a == "term"));
    assert!(matches!(&ups[1], LauncherUpdate::Title(a, 8, t) if a == "term" && t == "vim"));

    let ups = handle_toplevel_event(&mut items, ToplevelEvent::Remove(info(8, "term", "vim", true)));
    assert!(matches!(&ups[0], LauncherUpdate::RemoveItem(a) if a == "term"));
    assert_eq!(items.len(), 1);
}

#[test]
fn unknown_app_update_reports_unfocused() {
    let mut items = initial_items(None);
    let ups = handle_toplevel_event(&mut items, ToplevelEvent::Update(info(3, "ghost", "x", true)));
    assert!(matches!(&ups[0], LauncherUpdate::Focus(a, false) if a == "ghost"));
    let ups = handle_toplevel_event(&mut items, ToplevelEvent::Remove(info(3, "ghost", "x", true)));
    assert!(ups.is_empty());
}

#[test]
fn clicking_an_item_focuses_its_first_unfocused_window() {
    let mut items = initial_items(None);
    handle_toplevel_event(&mut items, ToplevelEvent::New(info(1, "term", "a", true)));
    handle_toplevel_event(&mut items, ToplevelEvent::New(info(2, "term", "b", false)));
    let a = item_event_action(&items, &ItemEvent::FocusItem("term".to_string()), true);
    assert_eq!(a, Some(WindowAction::Focus(2)));
    let a = item_event_action(&items, &ItemEvent::MinimizeItem("term".to_string()), true);
    assert_eq!(a, Some(WindowAction::Minimize(2)));
    let a = item_event_action(&items, &ItemEvent::MinimizeItem("term".to_string()), false);
    assert_eq!(a, Some(WindowAction::Focus(2)));
    let a = item_event_action(&items, &ItemEvent::FocusWindow(1), false);
    assert_eq!(a, Some(WindowAction::Focus(1)));
    let a = item_event_action(&items, &ItemEvent::FocusWindow(99), false);
    assert_eq!(a, None);
    let a = item_event_action(&items, &ItemEvent::OpenItem("term".to_string()), false);
    assert_eq!(a, None);
}
