use indexmap::IndexMap;
use ironbar_core::bindmode::{BindModeUpdate, sway_mode_text};
use ironbar_core::brightness::{
    BrightnessDataSource, BrightnessProfile, SystemdError, resource_name, scrolled_brightness,
};
use ironbar_core::clipboard::{
    ClipboardEvent, ClipboardKind, ClipboardModule, ClipboardPopup, ControllerEvent, UiEvent,
    controller_event, get_button_id,
};
use ironbar_core::custom::{Orientation, try_get_orientation};
use ironbar_core::focused::{FocusTracker, FocusUpdate, focused_view};
use ironbar_core::keys::{
    Key, KeyEvent, KeyIcons, KeyboardModule, KeysModule, key_display, keyboard_device_events,
    keys_device_events, layout_text,
};
use ironbar_core::launcher::ToplevelInfo;
use ironbar_core::launcher::controller::ToplevelEvent;
use ironbar_core::notifications::{Icons as NotificationIcons, NotificationState, count_badge};
use ironbar_core::script::{ScriptMode, ScriptModule};
use ironbar_core::volume::{DeviceList, DeviceOp, DeviceInfo, ProfileIcons, Icons as VolumeIcons, VolumeBar, VolumeEvent, VolumeProfile, volume_label};

#[test]
fn notification_icon_prefers_dnd() {
    let i = NotificationIcons::default();
    let ev = |count, dnd, cc_open| NotificationState { count, dnd, cc_open };
    assert_eq!(i.icon(ev(0, false, false)), "\u{f0365}");
    assert_eq!(i.icon(ev(3, false, false)), "\u{f1942}");
    assert_eq!(i.icon(ev(3, true, false)), "\u{f116f}");
    assert_eq!(i.icon(ev(0, false, true)), "\u{f0361}");
    assert_eq!(i.icon(ev(2, false, true)), "\u{f1941}");
    assert_eq!(i.icon(ev(0, true, true)), "\u{f116e}");
    assert_eq!(count_badge(true, ev(12, false, false)), ("12".to_string(), true));
    assert_eq!(count_badge(true, ev(0, false, false)), ("0".to_string(), false));
    assert_eq!(count_badge(false, ev(5, false, false)), ("5".to_string(), false));
}

#[test]
fn volume_icon_by_level() {
    let i = VolumeIcons::default();
    assert_eq!(i.volume_icon(0), "\u{f057f}");
    assert_eq!(i.volume_icon(33), "\u{f057f}");
    assert_eq!(i.volume_icon(34), "\u{f0580}");
    assert_eq!(i.volume_icon(66), "\u{f0580}");
    assert_eq!(i.volume_icon(67), "\u{f057e}");
    let p = VolumeProfile::for_volume_icon("x");
    assert_eq!(p.icons.volume, "x");
    assert_eq!(p.icons.mic_muted, "\u{f131}");
}

#[test]
fn lock_keys_display_and_events() {
    let icons = KeyIcons::default();
    let ev = KeyEvent { key: Key::Num, state: true };
    assert_eq!(key_display(ev, true, true, true, &icons), Some((Key::Num, "\u{f4f7}".to_string(), true)));
    assert_eq!(key_display(ev, true, false, true, &icons), None);
    let ev = KeyEvent { key: Key::Caps, state: false };
    assert_eq!(key_display(ev, true, true, true, &icons), Some((Key::Caps, String::new(), false)));
    assert_eq!(
        keys_device_events(true, false, true),
        vec![
            KeyEvent { key: Key::Caps, state: true },
            KeyEvent { key: Key::Caps, state: false },
            KeyEvent { key: Key::Caps, state: true },
        ]
    );
    assert_eq!(keyboard_device_events(false, true, false)[1], KeyEvent { key: Key::Num, state: true });
    let k = KeysModule::default();
    assert_eq!(k.seat, "seat0");
    assert!(KeyboardModule::default().show_layout);
}

#[test]
fn layout_text_uses_first_matching_pattern() {
    let mut m = IndexMap::new();
    m.insert("English (US)".to_string(), "US".to_string());
    m.insert("German*".to_string(), "DE".to_string());
    m.insert("*".to_string(), "??".to_string());
    assert_eq!(layout_text(&m, "English (US)"), "US");
    assert_eq!(layout_text(&m, "German (no dead keys)"), "DE");
    assert_eq!(layout_text(&m, "French"), "??");
    assert_eq!(layout_text(&IndexMap::new(), "French"), "French");
}

#[test]
fn clipboard_popup_tracks_rows_and_selection() {
    assert_eq!(controller_event(ClipboardEvent::Add(3, ClipboardKind::Other)), ControllerEvent::Deactivate);
    assert_eq!(controller_event(ClipboardEvent::Add(3, ClipboardKind::Image)), ControllerEvent::Add(3));
    let mut p = ClipboardPopup::new();
    p.apply(ControllerEvent::Add(1), true);
    p.apply(ControllerEvent::Add(2), true);
    p.apply(ControllerEvent::Add(9), false);
    assert_eq!(p.rows, vec![2, 1]);
    assert_eq!(p.active, Some(2));
    p.apply(ControllerEvent::Activate(1), true);
    assert_eq!(p.active, Some(1));
    p.apply(ControllerEvent::Remove(1), true);
    assert_eq!(p.rows, vec![2]);
    assert_eq!(p.active, None);
    p.apply(ControllerEvent::Activate(5), true);
    assert_eq!(p.active, None);
    p.apply(ControllerEvent::Activate(2), true);
    p.apply(ControllerEvent::Deactivate, true);
    assert_eq!(p.active, None);
    assert_eq!(p.remove_clicked(2), UiEvent::Remove(2));
    assert!(p.rows.is_empty());
    assert_eq!(ClipboardModule::default().max_items, 10);
}

#[test]
fn button_ids_from_widget_names() {
    assert_eq!(get_button_id("copy-12"), Some(12));
    assert_eq!(get_button_id("remove-0"), Some(0));
    assert_eq!(get_button_id("copy"), None);
    assert_eq!(get_button_id("copy-x"), None);
    assert_eq!(get_button_id("a-b-3"), None);
    assert_eq!(get_button_id("-+7"), Some(7));
}

fn toplevel(id: usize, focused: bool) -> ToplevelInfo {
    ToplevelInfo { id, app_id: format!("app{id}"), title: format!("title{id}"), focused }
}

#[test]
fn focus_tracker_follows_events() {
    let (mut t, u) = FocusTracker::initial(&vec![toplevel(1, false), toplevel(2, true), toplevel(3, true)]);
    assert_eq!(t.current, Some(2));
    assert!(matches!(u, Some(FocusUpdate::Focused { title, app_id }) if title == "title2" && app_id == "app2"));
    assert!(t.on_event(&ToplevelEvent::Update(toplevel(5, false))).is_none());
    assert!(matches!(t.on_event(&ToplevelEvent::Update(toplevel(2, false))), Some(FocusUpdate::Cleared)));
    assert_eq!(t.current, None);
    // With nothing focused, an unfocused window with id 0 clears again.
    assert!(matches!(t.on_event(&ToplevelEvent::Update(toplevel(0, false))), Some(FocusUpdate::Cleared)));
    assert!(matches!(t.on_event(&ToplevelEvent::Remove(toplevel(7, true))), Some(FocusUpdate::Cleared)));
    assert!(t.on_event(&ToplevelEvent::New(toplevel(8, true))).is_none());
    let (t, u) = FocusTracker::initial(&vec![]);
    assert_eq!(t.current, None);
    assert!(u.is_none());
    let v = focused_view(&Some(FocusUpdate::Cleared), true, true);
    assert!(v.hide_all);
}

#[test]
fn bind_modes_and_sway_modes() {
    let u = BindModeUpdate::initial();
    let l = u.label();
    assert!(!l.visible && l.use_markup && l.text.is_empty());
    let l = BindModeUpdate { name: "resize".to_string(), pango_markup: false }.label();
    assert!(l.visible && !l.use_markup);
    assert_eq!(sway_mode_text("default"), "");
    assert_eq!(sway_mode_text("resize"), "resize");
}

#[test]
fn brightness_scrolls_in_hundredths() {
    assert_eq!(scrolled_brightness(500, 1000, 2), 480);
    assert_eq!(scrolled_brightness(500, 1000, -2), 520);
    assert_eq!(scrolled_brightness(5, 1000, 1), 0);
    assert_eq!(scrolled_brightness(995, 1000, -1), 1000);
    assert_eq!(scrolled_brightness(5, 50, -3), 8);
    assert!(matches!(BrightnessDataSource::default(), BrightnessDataSource::Systemd { subsystem, name: None } if subsystem == "backlight"));
    assert_eq!(resource_name(&None, &Some("intel".to_string())), Ok("intel".to_string()));
    assert_eq!(resource_name(&Some("a".to_string()), &Some("b".to_string())), Ok("a".to_string()));
    assert_eq!(resource_name(&None, &None), Err(SystemdError::NoResourceName));
    assert_eq!(BrightnessProfile::with_icon("i").label(42), "42%");
}

#[test]
fn orientation_from_config() {
    assert_eq!(try_get_orientation("Horizontal"), Ok(Orientation::Horizontal));
    assert_eq!(try_get_orientation("h"), Ok(Orientation::Horizontal));
    assert_eq!(try_get_orientation("V"), Ok(Orientation::Vertical));
    assert_eq!(try_get_orientation("diagonal"), Err("Invalid orientation string in config".to_string()));
}

#[test]
fn script_defaults() {
    let m = ScriptModule::default();
    assert_eq!(m.mode, ScriptMode::Poll);
    assert_eq!(m.interval, 5000);
    let s = m.to_script();
    assert_eq!(s.cmd, "");
    assert_eq!(s.interval, 5000);
}

#[test]
fn volume_bar_follows_default_devices() {
    let dev = |name: &str, monitor: bool| DeviceInfo {
        name: name.to_string(),
        description: format!("{name} desc"),
        muted: false,
        monitor,
    };
    let mut bar = VolumeBar::new();
    assert!(bar.on_event(VolumeEvent::AddSink(dev("a", false)), true, true, false).is_none());
    assert!(bar.on_event(VolumeEvent::SetDefaultSink("a".to_string()), true, true, false).is_none());
    let u = bar.on_event(VolumeEvent::UpdateSink(dev("a", false)), true, true, false).unwrap();
    assert!(u.sink && u.show && u.description == "a desc");
    assert!(bar.on_event(VolumeEvent::UpdateSink(dev("b", false)), true, true, false).is_none());
    bar.on_event(VolumeEvent::SetDefaultSource("m".to_string()), true, true, false);
    let u = bar.on_event(VolumeEvent::AddSource(dev("m", true)), true, true, false).unwrap();
    assert!(!u.sink && !u.show);
    let u = bar.on_event(VolumeEvent::AddSource(dev("m", true)), true, true, true).unwrap();
    assert!(u.show);
    assert_eq!(
        volume_label("{icon} {percentage}% {name}", "M {icon}", "V", "X", false, "50", "Speakers"),
        "V 50% Speakers"
    );
    assert_eq!(volume_label("{icon} {percentage}%", "M {icon}", "V", "X", true, "50", "S"), "M X");
}

fn keys(list: &DeviceList) -> Vec<(String, bool)> {
    list.options.clone()
}

#[test]
fn device_selector_tracks_default_device() {
    let ph = "ironbar_no_sink";
    let (mut list, ops) = DeviceList::new(ph);
    assert!(matches!(ops[..], [DeviceOp::Select(0), DeviceOp::ShowControls(false)]));
    list.set_default_device_name("a".to_string());
    assert!(list.is_default("a") && !list.is_default("b"));

    let ops = list.add_device("a", "Speakers", true, ph);
    assert!(matches!(&ops[0], DeviceOp::Append { key, value } if key == "a" && value == "Speakers"));
    assert!(matches!(ops[1..], [DeviceOp::Select(1), DeviceOp::ShowControls(true), DeviceOp::ShowLevel, DeviceOp::Remove(0)]));
    assert_eq!(keys(&list), vec![("a".to_string(), false)]);

    let ops = list.add_device("b", "Headset", true, ph);
    assert_eq!(ops.len(), 1);
    let ops = list.update_device("a", ph);
    assert!(matches!(ops[..], [DeviceOp::Select(0), DeviceOp::ShowControls(true), DeviceOp::ShowLevel]));
    assert!(list.update_device("b", ph).is_empty());

    let ops = list.remove_device("a", ph);
    assert!(matches!(ops[..], [DeviceOp::Remove(0)]));
    let ops = list.remove_device("b", ph);
    assert!(matches!(ops[..], [DeviceOp::Remove(0), DeviceOp::InsertPlaceholder, DeviceOp::Select(0), DeviceOp::ShowControls(false)]));
    assert_eq!(keys(&list), vec![(ph.to_string(), true)]);

    // A hidden default device leaves no device shown.
    list.set_default_device_name("m".to_string());
    let ops = list.add_device("m", "Monitor", false, ph);
    assert!(matches!(ops[..], [DeviceOp::Select(0), DeviceOp::ShowControls(false)]));
}

#[test]
fn mute_button_labels_follow_device_kind() {
    let icons = ProfileIcons::default();
    assert_eq!(icons.mute_label(false, true), "\u{f075f}");
    assert_eq!(icons.mute_label(false, false), "\u{f057e}");
    assert_eq!(icons.mute_label(true, true), "\u{f131}");
    assert_eq!(icons.mute_label(true, false), "\u{f130}");
}
