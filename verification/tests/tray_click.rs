use ironbar_core::tray_click::{
    ClickButton, ClickEffect, ReservedTrayAction, TrayClickAction, TrayClickHandlers, TrayModule,
    ItemStatus, click_effect, fallback_label, icon_changed, status_presentation, tray_item_name,
};
use ironbar_core::tray::IconPixmap;

#[test]
fn default_handlers_bind_left_and_right_only() {
    let handlers = TrayClickHandlers::default();
    assert_eq!(handlers.button_binding(ClickButton::Primary), Some(false));
    assert_eq!(handlers.button_binding(ClickButton::Secondary), Some(false));
    assert_eq!(handlers.button_binding(ClickButton::Middle), None);
}

#[test]
fn double_click_only_still_binds_the_button() {
    let mut handlers = TrayClickHandlers::default();
    handlers.on_click_middle_double = TrayClickAction::Reserved(ReservedTrayAction::Default);
    assert_eq!(handlers.button_binding(ClickButton::Middle), Some(true));
}

#[test]
fn none_is_the_only_inactive_action() {
    assert!(!TrayClickAction::default().is_actionable());
    assert!(TrayClickAction::Reserved(ReservedTrayAction::Menu).is_actionable());
    assert!(TrayClickAction::Reserved(ReservedTrayAction::Secondary).is_actionable());
    assert!(TrayClickAction::Custom(String::new()).is_actionable());
}

#[test]
fn tray_module_defaults() {
    let module = TrayModule::default();
    assert!(module.prefer_theme_icons);
    assert_eq!(module.icon_size, 16);
    assert!(module.direction.is_none());
}

#[test]
fn item_name_falls_back_to_address() {
    assert_eq!(tray_item_name("copyq", ":1.42/Item"), "copyq");
    assert_eq!(tray_item_name("", ":1.42/Item"), ":1.42/Item");
}

#[test]
fn menu_action_without_menu_activates_secondary() {
    let menu = TrayClickAction::Reserved(ReservedTrayAction::Menu);
    assert!(matches!(click_effect(&menu, true, "a", None, None, "addr"), ClickEffect::OpenPopup));
    assert!(matches!(
        click_effect(&menu, false, "a", None, None, "addr"),
        ClickEffect::ActivateSecondary
    ));
    let none = TrayClickAction::Reserved(ReservedTrayAction::NoAction);
    assert!(matches!(click_effect(&none, true, "a", None, None, "addr"), ClickEffect::Ignore));
    let default = TrayClickAction::Reserved(ReservedTrayAction::Default);
    assert!(matches!(
        click_effect(&default, true, "a", None, None, "addr"),
        ClickEffect::ActivateDefault
    ));
}

#[test]
fn custom_command_placeholders_are_filled() {
    let action = TrayClickAction::Custom(
        "if [ '{name}' = 'copyq' ]; then copyq toggle; fi # {title} {icon} {address}".to_string(),
    );
    match click_effect(&action, true, "copyq", Some("CopyQ"), None, ":1.7") {
        ClickEffect::RunCommand(cmd) => assert_eq!(
            cmd,
            "if [ 'copyq' = 'copyq' ]; then copyq toggle; fi # CopyQ  :1.7"
        ),
        _ => panic!("expected a command"),
    }
}

#[test]
fn passive_items_hide_and_attention_is_urgent() {
    assert_eq!(status_presentation(ItemStatus::Passive), (false, false));
    assert_eq!(status_presentation(ItemStatus::Active), (true, false));
    assert_eq!(status_presentation(ItemStatus::Unknown), (true, false));
    assert_eq!(status_presentation(ItemStatus::NeedsAttention), (true, true));
}

fn pixmap(w: i32, bytes: &[u8]) -> IconPixmap {
    IconPixmap { width: w, height: w, pixels: bytes.to_vec() }
}

#[test]
fn icon_updates_only_count_when_something_differs() {
    let name = Some("firefox".to_string());
    let pix = Some(vec![pixmap(16, &[1, 2, 3])]);
    assert!(!icon_changed(&name, &pix, &Some("firefox".to_string()), &Some(vec![pixmap(16, &[1, 2, 3])])));
    assert!(icon_changed(&name, &pix, &Some("chromium".to_string()), &Some(vec![pixmap(16, &[1, 2, 3])])));
    assert!(icon_changed(&name, &pix, &name.clone(), &Some(vec![pixmap(16, &[1, 2, 4])])));
    assert!(icon_changed(&name, &pix, &name.clone(), &None));
    assert!(!icon_changed(&None, &None, &None, &None));
}

#[test]
fn label_falls_back_to_address() {
    assert_eq!(fallback_label(Some("Steam"), ":1.3"), "Steam");
    assert_eq!(fallback_label(None, ":1.3"), ":1.3");
}
