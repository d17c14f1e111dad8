use ironbar_core::bluetooth::{
    AdapterStatus, BarClass, BluetoothDevice, BluetoothDeviceStatus, BluetoothModule,
    BluetoothState, DeviceStatus, FormatConfig, PopupDeviceConfig, bar_text, device_row,
    pin_step, pinned_after_removal, popup_view,
};

fn buds(status: BluetoothDeviceStatus, battery: Option<u8>) -> BluetoothDevice {
    BluetoothDevice {
        address: "AA:BB:CC:DD:EE:FF".to_string(),
        alias: "Buds".to_string(),
        icon: None,
        status,
        battery_percent: battery,
    }
}

#[test]
fn format_adapter_uses_state_text() {
    let a = AdapterStatus::default();
    let s = BluetoothState::Enabled { devices: vec![] };
    assert_eq!(
        BluetoothModule::format_adapter(&s, &a, "[{adapter_status}]"),
        "[Bluetooth enabled]"
    );
    assert_eq!(
        BluetoothModule::format_adapter(&BluetoothState::NotFound, &a, "{adapter_status}"),
        "No Bluetooth adapters found"
    );
}

#[test]
fn format_device_fills_all_tokens() {
    let d = buds(BluetoothDeviceStatus::Connected, Some(80));
    let s = BluetoothModule::format_device(
        &d,
        &DeviceStatus::default(),
        "{device_alias} {device_status} {device_battery_percent}% {device_address}",
    );
    assert_eq!(s, "Buds Connected 80% AA:BB:CC:DD:EE:FF");
    let d = buds(BluetoothDeviceStatus::Disconnecting, None);
    let s = BluetoothModule::format_device(&d, &DeviceStatus::default(), "{device_status}:{device_battery_percent}");
    assert_eq!(s, "Disconnecting...:");
}

#[test]
fn replace_device_fills_every_string() {
    let d = buds(BluetoothDeviceStatus::Connected, Some(5));
    let r = BluetoothModule::replace_device(&d, &DeviceStatus::default(), &PopupDeviceConfig::default());
    assert_eq!(r.header, "Buds");
    assert_eq!(r.header_battery, "Buds");
    assert_eq!(r.footer, "Connected");
    assert_eq!(r.footer_battery, "Connected \u{2022} Battery 5%");
}

#[test]
fn bar_text_by_adapter_state() {
    let f = FormatConfig::default();
    let a = AdapterStatus::default();
    let ds = DeviceStatus::default();
    let (t, c) = bar_text(&BluetoothState::NotFound, &f, &a, &ds);
    assert_eq!((t.as_str(), c), ("", BarClass::NotFound));
    let (t, c) = bar_text(&BluetoothState::Enabling, &f, &a, &ds);
    assert_eq!((t.as_str(), c), ("\u{f294} Off", BarClass::Disabled));
    let on = BluetoothState::Enabled { devices: vec![buds(BluetoothDeviceStatus::Disconnected, None)] };
    let (t, c) = bar_text(&on, &f, &a, &ds);
    assert_eq!((t.as_str(), c), ("\u{f294} On", BarClass::Enabled));
    let conn = BluetoothState::Enabled { devices: vec![buds(BluetoothDeviceStatus::Connected, Some(80))] };
    let (t, c) = bar_text(&conn, &f, &a, &ds);
    assert_eq!((t.as_str(), c), ("\u{f294} Buds \u{2022} 80%", BarClass::Connected));
    assert_eq!(c.css_class(), "connected");
}

#[test]
fn popup_and_rows_follow_states() {
    let v = popup_view(&BluetoothState::Enabling);
    assert!(!v.devices_visible && v.disabled_visible && v.spinner_visible);
    assert!(v.header_visible && !v.switch_sensitive && v.switch_on);
    let v = popup_view(&BluetoothState::NotFound);
    assert!(!v.header_visible && !v.spinner_visible && !v.switch_on);
    let v = popup_view(&BluetoothState::Enabled { devices: vec![] });
    assert!(v.devices_visible && !v.disabled_visible && v.switch_sensitive && v.switch_on);
    let r = device_row(&buds(BluetoothDeviceStatus::Connecting, Some(1)));
    assert!(r.spinning && !r.switch_sensitive && r.switch_on && r.with_battery);
}

#[test]
fn pinning_moves_connected_devices_up() {
    assert_eq!(pin_step(2, 0, false), (1, Some(0)));
    assert_eq!(pin_step(0, 0, false), (1, None));
    assert_eq!(pin_step(0, 2, true), (1, Some(1)));
    assert_eq!(pin_step(1, 2, true), (1, None));
    assert_eq!(pin_step(3, 2, true), (2, None));
    assert_eq!(pin_step(1, 2, false), (2, None));
    assert_eq!(pinned_after_removal(0, 2), 1);
    assert_eq!(pinned_after_removal(4, 2), 2);
}

#[test]
fn bluetooth_module_defaults() {
    let m = BluetoothModule::default();
    assert_eq!(m.icon_size, 32);
    assert_eq!(m.popup.max_height, Some(330));
    assert_eq!(m.format.connected, "\u{f294} {device_alias}");
}
