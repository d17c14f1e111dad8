use ironbar_core::networkmanager::{
    AccessPoint, AddressData, ConnectionState, Device, DeviceState, DeviceType, DeviceTypeData,
    Ip4Config, NetworkManagerModule, ProfileState, WifiConnectionState, WirelessData,
    default_profiles, default_signal_strength,
};

fn module() -> NetworkManagerModule {
    NetworkManagerModule {
        icon_size: 24,
        profiles: default_profiles(),
        types_blacklist: vec![DeviceType::Loopback],
        types_whitelist: vec![],
        interface_blacklist: vec!["virbr0".to_string()],
        interface_whitelist: vec![],
    }
}

fn wifi(state: DeviceState, ssid: &[u8]) -> Device {
    Device {
        interface: "wlan0".to_string(),
        device_type: DeviceType::Wifi,
        state,
        ip4_config: Some(Ip4Config {
            address_data: vec![AddressData { address: "192.168.1.2".to_string(), prefix: 24 }],
        }),
        device_type_data: DeviceTypeData::Wireless(WirelessData {
            active_access_point: Some(AccessPoint { ssid: ssid.to_vec(), strength: 70 }),
        }),
    }
}

#[test]
fn profile_state_of_devices() {
    let m = module();
    assert_eq!(
        m.get_profile_state(&wifi(DeviceState::Activated, b"home")),
        Some(ProfileState::Wifi(WifiConnectionState::Connected { signal_strength: 70 }))
    );
    assert_eq!(
        m.get_profile_state(&wifi(DeviceState::Config, b"home")),
        Some(ProfileState::Wifi(WifiConnectionState::Acquiring))
    );
    let mut d = wifi(DeviceState::Activated, b"x");
    d.device_type = DeviceType::Loopback;
    assert_eq!(m.get_profile_state(&d), None);
    let mut d = wifi(DeviceState::Activated, b"x");
    d.interface = "virbr0".to_string();
    assert_eq!(m.get_profile_state(&d), None);
    let mut d = wifi(DeviceState::Failed, b"x");
    d.device_type = DeviceType::Wireguard;
    assert_eq!(m.get_profile_state(&d), Some(ProfileState::Vpn(ConnectionState::Disconnected)));
}

#[test]
fn tooltip_lists_addresses_and_network() {
    let m = module();
    assert_eq!(m.get_tooltip(&wifi(DeviceState::Activated, b"home")), "wlan0\n192.168.1.2/24\nhome");
    // Invalid UTF-8 in a network name is shown with a replacement character.
    assert_eq!(m.get_tooltip(&wifi(DeviceState::Activated, b"a\xffb")), "wlan0\n192.168.1.2/24\na\u{fffd}b");
}

#[test]
fn profile_defaults() {
    assert_eq!(default_signal_strength(), 255);
    let p = default_profiles();
    assert_eq!(p[0].name, "wired_disconnected");
    assert_eq!(p.len(), 17);
    assert!(ProfileState::Wifi(WifiConnectionState::Connected { signal_strength: 50 })
        .matches(&ProfileState::Wifi(WifiConnectionState::Connected { signal_strength: 40 })));
    assert!(!ProfileState::Wifi(WifiConnectionState::Connected { signal_strength: 40 })
        .matches(&ProfileState::Wifi(WifiConnectionState::Connected { signal_strength: 50 })));
    assert_eq!(ConnectionState::from(DeviceState::IpCheck), ConnectionState::Acquiring);
}

#[test]
fn module_defaults_filter_nothing() {
    let m = NetworkManagerModule::default();
    assert_eq!(m.icon_size, 32);
    assert!(m.profiles.is_empty());
    assert!(m.types_blacklist.is_empty() && m.types_whitelist.is_empty());
    assert!(m.interface_blacklist.is_empty() && m.interface_whitelist.is_empty());
}
