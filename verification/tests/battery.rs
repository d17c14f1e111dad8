use ironbar_core::battery::{BatteryState, battery_label, popup_details, seconds_to_string};

#[test]
fn seconds_to_string_shows_nonzero_parts() {
    assert_eq!(seconds_to_string(0), "");
    assert_eq!(seconds_to_string(-5), "");
    assert_eq!(seconds_to_string(59), "");
    assert_eq!(seconds_to_string(60), "1m");
    assert_eq!(seconds_to_string(3600), "1h");
    assert_eq!(seconds_to_string(3660), "1h 1m");
    assert_eq!(seconds_to_string(86400), "1d");
    assert_eq!(seconds_to_string(90061), "1d 1h 1m");
    assert_eq!(seconds_to_string(86460), "1d 1m");
}

#[test]
fn battery_state_numbers_and_names() {
    assert_eq!(BatteryState::try_from(0), Ok(BatteryState::Unknown));
    assert_eq!(BatteryState::try_from(4), Ok(BatteryState::FullyCharged));
    assert_eq!(BatteryState::try_from(6), Ok(BatteryState::PendingDischarge));
    assert_eq!(BatteryState::try_from(7), Err(()));
    assert_eq!(BatteryState::FullyCharged.to_text(), "Fully charged");
    assert_eq!(BatteryState::PendingCharge.to_text(), "Pending charge");
    assert!(BatteryState::PendingCharge.is_charging());
    assert!(!BatteryState::Discharging.is_charging());
}

#[test]
fn battery_label_fills_tokens() {
    let f = "{percentage}% {time_remaining} ({state})";
    assert_eq!(
        battery_label(f, 50, BatteryState::Charging, 3660, 120),
        "50% 1h 1m (Charging)"
    );
    assert_eq!(
        battery_label(f, 7, BatteryState::Discharging, 3660, 120),
        "7% 2m (Discharging)"
    );
    assert_eq!(battery_label("{percentage}%", 100, BatteryState::Unknown, 0, 0), "100%");
}

#[test]
fn popup_details_by_state() {
    assert_eq!(popup_details(BatteryState::Charging, 3600, 0), "Full in 1h");
    assert_eq!(popup_details(BatteryState::Charging, 0, 500), "");
    assert_eq!(popup_details(BatteryState::PendingDischarge, 0, 120), "Empty in 2m");
    assert_eq!(popup_details(BatteryState::FullyCharged, 100, 100), "");
    assert_eq!(popup_details(BatteryState::Discharging, 100, 30), "Empty in ");
}
