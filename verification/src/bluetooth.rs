//! Bluetooth: the adapter and device states, the texts the bar and the
//! popup show for them, and where a device's row goes in the popup's list
//! (devices that are not disconnected are pinned to the top).
use vstd::prelude::*;

use crate::decimal::{dec, u64_to_chars};
use crate::text::{owned, replace_all, replace_str, string_of};

verus! {

/// The connection status of a device.
#[derive(Debug, Clone, Copy, PartialEq, Eq, Structural)]
pub enum BluetoothDeviceStatus {
    Connecting,
    Connected,
    Disconnecting,
    Disconnected,
}

/// A known device.  `address` is the device address as it is displayed
/// (`XX:XX:XX:XX:XX:XX`).
#[derive(Debug, Clone)]
pub struct BluetoothDevice {
    pub address: String,
    pub alias: String,
    pub icon: Option<String>,
    pub status: BluetoothDeviceStatus,
    pub battery_percent: Option<u8>,
}

/// The state of the adapter; an enabled adapter lists its devices.
#[derive(Debug, Clone)]
pub enum BluetoothState {
    NotFound,
    Disabled,
    Enabling,
    Enabled { devices: Vec<BluetoothDevice> },
    Disabling,
}

impl BluetoothState {
    /// Whether the adapter is on.
    pub fn is_enabled(&self) -> (r: bool)
        ensures
            r == (*self is Enabled),
    {
        match self {
            BluetoothState::Enabled { .. } => true,
            _ => false,
        }
    }
}

/// Format strings for the bar's button, one per adapter state.
#[derive(Debug, Clone)]
pub struct FormatConfig {
    pub not_found: String,
    pub disabled: String,
    pub enabled: String,
    pub connected: String,
    pub connected_battery: String,
}

/// The default button formats.
pub open spec fn is_default_format(v: FormatConfig) -> bool {
    &&& v.not_found@ == ""@
    &&& v.disabled@ == "\u{f294} Off"@
    &&& v.enabled@ == "\u{f294} On"@
    &&& v.connected@ == "\u{f294} {device_alias}"@
    &&& v.connected_battery@ == "\u{f294} {device_alias} \u{2022} {device_battery_percent}%"@
}

impl FormatConfig {
    /// Nothing when no adapter is found; the Bluetooth glyph with `Off`,
    /// `On`, or the connected device's alias (and its battery level).
    pub fn default() -> (r: FormatConfig)
        ensures
            is_default_format(r),
    {
        FormatConfig {
            not_found: owned(""),
            disabled: owned("\u{f294} Off"),
            enabled: owned("\u{f294} On"),
            connected: owned("\u{f294} {device_alias}"),
            connected_battery: owned("\u{f294} {device_alias} \u{2022} {device_battery_percent}%"),
        }
    }
}

/// Format strings for a device's row in the popup.
#[derive(Debug, Clone)]
pub struct PopupDeviceConfig {
    pub header: String,
    pub header_battery: String,
    pub footer: String,
    pub footer_battery: String,
}

/// The default device row formats.
pub open spec fn is_default_device_strings(v: PopupDeviceConfig) -> bool {
    &&& v.header@ == "{device_alias}"@
    &&& v.header_battery@ == "{device_alias}"@
    &&& v.footer@ == "{device_status}"@
    &&& v.footer_battery@ == "{device_status} \u{2022} Battery {device_battery_percent}%"@
}

impl PopupDeviceConfig {
    /// The alias as header; the status, and the battery level when known,
    /// as footer.
    pub fn default() -> (r: PopupDeviceConfig)
        ensures
            is_default_device_strings(r),
    {
        PopupDeviceConfig {
            header: owned("{device_alias}"),
            header_battery: owned("{device_alias}"),
            footer: owned("{device_status}"),
            footer_battery: owned("{device_status} \u{2022} Battery {device_battery_percent}%"),
        }
    }
}

/// Popup configuration.
#[derive(Debug, Clone)]
pub struct PopupConfig {
    pub max_height: Option<i32>,
    pub header: String,
    pub disabled: String,
    pub device: PopupDeviceConfig,
}

impl PopupConfig {
    /// At most 330 pixels high, with the default header, message and rows.
    pub fn default() -> (r: PopupConfig)
        ensures
            r.max_height == Some(330i32),
            r.header@ == "\u{f294} Enable Bluetooth"@,
            r.disabled@ == "{adapter_status}"@,
            is_default_device_strings(r.device),
    {
        PopupConfig {
            max_height: Some(330),
            header: owned("\u{f294} Enable Bluetooth"),
            disabled: owned("{adapter_status}"),
            device: PopupDeviceConfig::default(),
        }
    }
}

/// Values of the `{adapter_status}` token, one per adapter state.
#[derive(Debug, Clone)]
pub struct AdapterStatus {
    pub enabling: String,
    pub enabled: String,
    pub disabling: String,
    pub disabled: String,
    pub not_found: String,
}

/// The default adapter status texts.
pub open spec fn is_default_adapter_status(v: AdapterStatus) -> bool {
    &&& v.enabling@ == "Enabling Bluetooth..."@
    &&& v.enabled@ == "Bluetooth enabled"@
    &&& v.disabling@ == "Disabling Bluetooth..."@
    &&& v.disabled@ == "Bluetooth disabled"@
    &&& v.not_found@ == "No Bluetooth adapters found"@
}

impl AdapterStatus {
    /// Plain-English descriptions of the adapter states.
    pub fn default() -> (r: AdapterStatus)
        ensures
            is_default_adapter_status(r),
    {
        AdapterStatus {
            enabling: owned("Enabling Bluetooth..."),
            enabled: owned("Bluetooth enabled"),
            disabling: owned("Disabling Bluetooth..."),
            disabled: owned("Bluetooth disabled"),
            not_found: owned("No Bluetooth adapters found"),
        }
    }
}

/// Values of the `{device_status}` token, one per device status.
#[derive(Debug, Clone)]
pub struct DeviceStatus {
    pub connecting: String,
    pub connected: String,
    pub disconnecting: String,
    pub disconnected: String,
}

/// The default device status texts.
pub open spec fn is_default_device_status(v: DeviceStatus) -> bool {
    &&& v.connecting@ == "Connecting..."@
    &&& v.connected@ == "Connected"@
    &&& v.disconnecting@ == "Disconnecting..."@
    &&& v.disconnected@ == "Disconnected"@
}

impl DeviceStatus {
    /// Plain-English descriptions of the device statuses.
    pub fn default() -> (r: DeviceStatus)
        ensures
            is_default_device_status(r),
    {
        DeviceStatus {
            connecting: owned("Connecting..."),
            connected: owned("Connected"),
            disconnecting: owned("Disconnecting..."),
            disconnected: owned("Disconnected"),
        }
    }
}

/// The module's configuration.
#[derive(Debug, Clone)]
pub struct BluetoothModule {
    pub format: FormatConfig,
    pub popup: PopupConfig,
    pub adapter_status: AdapterStatus,
    pub device_status: DeviceStatus,
    pub icon_size: i32,
}

/// The value of `{adapter_status}` for a state.
pub open spec fn adapter_status_text(state: BluetoothState, a: AdapterStatus) -> Seq<char> {
    match state {
        BluetoothState::Enabling => a.enabling@,
        BluetoothState::Enabled { .. } => a.enabled@,
        BluetoothState::Disabling => a.disabling@,
        BluetoothState::Disabled => a.disabled@,
        BluetoothState::NotFound => a.not_found@,
    }
}

/// The value of `{device_status}` for a status.
pub open spec fn device_status_text(status: BluetoothDeviceStatus, d: DeviceStatus) -> Seq<char> {
    match status {
        BluetoothDeviceStatus::Connecting => d.connecting@,
        BluetoothDeviceStatus::Connected => d.connected@,
        BluetoothDeviceStatus::Disconnecting => d.disconnecting@,
        BluetoothDeviceStatus::Disconnected => d.disconnected@,
    }
}

/// The value of `{device_battery_percent}`: the level in decimal, or
/// nothing when it is unknown.
pub open spec fn battery_text(p: Option<u8>) -> Seq<char> {
    match p {
        Some(v) => dec(v as nat),
        None => seq![],
    }
}

/// `s` with the device tokens replaced: address, status, alias, then
/// battery level.
pub open spec fn spec_format_device(d: BluetoothDevice, ds: DeviceStatus, s: Seq<char>) -> Seq<char> {
    replace_all(
        replace_all(
            replace_all(replace_all(s, "{device_address}"@, d.address@), "{device_status}"@, device_status_text(d.status, ds)),
            "{device_alias}"@,
            d.alias@,
        ),
        "{device_battery_percent}"@,
        battery_text(d.battery_percent),
    )
}

/// A device's popup strings: each format of `c` with the device's values.
pub open spec fn device_strings_match(r: PopupDeviceConfig, d: BluetoothDevice, ds: DeviceStatus, c: PopupDeviceConfig) -> bool {
    &&& r.header@ == spec_format_device(d, ds, c.header@)
    &&& r.header_battery@ == spec_format_device(d, ds, c.header_battery@)
    &&& r.footer@ == spec_format_device(d, ds, c.footer@)
    &&& r.footer_battery@ == spec_format_device(d, ds, c.footer_battery@)
}

impl BluetoothModule {
    /// The module with every part at its default; icons 32 pixels.
    pub fn default() -> (r: BluetoothModule)
        ensures
            r.icon_size == 32,
            is_default_format(r.format),
            r.popup.max_height == Some(330i32),
            r.popup.header@ == "\u{f294} Enable Bluetooth"@,
            r.popup.disabled@ == "{adapter_status}"@,
            is_default_device_strings(r.popup.device),
            is_default_adapter_status(r.adapter_status),
            is_default_device_status(r.device_status),
    {
        BluetoothModule {
            format: FormatConfig::default(),
            popup: PopupConfig::default(),
            adapter_status: AdapterStatus::default(),
            device_status: DeviceStatus::default(),
            icon_size: 32,
        }
    }

    /// `s` with `{adapter_status}` replaced by the text for the state.
    pub fn format_adapter(state: &BluetoothState, adapter_status: &AdapterStatus, s: &str) -> (r: String)
        ensures
            r@ == replace_all(s@, "{adapter_status}"@, adapter_status_text(*state, *adapter_status)),
    {
        let status = match state {
            BluetoothState::Enabling => &adapter_status.enabling,
            BluetoothState::Enabled { .. } => &adapter_status.enabled,
            BluetoothState::Disabling => &adapter_status.disabling,
            BluetoothState::Disabled => &adapter_status.disabled,
            BluetoothState::NotFound => &adapter_status.not_found,
        };
        replace_str(s, "{adapter_status}", status.as_str())
    }

    /// `s` with the device's address, status, alias and battery level put
    /// in for their tokens.
    pub fn format_device(device: &BluetoothDevice, device_status: &DeviceStatus, s: &str) -> (r: String)
        ensures
            r@ == spec_format_device(*device, *device_status, s@),
    {
        let status = match device.status {
            BluetoothDeviceStatus::Connecting => &device_status.connecting,
            BluetoothDeviceStatus::Connected => &device_status.connected,
            BluetoothDeviceStatus::Disconnecting => &device_status.disconnecting,
            BluetoothDeviceStatus::Disconnected => &device_status.disconnected,
        };
        let battery_percent = match device.battery_percent {
            Some(p) => string_of(&u64_to_chars(p as u64)),
            None => String::new(),
        };
        let s1 = replace_str(s, "{device_address}", device.address.as_str());
        let s2 = replace_str(s1.as_str(), "{device_status}", status.as_str());
        let s3 = replace_str(s2.as_str(), "{device_alias}", device.alias.as_str());
        replace_str(s3.as_str(), "{device_battery_percent}", battery_percent.as_str())
    }

    /// The device's popup strings: every format of `device` filled in.
    pub fn replace_device(
        state: &BluetoothDevice,
        device_status: &DeviceStatus,
        device: &PopupDeviceConfig,
    ) -> (r: PopupDeviceConfig)
        ensures
            device_strings_match(r, *state, *device_status, *device),
    {
        PopupDeviceConfig {
            header: Self::format_device(state, device_status, device.header.as_str()),
            header_battery: Self::format_device(state, device_status, device.header_battery.as_str()),
            footer: Self::format_device(state, device_status, device.footer.as_str()),
            footer_battery: Self::format_device(state, device_status, device.footer_battery.as_str()),
        }
    }
}

/// The style class of the bar's button.
#[derive(Debug, Clone, Copy, PartialEq, Eq, Structural)]
pub enum BarClass {
    NotFound,
    Disabled,
    Enabled,
    Connected,
}

impl BarClass {
    /// The CSS class name.
    pub open spec fn name(self) -> Seq<char> {
        match self {
            BarClass::NotFound => "not-found"@,
            BarClass::Disabled => "disabled"@,
            BarClass::Enabled => "enabled"@,
            BarClass::Connected => "connected"@,
        }
    }

    /// The CSS class name.
    pub fn css_class(&self) -> (r: String)
        ensures
            r@ == self.name(),
    {
        match self {
            BarClass::NotFound => owned("not-found"),
            BarClass::Disabled => owned("disabled"),
            BarClass::Enabled => owned("enabled"),
            BarClass::Connected => owned("connected"),
        }
    }
}

/// The first listed device of an enabled adapter, when it is connected.
pub open spec fn connected_first(state: BluetoothState) -> Option<BluetoothDevice> {
    match state {
        BluetoothState::Enabled { devices } => if devices@.len() > 0 && devices@[0].status
            == BluetoothDeviceStatus::Connected {
            Some(devices@[0])
        } else {
            None
        },
        _ => None,
    }
}

/// What the bar's button shows: the adapter's format for its state, or,
/// when the first device is connected, the connected format (with
/// battery when its level is known) filled in for that device.
pub open spec fn spec_bar_text(
    state: BluetoothState,
    f: FormatConfig,
    a: AdapterStatus,
    ds: DeviceStatus,
) -> (Seq<char>, BarClass) {
    let adapter = |s: Seq<char>| replace_all(s, "{adapter_status}"@, adapter_status_text(state, a));
    match state {
        BluetoothState::NotFound => (adapter(f.not_found@), BarClass::NotFound),
        BluetoothState::Enabled { .. } => match connected_first(state) {
            Some(d) => (
                spec_format_device(
                    d,
                    ds,
                    adapter(if d.battery_percent is Some { f.connected_battery@ } else { f.connected@ }),
                ),
                BarClass::Connected,
            ),
            None => (adapter(f.enabled@), BarClass::Enabled),
        },
        _ => (adapter(f.disabled@), BarClass::Disabled),
    }
}

/// The button's text and class for an adapter state.
pub fn bar_text(
    state: &BluetoothState,
    format: &FormatConfig,
    adapter_status: &AdapterStatus,
    device_status: &DeviceStatus,
) -> (r: (String, BarClass))
    ensures
        (r.0@, r.1) == spec_bar_text(*state, *format, *adapter_status, *device_status),
{
    match state {
        BluetoothState::NotFound => (
            BluetoothModule::format_adapter(state, adapter_status, format.not_found.as_str()),
            BarClass::NotFound,
        ),
        BluetoothState::Enabled { devices } => {
            if devices.len() > 0 && devices[0].status == BluetoothDeviceStatus::Connected {
                let device = &devices[0];
                let fmt = if device.battery_percent.is_some() {
                    &format.connected_battery
                } else {
                    &format.connected
                };
                let res = BluetoothModule::format_adapter(state, adapter_status, fmt.as_str());
                (BluetoothModule::format_device(device, device_status, res.as_str()), BarClass::Connected)
            } else {
                (
                    BluetoothModule::format_adapter(state, adapter_status, format.enabled.as_str()),
                    BarClass::Enabled,
                )
            }
        },
        _ => (
            BluetoothModule::format_adapter(state, adapter_status, format.disabled.as_str()),
            BarClass::Disabled,
        ),
    }
}

/// What the popup's fixed parts show for an adapter state.
#[derive(Debug, Clone, Copy, PartialEq, Eq, Structural)]
pub struct PopupView {
    /// The device list is shown.
    pub devices_visible: bool,
    /// The "disabled" message is shown.
    pub disabled_visible: bool,
    /// Its spinner turns.
    pub spinner_visible: bool,
    /// The header with the on/off switch is shown.
    pub header_visible: bool,
    /// The switch can be used.
    pub switch_sensitive: bool,
    /// The switch is on.
    pub switch_on: bool,
}

/// The popup's view: devices while enabled, the message otherwise (with a
/// spinner while switching), no header without an adapter, a usable switch
/// when enabled or disabled, and on when enabled or enabling.
pub open spec fn spec_popup_view(state: BluetoothState) -> PopupView {
    PopupView {
        devices_visible: state is Enabled,
        disabled_visible: !(state is Enabled),
        spinner_visible: state is Enabling || state is Disabling,
        header_visible: !(state is NotFound),
        switch_sensitive: state is Enabled || state is Disabled,
        switch_on: state is Enabled || state is Enabling,
    }
}

/// The popup's view for an adapter state.
pub fn popup_view(state: &BluetoothState) -> (r: PopupView)
    ensures
        r == spec_popup_view(*state),
{
    let enabled = state.is_enabled();
    let (switching, disabled, not_found) = match state {
        BluetoothState::Enabling | BluetoothState::Disabling => (true, false, false),
        BluetoothState::Disabled => (false, true, false),
        BluetoothState::NotFound => (false, false, true),
        _ => (false, false, false),
    };
    let enabling = match state {
        BluetoothState::Enabling => true,
        _ => false,
    };
    PopupView {
        devices_visible: enabled,
        disabled_visible: !enabled,
        spinner_visible: switching,
        header_visible: !not_found,
        switch_sensitive: enabled || disabled,
        switch_on: enabled || enabling,
    }
}

/// What a device's row shows.
#[derive(Debug, Clone, Copy, PartialEq, Eq, Structural)]
pub struct DeviceRowView {
    /// The spinner turns.
    pub spinning: bool,
    /// The switch can be used.
    pub switch_sensitive: bool,
    /// The switch is on.
    pub switch_on: bool,
    /// The battery variants of the header and footer are used.
    pub with_battery: bool,
}

/// A row's view: spinning while the status changes, a usable switch when
/// connected or disconnected, on when connected or connecting, and the
/// battery strings when the level is known.
pub open spec fn spec_device_row(d: BluetoothDevice) -> DeviceRowView {
    DeviceRowView {
        spinning: d.status == BluetoothDeviceStatus::Connecting || d.status
            == BluetoothDeviceStatus::Disconnecting,
        switch_sensitive: d.status == BluetoothDeviceStatus::Connected || d.status
            == BluetoothDeviceStatus::Disconnected,
        switch_on: d.status == BluetoothDeviceStatus::Connected || d.status
            == BluetoothDeviceStatus::Connecting,
        with_battery: d.battery_percent is Some,
    }
}

/// The view of a device's row.
pub fn device_row(d: &BluetoothDevice) -> (r: DeviceRowView)
    ensures
        r == spec_device_row(*d),
{
    DeviceRowView {
        spinning: d.status == BluetoothDeviceStatus::Connecting || d.status
            == BluetoothDeviceStatus::Disconnecting,
        switch_sensitive: d.status == BluetoothDeviceStatus::Connected || d.status
            == BluetoothDeviceStatus::Disconnected,
        switch_on: d.status == BluetoothDeviceStatus::Connected || d.status
            == BluetoothDeviceStatus::Connecting,
        with_battery: d.battery_percent.is_some(),
    }
}

/// How a row moves when its device is updated: the new number of pinned
/// rows, and the position of the row it is placed after, if it moves.
pub open spec fn spec_pin_step(pos: nat, num_pinned: nat, disconnected: bool) -> (nat, Option<nat>) {
    if disconnected {
        if pos < num_pinned {
            let n = (num_pinned - 1) as nat;
            (n, if pos != n { Some(n) } else { None })
        } else {
            (num_pinned, None)
        }
    } else if pos >= num_pinned {
        (num_pinned + 1, if pos != num_pinned { Some(num_pinned) } else { None })
    } else {
        (num_pinned, None)
    }
}

/// The pinning decision for the row at `pos` among `num_pinned` pinned
/// rows: a disconnected device leaves the pinned rows, any other joins
/// them.
pub fn pin_step(pos: usize, num_pinned: usize, disconnected: bool) -> (r: (usize, Option<usize>))
    requires
        num_pinned < usize::MAX,
    ensures
        (r.0 as nat, match r.1 {
            Some(i) => Some(i as nat),
            None => None,
        }) == spec_pin_step(pos as nat, num_pinned as nat, disconnected),
{
    if disconnected {
        if pos < num_pinned {
            let n = num_pinned - 1;
            (n, if pos != n { Some(n) } else { None })
        } else {
            (num_pinned, None)
        }
    } else if pos >= num_pinned {
        (num_pinned + 1, if pos != num_pinned { Some(num_pinned) } else { None })
    } else {
        (num_pinned, None)
    }
}

/// The number of pinned rows after the row at `pos` is removed.
pub fn pinned_after_removal(pos: usize, num_pinned: usize) -> (r: usize)
    ensures
        r == if pos < num_pinned { num_pinned - 1 } else { num_pinned as int },
{
    if pos < num_pinned {
        num_pinned - 1
    } else {
        num_pinned
    }
}

} // verus!
