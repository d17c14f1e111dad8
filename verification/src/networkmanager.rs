//! Network devices: which are shown, the profile state each maps to, and
//! the tooltip that describes it.
use vstd::prelude::*;

use crate::decimal::{dec, u64_to_chars};
use crate::text::{append_chars, append_str, chars_of, str_eq, string_of};

verus! {

/// The kind of a network device.
#[derive(Debug, Clone, Copy, PartialEq, Eq, Structural)]
pub enum DeviceType {
    Unknown,
    Ethernet,
    Wifi,
    Bt,
    OlpcMesh,
    Wimax,
    Modem,
    Infiniband,
    Bond,
    Vlan,
    Adsl,
    Bridge,
    Generic,
    Team,
    Tun,
    IpTunnel,
    Macvlan,
    Vxlan,
    Veth,
    Macsec,
    Dummy,
    Ppp,
    Wpan,
    SixLowPan,
    Wireguard,
    WifiP2p,
    Vrf,
    Loopback,
    Hsr,
    IpVlan,
}

/// The activation state of a network device.
#[derive(Debug, Clone, Copy, PartialEq, Eq, Structural)]
pub enum DeviceState {
    Unknown,
    Unmanaged,
    Unavailable,
    Disconnected,
    Prepare,
    Config,
    NeedAuth,
    IpConfig,
    IpCheck,
    Secondaries,
    Activated,
    Deactivating,
    Failed,
}

/// An IPv4 address with its prefix length.
#[derive(Debug, Clone)]
pub struct AddressData {
    pub address: String,
    pub prefix: u32,
}

/// The IPv4 configuration of a device.
#[derive(Debug, Clone)]
pub struct Ip4Config {
    pub address_data: Vec<AddressData>,
}

/// The access point a wireless device is connected to.
#[derive(Debug, Clone)]
pub struct AccessPoint {
    pub ssid: Vec<u8>,
    pub strength: u8,
}

/// Data of a wireless device.
#[derive(Debug, Clone)]
pub struct WirelessData {
    pub active_access_point: Option<AccessPoint>,
}

/// Data that depends on the kind of device.
#[derive(Debug, Clone)]
pub enum DeviceTypeData {
    /// A device with no kind-specific data.
    Other,
    Wireless(WirelessData),
}

/// A network device.
#[derive(Debug, Clone)]
pub struct Device {
    pub interface: String,
    pub device_type: DeviceType,
    pub state: DeviceState,
    pub ip4_config: Option<Ip4Config>,
    pub device_type_data: DeviceTypeData,
}

/// Whether a connection is down, coming up, or up.
#[derive(Debug, Clone, Copy, PartialEq, Eq, Default, Structural)]
pub enum ConnectionState {
    #[default]
    Disconnected,
    Acquiring,
    Connected,
}

/// The state of a wifi connection.
#[derive(Debug, Clone, Copy, PartialEq, Eq, Default, Structural)]
pub enum WifiConnectionState {
    #[default]
    Disconnected,
    Acquiring,
    /// The signal strength of the wifi connection, from 0 to 100.
    Connected { signal_strength: u8 },
}

/// The state a device is shown in.
#[derive(Debug, Clone, Copy, PartialEq, Eq, Default, Structural)]
pub enum ProfileState {
    #[default]
    Unknown,
    Wired(ConnectionState),
    Wifi(WifiConnectionState),
    Cellular(ConnectionState),
    Vpn(ConnectionState),
}

/// The look of one profile.
#[derive(Debug, Clone, Default)]
pub struct NetworkManagerProfile {
    /// The icon used to represent the device.
    pub icon: String,
}

/// A named profile: shown while the device's state matches `state`.
#[derive(Debug, Clone)]
pub struct NamedProfile {
    pub name: String,
    pub state: ProfileState,
    pub profile: NetworkManagerProfile,
}

/// Which devices the network manager module shows.
#[derive(Debug, Clone)]
pub struct NetworkManagerModule {
    /// The size of the icon for each network device, in pixels.
    pub icon_size: i32,
    /// The profiles, in order.
    pub profiles: Vec<NamedProfile>,
    /// Devices with a type in this list are not shown.
    pub types_blacklist: Vec<DeviceType>,
    /// If not empty, only devices with a type in this list are shown.
    pub types_whitelist: Vec<DeviceType>,
    /// Devices whose interface name is in this list are not shown.
    pub interface_blacklist: Vec<String>,
    /// If not empty, only devices whose interface name is in this list are shown.
    pub interface_whitelist: Vec<String>,
}

impl Default for NetworkManagerModule {
    /// Small icons, no profiles of its own (the default profiles are added
    /// when the module is created), and no device filtered out.
    fn default() -> (r: Self)
        ensures
            r.icon_size == 32,
            r.profiles@.len() == 0,
            r.types_blacklist@.len() == 0,
            r.types_whitelist@.len() == 0,
            r.interface_blacklist@.len() == 0,
            r.interface_whitelist@.len() == 0,
    {
        NetworkManagerModule {
            icon_size: 32,
            profiles: Vec::new(),
            types_blacklist: Vec::new(),
            types_whitelist: Vec::new(),
            interface_blacklist: Vec::new(),
            interface_whitelist: Vec::new(),
        }
    }
}

/// The connection state a device state stands for.
pub open spec fn connection_of(state: DeviceState) -> ConnectionState {
    match state {
        DeviceState::Unknown | DeviceState::Unmanaged | DeviceState::Unavailable
        | DeviceState::Deactivating | DeviceState::Failed | DeviceState::Disconnected => ConnectionState::Disconnected,
        DeviceState::Prepare | DeviceState::Config | DeviceState::NeedAuth | DeviceState::IpConfig
        | DeviceState::IpCheck | DeviceState::Secondaries => ConnectionState::Acquiring,
        DeviceState::Activated => ConnectionState::Connected,
    }
}

impl ConnectionState {
    /// The connection state a device state stands for.
    pub fn from(state: DeviceState) -> (r: ConnectionState)
        ensures
            r == connection_of(state),
    {
        match state {
            DeviceState::Unknown | DeviceState::Unmanaged | DeviceState::Unavailable
            | DeviceState::Deactivating | DeviceState::Failed | DeviceState::Disconnected => ConnectionState::Disconnected,
            DeviceState::Prepare | DeviceState::Config | DeviceState::NeedAuth
            | DeviceState::IpConfig | DeviceState::IpCheck | DeviceState::Secondaries => ConnectionState::Acquiring,
            DeviceState::Activated => ConnectionState::Connected,
        }
    }
}

/// The signal strength a wifi profile matches when its configuration gives
/// none: 255, so that it matches any signal strength.
pub fn default_signal_strength() -> (r: u8)
    ensures
        r == 255,
{
    255
}

/// Whether a profile for state `s` applies to a device in state `v`: a
/// connected wifi profile applies to any signal no stronger than its own,
/// every other state only to itself.
pub open spec fn spec_matches(s: ProfileState, v: ProfileState) -> bool {
    match (s, v) {
        (ProfileState::Wifi(a), ProfileState::Wifi(b)) => match (a, b) {
            (
                WifiConnectionState::Connected { signal_strength: sa },
                WifiConnectionState::Connected { signal_strength: sb },
            ) => sb <= sa,
            (WifiConnectionState::Acquiring, WifiConnectionState::Acquiring) => true,
            (WifiConnectionState::Disconnected, WifiConnectionState::Disconnected) => true,
            _ => false,
        },
        _ => s == v,
    }
}

impl ProfileState {
    /// Whether a profile for this state applies to a device in `value`.
    pub fn matches(&self, value: &ProfileState) -> (r: bool)
        ensures
            r == spec_matches(*self, *value),
    {
        match (self, value) {
            (ProfileState::Wifi(self_state), ProfileState::Wifi(value_state)) => {
                match (self_state, value_state) {
                    (
                        WifiConnectionState::Connected { signal_strength: self_signal },
                        WifiConnectionState::Connected { signal_strength: value_signal },
                    ) => *value_signal <= *self_signal,
                    (WifiConnectionState::Acquiring, WifiConnectionState::Acquiring) => true,
                    (WifiConnectionState::Disconnected, WifiConnectionState::Disconnected) => true,
                    _ => false,
                }
            },
            _ => *self == *value,
        }
    }
}

/// `x` is allowed by `list`: the list is empty or holds it.
pub open spec fn whitelisted_type(list: Seq<DeviceType>, x: DeviceType) -> bool {
    list.len() == 0 || list.contains(x)
}

/// Some name in `list` is `x`.
pub open spec fn names_contain(list: Seq<String>, x: Seq<char>) -> bool {
    exists|i: int| 0 <= i < list.len() && (#[trigger] list[i])@ == x
}

/// The device is shown under the module's type and interface lists.
pub open spec fn device_shown(m: NetworkManagerModule, d: Device) -> bool {
    &&& whitelisted_type(m.types_whitelist@, d.device_type)
    &&& (m.interface_whitelist@.len() == 0 || names_contain(m.interface_whitelist@, d.interface@))
    &&& !m.types_blacklist@.contains(d.device_type)
    &&& !names_contain(m.interface_blacklist@, d.interface@)
}

/// The state a shown device is displayed in.
pub open spec fn profile_state_of(d: Device) -> ProfileState {
    let state = connection_of(d.state);
    match d.device_type {
        DeviceType::Wifi => match state {
            ConnectionState::Acquiring => ProfileState::Wifi(WifiConnectionState::Acquiring),
            ConnectionState::Disconnected => ProfileState::Wifi(WifiConnectionState::Disconnected),
            ConnectionState::Connected => match d.device_type_data {
                DeviceTypeData::Wireless(w) => match w.active_access_point {
                    Some(ap) => ProfileState::Wifi(
                        WifiConnectionState::Connected { signal_strength: ap.strength },
                    ),
                    None => ProfileState::Wifi(WifiConnectionState::Disconnected),
                },
                _ => ProfileState::Unknown,
            },
        },
        DeviceType::Modem | DeviceType::Wimax => ProfileState::Cellular(state),
        DeviceType::Wireguard | DeviceType::Tun | DeviceType::IpTunnel | DeviceType::Vxlan
        | DeviceType::Macsec => ProfileState::Vpn(state),
        _ => ProfileState::Wired(state),
    }
}

/// The profile shows the device as connected.
pub open spec fn shows_connected(p: ProfileState) -> bool {
    match p {
        ProfileState::Wired(c) | ProfileState::Cellular(c) | ProfileState::Vpn(c) => c == ConnectionState::Connected,
        ProfileState::Wifi(w) => w is Connected,
        ProfileState::Unknown => false,
    }
}

/// The profile shows the device as coming up.
pub open spec fn shows_acquiring(p: ProfileState) -> bool {
    match p {
        ProfileState::Wired(c) | ProfileState::Cellular(c) | ProfileState::Vpn(c) => c == ConnectionState::Acquiring,
        ProfileState::Wifi(w) => w is Acquiring,
        ProfileState::Unknown => false,
    }
}

/// A device's shown state follows its own: it is shown as connected only
/// when activated, and as coming up exactly while it is being prepared,
/// configured, authenticated, given addresses or checked.  A device that is
/// not wifi keeps its connection state in the profile of its kind: mobile
/// broadband, VPN and tunnel devices have their own profiles, and every
/// other kind is shown as wired.
pub proof fn lemma_profile_follows_device(d: Device)
    ensures
        shows_connected(profile_state_of(d)) ==> d.state == DeviceState::Activated,
        shows_acquiring(profile_state_of(d)) <==> (d.state == DeviceState::Prepare || d.state == DeviceState::Config
            || d.state == DeviceState::NeedAuth || d.state == DeviceState::IpConfig || d.state == DeviceState::IpCheck
            || d.state == DeviceState::Secondaries),
        d.device_type != DeviceType::Wifi ==> ({
            let c = connection_of(d.state);
            profile_state_of(d) == if d.device_type == DeviceType::Modem || d.device_type == DeviceType::Wimax {
                ProfileState::Cellular(c)
            } else if d.device_type == DeviceType::Wireguard || d.device_type == DeviceType::Tun
                || d.device_type == DeviceType::IpTunnel || d.device_type == DeviceType::Vxlan
                || d.device_type == DeviceType::Macsec {
                ProfileState::Vpn(c)
            } else {
                ProfileState::Wired(c)
            }
        }),
{
}

fn types_contain(list: &Vec<DeviceType>, x: DeviceType) -> (r: bool)
    ensures
        r == list@.contains(x),
{
    let mut i: usize = 0;
    while i < list.len()
        invariant
            i <= list.len(),
            forall|k: int| 0 <= k < i ==> list@[k] != x,
        decreases list.len() - i,
    {
        if list[i] == x {
            assert(list@[i as int] == x);
            return true;
        }
        i = i + 1;
    }
    false
}

fn names_contain_exec(list: &Vec<String>, x: &String) -> (r: bool)
    ensures
        r == names_contain(list@, x@),
{
    let mut i: usize = 0;
    while i < list.len()
        invariant
            i <= list.len(),
            forall|k: int| 0 <= k < i ==> (#[trigger] list@[k])@ != x@,
        decreases list.len() - i,
    {
        if str_eq(list[i].as_str(), x.as_str()) {
            return true;
        }
        i = i + 1;
    }
    false
}

/// The text of the bytes `b`, with invalid UTF-8 replaced
/// (`String::from_utf8_lossy`).
pub uninterp spec fn utf8_lossy(b: Seq<u8>) -> Seq<char>;

/// `String::from_utf8_lossy`: the text of `b`, with each invalid sequence
/// replaced by U+FFFD.  For valid UTF-8 that is the decoded text; the
/// replacement of invalid sequences is named, not stated.
#[verifier::external_body]
fn from_utf8_lossy(b: &Vec<u8>) -> (r: String)
    ensures
        r@ == utf8_lossy(b@),
        vstd::utf8::valid_utf8(b@) ==> r@ == vstd::utf8::decode_utf8(b@),
{
    String::from_utf8_lossy(b.as_slice()).into_owned()
}

/// The tooltip lines for a device's addresses: `address/prefix`, each on a
/// new line.
pub open spec fn address_lines(a: Seq<AddressData>) -> Seq<char>
    decreases a.len(),
{
    if a.len() == 0 {
        Seq::empty()
    } else {
        address_lines(a.drop_last()) + seq!['\n'] + a.last().address@ + seq!['/'] + dec(a.last().prefix as nat)
    }
}

/// A device's tooltip: its interface, its IPv4 addresses, and the name of
/// the wifi network it is connected to.
pub open spec fn tooltip_of(d: Device) -> Seq<char> {
    let with_ips = d.interface@ + match d.ip4_config {
        Some(ip) => address_lines(ip.address_data@),
        None => Seq::empty(),
    };
    match d.device_type_data {
        DeviceTypeData::Wireless(w) => match w.active_access_point {
            Some(ap) => with_ips + seq!['\n'] + utf8_lossy(ap.ssid@),
            None => with_ips,
        },
        _ => with_ips,
    }
}

impl NetworkManagerModule {
    /// A device's tooltip: its interface, its IPv4 addresses, and the name
    /// of the wifi network it is connected to.
    pub fn get_tooltip(&self, device: &Device) -> (r: String)
        ensures
            r@ == tooltip_of(*device),
    {
        let mut tooltip = device.interface.clone();
        if let Some(ip) = &device.ip4_config {
            let mut k: usize = 0;
            let ghost start = tooltip@;
            while k < ip.address_data.len()
                invariant
                    k <= ip.address_data.len(),
                    tooltip@ == start + address_lines(ip.address_data@.take(k as int)),
                decreases ip.address_data.len() - k,
            {
                let x = &ip.address_data[k];
                let mut line: Vec<char> = Vec::new();
                line.push('\n');
                let addr = chars_of(x.address.as_str());
                append_chars(&mut line, &addr);
                line.push('/');
                let digits = u64_to_chars(x.prefix as u64);
                append_chars(&mut line, &digits);
                let line_str = string_of(&line);
                append_str(&mut tooltip, line_str.as_str());
                proof {
                    let a = ip.address_data@.take(k + 1);
                    assert(a.drop_last() =~= ip.address_data@.take(k as int));
                    assert(a.last() == ip.address_data@[k as int]);
                    assert(start + address_lines(a) =~= start + address_lines(ip.address_data@.take(k as int)) + line@);
                }
                k = k + 1;
            }
            assert(ip.address_data@.take(ip.address_data.len() as int) =~= ip.address_data@);
        }
        if let DeviceTypeData::Wireless(wireless) = &device.device_type_data {
            if let Some(connection) = &wireless.active_access_point {
                let ssid = from_utf8_lossy(&connection.ssid);
                let ghost before = tooltip@;
                crate::text::push_char(&mut tooltip, '\n');
                append_str(&mut tooltip, ssid.as_str());
                assert(tooltip@ =~= before + seq!['\n'] + utf8_lossy(connection.ssid@));
            }
        }
        tooltip
    }

    /// The state a device is shown in, or `None` when the module's lists
    /// hide it.
    pub fn get_profile_state(&self, device: &Device) -> (r: Option<ProfileState>)
        ensures
            r == (if device_shown(*self, *device) { Some(profile_state_of(*device)) } else { None }),
            r matches Some(p) ==> (shows_connected(p) ==> device.state == DeviceState::Activated),
            r matches Some(p) ==> (shows_acquiring(p) <==> (device.state == DeviceState::Prepare
                || device.state == DeviceState::Config || device.state == DeviceState::NeedAuth
                || device.state == DeviceState::IpConfig || device.state == DeviceState::IpCheck
                || device.state == DeviceState::Secondaries)),
    {
        proof {
            lemma_profile_follows_device(*device);
        }
        let type_whitelisted = self.types_whitelist.len() == 0 || types_contain(&self.types_whitelist, device.device_type);
        let interface_whitelisted = self.interface_whitelist.len() == 0 || names_contain_exec(&self.interface_whitelist, &device.interface);
        let type_blacklisted = types_contain(&self.types_blacklist, device.device_type);
        let interface_blacklisted = names_contain_exec(&self.interface_blacklist, &device.interface);

        if !type_whitelisted || !interface_whitelisted || type_blacklisted || interface_blacklisted {
            return None;
        }

        let state = ConnectionState::from(device.state);

        let state = match device.device_type {
            DeviceType::Wifi => match state {
                ConnectionState::Acquiring => ProfileState::Wifi(WifiConnectionState::Acquiring),
                ConnectionState::Disconnected => ProfileState::Wifi(WifiConnectionState::Disconnected),
                ConnectionState::Connected => match &device.device_type_data {
                    DeviceTypeData::Wireless(wireless) => match &wireless.active_access_point {
                        Some(connection) => ProfileState::Wifi(WifiConnectionState::Connected {
                            signal_strength: connection.strength,
                        }),
                        None => ProfileState::Wifi(WifiConnectionState::Disconnected),
                    },
                    _ => ProfileState::Unknown,
                },
            },
            DeviceType::Modem | DeviceType::Wimax => match state {
                ConnectionState::Acquiring => ProfileState::Cellular(ConnectionState::Acquiring),
                ConnectionState::Disconnected => ProfileState::Cellular(ConnectionState::Disconnected),
                ConnectionState::Connected => ProfileState::Cellular(ConnectionState::Connected),
            },
            DeviceType::Wireguard | DeviceType::Tun | DeviceType::IpTunnel | DeviceType::Vxlan
            | DeviceType::Macsec => match state {
                ConnectionState::Acquiring => ProfileState::Vpn(ConnectionState::Acquiring),
                ConnectionState::Disconnected => ProfileState::Vpn(ConnectionState::Disconnected),
                ConnectionState::Connected => ProfileState::Vpn(ConnectionState::Connected),
            },
            _ => match state {
                ConnectionState::Acquiring => ProfileState::Wired(ConnectionState::Acquiring),
                ConnectionState::Disconnected => ProfileState::Wired(ConnectionState::Disconnected),
                ConnectionState::Connected => ProfileState::Wired(ConnectionState::Connected),
            },
        };

        Some(state)
    }
}

/// A profile as plain values: its name, state and icon.
pub open spec fn profile_view(p: NamedProfile) -> (Seq<char>, ProfileState, Seq<char>) {
    (p.name@, p.state, p.profile.icon@)
}

/// The built-in profiles: an icon for each connection state of each kind
/// of device, with wifi signal thresholds at 20, 40, 50, 80 and 100.
pub open spec fn default_profile_list() -> Seq<(Seq<char>, ProfileState, Seq<char>)> {
    seq![
        ("wired_disconnected"@, ProfileState::Wired(ConnectionState::Disconnected), ""@),
        ("wired_acquiring"@, ProfileState::Wired(ConnectionState::Acquiring), "icon:network-wired-acquiring-symbolic"@),
        ("wired_connected"@, ProfileState::Wired(ConnectionState::Connected), "icon:network-wired-symbolic"@),
        ("wifi_disconnected"@, ProfileState::Wifi(WifiConnectionState::Disconnected), ""@),
        ("wifi_acquiring"@, ProfileState::Wifi(WifiConnectionState::Acquiring), "icon:network-wireless-acquiring-symbolic"@),
        ("wifi_connected_none"@, ProfileState::Wifi(WifiConnectionState::Connected { signal_strength: 20 }), "icon:network-wireless-signal-none-symbolic"@),
        ("wifi_connected_weak"@, ProfileState::Wifi(WifiConnectionState::Connected { signal_strength: 40 }), "icon:network-wireless-signal-weak-symbolic"@),
        ("wifi_connected_ok"@, ProfileState::Wifi(WifiConnectionState::Connected { signal_strength: 50 }), "icon:network-wireless-signal-ok-symbolic"@),
        ("wifi_connected_good"@, ProfileState::Wifi(WifiConnectionState::Connected { signal_strength: 80 }), "icon:network-wireless-signal-good-symbolic"@),
        ("wifi_connected_excellent"@, ProfileState::Wifi(WifiConnectionState::Connected { signal_strength: 100 }), "icon:network-wireless-signal-excellent-symbolic"@),
        ("cellular_disconnected"@, ProfileState::Cellular(ConnectionState::Disconnected), ""@),
        ("cellular_acquiring"@, ProfileState::Cellular(ConnectionState::Acquiring), "icon:network-cellular-acquiring-symbolic"@),
        ("cellular_connected"@, ProfileState::Cellular(ConnectionState::Connected), "icon:network-cellular-connected-symbolic"@),
        ("vpn_disconnected"@, ProfileState::Vpn(ConnectionState::Disconnected), ""@),
        ("vpn_acquiring"@, ProfileState::Vpn(ConnectionState::Acquiring), "icon:network-vpn-acquiring-symbolic"@),
        ("vpn_connected"@, ProfileState::Vpn(ConnectionState::Connected), "icon:network-vpn-symbolic"@),
        ("unknown"@, ProfileState::Unknown, "icon:dialog-question-symbolic"@)
    ]
}

fn named(name: &str, state: ProfileState, icon: &str) -> (r: NamedProfile)
    ensures
        profile_view(r) == (name@, state, icon@),
{
    NamedProfile {
        name: crate::text::owned(name),
        state,
        profile: NetworkManagerProfile { icon: crate::text::owned(icon) },
    }
}

/// The built-in profiles, in order.
pub fn default_profiles() -> (r: Vec<NamedProfile>)
    ensures
        r@.map_values(|p: NamedProfile| profile_view(p)) == default_profile_list(),
{
    let mut out: Vec<NamedProfile> = Vec::new();
    out.push(named("wired_disconnected", ProfileState::Wired(ConnectionState::Disconnected), ""));
    out.push(named("wired_acquiring", ProfileState::Wired(ConnectionState::Acquiring), "icon:network-wired-acquiring-symbolic"));
    out.push(named("wired_connected", ProfileState::Wired(ConnectionState::Connected), "icon:network-wired-symbolic"));
    out.push(named("wifi_disconnected", ProfileState::Wifi(WifiConnectionState::Disconnected), ""));
    out.push(named("wifi_acquiring", ProfileState::Wifi(WifiConnectionState::Acquiring), "icon:network-wireless-acquiring-symbolic"));
    out.push(named("wifi_connected_none", ProfileState::Wifi(WifiConnectionState::Connected { signal_strength: 20 }), "icon:network-wireless-signal-none-symbolic"));
    out.push(named("wifi_connected_weak", ProfileState::Wifi(WifiConnectionState::Connected { signal_strength: 40 }), "icon:network-wireless-signal-weak-symbolic"));
    out.push(named("wifi_connected_ok", ProfileState::Wifi(WifiConnectionState::Connected { signal_strength: 50 }), "icon:network-wireless-signal-ok-symbolic"));
    out.push(named("wifi_connected_good", ProfileState::Wifi(WifiConnectionState::Connected { signal_strength: 80 }), "icon:network-wireless-signal-good-symbolic"));
    out.push(named("wifi_connected_excellent", ProfileState::Wifi(WifiConnectionState::Connected { signal_strength: 100 }), "icon:network-wireless-signal-excellent-symbolic"));
    out.push(named("cellular_disconnected", ProfileState::Cellular(ConnectionState::Disconnected), ""));
    out.push(named("cellular_acquiring", ProfileState::Cellular(ConnectionState::Acquiring), "icon:network-cellular-acquiring-symbolic"));
    out.push(named("cellular_connected", ProfileState::Cellular(ConnectionState::Connected), "icon:network-cellular-connected-symbolic"));
    out.push(named("vpn_disconnected", ProfileState::Vpn(ConnectionState::Disconnected), ""));
    out.push(named("vpn_acquiring", ProfileState::Vpn(ConnectionState::Acquiring), "icon:network-vpn-acquiring-symbolic"));
    out.push(named("vpn_connected", ProfileState::Vpn(ConnectionState::Connected), "icon:network-vpn-symbolic"));
    out.push(named("unknown", ProfileState::Unknown, "icon:dialog-question-symbolic"));
    proof {
        assert(out@.map_values(|p: NamedProfile| profile_view(p)) =~= default_profile_list());
    }
    out
}

} // verus!
