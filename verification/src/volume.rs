//! Volume: the icons for a volume level.
use vstd::prelude::*;

use crate::text::{owned, replace_all, replace_str, str_eq};

verus! {

/// Icons for volume levels (the single-level configuration).
#[derive(Debug, Clone)]
pub struct Icons {
    pub volume_high: String,
    pub volume_medium: String,
    pub volume_low: String,
    pub muted: String,
}

impl Icons {
    /// The speaker glyphs for high, medium and low volume, and muted.
    pub fn default() -> (r: Icons)
        ensures
            r.volume_high@ == "\u{f057e}"@,
            r.volume_medium@ == "\u{f0580}"@,
            r.volume_low@ == "\u{f057f}"@,
            r.muted@ == "\u{f075f}"@,
    {
        Icons {
            volume_high: owned("\u{f057e}"),
            volume_medium: owned("\u{f0580}"),
            volume_low: owned("\u{f057f}"),
            muted: owned("\u{f075f}"),
        }
    }

    /// The icon for a whole volume percentage: low up to 33, medium up to
    /// 66, high above.
    pub fn volume_icon(&self, volume_percent: u32) -> (r: &str)
        ensures
            r@ == if volume_percent <= 33 {
                self.volume_low@
            } else if volume_percent <= 66 {
                self.volume_medium@
            } else {
                self.volume_high@
            },
    {
        if volume_percent <= 33 {
            self.volume_low.as_str()
        } else if volume_percent <= 66 {
            self.volume_medium.as_str()
        } else {
            self.volume_high.as_str()
        }
    }
}

/// Icons of a volume profile.
#[derive(Debug, Clone)]
pub struct ProfileIcons {
    pub volume: String,
    pub muted: String,
    pub mic_volume: String,
    pub mic_muted: String,
}

impl ProfileIcons {
    /// The speaker, muted speaker, microphone and muted microphone glyphs.
    pub fn default() -> (r: ProfileIcons)
        ensures
            r.volume@ == "\u{f057e}"@,
            r.muted@ == "\u{f075f}"@,
            r.mic_volume@ == "\u{f130}"@,
            r.mic_muted@ == "\u{f131}"@,
    {
        ProfileIcons {
            volume: owned("\u{f057e}"),
            muted: owned("\u{f075f}"),
            mic_volume: owned("\u{f130}"),
            mic_muted: owned("\u{f131}"),
        }
    }

    /// The label of a mute button: the muted or unmuted glyph, of the
    /// microphone for a source and of the speaker for a sink.
    pub fn mute_label(&self, is_source: bool, muted: bool) -> (r: &str)
        ensures
            r@ == (if is_source {
                if muted { self.mic_muted@ } else { self.mic_volume@ }
            } else {
                if muted { self.muted@ } else { self.volume@ }
            }),
    {
        if is_source {
            if muted { self.mic_muted.as_str() } else { self.mic_volume.as_str() }
        } else {
            if muted { self.muted.as_str() } else { self.volume.as_str() }
        }
    }
}

/// A volume profile: the icons it shows.
#[derive(Debug, Clone)]
pub struct VolumeProfile {
    pub icons: ProfileIcons,
}

impl VolumeProfile {
    /// A profile that shows `sink_icon` for the volume and the default
    /// icons otherwise.
    pub fn for_volume_icon(sink_icon: &str) -> (r: VolumeProfile)
        ensures
            r.icons.volume@ == sink_icon@,
            r.icons.muted@ == "\u{f075f}"@,
            r.icons.mic_volume@ == "\u{f130}"@,
            r.icons.mic_muted@ == "\u{f131}"@,
    {
        let d = ProfileIcons::default();
        VolumeProfile {
            icons: ProfileIcons { volume: owned(sink_icon), muted: d.muted, mic_volume: d.mic_volume, mic_muted: d.mic_muted },
        }
    }
}

/// What the bar reads of a sink or source.
#[derive(Debug, Clone)]
pub struct DeviceInfo {
    pub name: String,
    pub description: String,
    pub muted: bool,
    /// A source that monitors a sink.
    pub monitor: bool,
}

/// An event from the sound server, as the bar sees it.
pub enum VolumeEvent {
    SetDefaultSink(String),
    SetDefaultSource(String),
    AddSink(DeviceInfo),
    UpdateSink(DeviceInfo),
    AddSource(DeviceInfo),
    UpdateSource(DeviceInfo),
    /// Any event the bar does not show.
    Other,
}

/// What one of the bar's labels is told.
pub struct BarUpdate {
    /// The sink's label (else the source's).
    pub sink: bool,
    pub muted: bool,
    pub description: String,
    /// Whether the label is shown.
    pub show: bool,
}

/// The default sink and source the bar follows.
#[derive(Debug, Clone)]
pub struct VolumeBar {
    pub default_sink: Option<String>,
    pub default_source: Option<String>,
}

/// The bar's update for an event from the default sink or source: the
/// sink's label shows when sinks are shown, the source's when sources are
/// shown and it is not a monitor (or monitors are shown).
pub open spec fn spec_bar_update(
    bar: VolumeBar,
    ev: VolumeEvent,
    show_sinks: bool,
    show_sources: bool,
    show_monitors: bool,
) -> Option<(bool, bool, Seq<char>, bool)> {
    match ev {
        VolumeEvent::AddSink(d) | VolumeEvent::UpdateSink(d) => match bar.default_sink {
            Some(n) => if n@ == d.name@ {
                Some((true, d.muted, d.description@, show_sinks))
            } else {
                None
            },
            None => None,
        },
        VolumeEvent::AddSource(d) | VolumeEvent::UpdateSource(d) => match bar.default_source {
            Some(n) => if n@ == d.name@ {
                Some((false, d.muted, d.description@, show_sources && (!d.monitor || show_monitors)))
            } else {
                None
            },
            None => None,
        },
        _ => None,
    }
}

/// The name of an optional default device.
pub open spec fn name_view(o: Option<String>) -> Option<Seq<char>> {
    match o {
        Some(s) => Some(s@),
        None => None,
    }
}

/// Whether `name` is the default device.
fn is_default(default: &Option<String>, name: &String) -> (r: bool)
    ensures
        r == (name_view(*default) == Some(name@)),
{
    match default {
        Some(n) => str_eq(n.as_str(), name.as_str()),
        None => false,
    }
}

impl VolumeBar {
    /// No default sink or source yet.
    pub fn new() -> (r: VolumeBar)
        ensures
            r.default_sink is None,
            r.default_source is None,
    {
        VolumeBar { default_sink: None, default_source: None }
    }

    /// Follows a new default device, and tells the label about changes of
    /// the default sink or source.
    pub fn on_event(&mut self, ev: VolumeEvent, show_sinks: bool, show_sources: bool, show_monitors: bool) -> (r: Option<BarUpdate>)
        ensures
            match ev {
                VolumeEvent::SetDefaultSink(n) => name_view(final(self).default_sink) == Some(n@)
                    && name_view(final(self).default_source) == name_view(old(self).default_source)
                    && r is None,
                VolumeEvent::SetDefaultSource(n) => name_view(final(self).default_source) == Some(n@)
                    && name_view(final(self).default_sink) == name_view(old(self).default_sink)
                    && r is None,
                _ => name_view(final(self).default_sink) == name_view(old(self).default_sink)
                    && name_view(final(self).default_source) == name_view(old(self).default_source)
                    && match spec_bar_update(*old(self), ev, show_sinks, show_sources, show_monitors) {
                        Some((sink, muted, desc, show)) => r matches Some(u) && u.sink == sink
                            && u.muted == muted && u.description@ == desc && u.show == show,
                        None => r is None,
                    },
            },
    {
        match ev {
            VolumeEvent::SetDefaultSink(n) => {
                self.default_sink = Some(n);
                None
            },
            VolumeEvent::SetDefaultSource(n) => {
                self.default_source = Some(n);
                None
            },
            VolumeEvent::AddSink(d) | VolumeEvent::UpdateSink(d) => {
                if is_default(&self.default_sink, &d.name) {
                    Some(BarUpdate { sink: true, muted: d.muted, description: d.description, show: show_sinks })
                } else {
                    None
                }
            },
            VolumeEvent::AddSource(d) | VolumeEvent::UpdateSource(d) => {
                if is_default(&self.default_source, &d.name) {
                    Some(BarUpdate {
                        sink: false,
                        muted: d.muted,
                        description: d.description,
                        show: show_sources && (!d.monitor || show_monitors),
                    })
                } else {
                    None
                }
            },
            VolumeEvent::Other => None,
        }
    }
}

/// A label's text: the mute format with the muted icon when muted, else
/// the format with the volume icon, with `{icon}`, `{percentage}` and
/// `{name}` replaced in that order.
pub open spec fn spec_volume_label(
    format: Seq<char>,
    mute_format: Seq<char>,
    icon: Seq<char>,
    muted_icon: Seq<char>,
    muted: bool,
    percentage: Seq<char>,
    name: Seq<char>,
) -> Seq<char> {
    let (f, i) = if muted { (mute_format, muted_icon) } else { (format, icon) };
    replace_all(replace_all(replace_all(f, "{icon}"@, i), "{percentage}"@, percentage), "{name}"@, name)
}

/// The text of a sink's or source's label; the percentage is given as it
/// is written.
pub fn volume_label(
    format: &str,
    mute_format: &str,
    icon: &str,
    muted_icon: &str,
    muted: bool,
    percentage: &str,
    name: &str,
) -> (r: String)
    ensures
        r@ == spec_volume_label(format@, mute_format@, icon@, muted_icon@, muted, percentage@, name@),
{
    let (f, i) = if muted { (mute_format, muted_icon) } else { (format, icon) };
    let s1 = replace_str(f, "{icon}", i);
    let s2 = replace_str(s1.as_str(), "{percentage}", percentage);
    replace_str(s2.as_str(), "{name}", name)
}

/// A change the device selector's list and controls are told to make.
pub enum DeviceOp {
    /// Add a device (key and description) at the end of the list.
    Append { key: String, value: String },
    /// Put the "no device" entry first in the list.
    InsertPlaceholder,
    /// Remove the entry at this position.
    Remove(usize),
    /// Select the entry at this position.
    Select(usize),
    /// Show or hide the volume slider and mute button.
    ShowControls(bool),
    /// Set the slider and mute button from the device's level.
    ShowLevel,
}

/// `DeviceOp` with its texts as characters.
pub enum DeviceOpView {
    Append(Seq<char>, Seq<char>),
    InsertPlaceholder,
    Remove(int),
    Select(int),
    ShowControls(bool),
    ShowLevel,
}

/// What an op says.
pub open spec fn op_view(op: DeviceOp) -> DeviceOpView {
    match op {
        DeviceOp::Append { key, value } => DeviceOpView::Append(key@, value@),
        DeviceOp::InsertPlaceholder => DeviceOpView::InsertPlaceholder,
        DeviceOp::Remove(i) => DeviceOpView::Remove(i as int),
        DeviceOp::Select(i) => DeviceOpView::Select(i as int),
        DeviceOp::ShowControls(b) => DeviceOpView::ShowControls(b),
        DeviceOp::ShowLevel => DeviceOpView::ShowLevel,
    }
}

/// What a list of ops says.
pub open spec fn ops_view(ops: Seq<DeviceOp>) -> Seq<DeviceOpView> {
    ops.map_values(|op: DeviceOp| op_view(op))
}

/// The device selector of the popup: the keys of its entries (the "no
/// device" entry marked), and the default device.
pub struct DeviceList {
    pub default_device_name: Option<String>,
    /// Entry keys in order, each with whether it is the "no device" entry.
    pub options: Vec<(String, bool)>,
}

/// The entries as values.
pub open spec fn options_view(o: Seq<(String, bool)>) -> Seq<(Seq<char>, bool)> {
    o.map_values(|e: (String, bool)| (e.0@, e.1))
}

/// The first entry with key `k`.
pub open spec fn key_index(o: Seq<(Seq<char>, bool)>, k: Seq<char>) -> Option<int>
    decreases o.len(),
{
    if o.len() == 0 {
        None
    } else {
        match key_index(o.drop_last(), k) {
            Some(i) => Some(i),
            None => if o.last().0 == k { Some(o.len() - 1) } else { None },
        }
    }
}

/// The first "no device" entry.
pub open spec fn placeholder_index(o: Seq<(Seq<char>, bool)>) -> Option<int>
    decreases o.len(),
{
    if o.len() == 0 {
        None
    } else {
        match placeholder_index(o.drop_last()) {
            Some(i) => Some(i),
            None => if o.last().1 { Some(o.len() - 1) } else { None },
        }
    }
}

/// The result of showing the device at `pos`: it is selected, the
/// controls show its level, and the "no device" entry goes.
pub open spec fn after_set_device(o: Seq<(Seq<char>, bool)>) -> Seq<(Seq<char>, bool)> {
    match placeholder_index(o) {
        Some(p) => o.remove(p),
        None => o,
    }
}

/// The result of showing no device: the "no device" entry is first when
/// there was none, and it is selected with the controls hidden.
pub open spec fn after_set_no_device(o: Seq<(Seq<char>, bool)>, placeholder: Seq<char>) -> Seq<(Seq<char>, bool)> {
    match placeholder_index(o) {
        Some(_) => o,
        None => seq![(placeholder, true)] + o,
    }
}

/// The ops that show the device at `pos`: select it, show the controls
/// and its level, then remove the "no device" entry where there is one.
pub open spec fn set_device_ops(o: Seq<(Seq<char>, bool)>, pos: int) -> Seq<DeviceOpView> {
    seq![DeviceOpView::Select(pos), DeviceOpView::ShowControls(true), DeviceOpView::ShowLevel]
        + match placeholder_index(o) {
        Some(p) => seq![DeviceOpView::Remove(p)],
        None => Seq::empty(),
    }
}

/// The ops that show no device: put the "no device" entry first when it
/// is missing, select it and hide the controls.
pub open spec fn set_no_device_ops(o: Seq<(Seq<char>, bool)>) -> Seq<DeviceOpView> {
    match placeholder_index(o) {
        Some(p) => seq![DeviceOpView::Select(p), DeviceOpView::ShowControls(false)],
        None => seq![DeviceOpView::InsertPlaceholder, DeviceOpView::Select(0), DeviceOpView::ShowControls(false)],
    }
}

/// The ops of a device appearing: appended when shown; when it is the
/// default, then shown (at the end of the list), or no device shown when
/// it is not listed.
pub open spec fn add_device_ops(
    o: Seq<(Seq<char>, bool)>,
    key: Seq<char>,
    value: Seq<char>,
    show: bool,
    is_default: bool,
) -> Seq<DeviceOpView> {
    let listed = if show { o.push((key, false)) } else { o };
    let appended = if show { seq![DeviceOpView::Append(key, value)] } else { Seq::empty() };
    appended + if !is_default {
        Seq::empty()
    } else if show {
        set_device_ops(listed, listed.len() - 1)
    } else {
        set_no_device_ops(listed)
    }
}

/// The ops of the default device changing: shown where listed, else no
/// device shown; nothing for another device.
pub open spec fn update_device_ops(o: Seq<(Seq<char>, bool)>, key: Seq<char>, is_default: bool) -> Seq<DeviceOpView> {
    if !is_default {
        Seq::empty()
    } else {
        match key_index(o, key) {
            Some(pos) => set_device_ops(o, pos),
            None => set_no_device_ops(o),
        }
    }
}

/// The ops of a device going: its entry removed, and no device shown when
/// the list is then empty; nothing when it was not listed.
pub open spec fn remove_device_ops(o: Seq<(Seq<char>, bool)>, key: Seq<char>) -> Seq<DeviceOpView> {
    match key_index(o, key) {
        Some(i) => seq![DeviceOpView::Remove(i)] + if o.remove(i).len() == 0 {
            set_no_device_ops(o.remove(i))
        } else {
            Seq::empty()
        },
        None => Seq::empty(),
    }
}

/// The position of the first entry with key `k` in the list.
fn find_key(o: &Vec<(String, bool)>, k: &str) -> (r: Option<usize>)
    ensures
        r matches Some(i) ==> i < o@.len(),
        match r {
            Some(i) => key_index(options_view(o@), k@) == Some(i as int),
            None => key_index(options_view(o@), k@) is None,
        },
{
    let ghost ov = options_view(o@);
    let mut i: usize = 0;
    while i < o.len()
        invariant
            i <= o.len(),
            ov == options_view(o@),
            key_index(ov.take(i as int), k@) is None,
        decreases o.len() - i,
    {
        assert(ov.take(i + 1).drop_last() =~= ov.take(i as int));
        if str_eq(o[i].0.as_str(), k) {
            proof {
                lemma_key_index_prefix(ov, i as int + 1, k@);
            }
            return Some(i);
        }
        i = i + 1;
    }
    assert(ov.take(o.len() as int) =~= ov);
    None
}

/// A key found in a prefix is found at the same place in the whole list.
proof fn lemma_key_index_prefix(o: Seq<(Seq<char>, bool)>, n: int, k: Seq<char>)
    requires
        0 < n <= o.len(),
        key_index(o.take(n), k) is Some,
    ensures
        key_index(o, k) == key_index(o.take(n), k),
    decreases o.len() - n,
{
    if n < o.len() {
        assert(o.take(n + 1).drop_last() =~= o.take(n));
        lemma_key_index_prefix(o, n + 1, k);
    } else {
        assert(o.take(n) =~= o);
    }
}

/// A "no device" entry found in a prefix is found at the same place in
/// the whole list.
proof fn lemma_placeholder_prefix(o: Seq<(Seq<char>, bool)>, n: int)
    requires
        0 < n <= o.len(),
        placeholder_index(o.take(n)) is Some,
    ensures
        placeholder_index(o) == placeholder_index(o.take(n)),
    decreases o.len() - n,
{
    if n < o.len() {
        assert(o.take(n + 1).drop_last() =~= o.take(n));
        lemma_placeholder_prefix(o, n + 1);
    } else {
        assert(o.take(n) =~= o);
    }
}

/// The position of the first "no device" entry.
fn find_placeholder(o: &Vec<(String, bool)>) -> (r: Option<usize>)
    ensures
        r matches Some(i) ==> i < o@.len(),
        match r {
            Some(i) => placeholder_index(options_view(o@)) == Some(i as int),
            None => placeholder_index(options_view(o@)) is None,
        },
{
    let ghost ov = options_view(o@);
    let mut i: usize = 0;
    while i < o.len()
        invariant
            i <= o.len(),
            ov == options_view(o@),
            placeholder_index(ov.take(i as int)) is None,
        decreases o.len() - i,
    {
        assert(ov.take(i + 1).drop_last() =~= ov.take(i as int));
        if o[i].1 {
            proof {
                lemma_placeholder_prefix(ov, i as int + 1);
            }
            return Some(i);
        }
        i = i + 1;
    }
    assert(ov.take(o.len() as int) =~= ov);
    None
}

impl DeviceList {
    /// A selector holding only its "no device" entry, selected.
    pub fn new(placeholder_key: &str) -> (r: (DeviceList, Vec<DeviceOp>))
        ensures
            r.0.default_device_name is None,
            options_view(r.0.options@) == seq![(placeholder_key@, true)],
            ops_view(r.1@) == seq![DeviceOpView::Select(0), DeviceOpView::ShowControls(false)],
    {
        let mut options: Vec<(String, bool)> = Vec::new();
        options.push((owned(placeholder_key), true));
        assert(options_view(options@) =~= seq![(placeholder_key@, true)]);
        let mut ops: Vec<DeviceOp> = Vec::new();
        ops.push(DeviceOp::Select(0));
        ops.push(DeviceOp::ShowControls(false));
        assert(ops_view(ops@) =~= seq![DeviceOpView::Select(0), DeviceOpView::ShowControls(false)]);
        (DeviceList { default_device_name: None, options }, ops)
    }

    /// Shows the device at `pos`: selects it, shows its level, and drops
    /// the "no device" entry.
    fn set_device(&mut self, pos: usize, ops: &mut Vec<DeviceOp>)
        ensures
            options_view(final(self).options@) == after_set_device(options_view(old(self).options@)),
            final(self).default_device_name == old(self).default_device_name,
            ops_view(final(ops)@) == ops_view(old(ops)@) + set_device_ops(options_view(old(self).options@), pos as int),
    {
        let ghost ops0 = ops_view(ops@);
        ops.push(DeviceOp::Select(pos));
        ops.push(DeviceOp::ShowControls(true));
        ops.push(DeviceOp::ShowLevel);
        match find_placeholder(&self.options) {
            Some(p) => {
                let ghost before = self.options@;
                assert(placeholder_index(options_view(before)) == Some(p as int));
                self.options.remove(p);
                assert(options_view(self.options@) =~= options_view(before).remove(p as int));
                ops.push(DeviceOp::Remove(p));
                assert(ops_view(ops@) =~= ops0 + set_device_ops(options_view(before), pos as int));
            },
            None => {
                assert(ops_view(ops@) =~= ops0 + set_device_ops(options_view(self.options@), pos as int));
            },
        }
    }

    /// Shows no device: the "no device" entry (first, when it was
    /// missing) is selected and the controls hidden.
    fn set_no_device(&mut self, placeholder_key: &str, ops: &mut Vec<DeviceOp>)
        ensures
            options_view(final(self).options@) == after_set_no_device(options_view(old(self).options@), placeholder_key@),
            final(self).default_device_name == old(self).default_device_name,
            ops_view(final(ops)@) == ops_view(old(ops)@) + set_no_device_ops(options_view(old(self).options@)),
    {
        let ghost ops0 = ops_view(ops@);
        let ghost o0 = options_view(self.options@);
        let pos = match find_placeholder(&self.options) {
            Some(p) => p,
            None => {
                let ghost before = self.options@;
                self.options.insert(0, (owned(placeholder_key), true));
                assert(options_view(self.options@) =~= seq![(placeholder_key@, true)] + options_view(before));
                ops.push(DeviceOp::InsertPlaceholder);
                0
            },
        };
        ops.push(DeviceOp::Select(pos));
        ops.push(DeviceOp::ShowControls(false));
        assert(ops_view(ops@) =~= ops0 + set_no_device_ops(o0));
    }

    /// Whether `name` is the default device.
    pub fn is_default(&self, name: &str) -> (r: bool)
        ensures
            r == (name_view(self.default_device_name) == Some(name@)),
    {
        match &self.default_device_name {
            Some(n) => str_eq(n.as_str(), name),
            None => false,
        }
    }

    /// Follows a new default device.
    pub fn set_default_device_name(&mut self, name: String)
        ensures
            final(self).default_device_name == Some(name),
            final(self).options == old(self).options,
    {
        self.default_device_name = Some(name);
    }

    /// A device appeared: it is listed when shown, and, when it is the
    /// default, it is shown (or, when it is not listed, no device is).
    pub fn add_device(&mut self, key: &str, value: &str, show: bool, placeholder_key: &str) -> (r: Vec<DeviceOp>)
        ensures
            final(self).default_device_name == old(self).default_device_name,
            ({
                let listed = if show {
                    options_view(old(self).options@).push((key@, false))
                } else {
                    options_view(old(self).options@)
                };
                options_view(final(self).options@) == if name_view(old(self).default_device_name) != Some(key@) {
                    listed
                } else if show {
                    after_set_device(listed)
                } else {
                    after_set_no_device(listed, placeholder_key@)
                }
            }),
            ops_view(r@) == add_device_ops(
                options_view(old(self).options@),
                key@,
                value@,
                show,
                name_view(old(self).default_device_name) == Some(key@),
            ),
    {
        let ghost o0 = options_view(self.options@);
        let mut ops: Vec<DeviceOp> = Vec::new();
        assert(ops_view(ops@) =~= Seq::<DeviceOpView>::empty());
        if show {
            let ghost before = self.options@;
            self.options.push((owned(key), false));
            assert(options_view(self.options@) =~= options_view(before).push((key@, false)));
            ops.push(DeviceOp::Append { key: owned(key), value: owned(value) });
            assert(ops_view(ops@) =~= seq![DeviceOpView::Append(key@, value@)]);
        }
        if !self.is_default(key) {
            assert(ops_view(ops@) =~= add_device_ops(o0, key@, value@, show, false));
            return ops;
        }
        if show {
            let last = self.options.len() - 1;
            self.set_device(last, &mut ops);
        } else {
            self.set_no_device(placeholder_key, &mut ops);
        }
        assert(ops_view(ops@) =~= add_device_ops(o0, key@, value@, show, true));
        ops
    }

    /// The default device changed: it is shown where it is listed, else
    /// no device is; other devices change nothing.
    pub fn update_device(&mut self, key: &str, placeholder_key: &str) -> (r: Vec<DeviceOp>)
        ensures
            final(self).default_device_name == old(self).default_device_name,
            options_view(final(self).options@) == if name_view(old(self).default_device_name) != Some(key@) {
                options_view(old(self).options@)
            } else if key_index(options_view(old(self).options@), key@) is Some {
                after_set_device(options_view(old(self).options@))
            } else {
                after_set_no_device(options_view(old(self).options@), placeholder_key@)
            },
            ops_view(r@) == update_device_ops(
                options_view(old(self).options@),
                key@,
                name_view(old(self).default_device_name) == Some(key@),
            ),
    {
        let mut ops: Vec<DeviceOp> = Vec::new();
        assert(ops_view(ops@) =~= Seq::<DeviceOpView>::empty());
        if !self.is_default(key) {
            return ops;
        }
        match find_key(&self.options, key) {
            Some(pos) => self.set_device(pos, &mut ops),
            None => self.set_no_device(placeholder_key, &mut ops),
        }
        assert(ops_view(ops@) =~= update_device_ops(
            options_view(old(self).options@),
            key@,
            name_view(old(self).default_device_name) == Some(key@),
        ));
        ops
    }

    /// A device went: its entry goes, and an empty list shows no device.
    pub fn remove_device(&mut self, key: &str, placeholder_key: &str) -> (r: Vec<DeviceOp>)
        ensures
            final(self).default_device_name == old(self).default_device_name,
            options_view(final(self).options@) == match key_index(options_view(old(self).options@), key@) {
                Some(i) => {
                    let removed = options_view(old(self).options@).remove(i);
                    if removed.len() == 0 {
                        after_set_no_device(removed, placeholder_key@)
                    } else {
                        removed
                    }
                },
                None => options_view(old(self).options@),
            },
            ops_view(r@) == remove_device_ops(options_view(old(self).options@), key@),
    {
        let ghost o0 = options_view(self.options@);
        let mut ops: Vec<DeviceOp> = Vec::new();
        assert(ops_view(ops@) =~= Seq::<DeviceOpView>::empty());
        if let Some(pos) = find_key(&self.options, key) {
            let ghost before = self.options@;
            assert(key_index(options_view(before), key@) == Some(pos as int));
            self.options.remove(pos);
            assert(options_view(self.options@) =~= options_view(before).remove(pos as int));
            ops.push(DeviceOp::Remove(pos));
            assert(ops_view(ops@) =~= seq![DeviceOpView::Remove(pos as int)]);
            if self.options.len() == 0 {
                self.set_no_device(placeholder_key, &mut ops);
            }
            assert(ops_view(ops@) =~= remove_device_ops(o0, key@));
        }
        ops
    }
}

} // verus!
