//! Tray icons: what each mouse button does, and what a click leads to.
use vstd::prelude::*;

use crate::custom::Orientation;
use crate::text::{owned, replace_all, replace_str, str_eq};
use crate::tray::{IconPixmap, opt_chars};

verus! {

/// A built-in click action of a tray icon.
#[derive(Debug, Clone, Copy, PartialEq, Eq, Structural)]
pub enum ReservedTrayAction {
    /// Open the icon's popup menu.
    Menu,
    /// Trigger the icon's default (primary) action.
    Default,
    /// Trigger the icon's secondary action.
    Secondary,
    /// Do nothing.
    NoAction,
}

/// What a click on a tray icon does: a built-in action or a shell command.
#[derive(Debug)]
pub enum TrayClickAction {
    Reserved(ReservedTrayAction),
    Custom(String),
}

impl TrayClickAction {
    /// Whether the action does anything at all.
    pub open spec fn actionable(&self) -> bool {
        !(self matches TrayClickAction::Reserved(ReservedTrayAction::NoAction))
    }

    /// Whether the action does anything at all.
    pub fn is_actionable(&self) -> (r: bool)
        ensures
            r == self.actionable(),
    {
        match self {
            TrayClickAction::Reserved(ReservedTrayAction::NoAction) => false,
            _ => true,
        }
    }
}

impl Default for TrayClickAction {
    fn default() -> (r: Self)
        ensures
            r == TrayClickAction::Reserved(ReservedTrayAction::NoAction),
    {
        TrayClickAction::Reserved(ReservedTrayAction::NoAction)
    }
}

/// The click actions of a tray icon, per button and for single and double
/// clicks.
#[derive(Debug)]
pub struct TrayClickHandlers {
    pub on_click_left: TrayClickAction,
    pub on_click_right: TrayClickAction,
    pub on_click_middle: TrayClickAction,
    pub on_click_left_double: TrayClickAction,
    pub on_click_right_double: TrayClickAction,
    pub on_click_middle_double: TrayClickAction,
}

impl Default for TrayClickHandlers {
    /// A left click triggers the default action and a right click opens the
    /// menu; nothing else is bound.
    fn default() -> (r: Self)
        ensures
            r.on_click_left == TrayClickAction::Reserved(ReservedTrayAction::Default),
            r.on_click_right == TrayClickAction::Reserved(ReservedTrayAction::Menu),
            r.on_click_middle == TrayClickAction::Reserved(ReservedTrayAction::NoAction),
            r.on_click_left_double == TrayClickAction::Reserved(ReservedTrayAction::NoAction),
            r.on_click_right_double == TrayClickAction::Reserved(ReservedTrayAction::NoAction),
            r.on_click_middle_double == TrayClickAction::Reserved(ReservedTrayAction::NoAction),
    {
        TrayClickHandlers {
            on_click_left: TrayClickAction::Reserved(ReservedTrayAction::Default),
            on_click_right: TrayClickAction::Reserved(ReservedTrayAction::Menu),
            on_click_middle: TrayClickAction::Reserved(ReservedTrayAction::NoAction),
            on_click_left_double: TrayClickAction::Reserved(ReservedTrayAction::NoAction),
            on_click_right_double: TrayClickAction::Reserved(ReservedTrayAction::NoAction),
            on_click_middle_double: TrayClickAction::Reserved(ReservedTrayAction::NoAction),
        }
    }
}

/// A mouse button that a tray icon reacts to.
#[derive(Debug, Clone, Copy, PartialEq, Eq, Structural)]
pub enum ClickButton {
    Primary,
    Secondary,
    Middle,
}

impl TrayClickHandlers {
    /// The single-click and double-click actions bound to a button.
    pub open spec fn actions_of(&self, button: ClickButton) -> (TrayClickAction, TrayClickAction) {
        match button {
            ClickButton::Primary => (self.on_click_left, self.on_click_left_double),
            ClickButton::Secondary => (self.on_click_right, self.on_click_right_double),
            ClickButton::Middle => (self.on_click_middle, self.on_click_middle_double),
        }
    }

    /// How a button is wired up: `None` when neither its single nor its
    /// double click does anything, so that no handler is attached; otherwise
    /// `Some(d)`, where `d` says whether a separate double-click handler is
    /// attached.
    pub fn button_binding(&self, button: ClickButton) -> (r: Option<bool>)
        ensures
            r == (if self.actions_of(button).0.actionable() || self.actions_of(button).1.actionable() {
                Some(self.actions_of(button).1.actionable())
            } else {
                None::<bool>
            }),
    {
        let (single, double) = match button {
            ClickButton::Primary => (&self.on_click_left, &self.on_click_left_double),
            ClickButton::Secondary => (&self.on_click_right, &self.on_click_right_double),
            ClickButton::Middle => (&self.on_click_middle, &self.on_click_middle_double),
        };
        let double_bound = double.is_actionable();
        if single.is_actionable() || double_bound {
            Some(double_bound)
        } else {
            None
        }
    }
}

/// The tray module's configuration.
#[derive(Debug)]
pub struct TrayModule {
    /// Prefer theme icons over the pixmaps items provide.
    pub prefer_theme_icons: bool,
    /// Size in pixels of the icons.
    pub icon_size: u32,
    /// How the icons are packed; `None` follows the bar.
    pub direction: Option<Orientation>,
    pub click_handlers: TrayClickHandlers,
}

impl Default for TrayModule {
    fn default() -> (r: Self)
        ensures
            r.prefer_theme_icons,
            r.icon_size == 16,
            r.direction is None,
            r.click_handlers.on_click_left == TrayClickAction::Reserved(ReservedTrayAction::Default),
            r.click_handlers.on_click_right == TrayClickAction::Reserved(ReservedTrayAction::Menu),
            !r.click_handlers.on_click_middle.actionable(),
            !r.click_handlers.on_click_left_double.actionable(),
            !r.click_handlers.on_click_right_double.actionable(),
            !r.click_handlers.on_click_middle_double.actionable(),
    {
        TrayModule {
            prefer_theme_icons: true,
            icon_size: 16,
            direction: None,
            click_handlers: TrayClickHandlers::default(),
        }
    }
}

/// The name a tray item goes by in commands: its id, or its address when
/// the id is empty.
pub open spec fn item_name_text(id: Seq<char>, address: Seq<char>) -> Seq<char> {
    if id.len() > 0 {
        id
    } else {
        address
    }
}

/// The name a tray item goes by in commands.
pub fn tray_item_name(id: &str, address: &str) -> (r: String)
    ensures
        r@ == item_name_text(id@, address@),
{
    proof {
        reveal_strlit("");
    }
    if str_eq(id, "") {
        owned(address)
    } else {
        assert(id@.len() > 0) by {
            if id@.len() == 0 {
                assert(id@ =~= ""@);
            }
        }
        owned(id)
    }
}

/// What a click leads to.
#[derive(Debug)]
pub enum ClickEffect {
    /// Show the icon's popup menu.
    OpenPopup,
    /// Ask the item to run its default action.
    ActivateDefault,
    /// Ask the item to run its secondary action.
    ActivateSecondary,
    /// Nothing happens.
    Ignore,
    /// Run a shell command.
    RunCommand(String),
}

/// The text of an optional value, empty when there is none.
pub open spec fn or_empty(o: Option<Seq<char>>) -> Seq<char> {
    match o {
        Some(s) => s,
        None => Seq::empty(),
    }
}

/// A custom command with its placeholders filled in, one after the other:
/// `{name}`, `{title}`, `{icon}`, then `{address}`.
pub open spec fn command_text(
    cmd: Seq<char>,
    name: Seq<char>,
    title: Seq<char>,
    icon: Seq<char>,
    address: Seq<char>,
) -> Seq<char> {
    replace_all(
        replace_all(
            replace_all(replace_all(cmd, "{name}"@, name), "{title}"@, title),
            "{icon}"@,
            icon,
        ),
        "{address}"@,
        address,
    )
}

/// The view of an optional text.
pub open spec fn opt_view(o: Option<&str>) -> Option<Seq<char>> {
    match o {
        Some(s) => Some(s@),
        None => None,
    }
}

fn text_or_empty(o: Option<&str>) -> (r: String)
    ensures
        r@ == or_empty(opt_view(o)),
{
    match o {
        Some(s) => owned(s),
        None => String::new(),
    }
}

/// What clicking an icon with `action` bound leads to.  The menu action
/// opens the popup when the item has a menu and falls back to the secondary
/// action otherwise; a custom command gets the item's details substituted
/// for its placeholders.
pub fn click_effect(
    action: &TrayClickAction,
    has_menu: bool,
    name: &str,
    title: Option<&str>,
    icon_name: Option<&str>,
    address: &str,
) -> (r: ClickEffect)
    ensures
        match *action {
            TrayClickAction::Reserved(ReservedTrayAction::Menu) => if has_menu {
                r is OpenPopup
            } else {
                r is ActivateSecondary
            },
            TrayClickAction::Reserved(ReservedTrayAction::Default) => r is ActivateDefault,
            TrayClickAction::Reserved(ReservedTrayAction::Secondary) => r is ActivateSecondary,
            TrayClickAction::Reserved(ReservedTrayAction::NoAction) => r is Ignore,
            TrayClickAction::Custom(cmd) => r matches ClickEffect::RunCommand(c) && c@
                == command_text(
                cmd@,
                name@,
                or_empty(opt_view(title)),
                or_empty(opt_view(icon_name)),
                address@,
            ),
        },
{
    match action {
        TrayClickAction::Reserved(ReservedTrayAction::Menu) => {
            if has_menu {
                ClickEffect::OpenPopup
            } else {
                ClickEffect::ActivateSecondary
            }
        },
        TrayClickAction::Reserved(ReservedTrayAction::Default) => ClickEffect::ActivateDefault,
        TrayClickAction::Reserved(ReservedTrayAction::Secondary) => ClickEffect::ActivateSecondary,
        TrayClickAction::Reserved(ReservedTrayAction::NoAction) => ClickEffect::Ignore,
        TrayClickAction::Custom(cmd) => {
            let title_text = text_or_empty(title);
            let icon_text = text_or_empty(icon_name);
            let c1 = replace_str(cmd.as_str(), "{name}", name);
            let c2 = replace_str(c1.as_str(), "{title}", title_text.as_str());
            let c3 = replace_str(c2.as_str(), "{icon}", icon_text.as_str());
            let c4 = replace_str(c3.as_str(), "{address}", address);
            ClickEffect::RunCommand(c4)
        },
    }
}

/// The status a tray item reports.
#[derive(Debug, Clone, Copy, PartialEq, Eq, Structural)]
pub enum ItemStatus {
    Unknown,
    Passive,
    Active,
    NeedsAttention,
}

/// How an item's status shows on its icon: `(visible, urgent)`.  A passive
/// item is hidden, and an item that needs attention is marked urgent.
pub fn status_presentation(status: ItemStatus) -> (r: (bool, bool))
    ensures
        r == (status != ItemStatus::Passive, status == ItemStatus::NeedsAttention),
{
    let visible = match status {
        ItemStatus::Passive => false,
        _ => true,
    };
    let urgent = match status {
        ItemStatus::NeedsAttention => true,
        _ => false,
    };
    (visible, urgent)
}

/// What an icon pixmap holds: width, height and pixel bytes.
pub open spec fn pixmap_view(p: IconPixmap) -> (i32, i32, Seq<u8>) {
    (p.width, p.height, p.pixels@)
}

/// What a list of pixmaps holds.
pub open spec fn pixmaps_view(v: Seq<IconPixmap>) -> Seq<(i32, i32, Seq<u8>)> {
    v.map_values(|p: IconPixmap| pixmap_view(p))
}

/// What an optional list of pixmaps holds.
pub open spec fn opt_pixmaps(o: Option<Vec<IconPixmap>>) -> Option<Seq<(i32, i32, Seq<u8>)>> {
    match o {
        Some(v) => Some(pixmaps_view(v@)),
        None => None,
    }
}

fn bytes_eq(a: &Vec<u8>, b: &Vec<u8>) -> (r: bool)
    ensures
        r == (a@ == b@),
{
    if a.len() != b.len() {
        return false;
    }
    let mut i: usize = 0;
    while i < a.len()
        invariant
            a.len() == b.len(),
            i <= a.len(),
            forall|k: int| 0 <= k < i ==> a@[k] == b@[k],
        decreases a.len() - i,
    {
        if a[i] != b[i] {
            return false;
        }
        i = i + 1;
    }
    assert(a@ =~= b@);
    true
}

fn pixmaps_eq(a: &Vec<IconPixmap>, b: &Vec<IconPixmap>) -> (r: bool)
    ensures
        r == (pixmaps_view(a@) == pixmaps_view(b@)),
{
    if a.len() != b.len() {
        assert(pixmaps_view(a@).len() != pixmaps_view(b@).len());
        return false;
    }
    let mut i: usize = 0;
    while i < a.len()
        invariant
            a.len() == b.len(),
            i <= a.len(),
            forall|k: int| 0 <= k < i ==> pixmap_view(#[trigger] a@[k]) == pixmap_view(b@[k]),
        decreases a.len() - i,
    {
        let pa = &a[i];
        let pb = &b[i];
        if pa.width != pb.width || pa.height != pb.height || !bytes_eq(&pa.pixels, &pb.pixels) {
            assert(pixmaps_view(a@)[i as int] != pixmaps_view(b@)[i as int]);
            return false;
        }
        i = i + 1;
    }
    assert(pixmaps_view(a@) =~= pixmaps_view(b@));
    true
}

fn opt_str_eq(a: &Option<String>, b: &Option<String>) -> (r: bool)
    ensures
        r == (opt_chars(*a) == opt_chars(*b)),
{
    match (a, b) {
        (Some(x), Some(y)) => str_eq(x.as_str(), y.as_str()),
        (None, None) => true,
        _ => false,
    }
}

/// Whether an icon update changes what the item shows: its icon name or
/// its pixmaps differ from the current ones.
pub fn icon_changed(
    current_name: &Option<String>,
    current_pixmaps: &Option<Vec<IconPixmap>>,
    new_name: &Option<String>,
    new_pixmaps: &Option<Vec<IconPixmap>>,
) -> (r: bool)
    ensures
        r == (opt_chars(*current_name) != opt_chars(*new_name) || opt_pixmaps(*current_pixmaps)
            != opt_pixmaps(*new_pixmaps)),
{
    if !opt_str_eq(current_name, new_name) {
        return true;
    }
    match (current_pixmaps, new_pixmaps) {
        (Some(a), Some(b)) => !pixmaps_eq(a, b),
        (None, None) => false,
        _ => true,
    }
}

/// The text an item shows when no icon can be loaded: its title, or its
/// address when it has none.
pub fn fallback_label(title: Option<&str>, address: &str) -> (r: String)
    ensures
        r@ == match opt_view(title) {
            Some(t) => t,
            None => address@,
        },
{
    match title {
        Some(t) => owned(t),
        None => owned(address),
    }
}

} // verus!
