//! Tray menus: applying property updates to a retained menu tree, choosing
//! the icon pixmap closest to a size, and naming radio-group actions.
use vstd::prelude::*;

use crate::decimal::{dec_signed, i64_to_chars, parse_i32, parse_i32_spec};
use crate::text::{chars_of, string_of};

verus! {

/// Either a standard menu item or a separator.
#[derive(Debug, Clone, Copy, PartialEq, Eq, Default, Structural)]
pub enum MenuType {
    Separator,
    #[default]
    Standard,
}

/// How an item can be toggled.
#[derive(Debug, Clone, Copy, PartialEq, Eq, Default, Structural)]
pub enum ToggleType {
    Checkmark,
    Radio,
    #[default]
    CannotBeToggled,
}

/// The toggle state of an item.
#[derive(Debug, Clone, Copy, PartialEq, Eq, Default, Structural)]
pub enum ToggleState {
    #[default]
    On,
    Off,
    Indeterminate,
}

/// How an item's information should be presented.
#[derive(Debug, Clone, Copy, PartialEq, Eq, Default, Structural)]
pub enum Disposition {
    #[default]
    Normal,
    Informative,
    Warning,
    Alert,
}

/// One entry of a tray menu, with its nested submenu.
#[derive(Debug, Default)]
pub struct MenuItem {
    pub id: i32,
    pub menu_type: MenuType,
    pub label: Option<String>,
    pub enabled: bool,
    pub visible: bool,
    pub icon_name: Option<String>,
    pub icon_data: Option<Vec<u8>>,
    pub shortcut: Option<Vec<Vec<String>>>,
    pub toggle_type: ToggleType,
    pub toggle_state: ToggleState,
    pub children_display: Option<String>,
    pub disposition: Disposition,
    pub submenu: Vec<MenuItem>,
}

/// The properties a menu update changes; `None` leaves a property as it is.
#[derive(Debug, Default)]
pub struct MenuItemUpdate {
    pub label: Option<Option<String>>,
    pub enabled: Option<bool>,
    pub visible: Option<bool>,
    pub icon_name: Option<Option<String>>,
    pub icon_data: Option<Option<Vec<u8>>>,
    pub toggle_state: Option<ToggleState>,
    pub disposition: Option<Disposition>,
}

/// An update for the item with `id`, at any depth of the menu.
#[derive(Debug, Default)]
pub struct MenuDiff {
    pub id: i32,
    pub update: MenuItemUpdate,
    pub remove: Vec<String>,
}

/// An icon image offered by a tray item.
#[derive(Debug, Default)]
pub struct IconPixmap {
    pub width: i32,
    pub height: i32,
    pub pixels: Vec<u8>,
}

/// The characters of an optional string.
pub open spec fn opt_chars(o: Option<String>) -> Option<Seq<char>> {
    match o {
        Some(s) => Some(s@),
        None => None,
    }
}

/// The bytes of an optional byte vector.
pub open spec fn opt_bytes(o: Option<Vec<u8>>) -> Option<Seq<u8>> {
    match o {
        Some(v) => Some(v@),
        None => None,
    }
}

/// An update that changes nothing.
pub open spec fn no_update() -> MenuItemUpdate {
    MenuItemUpdate {
        label: None,
        enabled: None,
        visible: None,
        icon_name: None,
        icon_data: None,
        toggle_state: None,
        disposition: None,
    }
}

/// `n` is `o` with exactly the properties that `u` carries overwritten.
pub open spec fn properties_updated(o: MenuItem, n: MenuItem, u: MenuItemUpdate) -> bool {
    &&& n.id == o.id
    &&& n.menu_type == o.menu_type
    &&& n.shortcut == o.shortcut
    &&& n.toggle_type == o.toggle_type
    &&& n.children_display == o.children_display
    &&& opt_chars(n.label) == (match u.label {
        Some(l) => opt_chars(l),
        None => opt_chars(o.label),
    })
    &&& n.enabled == (match u.enabled {
        Some(e) => e,
        None => o.enabled,
    })
    &&& n.visible == (match u.visible {
        Some(v) => v,
        None => o.visible,
    })
    &&& opt_chars(n.icon_name) == (match u.icon_name {
        Some(i) => opt_chars(i),
        None => opt_chars(o.icon_name),
    })
    &&& opt_bytes(n.icon_data) == (match u.icon_data {
        Some(d) => opt_bytes(d),
        None => opt_bytes(o.icon_data),
    })
    &&& n.toggle_state == (match u.toggle_state {
        Some(t) => t,
        None => o.toggle_state,
    })
    &&& n.disposition == (match u.disposition {
        Some(d) => d,
        None => o.disposition,
    })
}

/// The position of the first diff for item `id`.
pub open spec fn first_diff(diffs: Seq<MenuDiff>, id: i32) -> Option<int>
    decreases diffs.len(),
{
    if diffs.len() == 0 {
        None
    } else {
        match first_diff(diffs.drop_last(), id) {
            Some(k) => Some(k),
            None => if diffs.last().id == id {
                Some(diffs.len() - 1)
            } else {
                None
            },
        }
    }
}

/// The update that applies to item `id`: that of its first diff.
pub open spec fn update_for(diffs: Seq<MenuDiff>, id: i32) -> MenuItemUpdate {
    match first_diff(diffs, id) {
        Some(k) => diffs[k].update,
        None => no_update(),
    }
}

/// `n` is the tree `o` with every item updated by its diff, at every depth.
pub open spec fn item_updated(o: MenuItem, n: MenuItem, diffs: Seq<MenuDiff>) -> bool
    decreases o,
{
    &&& properties_updated(o, n, update_for(diffs, o.id))
    &&& o.submenu@.len() == n.submenu@.len()
    &&& forall|i: int|
        0 <= i < o.submenu@.len() ==> item_updated(
            #[trigger] o.submenu@[i],
            n.submenu@[i],
            diffs,
        )
}

/// `n` is the list of trees `o`, each updated by `diffs`.
pub open spec fn items_updated(o: Seq<MenuItem>, n: Seq<MenuItem>, diffs: Seq<MenuDiff>) -> bool {
    &&& o.len() == n.len()
    &&& forall|i: int| 0 <= i < o.len() ==> item_updated(#[trigger] o[i], n[i], diffs)
}

fn clone_opt_string(o: &Option<String>) -> (r: Option<String>)
    ensures
        opt_chars(r) == opt_chars(*o),
{
    match o {
        Some(s) => Some(s.clone()),
        None => None,
    }
}

fn clone_bytes(v: &Vec<u8>) -> (r: Vec<u8>)
    ensures
        r@ == v@,
{
    let mut out: Vec<u8> = Vec::new();
    let mut i: usize = 0;
    while i < v.len()
        invariant
            i <= v.len(),
            out@ == v@.take(i as int),
        decreases v.len() - i,
    {
        out.push(v[i]);
        i = i + 1;
        assert(out@ =~= v@.take(i as int));
    }
    assert(v@.take(v.len() as int) =~= v@);
    out
}

fn clone_opt_bytes(o: &Option<Vec<u8>>) -> (r: Option<Vec<u8>>)
    ensures
        opt_bytes(r) == opt_bytes(*o),
{
    match o {
        Some(v) => Some(clone_bytes(v)),
        None => None,
    }
}

/// Overwrites exactly the fields the update carries, leaving the rest intact.
pub fn apply_menu_item_update(item: &mut MenuItem, update: &MenuItemUpdate)
    ensures
        properties_updated(*old(item), *final(item), *update),
        final(item).submenu == old(item).submenu,
{
    if let Some(label) = &update.label {
        item.label = clone_opt_string(label);
    }
    if let Some(enabled) = update.enabled {
        item.enabled = enabled;
    }
    if let Some(visible) = update.visible {
        item.visible = visible;
    }
    if let Some(icon_name) = &update.icon_name {
        item.icon_name = clone_opt_string(icon_name);
    }
    if let Some(icon_data) = &update.icon_data {
        item.icon_data = clone_opt_bytes(icon_data);
    }
    if let Some(toggle_state) = update.toggle_state {
        item.toggle_state = toggle_state;
    }
    if let Some(disposition) = update.disposition {
        item.disposition = disposition;
    }
}

fn find_diff(diffs: &[MenuDiff], id: i32) -> (r: Option<usize>)
    ensures
        match r {
            Some(k) => first_diff(diffs@, id) == Some(k as int) && k < diffs@.len(),
            None => first_diff(diffs@, id) is None,
        },
{
    let mut k: usize = 0;
    while k < diffs.len()
        invariant
            k <= diffs.len(),
            first_diff(diffs@.take(k as int), id) is None,
        decreases diffs.len() - k,
    {
        assert(diffs@.take(k + 1).drop_last() =~= diffs@.take(k as int));
        if diffs[k].id == id {
            proof {
                lemma_first_diff_prefix(diffs@, k as int + 1, id);
            }
            return Some(k);
        }
        k = k + 1;
    }
    assert(diffs@.take(diffs.len() as int) =~= diffs@);
    None
}

proof fn lemma_first_diff_prefix(diffs: Seq<MenuDiff>, k: int, id: i32)
    requires
        0 < k <= diffs.len(),
        first_diff(diffs.take(k), id) is Some,
    ensures
        first_diff(diffs, id) == first_diff(diffs.take(k), id),
    decreases diffs.len() - k,
{
    if k < diffs.len() {
        assert(diffs.take(k + 1).drop_last() =~= diffs.take(k));
        lemma_first_diff_prefix(diffs, k + 1, id);
    } else {
        assert(diffs.take(k) =~= diffs);
    }
}

/// Applies every diff to the matching item anywhere in `items`, recursing
/// into nested submenus.  A diff whose id matches no item is ignored.
pub fn apply_menu_diffs(items: &mut Vec<MenuItem>, diffs: &[MenuDiff])
    ensures
        items_updated(old(items)@, final(items)@, diffs@),
    decreases *old(items),
{
    let ghost orig_vec = *items;
    let ghost orig = items@;
    let n = items.len();
    let mut rest: Vec<MenuItem> = Vec::new();
    std::mem::swap(items, &mut rest);
    let mut i: usize = 0;
    while rest.len() > 0
        invariant
            orig.len() == i + rest@.len(),
            orig.len() == n,
            orig_vec@ == orig,
            orig_vec == *old(items),
            rest@ == orig.skip(i as int),
            items@.len() == i,
            forall|j: int| 0 <= j < i ==> item_updated(#[trigger] orig[j], items@[j], diffs@),
        decreases rest.len(),
    {
        let mut item = rest.remove(0);
        let ghost before = item;
        assert(before == orig[i as int]);
        if let Some(k) = find_diff(diffs, item.id) {
            apply_menu_item_update(&mut item, &diffs[k].update);
        } else {
            let ghost same = item;
            assert(properties_updated(same, same, no_update()));
        }
        let ghost mid = item;
        proof {
            assert(decreases_to!(orig => orig[i as int]));
            assert(decreases_to!(before => before.submenu));
            assert(decreases_to!(before.submenu => before.submenu@));
            assert(item.submenu == before.submenu);
            assert(orig_vec@ == orig);
            assert(decreases_to!(orig_vec => orig_vec@));
            assert(decreases_to!(orig_vec@ => orig_vec@[i as int]));
            assert(decreases_to!(orig_vec@[i as int] => orig_vec@[i as int].submenu));
            assert(decreases_to!(orig_vec => item.submenu));
        }
        apply_menu_diffs(&mut item.submenu, diffs);
        assert(item_updated(before, item, diffs@));
        items.push(item);
        assert(rest@ =~= orig.skip(i + 1));
        i = i + 1;
    }
}

/// `v[k]` is the pixmap to use for `size`: the narrowest of those at
/// least `size` wide, or, when none is, the widest; the first such one.
pub open spec fn is_approx_size(v: Seq<IconPixmap>, size: i32, k: int) -> bool {
    &&& 0 <= k < v.len()
    &&& if exists|j: int| 0 <= j < v.len() && #[trigger] v[j].width >= size {
        &&& v[k].width >= size
        &&& forall|j: int| 0 <= j < v.len() && #[trigger] v[j].width >= size ==> v[k].width <= v[j].width
        &&& forall|j: int| 0 <= j < k && #[trigger] v[j].width >= size ==> v[j].width > v[k].width
    } else {
        &&& forall|j: int| 0 <= j < v.len() ==> v[k].width >= #[trigger] v[j].width
        &&& forall|j: int| 0 <= j < k ==> #[trigger] v[j].width < v[k].width
    }
}

/// The position of the pixmap `find_approx_size` picks.
pub fn find_approx_index(v: &[IconPixmap], size: u32) -> (r: Option<usize>)
    ensures
        match r {
            Some(k) => is_approx_size(v@, size as i32, k as int),
            None => v@.len() == 0,
        },
{
    let size = size as i32;
    if v.len() == 0 {
        return None;
    }
    let mut approx: usize = 0;
    let mut i: usize = 1;
    while i < v.len()
        invariant
            1 <= i <= v.len(),
            is_approx_size(v@.take(i as int), size, approx as int),
        decreases v.len() - i,
    {
        let p = v[i].width;
        let a = v[approx].width;
        let ghost prefix = v@.take(i as int);
        let ghost next = v@.take(i + 1);
        proof {
            assert forall|j: int| 0 <= j < i implies #[trigger] next[j] == prefix[j] by {}
            assert(next[i as int] == v@[i as int]);
        }
        if (p >= size && (a < size || p < a)) || (p < size && p > a) {
            approx = i;
        }
        proof {
            if exists|j: int| 0 <= j < prefix.len() && #[trigger] prefix[j].width >= size {
                let j0 = choose|j: int| 0 <= j < prefix.len() && #[trigger] prefix[j].width >= size;
                assert(next[j0].width >= size);
            }
            if exists|j: int| 0 <= j < next.len() && #[trigger] next[j].width >= size {
                if !(exists|j: int| 0 <= j < prefix.len() && #[trigger] prefix[j].width >= size) {
                    assert(v@[i as int].width >= size);
                }
            }
        }
        i = i + 1;
    }
    assert(v@.take(v.len() as int) =~= v@);
    Some(approx)
}

/// Finds the `IconPixmap` which is the smallest but bigger than wanted,
/// or the biggest of all if none are bigger than wanted.
pub fn find_approx_size(v: &[IconPixmap], size: u32) -> (r: Option<&IconPixmap>)
    ensures
        match r {
            Some(p) => exists|k: int| is_approx_size(v@, size as i32, k) && *p == v@[k],
            None => v@.len() == 0,
        },
{
    match find_approx_index(v, size) {
        Some(k) => Some(&v[k]),
        None => None,
    }
}

/// The name of the action shared by the radio group whose first item is
/// `group_id`.
pub open spec fn radio_action_text(group_id: i32) -> Seq<char> {
    "action_radio_"@ + dec_signed(group_id as int)
}

/// Names the action shared by one radio group, after the group's first
/// item, which is unique across the whole menu.
pub fn radio_action_name(group_id: i32) -> (r: String)
    ensures
        r@ == radio_action_text(group_id),
{
    let mut out = chars_of("action_radio_");
    let digits = i64_to_chars(group_id as i64);
    crate::text::append_chars(&mut out, &digits);
    string_of(&out)
}

/// Reads the clicked item's id out of a radio action's state, given the
/// state's text (`None` when the state is not text).
pub fn radio_target_id(state: Option<&str>) -> (r: Option<i32>)
    ensures
        match state {
            None => r is None,
            Some(s) => match parse_i32_spec(s@) {
                Some(v) => r == Some(v as i32),
                None => r is None,
            },
        },
{
    match state {
        None => None,
        Some(s) => {
            let chars = chars_of(s);
            parse_i32(&chars)
        },
    }
}

/// The target text an item of a radio group is registered with.
pub fn radio_target_text(id: i32) -> (r: String)
    ensures
        r@ == dec_signed(id as int),
{
    let digits = i64_to_chars(id as i64);
    string_of(&digits)
}

/// Distinct first items give distinct radio-group action names.
pub proof fn lemma_radio_action_names_distinct(a: i32, b: i32)
    requires
        a != b,
    ensures
        radio_action_text(a) != radio_action_text(b),
{
    crate::decimal::lemma_i32_round_trip(a);
    crate::decimal::lemma_i32_round_trip(b);
    let pre = "action_radio_"@;
    if radio_action_text(a) == radio_action_text(b) {
        assert((pre + dec_signed(a as int)).skip(pre.len() as int) =~= dec_signed(a as int));
        assert((pre + dec_signed(b as int)).skip(pre.len() as int) =~= dec_signed(b as int));
    }
}

/// The target an item is registered with reads back as the item's id.
pub proof fn lemma_radio_target_round_trip(id: i32)
    ensures
        parse_i32_spec(dec_signed(id as int)) == Some(id as int),
{
    crate::decimal::lemma_i32_round_trip(id);
}

/// What a menu entry becomes in the rendered menu.
#[derive(Debug, Clone, Copy, PartialEq, Eq, Structural)]
pub enum MenuEntryPlan {
    /// Not shown.
    Hidden,
    /// A submenu built from the item's own submenu.
    Submenu,
    /// Ends the current section.
    Separator,
    /// A member of the radio group whose first item is `group_id`;
    /// `selected` when the application reports it as the selected one.
    Radio { group_id: i32, selected: bool },
    /// A check item showing `value`.
    Checkmark { value: bool },
    /// An item that is activated when clicked.
    Plain,
    /// An item that cannot be activated.
    Disabled,
}

/// The item opens a submenu.
pub open spec fn opens_submenu(item: MenuItem) -> bool {
    opt_chars(item.children_display) == Some("submenu"@)
}

/// The radio group in progress after an item, given the one before it.
/// A group is a run of consecutive enabled radio items; hidden items and
/// disabled items leave it as it is, and anything else ends it.
pub open spec fn next_radio_group(group: Option<i32>, item: MenuItem) -> Option<i32> {
    if !item.visible {
        group
    } else {
        match item.menu_type {
            MenuType::Separator => None,
            MenuType::Standard => if opens_submenu(item) {
                None
            } else if item.enabled {
                match item.toggle_type {
                    ToggleType::Radio => match group {
                        Some(g) => Some(g),
                        None => Some(item.id),
                    },
                    _ => None,
                }
            } else {
                group
            },
        }
    }
}

/// The radio group in progress just before `items[i]`.
pub open spec fn radio_group_before(items: Seq<MenuItem>, i: int) -> Option<i32>
    decreases i,
{
    if i <= 0 {
        None
    } else {
        next_radio_group(radio_group_before(items, i - 1), items[i - 1])
    }
}

/// What `item` becomes, with `group` the radio group in progress before it.
pub open spec fn entry_plan(item: MenuItem, group: Option<i32>) -> MenuEntryPlan {
    if !item.visible {
        MenuEntryPlan::Hidden
    } else {
        match item.menu_type {
            MenuType::Separator => MenuEntryPlan::Separator,
            MenuType::Standard => if opens_submenu(item) {
                MenuEntryPlan::Submenu
            } else if item.enabled {
                match item.toggle_type {
                    ToggleType::Radio => MenuEntryPlan::Radio {
                        group_id: match group {
                            Some(g) => g,
                            None => item.id,
                        },
                        selected: item.toggle_state == ToggleState::On,
                    },
                    ToggleType::Checkmark => MenuEntryPlan::Checkmark {
                        value: item.toggle_state == ToggleState::On,
                    },
                    ToggleType::CannotBeToggled => MenuEntryPlan::Plain,
                }
            } else {
                MenuEntryPlan::Disabled
            },
        }
    }
}

/// The item is shown as a radio entry: visible, a standard item that opens
/// no submenu, enabled, and a radio item.
pub open spec fn is_radio_entry(item: MenuItem) -> bool {
    item.visible && item.menu_type == MenuType::Standard && !opens_submenu(item) && item.enabled
        && item.toggle_type == ToggleType::Radio
}

/// The item ends a run of radio entries: a shown separator or submenu, or
/// a shown, enabled item that is not a radio item.
pub open spec fn ends_radio_run(item: MenuItem) -> bool {
    item.visible && (item.menu_type == MenuType::Separator || opens_submenu(item) || (item.enabled
        && item.toggle_type != ToggleType::Radio))
}

/// The plan of each item of a menu level.
pub open spec fn plans(items: Seq<MenuItem>) -> Seq<MenuEntryPlan> {
    Seq::new(items.len(), |i: int| entry_plan(items[i], radio_group_before(items, i)))
}

/// Radio groups are runs of consecutive radio entries: each radio entry is
/// planned as a radio entry, selected exactly when its state is on; two
/// adjacent radio entries are in the same group; and a radio entry that
/// starts the menu, or follows an item that ends a run, starts a group
/// named by its own id.
pub proof fn lemma_radio_groups(items: Seq<MenuItem>)
    ensures
        forall|i: int| 0 <= i < items.len() && is_radio_entry(items[i]) ==> {
            &&& #[trigger] plans(items)[i] is Radio
            &&& plans(items)[i]->selected == (items[i].toggle_state == ToggleState::On)
        },
        forall|i: int| 0 <= i && i + 1 < items.len() && is_radio_entry(items[i]) && is_radio_entry(items[i + 1])
            ==> (#[trigger] plans(items)[i])->group_id == plans(items)[i + 1]->group_id,
        forall|i: int| 0 <= i < items.len() && is_radio_entry(items[i]) && (i == 0 || ends_radio_run(items[i - 1]))
            ==> (#[trigger] plans(items)[i])->group_id == items[i].id,
{
    assert forall|i: int| 0 <= i && i + 1 < items.len() && is_radio_entry(items[i]) && is_radio_entry(items[i + 1])
        implies (#[trigger] plans(items)[i])->group_id == plans(items)[i + 1]->group_id by {
        assert(radio_group_before(items, i + 1) == next_radio_group(radio_group_before(items, i), items[i]));
    }
    assert forall|i: int| 0 <= i < items.len() && is_radio_entry(items[i]) && (i == 0 || ends_radio_run(items[i - 1]))
        implies (#[trigger] plans(items)[i])->group_id == items[i].id by {
        if i > 0 {
            assert(radio_group_before(items, i) == next_radio_group(radio_group_before(items, i - 1), items[i - 1]));
        }
        assert(radio_group_before(items, i) is None);
    }
}

/// What each item becomes, apart from radio groups: a hidden item is not
/// shown; a shown separator ends a section; a shown item that opens a
/// submenu is a submenu; a shown item that is disabled cannot be
/// activated; an enabled check item shows whether its state is on; and an
/// enabled item that cannot be toggled is a plain item.
pub proof fn lemma_plan_kinds(items: Seq<MenuItem>)
    ensures
        forall|i: int| 0 <= i < items.len() ==> {
            let it = items[i];
            let r = #[trigger] plans(items)[i];
            &&& !it.visible ==> r == MenuEntryPlan::Hidden
            &&& (it.visible && it.menu_type == MenuType::Separator) ==> r == MenuEntryPlan::Separator
            &&& (it.visible && it.menu_type == MenuType::Standard && opens_submenu(it)) ==> r == MenuEntryPlan::Submenu
            &&& (it.visible && it.menu_type == MenuType::Standard && !opens_submenu(it) && !it.enabled)
                ==> r == MenuEntryPlan::Disabled
            &&& (it.visible && it.menu_type == MenuType::Standard && !opens_submenu(it) && it.enabled
                && it.toggle_type == ToggleType::Checkmark) ==> r == (MenuEntryPlan::Checkmark {
                value: it.toggle_state == ToggleState::On,
            })
            &&& (it.visible && it.menu_type == MenuType::Standard && !opens_submenu(it) && it.enabled
                && it.toggle_type == ToggleType::CannotBeToggled) ==> r == MenuEntryPlan::Plain
        },
{
}

/// Decides, for each item of one menu level, what it becomes; radio
/// groups are the runs of consecutive enabled radio items.
pub fn plan_menu(items: &[MenuItem]) -> (r: Vec<MenuEntryPlan>)
    ensures
        r@.len() == items@.len(),
        forall|i: int| 0 <= i < items@.len() ==> #[trigger] r@[i] == entry_plan(items@[i], radio_group_before(items@, i)),
        forall|i: int| 0 <= i && i + 1 < items@.len() && is_radio_entry(items@[i]) && is_radio_entry(items@[i + 1])
            ==> r@[i] is Radio && r@[i + 1] is Radio && (#[trigger] r@[i])->group_id == r@[i + 1]->group_id,
        forall|i: int| 0 <= i < items@.len() && is_radio_entry(items@[i]) && (i == 0 || ends_radio_run(items@[i - 1]))
            ==> r@[i] is Radio && (#[trigger] r@[i])->group_id == items@[i].id,
        forall|i: int| 0 <= i < items@.len() && is_radio_entry(items@[i])
            ==> #[trigger] r@[i] is Radio && r@[i]->selected == (items@[i].toggle_state == ToggleState::On),
{
    let mut out: Vec<MenuEntryPlan> = Vec::new();
    let mut group: Option<i32> = None;
    let mut i: usize = 0;
    proof {
        reveal_strlit("submenu");
    }
    while i < items.len()
        invariant
            i <= items@.len(),
            out@.len() == i,
            group == radio_group_before(items@, i as int),
            forall|k: int| 0 <= k < i ==> #[trigger] out@[k] == entry_plan(items@[k], radio_group_before(items@, k)),
        decreases items.len() - i,
    {
        let item = &items[i];
        let submenu = match &item.children_display {
            Some(cd) => crate::text::str_eq(cd.as_str(), "submenu"),
            None => false,
        };
        let plan = if !item.visible {
            MenuEntryPlan::Hidden
        } else {
            match item.menu_type {
                MenuType::Separator => {
                    group = None;
                    MenuEntryPlan::Separator
                },
                MenuType::Standard => {
                    if submenu {
                        group = None;
                        MenuEntryPlan::Submenu
                    } else if item.enabled {
                        match item.toggle_type {
                            ToggleType::Radio => {
                                let g = match group {
                                    Some(g) => g,
                                    None => item.id,
                                };
                                group = Some(g);
                                MenuEntryPlan::Radio {
                                    group_id: g,
                                    selected: item.toggle_state == ToggleState::On,
                                }
                            },
                            ToggleType::Checkmark => {
                                group = None;
                                MenuEntryPlan::Checkmark { value: item.toggle_state == ToggleState::On }
                            },
                            ToggleType::CannotBeToggled => {
                                group = None;
                                MenuEntryPlan::Plain
                            },
                        }
                    } else {
                        MenuEntryPlan::Disabled
                    }
                },
            }
        };
        out.push(plan);
        i = i + 1;
    }
    proof {
        lemma_radio_groups(items@);
        assert(out@ =~= plans(items@));
    }
    out
}

/// The action name of an item that is not part of a radio group.
pub open spec fn item_action_text(id: i32) -> Seq<char> {
    "action_"@ + dec_signed(id as int)
}

/// Names the action of an item that is not part of a radio group.
pub fn item_action_name(id: i32) -> (r: String)
    ensures
        r@ == item_action_text(id),
{
    let mut out = chars_of("action_");
    let digits = i64_to_chars(id as i64);
    crate::text::append_chars(&mut out, &digits);
    string_of(&out)
}

} // verus!
