//! The menu's default sections and where its popup aligns.
use vstd::prelude::*;

use crate::text::owned;

use super::{ConfigView, MenuConfig, XdgEntry, configs_view};

verus! {

/// A section of categories, as values.
pub open spec fn xdg(label: Seq<char>, icon: Seq<char>, categories: Seq<Seq<char>>) -> ConfigView {
    ConfigView::Xdg { label, icon: Some(icon), categories }
}

/// The default centre of the menu: sections covering the common
/// application categories, then "Other", then settings.
pub open spec fn default_menu_view() -> Seq<ConfigView> {
    seq![
        xdg("Accessories"@, "accessories"@, seq!["Accessibility"@, "Core"@, "Legacy"@, "Utility"@]),
        xdg("Development"@, "applications-development"@, seq!["Development"@]),
        xdg("Education"@, "applications-education"@, seq!["Education"@]),
        xdg("Games"@, "applications-games"@, seq!["Game"@]),
        xdg("Graphics"@, "applications-graphics"@, seq!["Graphics"@]),
        xdg("Multimedia"@, "applications-multimedia"@, seq!["Audio"@, "Video"@, "AudioVideo"@]),
        xdg("Network"@, "applications-internet"@, seq!["Network"@]),
        xdg("Office"@, "applications-office"@, seq!["Office"@]),
        xdg("Science"@, "applications-science"@, seq!["Science"@]),
        xdg("System"@, "applications-system"@, seq!["Emulator"@, "System"@]),
        ConfigView::Other,
        xdg("Settings"@, "preferences-system"@, seq!["Settings"@, "Screensaver"@]),
    ]
}

/// A section of categories.
fn section(label: &str, icon: &str, categories: Vec<&str>) -> (r: MenuConfig)
    ensures
        r@ == xdg(label@, icon@, categories@.map_values(|c: &str| c@)),
{
    let mut cats: Vec<String> = Vec::new();
    let mut i: usize = 0;
    while i < categories.len()
        invariant
            i <= categories.len(),
            super::strings_view(cats@) == categories@.take(i as int).map_values(|c: &str| c@),
        decreases categories.len() - i,
    {
        let ghost before = cats@;
        let c = owned(categories[i]);
        cats.push(c);
        proof {
            let t0 = categories@.take(i as int);
            let t1 = categories@.take(i + 1);
            assert(t1 =~= t0.push(categories@[i as int]));
            assert(t1.map_values(|c: &str| c@) =~= t0.map_values(|c: &str| c@).push(categories@[i as int]@));
            assert(cats@ =~= before.push(c));
            assert(super::strings_view(cats@) =~= super::strings_view(before).push(c@));
        }
        i = i + 1;
    }
    assert(categories@.take(categories.len() as int) =~= categories@);
    MenuConfig::XdgEntry(XdgEntry { label: owned(label), icon: Some(owned(icon)), categories: cats })
}

/// The default centre of the menu.
pub fn default_menu() -> (r: Vec<MenuConfig>)
    ensures
        configs_view(r@) == default_menu_view(),
{
    let mut v: Vec<MenuConfig> = Vec::new();
    v.push(section("Accessories", "accessories", vec!["Accessibility", "Core", "Legacy", "Utility"]));
    v.push(section("Development", "applications-development", vec!["Development"]));
    v.push(section("Education", "applications-education", vec!["Education"]));
    v.push(section("Games", "applications-games", vec!["Game"]));
    v.push(section("Graphics", "applications-graphics", vec!["Graphics"]));
    v.push(section("Multimedia", "applications-multimedia", vec!["Audio", "Video", "AudioVideo"]));
    v.push(section("Network", "applications-internet", vec!["Network"]));
    v.push(section("Office", "applications-office", vec!["Office"]));
    v.push(section("Science", "applications-science", vec!["Science"]));
    v.push(section("System", "applications-system", vec!["Emulator", "System"]));
    v.push(MenuConfig::XdgOther);
    v.push(section("Settings", "preferences-system", vec!["Settings", "Screensaver"]));
    proof {
        let d = default_menu_view();
        assert(configs_view(v@).len() == d.len());
        assert forall|k: int| 0 <= k < d.len() implies #[trigger] configs_view(v@)[k] == d[k] by {
            assert(configs_view(v@)[k] == v@[k]@);
            match d[k] {
                ConfigView::Xdg { categories, .. } => {
                    assert(v@[k]@->categories =~= categories);
                },
                _ => {},
            }
        }
        assert(configs_view(v@) =~= d);
    }
    v
}

/// The edge of the bar the bar sits on.
#[derive(Debug, Clone, Copy, PartialEq, Eq, Structural)]
pub enum BarPosition {
    Top,
    Bottom,
    Left,
    Right,
}

/// Where on the bar a module sits.
#[derive(Debug, Clone, Copy, PartialEq, Eq, Structural)]
pub enum ModuleLocation {
    Left,
    Center,
    Right,
}

/// How the menu's columns align vertically.
#[derive(Debug, Clone, Copy, PartialEq, Eq, Structural)]
pub enum MenuAlign {
    Start,
    End,
}

/// A menu of fixed height aligns to the top; otherwise it aligns to the
/// bar's edge: the top for a top bar, the bottom for a bottom bar, and on
/// a side bar by the module's place (the end for the right part).
pub open spec fn spec_popup_alignment(fixed_height: bool, bar: BarPosition, location: ModuleLocation) -> MenuAlign {
    if fixed_height {
        MenuAlign::Start
    } else {
        match bar {
            BarPosition::Top => MenuAlign::Start,
            BarPosition::Bottom => MenuAlign::End,
            _ => match location {
                ModuleLocation::Right => MenuAlign::End,
                _ => MenuAlign::Start,
            },
        }
    }
}

/// The vertical alignment of the menu's columns.
pub fn popup_alignment(fixed_height: bool, bar: BarPosition, location: ModuleLocation) -> (r: MenuAlign)
    ensures
        r == spec_popup_alignment(fixed_height, bar, location),
{
    if fixed_height {
        MenuAlign::Start
    } else {
        match bar {
            BarPosition::Top => MenuAlign::Start,
            BarPosition::Bottom => MenuAlign::End,
            _ => match location {
                ModuleLocation::Right => MenuAlign::End,
                _ => MenuAlign::Start,
            },
        }
    }
}

} // verus!
