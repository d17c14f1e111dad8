//! The application menu: its configured sections, the index from
//! desktop-file categories to sections, and the placing of applications
//! into sections in sorted order.
use vstd::prelude::*;

use indexmap::IndexMap;

pub mod config;
pub mod maps;
pub mod order;
pub mod sections;

use self::maps::application_entries;

verus! {

/// A section of applications from the desktop files' categories.
#[derive(Debug)]
pub struct XdgEntry {
    /// Text to display on the button.
    pub label: String,
    /// Name of the image icon to show next to the label.
    pub icon: Option<String>,
    /// Categories the section's submenu contains.
    pub categories: Vec<String>,
}

/// An individual shell command entry.
#[derive(Debug)]
pub struct CustomEntry {
    /// Text to display on the button.
    pub label: String,
    /// Name of the image icon to show next to the label.
    pub icon: Option<String>,
    /// Shell command run (with `sh -c`) when the button is clicked.
    pub on_click: String,
}

/// An entry of the configured menu.
#[derive(Debug)]
pub enum MenuConfig {
    /// All applications in the given categories.
    XdgEntry(XdgEntry),
    /// All applications not covered by any section's categories.
    XdgOther,
    /// A shell command.
    Custom(CustomEntry),
}

/// An application listed by a desktop file.
#[derive(Debug)]
pub struct MenuApplication {
    pub label: String,
    pub file_name: String,
    pub categories: Vec<String>,
}

/// A section's button and submenu: the applications by label.
#[derive(Debug)]
pub struct XdgSection {
    pub label: String,
    pub icon: Option<String>,
    pub applications: IndexMap<String, MenuApplication>,
}

/// An entry of the main menu.
#[derive(Debug)]
pub enum MenuEntry {
    Xdg(XdgSection),
    Custom(CustomEntry),
}

/// The text of an optional string.
pub open spec fn opt_view(o: Option<String>) -> Option<Seq<char>> {
    match o {
        Some(s) => Some(s@),
        None => None,
    }
}

/// The texts of a list of strings.
pub open spec fn strings_view(v: Seq<String>) -> Seq<Seq<char>> {
    v.map_values(|s: String| s@)
}

/// A configured entry, as values.
pub enum ConfigView {
    Xdg { label: Seq<char>, icon: Option<Seq<char>>, categories: Seq<Seq<char>> },
    Other,
    Custom { label: Seq<char>, icon: Option<Seq<char>>, on_click: Seq<char> },
}

impl View for MenuConfig {
    type V = ConfigView;

    open spec fn view(&self) -> ConfigView {
        match self {
            MenuConfig::XdgEntry(e) => ConfigView::Xdg {
                label: e.label@,
                icon: opt_view(e.icon),
                categories: strings_view(e.categories@),
            },
            MenuConfig::XdgOther => ConfigView::Other,
            MenuConfig::Custom(e) => ConfigView::Custom {
                label: e.label@,
                icon: opt_view(e.icon),
                on_click: e.on_click@,
            },
        }
    }
}

/// The values of a list of configured entries.
pub open spec fn configs_view(s: Seq<MenuConfig>) -> Seq<ConfigView> {
    s.map_values(|c: MenuConfig| c@)
}

/// An application, as values: label, desktop file name, categories.
pub type AppView = (Seq<char>, Seq<char>, Seq<Seq<char>>);

impl View for MenuApplication {
    type V = AppView;

    open spec fn view(&self) -> AppView {
        (self.label@, self.file_name@, strings_view(self.categories@))
    }
}

/// The values of a list of applications.
pub open spec fn apps_view(s: Seq<MenuApplication>) -> Seq<AppView> {
    s.map_values(|a: MenuApplication| a@)
}

/// A menu entry, as values; a section lists its applications by label.
pub enum EntryView {
    Xdg { label: Seq<char>, icon: Option<Seq<char>>, applications: Seq<(Seq<char>, AppView)> },
    Custom { label: Seq<char>, icon: Option<Seq<char>>, on_click: Seq<char> },
}

/// The values of a menu entry.
pub open spec fn entry_view(e: MenuEntry) -> EntryView {
    match e {
        MenuEntry::Xdg(s) => EntryView::Xdg {
            label: s.label@,
            icon: opt_view(s.icon),
            applications: application_entries(s.applications),
        },
        MenuEntry::Custom(c) => EntryView::Custom {
            label: c.label@,
            icon: opt_view(c.icon),
            on_click: c.on_click@,
        },
    }
}

/// A copy of an optional string.
pub fn clone_opt(o: &Option<String>) -> (r: Option<String>)
    ensures
        opt_view(r) == opt_view(*o),
{
    match o {
        Some(s) => Some(s.clone()),
        None => None,
    }
}

/// A copy of a list of strings.
pub fn clone_strings(v: &Vec<String>) -> (r: Vec<String>)
    ensures
        strings_view(r@) == strings_view(v@),
{
    let mut r: Vec<String> = Vec::new();
    let mut i: usize = 0;
    while i < v.len()
        invariant
            i <= v.len(),
            strings_view(r@) == strings_view(v@.take(i as int)),
        decreases v.len() - i,
    {
        let ghost before = r@;
        let c = v[i].clone();
        r.push(c);
        proof {
            assert(v@.take(i + 1) =~= v@.take(i as int).push(v@[i as int]));
            assert(r@ =~= before.push(c));
            assert(strings_view(r@) =~= strings_view(before).push(c@));
            assert(strings_view(v@.take(i + 1)) =~= strings_view(v@.take(i as int)).push(v@[i as int]@));
        }
        i = i + 1;
    }
    assert(v@.take(v.len() as int) =~= v@);
    r
}

impl MenuApplication {
    /// A copy of the application.
    pub fn duplicate(&self) -> (r: MenuApplication)
        ensures
            r@ == self@,
    {
        MenuApplication {
            label: self.label.clone(),
            file_name: self.file_name.clone(),
            categories: clone_strings(&self.categories),
        }
    }
}

impl MenuEntry {
    /// The entry's label.
    pub fn label(&self) -> (r: String)
        ensures
            r@ == match entry_view(*self) {
                EntryView::Xdg { label, .. } => label,
                EntryView::Custom { label, .. } => label,
            },
    {
        match self {
            MenuEntry::Xdg(entry) => entry.label.clone(),
            MenuEntry::Custom(entry) => entry.label.clone(),
        }
    }

    /// The entry's icon name, if it has one.
    pub fn icon(&self) -> (r: Option<String>)
        ensures
            opt_view(r) == match entry_view(*self) {
                EntryView::Xdg { icon, .. } => icon,
                EntryView::Custom { icon, .. } => icon,
            },
    {
        match self {
            MenuEntry::Xdg(entry) => clone_opt(&entry.icon),
            MenuEntry::Custom(entry) => clone_opt(&entry.icon),
        }
    }
}

} // verus!
