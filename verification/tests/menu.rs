use indexmap::IndexMap;
use ironbar_core::menu::config::{
    BarPosition, MenuAlign, ModuleLocation, default_menu, popup_alignment,
};
use ironbar_core::menu::sections::{
    DesktopEntry, build_sections, is_placed, menu_applications, parse_config, place_applications,
};
use ironbar_core::menu::{CustomEntry, MenuApplication, MenuConfig, MenuEntry, XdgEntry};

fn app(label: &str, cats: &[&str]) -> MenuApplication {
    MenuApplication {
        label: label.to_string(),
        file_name: format!("{label}.desktop"),
        categories: cats.iter().map(|c| c.to_string()).collect(),
    }
}

fn section_labels(entries: &IndexMap<String, MenuEntry>, key: &str) -> Vec<String> {
    match entries.get(key) {
        Some(MenuEntry::Xdg(s)) => s.applications.keys().cloned().collect(),
        _ => panic!("no section {key}"),
    }
}

#[test]
fn default_menu_has_twelve_entries_with_other() {
    let menu = default_menu();
    assert_eq!(menu.len(), 12);
    assert!(matches!(&menu[10], MenuConfig::XdgOther));
    assert!(matches!(&menu[0], MenuConfig::XdgEntry(e) if e.label == "Accessories" && e.categories.len() == 4));
    assert!(matches!(&menu[11], MenuConfig::XdgEntry(e) if e.icon.as_deref() == Some("preferences-system")));
}

#[test]
fn parse_config_indexes_categories() {
    let mut cats = IndexMap::new();
    let entries = parse_config(default_menu(), &mut cats);
    assert_eq!(entries.len(), 12);
    assert_eq!(entries.get_index(0).unwrap().0, "Accessories");
    assert_eq!(cats.get("Utility").unwrap(), &vec!["Accessories".to_string()]);
    assert_eq!(cats.get("Emulator").unwrap(), &vec!["System".to_string()]);
    assert!(cats.get("Other").is_none());
    match entries.get("Other") {
        Some(MenuEntry::Xdg(s)) => {
            assert_eq!(s.label, "Other");
            assert_eq!(s.icon.as_deref(), Some("applications-other"));
        }
        _ => panic!("Other section missing"),
    }
}

#[test]
fn parse_config_later_label_replaces_earlier() {
    let mut cats = IndexMap::new();
    let cfg = vec![
        MenuConfig::XdgEntry(XdgEntry {
            label: "Tools".to_string(),
            icon: None,
            categories: vec!["Utility".to_string()],
        }),
        MenuConfig::Custom(CustomEntry {
            label: "Lock".to_string(),
            icon: None,
            on_click: "loginctl lock-session".to_string(),
        }),
        MenuConfig::XdgEntry(XdgEntry {
            label: "Tools".to_string(),
            icon: Some("t".to_string()),
            categories: vec!["Utility".to_string(), "Core".to_string()],
        }),
    ];
    let entries = parse_config(cfg, &mut cats);
    assert_eq!(entries.len(), 2);
    assert_eq!(entries.get_index(0).unwrap().0, "Tools");
    assert_eq!(entries.get("Tools").unwrap().icon().as_deref(), Some("t"));
    assert_eq!(entries.get("Lock").unwrap().label(), "Lock");
    assert_eq!(cats.get("Utility").unwrap(), &vec!["Tools".to_string(), "Tools".to_string()]);
    assert_eq!(cats.get("Core").unwrap(), &vec!["Tools".to_string()]);
}

#[test]
fn applications_are_placed_sorted_by_label() {
    let mut cats = IndexMap::new();
    let mut start = parse_config(vec![], &mut cats);
    let mut center = parse_config(default_menu(), &mut cats);
    let mut end = parse_config(vec![], &mut cats);
    let apps = vec![
        app("Zed", &["Development"]),
        app("Atom", &["Development", "Utility"]),
        app("Thing", &["Unknown"]),
        app("NoCat", &[]),
        app("Atom", &["Development"]),
    ];
    place_applications(&apps, &cats, &mut start, &mut center, &mut end);
    assert_eq!(section_labels(&center, "Development"), vec!["Atom", "Zed"]);
    assert_eq!(section_labels(&center, "Accessories"), vec!["Atom"]);
    assert_eq!(section_labels(&center, "Other"), vec!["NoCat", "Thing"]);
    assert!(section_labels(&center, "Games").is_empty());
    // A second update adds to what is there.
    place_applications(&vec![app("Blender", &["Graphics", "Development"])], &cats, &mut start, &mut center, &mut end);
    assert_eq!(section_labels(&center, "Development"), vec!["Atom", "Blender", "Zed"]);
}

#[test]
fn is_placed_checks_categories_and_other() {
    let mut cats = IndexMap::new();
    let _ = parse_config(default_menu(), &mut cats);
    assert!(is_placed(&app("a", &["Game"]), &cats, "Games", false));
    assert!(!is_placed(&app("a", &["Game"]), &cats, "Other", true));
    assert!(is_placed(&app("a", &["Nope"]), &cats, "Other", true));
    assert!(!is_placed(&app("a", &["Nope"]), &cats, "Other", false));
}

#[test]
fn menu_applications_keeps_visible_applications() {
    let files = vec![
        DesktopEntry {
            file_name: "a.desktop".to_string(),
            name: Some("A".to_string()),
            app_type: Some("Application".to_string()),
            no_display: None,
            categories: vec!["Game".to_string()],
        },
        DesktopEntry {
            file_name: "b.desktop".to_string(),
            name: Some("B".to_string()),
            app_type: Some("Application".to_string()),
            no_display: Some(true),
            categories: vec![],
        },
        DesktopEntry {
            file_name: "c.desktop".to_string(),
            name: None,
            app_type: Some("Application".to_string()),
            no_display: Some(false),
            categories: vec![],
        },
        DesktopEntry {
            file_name: "d.desktop".to_string(),
            name: Some("D".to_string()),
            app_type: Some("Link".to_string()),
            no_display: None,
            categories: vec![],
        },
    ];
    let apps = menu_applications(files);
    assert_eq!(apps.len(), 2);
    assert_eq!(apps[0].label, "A");
    assert_eq!(apps[0].categories, vec!["Game".to_string()]);
    assert_eq!(apps[1].label, "");
    assert_eq!(apps[1].file_name, "c.desktop");
}

#[test]
fn popup_alignment_follows_bar() {
    assert_eq!(popup_alignment(true, BarPosition::Bottom, ModuleLocation::Right), MenuAlign::Start);
    assert_eq!(popup_alignment(false, BarPosition::Top, ModuleLocation::Right), MenuAlign::Start);
    assert_eq!(popup_alignment(false, BarPosition::Bottom, ModuleLocation::Left), MenuAlign::End);
    assert_eq!(popup_alignment(false, BarPosition::Left, ModuleLocation::Right), MenuAlign::End);
    assert_eq!(popup_alignment(false, BarPosition::Right, ModuleLocation::Center), MenuAlign::Start);
}

#[test]
fn build_sections_places_applications_sorted() {
    let apps = vec![app("Zed", &["Utility"]), app("Calc", &["Utility"]), app("Odd", &["Nothing"])];
    let start = vec![MenuConfig::XdgEntry(XdgEntry {
        label: "Tools".to_string(),
        icon: None,
        categories: vec!["Utility".to_string()],
    })];
    let menu = build_sections(start, default_menu(), vec![], &apps);
    assert_eq!(section_labels(&menu.start, "Tools"), vec!["Calc", "Zed"]);
    assert_eq!(section_labels(&menu.center, "Accessories"), vec!["Calc", "Zed"]);
    assert_eq!(section_labels(&menu.center, "Other"), vec!["Odd"]);
    assert!(menu.end.is_empty());
}
