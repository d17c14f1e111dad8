//! Building the menu: configured entries become sections and commands,
//! every section's categories go into an index, and applications are
//! placed, sorted by label, into the sections their categories name.
use vstd::prelude::*;

use indexmap::IndexMap;

use crate::text::{owned, str_eq};

use super::maps::{
    application_entries, apps_insert_sorted, apps_new, categories_get_index, categories_new,
    categories_get_index_mut, categories_index_of, categories_insert, category_entries,
    entries_get_index, entries_get_index_mut, entries_index_of, entries_insert, entries_len,
    entries_new, key_pos, lemma_key_pos, lemma_key_pos_same_keys, menu_entries, view_insert,
};
use super::order::{has_key, keys_sorted, lemma_sorted_insert_keys, lemma_sorted_insert_sorted, sorted_insert};
use super::{
    AppView, ConfigView, CustomEntry, EntryView, MenuApplication, MenuConfig, MenuEntry,
    XdgSection, apps_view, clone_opt, configs_view, opt_view, strings_view,
};

verus! {

/// The label of the section for applications no other section takes.
pub open spec fn other_label() -> Seq<char> {
    "Other"@
}

/// The category index as values: each category with the labels of the
/// sections that list it.
pub type CategoryIndex = Seq<(Seq<char>, Seq<Seq<char>>)>;

/// The index with section `label` listed under `cat`: appended to the
/// category's labels, or as a new category at the end.
pub open spec fn cats_add(cv: CategoryIndex, cat: Seq<char>, label: Seq<char>) -> CategoryIndex {
    match key_pos(cv, cat) {
        Some(i) => cv.update(i, (cv[i].0, cv[i].1.push(label))),
        None => cv.push((cat, seq![label])),
    }
}

/// The index with section `label` listed under each of `cats`, in order.
pub open spec fn cats_add_all(cv: CategoryIndex, cats: Seq<Seq<char>>, label: Seq<char>) -> CategoryIndex
    decreases cats.len(),
{
    if cats.len() == 0 {
        cv
    } else {
        cats_add(cats_add_all(cv, cats.drop_last(), label), cats.last(), label)
    }
}

/// The index after the configured entries, in order: each section of
/// categories is listed under each of its categories.
pub open spec fn index_categories(cv: CategoryIndex, cfgs: Seq<ConfigView>) -> CategoryIndex
    decreases cfgs.len(),
{
    if cfgs.len() == 0 {
        cv
    } else {
        let prev = index_categories(cv, cfgs.drop_last());
        match cfgs.last() {
            ConfigView::Xdg { label, categories, .. } => cats_add_all(prev, categories, label),
            _ => prev,
        }
    }
}

/// The label and entry a configured entry becomes: a section (empty to
/// begin with) under its label, the "Other" section, or a command.
pub open spec fn config_entry(c: ConfigView) -> (Seq<char>, EntryView) {
    match c {
        ConfigView::Xdg { label, icon, .. } => (
            label,
            EntryView::Xdg { label, icon, applications: seq![] },
        ),
        ConfigView::Other => (
            other_label(),
            EntryView::Xdg { label: other_label(), icon: Some("applications-other"@), applications: seq![] },
        ),
        ConfigView::Custom { label, icon, on_click } => (
            label,
            EntryView::Custom { label, icon, on_click },
        ),
    }
}

/// The entries for the configured entries, by label: a later entry with
/// the label of an earlier one takes its place.
pub open spec fn config_entries(cfgs: Seq<ConfigView>) -> Seq<(Seq<char>, EntryView)>
    decreases cfgs.len(),
{
    if cfgs.len() == 0 {
        seq![]
    } else {
        let (k, v) = config_entry(cfgs.last());
        view_insert(config_entries(cfgs.drop_last()), k, v)
    }
}

/// The sections a configuration gives start empty, so each is sorted.
proof fn lemma_config_entries_sorted(cfgs: Seq<ConfigView>)
    ensures
        sections_sorted(config_entries(cfgs)),
    decreases cfgs.len(),
{
    if cfgs.len() > 0 {
        lemma_config_entries_sorted(cfgs.drop_last());
        let prev = config_entries(cfgs.drop_last());
        let (k, v) = config_entry(cfgs.last());
        let e = config_entries(cfgs);
        assert(e == view_insert(prev, k, v));
        lemma_key_pos(prev, k);
        assert forall|j: int| 0 <= j < e.len() implies match #[trigger] e[j].1 {
            EntryView::Xdg { applications, .. } => keys_sorted(applications),
            EntryView::Custom { .. } => true,
        } by {
            if e[j].1 == v {
            } else {
                match key_pos(prev, k) {
                    Some(i) => {
                        assert(j != i);
                        assert(e[j] == prev[j]);
                    },
                    None => {
                        assert(j < prev.len());
                        assert(e[j] == prev[j]);
                    },
                }
            }
        }
    }
}

/// Lists section `label` under each category of `cats` in the index.
fn add_categories(m: &mut IndexMap<String, Vec<String>>, cats: &Vec<String>, label: &String)
    ensures
        category_entries(*final(m)) == cats_add_all(category_entries(*old(m)), strings_view(cats@), label@),
{
    let ghost start = category_entries(*m);
    let ghost cs = strings_view(cats@);
    let mut j: usize = 0;
    while j < cats.len()
        invariant
            j <= cats.len(),
            cs == strings_view(cats@),
            category_entries(*m) == cats_add_all(start, cs.take(j as int), label@),
        decreases cats.len() - j,
    {
        let ghost before = category_entries(*m);
        let c = &cats[j];
        match categories_index_of(m, c.as_str()) {
            Some(ci) => {
                proof {
                    lemma_key_pos(before, c@);
                }
                let v = categories_get_index_mut(m, ci);
                let ghost was = v@;
                v.push(label.clone());
                assert(strings_view(v@) =~= strings_view(was).push(label@));
            },
            None => {
                let mut v: Vec<String> = Vec::new();
                v.push(label.clone());
                assert(strings_view(v@) =~= seq![label@]);
                categories_insert(m, c.clone(), v);
            },
        }
        assert(cs.take(j + 1).drop_last() =~= cs.take(j as int));
        assert(cs.take(j + 1).last() == c@);
        j = j + 1;
    }
    assert(cs.take(cats.len() as int) =~= cs);
}

/// The entries for the configured entries, each section also listed
/// under its categories in `sections_by_cat`.
pub fn parse_config(
    section_config: Vec<MenuConfig>,
    sections_by_cat: &mut IndexMap<String, Vec<String>>,
) -> (r: IndexMap<String, MenuEntry>)
    ensures
        category_entries(*final(sections_by_cat)) == index_categories(
            category_entries(*old(sections_by_cat)),
            configs_view(section_config@),
        ),
        menu_entries(r) == config_entries(configs_view(section_config@)),
        sections_sorted(menu_entries(r)),
{
    let ghost start = category_entries(*sections_by_cat);
    let ghost cfgs = configs_view(section_config@);
    let mut out = entries_new();
    let mut i: usize = 0;
    while i < section_config.len()
        invariant
            i <= section_config.len(),
            cfgs == configs_view(section_config@),
            category_entries(*sections_by_cat) == index_categories(start, cfgs.take(i as int)),
            menu_entries(out) == config_entries(cfgs.take(i as int)),
        decreases section_config.len() - i,
    {
        let cfg = &section_config[i];
        assert(cfgs.take(i + 1).drop_last() =~= cfgs.take(i as int));
        assert(cfgs.take(i + 1).last() == cfg@);
        match cfg {
            MenuConfig::XdgEntry(entry) => {
                add_categories(sections_by_cat, &entry.categories, &entry.label);
                let section = XdgSection {
                    label: entry.label.clone(),
                    icon: clone_opt(&entry.icon),
                    applications: apps_new(),
                };
                entries_insert(&mut out, entry.label.clone(), MenuEntry::Xdg(section));
            },
            MenuConfig::XdgOther => {
                let section = XdgSection {
                    label: owned("Other"),
                    icon: Some(owned("applications-other")),
                    applications: apps_new(),
                };
                entries_insert(&mut out, owned("Other"), MenuEntry::Xdg(section));
            },
            MenuConfig::Custom(entry) => {
                let custom = CustomEntry {
                    label: entry.label.clone(),
                    icon: clone_opt(&entry.icon),
                    on_click: entry.on_click.clone(),
                };
                entries_insert(&mut out, entry.label.clone(), MenuEntry::Custom(custom));
            },
        }
        i = i + 1;
    }
    assert(cfgs.take(section_config.len() as int) =~= cfgs);
    proof {
        lemma_config_entries_sorted(cfgs);
    }
    out
}

/// Category `cat` is indexed and lists section `section`.
pub open spec fn maps_to(cv: CategoryIndex, cat: Seq<char>, section: Seq<char>) -> bool {
    match key_pos(cv, cat) {
        Some(i) => cv[i].1.contains(section),
        None => false,
    }
}

/// Whether application `a` goes into `section`: one of its categories
/// lists the section, or, for the "Other" section of the centre part, none
/// of its categories is indexed.
pub open spec fn placed(a: AppView, section: Seq<char>, cv: CategoryIndex, in_center: bool) -> bool {
    ||| exists|j: int| 0 <= j < a.2.len() && #[trigger] maps_to(cv, a.2[j], section)
    ||| in_center && section == other_label() && forall|j: int|
        0 <= j < a.2.len() ==> #[trigger] key_pos(cv, a.2[j]) is None
}

/// A section's applications after the applications `apps`, in order,
/// each that goes into the section put in its sorted place by label.
pub open spec fn fold_apps(
    acc: Seq<(Seq<char>, AppView)>,
    apps: Seq<AppView>,
    section: Seq<char>,
    cv: CategoryIndex,
    in_center: bool,
) -> Seq<(Seq<char>, AppView)>
    decreases apps.len(),
{
    if apps.len() == 0 {
        acc
    } else {
        let prev = fold_apps(acc, apps.drop_last(), section, cv, in_center);
        let a = apps.last();
        if placed(a, section, cv, in_center) {
            sorted_insert(prev, a.0, a)
        } else {
            prev
        }
    }
}

/// Placing applications keeps a section's labels sorted.
pub proof fn lemma_fold_apps_sorted(
    acc: Seq<(Seq<char>, AppView)>,
    apps: Seq<AppView>,
    section: Seq<char>,
    cv: CategoryIndex,
    in_center: bool,
)
    requires
        keys_sorted(acc),
    ensures
        keys_sorted(fold_apps(acc, apps, section, cv, in_center)),
    decreases apps.len(),
{
    if apps.len() > 0 {
        lemma_fold_apps_sorted(acc, apps.drop_last(), section, cv, in_center);
        let prev = fold_apps(acc, apps.drop_last(), section, cv, in_center);
        lemma_sorted_insert_sorted(prev, apps.last().0, apps.last());
    }
}

/// A section lists, after placing `apps`, exactly the labels it listed
/// before and the labels of the applications that go into it.
pub proof fn lemma_section_lists_placed(
    acc: Seq<(Seq<char>, AppView)>,
    apps: Seq<AppView>,
    section: Seq<char>,
    cv: CategoryIndex,
    in_center: bool,
    x: Seq<char>,
)
    ensures
        has_key(fold_apps(acc, apps, section, cv, in_center), x) <==> (has_key(acc, x) || exists|k: int|
            0 <= k < apps.len() && apps[k].0 == x && #[trigger] placed(apps[k], section, cv, in_center)),
    decreases apps.len(),
{
    if apps.len() > 0 {
        let init = apps.drop_last();
        let a = apps.last();
        lemma_section_lists_placed(acc, init, section, cv, in_center, x);
        let prev = fold_apps(acc, init, section, cv, in_center);
        if placed(a, section, cv, in_center) {
            lemma_sorted_insert_keys(prev, a.0, a, x);
        }
        if exists|k: int| 0 <= k < apps.len() && apps[k].0 == x && #[trigger] placed(apps[k], section, cv, in_center) {
            let k = choose|k: int| 0 <= k < apps.len() && apps[k].0 == x && #[trigger] placed(apps[k], section, cv, in_center);
            if k < apps.len() - 1 {
                assert(init[k] == apps[k]);
                assert(placed(init[k], section, cv, in_center));
            }
        }
        if exists|k: int| 0 <= k < init.len() && init[k].0 == x && #[trigger] placed(init[k], section, cv, in_center) {
            let k = choose|k: int| 0 <= k < init.len() && init[k].0 == x && #[trigger] placed(init[k], section, cv, in_center);
            assert(apps[k] == init[k]);
            assert(placed(apps[k], section, cv, in_center));
        }
    }
}

/// Entry `j` after placing `apps`: a section (the first entry under its
/// label) receives the applications that go into it; the rest stay.
pub open spec fn placed_entry(
    e: Seq<(Seq<char>, EntryView)>,
    j: int,
    apps: Seq<AppView>,
    cv: CategoryIndex,
    in_center: bool,
) -> (Seq<char>, EntryView) {
    match e[j].1 {
        EntryView::Xdg { label, icon, applications } => if key_pos(e, e[j].0) == Some(j) {
            (e[j].0, EntryView::Xdg { label, icon, applications: fold_apps(applications, apps, e[j].0, cv, in_center) })
        } else {
            e[j]
        },
        EntryView::Custom { .. } => e[j],
    }
}

/// All entries after placing `apps`.
pub open spec fn placed_entries(
    e: Seq<(Seq<char>, EntryView)>,
    apps: Seq<AppView>,
    cv: CategoryIndex,
    in_center: bool,
) -> Seq<(Seq<char>, EntryView)> {
    Seq::new(e.len(), |j: int| placed_entry(e, j, apps, cv, in_center))
}

/// Every section lists its applications sorted by label.
pub open spec fn sections_sorted(e: Seq<(Seq<char>, EntryView)>) -> bool {
    forall|j: int| 0 <= j < e.len() ==> match #[trigger] e[j].1 {
        EntryView::Xdg { applications, .. } => keys_sorted(applications),
        EntryView::Custom { .. } => true,
    }
}

/// Whether `names` holds the text `s`.
fn contains_text(names: &Vec<String>, s: &str) -> (r: bool)
    ensures
        r == strings_view(names@).contains(s@),
{
    let mut i: usize = 0;
    while i < names.len()
        invariant
            i <= names.len(),
            forall|k: int| 0 <= k < i ==> strings_view(names@)[k] != s@,
        decreases names.len() - i,
    {
        if str_eq(names[i].as_str(), s) {
            assert(strings_view(names@)[i as int] == s@);
            return true;
        }
        i = i + 1;
    }
    false
}

/// Whether the application goes into `section`.
pub fn is_placed(app: &MenuApplication, cats: &IndexMap<String, Vec<String>>, section: &str, in_center: bool) -> (r: bool)
    ensures
        r == placed(app@, section@, category_entries(*cats), in_center),
{
    let ghost cv = category_entries(*cats);
    let ghost a = app@;
    let mut found = false;
    let mut any = false;
    let mut c: usize = 0;
    while c < app.categories.len()
        invariant
            c <= app.categories.len(),
            a == app@,
            cv == category_entries(*cats),
            found == exists|j: int| 0 <= j < c && #[trigger] maps_to(cv, a.2[j], section@),
            any == exists|j: int| 0 <= j < c && #[trigger] key_pos(cv, a.2[j]) is Some,
        decreases app.categories.len() - c,
    {
        assert(a.2[c as int] == app.categories@[c as int]@);
        match categories_index_of(cats, app.categories[c].as_str()) {
            Some(ci) => {
                proof {
                    lemma_key_pos(cv, a.2[c as int]);
                }
                any = true;
                let (_, names) = categories_get_index(cats, ci);
                if contains_text(names, section) {
                    found = true;
                }
            },
            None => {},
        }
        proof {
            if found {
                if !(exists|j: int| 0 <= j < c && #[trigger] maps_to(cv, a.2[j], section@)) {
                    assert(maps_to(cv, a.2[c as int], section@));
                }
            } else {
                assert forall|j: int| 0 <= j < c + 1 implies !#[trigger] maps_to(cv, a.2[j], section@) by {
                    if j < c {
                    } else {
                    }
                }
            }
            if any {
                if !(exists|j: int| 0 <= j < c && #[trigger] key_pos(cv, a.2[j]) is Some) {
                    assert(key_pos(cv, a.2[c as int]) is Some);
                }
            } else {
                assert forall|j: int| 0 <= j < c + 1 implies !(#[trigger] key_pos(cv, a.2[j]) is Some) by {
                }
            }
        }
        c = c + 1;
    }
    let other = str_eq(section, "Other");
    let r = found || (in_center && !any && other);
    proof {
        if !any {
            assert forall|j: int| 0 <= j < a.2.len() implies #[trigger] key_pos(cv, a.2[j]) is None by {
                assert(!(key_pos(cv, a.2[j]) is Some));
            }
        }
        if in_center && section@ == other_label() && !found && any {
            let j = choose|j: int| 0 <= j < c && #[trigger] key_pos(cv, a.2[j]) is Some;
            assert(!(key_pos(cv, a.2[j]) is None));
        }
    }
    r
}

/// Puts each application that goes into `section` into its applications.
fn fill_section(
    m: &mut IndexMap<String, MenuApplication>,
    apps: &Vec<MenuApplication>,
    cats: &IndexMap<String, Vec<String>>,
    section: &str,
    in_center: bool,
)
    requires
        keys_sorted(application_entries(*old(m))),
    ensures
        application_entries(*final(m)) == fold_apps(
            application_entries(*old(m)),
            apps_view(apps@),
            section@,
            category_entries(*cats),
            in_center,
        ),
        keys_sorted(application_entries(*final(m))),
{
    let ghost start = application_entries(*m);
    let ghost av = apps_view(apps@);
    let ghost cv = category_entries(*cats);
    let mut i: usize = 0;
    while i < apps.len()
        invariant
            i <= apps.len(),
            av == apps_view(apps@),
            cv == category_entries(*cats),
            application_entries(*m) == fold_apps(start, av.take(i as int), section@, cv, in_center),
            keys_sorted(application_entries(*m)),
        decreases apps.len() - i,
    {
        let app = &apps[i];
        assert(av.take(i + 1).drop_last() =~= av.take(i as int));
        assert(av.take(i + 1).last() == app@);
        if is_placed(app, cats, section, in_center) {
            proof {
                lemma_sorted_insert_sorted(application_entries(*m), app@.0, app@);
            }
            apps_insert_sorted(m, app.label.clone(), app.duplicate());
        }
        i = i + 1;
    }
    assert(av.take(apps.len() as int) =~= av);
}

/// Places the applications into the sections of one part of the menu.
fn fill_sections(
    m: &mut IndexMap<String, MenuEntry>,
    apps: &Vec<MenuApplication>,
    cats: &IndexMap<String, Vec<String>>,
    in_center: bool,
)
    requires
        sections_sorted(menu_entries(*old(m))),
    ensures
        menu_entries(*final(m)) == placed_entries(
            menu_entries(*old(m)),
            apps_view(apps@),
            category_entries(*cats),
            in_center,
        ),
        sections_sorted(menu_entries(*final(m))),
{
    let ghost e0 = menu_entries(*m);
    let ghost av = apps_view(apps@);
    let ghost cv = category_entries(*cats);
    let n = entries_len(m);
    let mut i: usize = 0;
    while i < n
        invariant
            i <= n,
            n == e0.len(),
            av == apps_view(apps@),
            cv == category_entries(*cats),
            menu_entries(*m).len() == n,
            sections_sorted(e0),
            forall|j: int| 0 <= j < n ==> #[trigger] menu_entries(*m)[j].0 == e0[j].0,
            forall|j: int| 0 <= j < i ==> #[trigger] menu_entries(*m)[j] == placed_entry(e0, j, av, cv, in_center),
            forall|j: int| i <= j < n ==> #[trigger] menu_entries(*m)[j] == e0[j],
        decreases n - i,
    {
        let ghost cur = menu_entries(*m);
        let key = {
            let (k, _) = entries_get_index(m, i);
            k.clone()
        };
        assert(key@ == e0[i as int].0);
        proof {
            lemma_key_pos_same_keys(cur, e0, key@);
        }
        let first = match entries_index_of(m, key.as_str()) {
            Some(p) => p == i,
            None => false,
        };
        if first {
            let e = entries_get_index_mut(m, i);
            match e {
                MenuEntry::Xdg(s) => {
                    assert(keys_sorted(application_entries(s.applications))) by {
                        assert(match e0[i as int].1 {
                            EntryView::Xdg { applications, .. } => keys_sorted(applications),
                            EntryView::Custom { .. } => true,
                        });
                    }
                    fill_section(&mut s.applications, apps, cats, key.as_str(), in_center);
                },
                MenuEntry::Custom(_) => {},
            }
        }
        proof {
            let now = menu_entries(*m);
            assert(now[i as int] == placed_entry(e0, i as int, av, cv, in_center));
            assert forall|j: int| 0 <= j < i + 1 implies #[trigger] now[j] == placed_entry(e0, j, av, cv, in_center) by {
                if j < i {
                    assert(now[j] == cur[j]);
                }
            }
        }
        i = i + 1;
    }
    proof {
        let now = menu_entries(*m);
        assert(now =~= placed_entries(e0, av, cv, in_center));
        assert forall|j: int| 0 <= j < now.len() implies match #[trigger] now[j].1 {
            EntryView::Xdg { applications, .. } => keys_sorted(applications),
            EntryView::Custom { .. } => true,
        } by {
            assert(match e0[j].1 {
                EntryView::Xdg { applications, .. } => keys_sorted(applications),
                EntryView::Custom { .. } => true,
            });
            match e0[j].1 {
                EntryView::Xdg { applications, .. } => {
                    lemma_fold_apps_sorted(applications, av, e0[j].0, cv, in_center);
                },
                EntryView::Custom { .. } => {},
            }
        }
    }
}

/// Places the applications into the sections of the three parts of the
/// menu: each goes, sorted by label, into every section that one of its
/// categories lists, and, when none of its categories is indexed, into
/// the centre part's "Other" section.
pub fn place_applications(
    applications: &Vec<MenuApplication>,
    sections_by_cat: &IndexMap<String, Vec<String>>,
    start: &mut IndexMap<String, MenuEntry>,
    center: &mut IndexMap<String, MenuEntry>,
    end: &mut IndexMap<String, MenuEntry>,
)
    requires
        sections_sorted(menu_entries(*old(start))),
        sections_sorted(menu_entries(*old(center))),
        sections_sorted(menu_entries(*old(end))),
    ensures
        menu_entries(*final(start)) == placed_entries(
            menu_entries(*old(start)),
            apps_view(applications@),
            category_entries(*sections_by_cat),
            false,
        ),
        menu_entries(*final(center)) == placed_entries(
            menu_entries(*old(center)),
            apps_view(applications@),
            category_entries(*sections_by_cat),
            true,
        ),
        menu_entries(*final(end)) == placed_entries(
            menu_entries(*old(end)),
            apps_view(applications@),
            category_entries(*sections_by_cat),
            false,
        ),
        sections_sorted(menu_entries(*final(start))),
        sections_sorted(menu_entries(*final(center))),
        sections_sorted(menu_entries(*final(end))),
{
    fill_sections(start, applications, sections_by_cat, false);
    fill_sections(center, applications, sections_by_cat, true);
    fill_sections(end, applications, sections_by_cat, false);
}

/// The three groups of the main menu, each section holding its
/// applications.
pub struct MenuSections {
    pub start: IndexMap<String, MenuEntry>,
    pub center: IndexMap<String, MenuEntry>,
    pub end: IndexMap<String, MenuEntry>,
}

/// The category index the three configured groups build, in order.
pub open spec fn all_categories(
    start: Seq<ConfigView>,
    center: Seq<ConfigView>,
    end: Seq<ConfigView>,
) -> Seq<(Seq<char>, Seq<Seq<char>>)> {
    index_categories(index_categories(index_categories(Seq::empty(), start), center), end)
}

/// Builds the main menu: the sections of the start, center and end
/// configurations (sharing one category index), then each application
/// placed into the sections of its categories, or into "Other".
pub fn build_sections(
    start: Vec<MenuConfig>,
    center: Vec<MenuConfig>,
    end: Vec<MenuConfig>,
    applications: &Vec<MenuApplication>,
) -> (r: MenuSections)
    ensures
        ({
            let cats = all_categories(configs_view(start@), configs_view(center@), configs_view(end@));
            &&& menu_entries(r.start) == placed_entries(config_entries(configs_view(start@)), apps_view(applications@), cats, false)
            &&& menu_entries(r.center) == placed_entries(config_entries(configs_view(center@)), apps_view(applications@), cats, true)
            &&& menu_entries(r.end) == placed_entries(config_entries(configs_view(end@)), apps_view(applications@), cats, false)
        }),
        sections_sorted(menu_entries(r.start)),
        sections_sorted(menu_entries(r.center)),
        sections_sorted(menu_entries(r.end)),
{
    let mut cats = categories_new();
    let mut s = parse_config(start, &mut cats);
    let mut c = parse_config(center, &mut cats);
    let mut e = parse_config(end, &mut cats);
    place_applications(applications, &cats, &mut s, &mut c, &mut e);
    MenuSections { start: s, center: c, end: e }
}

/// What the menu reads of a desktop file.
#[derive(Debug)]
pub struct DesktopEntry {
    pub file_name: String,
    pub name: Option<String>,
    pub app_type: Option<String>,
    pub no_display: Option<bool>,
    pub categories: Vec<String>,
}

/// A desktop file is listed when it is an application that is not hidden.
pub open spec fn is_listed(d: DesktopEntry) -> bool {
    d.no_display != Some(true) && opt_view(d.app_type) == Some("Application"@)
}

/// The application a listed desktop file gives: its name (empty when it
/// has none), file name and categories.
pub open spec fn app_of(d: DesktopEntry) -> AppView {
    (
        match opt_view(d.name) {
            Some(n) => n,
            None => seq![],
        },
        d.file_name@,
        strings_view(d.categories@),
    )
}

/// The applications of the listed desktop files, in order.
pub open spec fn listed_apps(files: Seq<DesktopEntry>) -> Seq<AppView>
    decreases files.len(),
{
    if files.len() == 0 {
        seq![]
    } else {
        let prev = listed_apps(files.drop_last());
        if is_listed(files.last()) {
            prev.push(app_of(files.last()))
        } else {
            prev
        }
    }
}

/// The menu's applications from the desktop files: those that are
/// applications and not hidden.
pub fn menu_applications(files: Vec<DesktopEntry>) -> (r: Vec<MenuApplication>)
    ensures
        apps_view(r@) == listed_apps(files@),
{
    let mut out: Vec<MenuApplication> = Vec::new();
    let mut i: usize = 0;
    while i < files.len()
        invariant
            i <= files.len(),
            apps_view(out@) == listed_apps(files@.take(i as int)),
        decreases files.len() - i,
    {
        let f = &files[i];
        assert(files@.take(i + 1).drop_last() =~= files@.take(i as int));
        assert(files@.take(i + 1).last() == *f);
        let hidden = match f.no_display {
            Some(b) => b,
            None => false,
        };
        let is_app = match &f.app_type {
            Some(t) => str_eq(t.as_str(), "Application"),
            None => false,
        };
        if !hidden && is_app {
            let label = match &f.name {
                Some(n) => n.clone(),
                None => String::new(),
            };
            let app = MenuApplication {
                label,
                file_name: f.file_name.clone(),
                categories: super::clone_strings(&f.categories),
            };
            out.push(app);
            assert(apps_view(out@) =~= listed_apps(files@.take(i as int)).push(app_of(*f)));
        }
        i = i + 1;
    }
    assert(files@.take(files.len() as int) =~= files@);
    out
}

} // verus!
