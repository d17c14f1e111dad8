use ironbar_core::tray::{
    IconPixmap, MenuDiff, MenuItem, MenuItemUpdate, ToggleState, ToggleType, apply_menu_diffs,
    find_approx_size, radio_action_name, radio_target_id, radio_target_text,
};

fn radio(id: i32, label: &str, state: ToggleState) -> MenuItem {
    MenuItem {
        id,
        label: Some(label.to_string()),
        enabled: true,
        visible: true,
        toggle_type: ToggleType::Radio,
        toggle_state: state,
        ..Default::default()
    }
}

fn toggle_state_diff(id: i32, state: ToggleState) -> MenuDiff {
    MenuDiff {
        id,
        update: MenuItemUpdate {
            toggle_state: Some(state),
            ..Default::default()
        },
        ..Default::default()
    }
}

#[test]
fn applies_toggle_state_move_to_nested_radio_group() {
    let mut items = vec![MenuItem {
        id: 1,
        label: Some("parent".to_string()),
        enabled: true,
        visible: true,
        children_display: Some("submenu".to_string()),
        submenu: vec![
            radio(10, "A", ToggleState::On),
            radio(11, "B", ToggleState::Off),
        ],
        ..Default::default()
    }];

    let diffs = vec![
        toggle_state_diff(10, ToggleState::Off),
        toggle_state_diff(11, ToggleState::On),
    ];
    apply_menu_diffs(&mut items, &diffs);

    let submenu = &items[0].submenu;
    assert_eq!(
        submenu[0].toggle_state,
        ToggleState::Off,
        "clicked-away entry A should be deselected"
    );
    assert_eq!(
        submenu[1].toggle_state,
        ToggleState::On,
        "clicked entry B should be selected"
    );
}

#[test]
fn applies_label_update() {
    let mut items = vec![radio(5, "old", ToggleState::Off)];
    let diffs = vec![MenuDiff {
        id: 5,
        update: MenuItemUpdate {
            label: Some(Some("new".to_string())),
            ..Default::default()
        },
        ..Default::default()
    }];

    apply_menu_diffs(&mut items, &diffs);

    assert_eq!(items[0].label.as_deref(), Some("new"));
}

#[test]
fn ignores_unknown_id() {
    let mut items = vec![radio(1, "A", ToggleState::On)];
    let diffs = vec![toggle_state_diff(999, ToggleState::Off)];

    apply_menu_diffs(&mut items, &diffs);

    assert_eq!(items[0].toggle_state, ToggleState::On);
}

fn make_list(widths: &[i32]) -> Vec<IconPixmap> {
    widths
        .iter()
        .map(|width| IconPixmap {
            width: *width,
            height: 0,
            pixels: vec![],
        })
        .collect::<Vec<IconPixmap>>()
}

fn assert_correct(list: &[IconPixmap], width: u32, index: usize) {
    assert_eq!(find_approx_size(list, width).unwrap().width, list[index].width);
}

#[test]
fn test_find_approx_height() {
    let list = make_list(&[10, 20, 50, 40, 30]);
    assert_correct(&list, 1, 0);
    assert_correct(&list, 10, 0);
    assert_correct(&list, 11, 1);
    assert_correct(&list, 20, 1);
    assert_correct(&list, 21, 4);
    assert_correct(&list, 30, 4);
    assert_correct(&list, 31, 3);
    assert_correct(&list, 40, 3);
    assert_correct(&list, 41, 2);
    assert_correct(&list, 50, 2);
    assert_correct(&list, 51, 2);
}

#[test]
fn groups_with_different_first_items_get_different_action_names() {
    assert_ne!(radio_action_name(5), radio_action_name(19));
}

#[test]
fn target_round_trips_the_menu_item_id() {
    for id in [0, 1, 19, i32::MAX] {
        let target = format!("{id}");
        assert_eq!(radio_target_id(Some(&target)), Some(id));
    }
}

#[test]
fn returns_none_when_state_is_not_a_menu_item_id() {
    assert_eq!(radio_target_id(Some("not-an-id")), None);
    // A state that is not a string at all.
    assert_eq!(radio_target_id(None), None);
}

#[test]
fn radio_target_text_is_the_decimal_id() {
    assert_eq!(radio_target_text(19), "19");
    assert_eq!(radio_target_text(-7), "-7");
    assert_eq!(radio_target_id(Some(&radio_target_text(-7))), Some(-7));
}

#[test]
fn find_approx_size_of_empty_and_single() {
    assert!(find_approx_size(&[], 10).is_none());
    let one = make_list(&[64]);
    assert_eq!(find_approx_size(&one, 10).unwrap().width, 64);
}

#[test]
fn diff_removals_are_not_applied() {
    let mut items = vec![MenuItem {
        id: 1,
        label: Some("x".to_string()),
        ..Default::default()
    }];
    let diffs = vec![MenuDiff {
        id: 1,
        remove: vec!["label".to_string()],
        ..Default::default()
    }];
    apply_menu_diffs(&mut items, &diffs);
    assert_eq!(items[0].label.as_deref(), Some("x"));
}
