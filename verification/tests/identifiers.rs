use ironbar_core::identifiers::{identifiers, split_on};

#[test]
fn split_keeps_empty_pieces() {
    assert_eq!(split_on("a b", ' '), vec!["a", "b"]);
    assert_eq!(split_on("a  b", ' '), vec!["a", "", "b"]);
    assert_eq!(split_on("", ' '), vec![""]);
    assert_eq!(split_on("a ", ' '), vec!["a", ""]);
}

#[test]
fn names_and_classes_for_widget_and_popup() {
    let ids = identifiers(Some("clock"), Some("left big"), true);
    assert_eq!(ids.widget_name.as_deref(), Some("clock"));
    assert_eq!(ids.popup_name.as_deref(), Some("popup-clock"));
    assert_eq!(ids.classes, vec!["left", "big"]);
    assert_eq!(ids.popup_classes, vec!["popup-left", "popup-big"]);
}

#[test]
fn no_popup_gets_nothing() {
    let ids = identifiers(Some("clock"), Some("left"), false);
    assert_eq!(ids.popup_name, None);
    assert!(ids.popup_classes.is_empty());
    let none = identifiers(None, None, true);
    assert_eq!(none.widget_name, None);
    assert_eq!(none.popup_name, None);
    assert!(none.classes.is_empty());
}
