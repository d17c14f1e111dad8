use ironbar_core::clock::{format_needs_second_precision, millis_to_next_tick, strip_tail};

#[test]
fn format_needs_second_precision_classification() {
    let cases = [
        ("%S", true),
        ("%T", true),
        ("%X", true),
        ("%r", true),
        ("%s", true),
        ("%c", true),
        ("%+", true),
        ("%f", true),
        ("%H:%M:%S", true),
        ("%Y-%m-%dT%H:%M:%S", true),
        ("%-S", true),
        ("%0S", true),
        ("%.f", true),
        ("%3f", true),
        ("%.6f", true),
        ("%------S", true),
        ("%H:%M", false),
        ("%R", false),
        ("%Y-%m-%d", false),
        ("%H", false),
        ("", false),
        ("plain text", false),
        ("%%S", false),
        ("%%-S", false),
        ("100%% load at %H:%M", false),
        ("%%S now %S", true),
        ("%dT%H:%M:%%S", false),
        ("%", false),
        ("ends with %", false),
        ("%-", false),
    ];
    for (fmt, expected) in cases {
        assert_eq!(
            format_needs_second_precision(fmt),
            expected,
            "format `{fmt}` expected needs_seconds={expected}"
        );
    }
}

#[test]
fn next_tick_waits_for_the_next_second_or_minute() {
    assert_eq!(millis_to_next_tick(true, 10, 250), 760);
    assert_eq!(millis_to_next_tick(false, 10, 250), 49_760);
}

#[test]
fn strip_tail_examples() {
    assert_eq!(strip_tail("en_GB.UTF-8".to_string()), "en_GB");
    assert_eq!(strip_tail("C".to_string()), "C");
    assert_eq!(strip_tail(".x".to_string()), "");
}
