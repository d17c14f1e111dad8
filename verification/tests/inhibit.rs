use ironbar_core::inhibit::{
    DurationSpec, InhibitCommand, InhibitController, InhibitDuration, InhibitModule,
    State, duration_from_parsed, exec_tuple, format_duration, label_text, parse_duration, read_env,
};

#[test]
fn parse_duration_reads_times_and_infinity() {
    assert_eq!(parse_duration("01:30:00"), Ok(InhibitDuration::Seconds(5400)));
    assert_eq!(parse_duration("00:00:59"), Ok(InhibitDuration::Seconds(59)));
    assert_eq!(parse_duration("inf"), Ok(InhibitDuration::Infinite));
    assert_eq!(parse_duration("0"), Ok(InhibitDuration::Infinite));
    assert_eq!(parse_duration("00:00:00"), Ok(InhibitDuration::Infinite));
    assert_eq!(parse_duration("soon"), Err("invalid duration: soon".to_string()));
    assert_eq!(parse_duration("25:00:00"), Err("invalid duration: 25:00:00".to_string()));
}

#[test]
fn duration_spec_from_config() {
    let d = DurationSpec::from_config(None, None).unwrap();
    assert_eq!(d.durations.len(), 5);
    assert_eq!(d.default_duration, InhibitDuration::Seconds(1800));
    let d = DurationSpec::from_config(
        Some(vec!["00:10:00".to_string(), "inf".to_string()]),
        Some("inf".to_string()),
    )
    .unwrap();
    assert_eq!(d.durations, vec![InhibitDuration::Seconds(600), InhibitDuration::Infinite]);
    assert_eq!(d.default_duration, InhibitDuration::Infinite);
    assert!(DurationSpec::from_config(Some(vec![]), None).is_err());
    assert!(DurationSpec::from_config(Some(vec!["x".to_string()]), None).is_err());
    assert!(DurationSpec::from_config(Some(vec!["00:10:00".to_string()]), Some("00:20:00".to_string())).is_err());
}

#[test]
fn format_duration_examples() {
    assert_eq!(format_duration(InhibitDuration::Seconds(3725)), "01:02:05");
    assert_eq!(format_duration(InhibitDuration::Seconds(59)), "00:59");
    assert_eq!(format_duration(InhibitDuration::Infinite), "\u{edfe}");
}

#[test]
fn controller_cycles_toggles_and_counts_down() {
    let spec = DurationSpec::default();
    let mut c = InhibitController::new(&spec);
    assert!(!c.ticking());
    let s = c.on_command(InhibitCommand::Cycle);
    assert_eq!(s, State { active: false, duration: InhibitDuration::Seconds(3600) });
    let s = c.on_command(InhibitCommand::Toggle);
    assert_eq!(s, State { active: true, duration: InhibitDuration::Seconds(3600) });
    assert!(c.ticking());
    let s = c.on_tick();
    assert_eq!(s, State { active: true, duration: InhibitDuration::Seconds(3599) });
    for _ in 0..5 {
        c.on_command(InhibitCommand::Cycle);
    }
    // Five cycles return to the same duration.
    assert_eq!(c.state.duration, InhibitDuration::Seconds(3600));
}

#[test]
fn label_and_command_line() {
    let on = State { active: true, duration: InhibitDuration::Seconds(90) };
    assert_eq!(label_text(on, "on {duration}", "off {duration}"), "on 01:30");
    let m = InhibitModule::default();
    let off = State { active: false, duration: InhibitDuration::Infinite };
    assert_eq!(label_text(off, &m.format_on, &m.format_off), "\u{1f4a4} \u{edfe}");
    let (cmd, args, ignore) = exec_tuple(InhibitDuration::Seconds(60));
    assert_eq!(cmd, "/usr/bin/systemd-inhibit");
    assert_eq!(args.last().unwrap(), "60");
    assert_eq!(args.len(), 6);
    assert!(!ignore);
    let (_, args, _) = exec_tuple(InhibitDuration::Infinite);
    assert_eq!(args[5], "infinity");
}

#[test]
fn read_env_finds_the_first_numeric_value() {
    let env = vec!["A=1".to_string(), "INVOCATION=x".to_string(), "PID=42".to_string(), "PID=7".to_string()];
    assert_eq!(read_env(&env, "PID"), Some(42));
    assert_eq!(read_env(&env, "A"), Some(1));
    assert_eq!(read_env(&env, "INVOCATION"), None);
    assert_eq!(read_env(&env, "B"), None);
}

#[test]
fn duration_config_error_messages() {
    assert_eq!(DurationSpec::from_config(Some(vec![]), None).unwrap_err(), "durations list cannot be empty");
    assert_eq!(
        DurationSpec::from_config(Some(vec!["00:10:00".to_string(), "x".to_string(), "y".to_string()]), None)
            .unwrap_err(),
        "invalid duration: x"
    );
    assert_eq!(
        DurationSpec::from_config(None, Some("soon".to_string())).unwrap_err(),
        "invalid duration: soon"
    );
    assert_eq!(
        DurationSpec::from_config(Some(vec!["00:10:00".to_string()]), Some("00:20:00".to_string()))
            .unwrap_err(),
        "default_duration must be in durations list"
    );
}

#[test]
fn duration_after_reading_the_time() {
    assert_eq!(duration_from_parsed("00:01:00", Some(60)), Ok(InhibitDuration::Seconds(60)));
    assert_eq!(duration_from_parsed("later", None), Err("invalid duration: later".to_string()));
}
