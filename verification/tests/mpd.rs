use ironbar_core::mpd::{
    ConnectError, Icons, MpdModule, PlayState, Song, Status, after_attempt, before_attempt, connect_run, display_string,
    format_time, get_token_value, get_tokens, popup_controls, replace_tokens,
    toggle_pause, try_get_first_tag,
};

fn song() -> Song {
    Song {
        title: Some("Title".to_string()),
        album: Some(vec!["Album".to_string(), "Other".to_string()]),
        artist: Some(vec!["Artist".to_string()]),
        date: None,
        disc: Some(vec![]),
        genre: None,
        track: Some(vec!["3".to_string()]),
    }
}

fn status(state: PlayState) -> Status {
    Status {
        state,
        duration: Some(245),
        elapsed: Some(61),
        current_song: Some(0),
        playlist_length: 3,
    }
}

#[test]
fn mpd_format_time_is_minutes_and_seconds() {
    assert_eq!(format_time(0), "00:00");
    assert_eq!(format_time(125), "02:05");
    assert_eq!(format_time(3725), "02:05");
}

#[test]
fn first_tag_of_list() {
    let v = vec!["a".to_string(), "b".to_string()];
    assert_eq!(try_get_first_tag(Some(&v)), Some("a"));
    assert_eq!(try_get_first_tag(Some(&vec![])), None);
    assert_eq!(try_get_first_tag(None), None);
}

#[test]
fn tokens_are_names_in_braces() {
    let t = get_tokens("{icon}  {title} / {artist} {bad token} {a-b}").unwrap();
    assert_eq!(t, vec!["icon", "title", "artist", "a-b"]);
}

#[test]
fn token_values() {
    let icons = Icons::default();
    let s = song();
    assert_eq!(get_token_value(&s, &status(PlayState::Playing), &icons, "icon"), "\u{f04b}");
    assert_eq!(get_token_value(&s, &status(PlayState::Paused), &icons, "icon"), "\u{f04c}");
    assert_eq!(get_token_value(&s, &status(PlayState::Stopped), &icons, "icon"), "");
    assert_eq!(get_token_value(&s, &status(PlayState::Playing), &icons, "album"), "Album");
    assert_eq!(get_token_value(&s, &status(PlayState::Playing), &icons, "disc"), "");
    assert_eq!(get_token_value(&s, &status(PlayState::Playing), &icons, "date"), "");
    assert_eq!(get_token_value(&s, &status(PlayState::Playing), &icons, "duration"), "04:05");
    assert_eq!(get_token_value(&s, &status(PlayState::Playing), &icons, "elapsed"), "01:01");
    assert_eq!(get_token_value(&s, &status(PlayState::Playing), &icons, "other"), "other");
}

#[test]
fn display_string_fills_the_format() {
    let m = MpdModule::default();
    let r = display_string(&m.format, &song(), &status(PlayState::Playing), &m.icons).unwrap();
    assert_eq!(r, "\u{f04b}  Title / Artist");
    let tokens = vec!["track".to_string(), "track".to_string()];
    let r = replace_tokens("{track}/{track}", &tokens, &song(), &status(PlayState::Playing), &m.icons);
    assert_eq!(r, "3/3");
}

#[test]
fn controls_follow_status() {
    assert_eq!(toggle_pause(PlayState::Playing), Some(true));
    assert_eq!(toggle_pause(PlayState::Paused), Some(false));
    assert_eq!(toggle_pause(PlayState::Stopped), None);
    let c = popup_controls(&status(PlayState::Stopped));
    assert!(!c.play_pause_sensitive && !c.prev_sensitive && c.next_sensitive);
    let mut st = status(PlayState::Playing);
    st.current_song = Some(3);
    let c = popup_controls(&st);
    assert_eq!(c.shows_pause, Some(true));
    assert!(c.prev_sensitive && !c.next_sensitive);
}

#[test]
fn reconnection_gives_up_at_the_limit() {
    assert_eq!(before_attempt(0, Some(2)), Some(1));
    assert_eq!(before_attempt(2, Some(2)), None);
    assert_eq!(before_attempt(5, None), Some(6));
    assert_eq!(after_attempt::<u8, &str>(2, Some(2), Err("refused")), Some(Err(ConnectError::Protocol("refused"))));
    assert_eq!(after_attempt::<u8, &str>(1, Some(2), Err("refused")), None);
    assert_eq!(after_attempt::<u8, &str>(1, Some(2), Ok(7)), Some(Ok(7)));
}

#[test]
fn connection_run_returns_first_success_or_last_error() {
    let r = connect_run::<u8, &str>(vec![Err("a"), Err("b"), Ok(3), Ok(4)], Some(5));
    assert_eq!(r, (3, Ok(3)));
    let r = connect_run::<u8, &str>(vec![Err("a"), Err("b"), Ok(3)], Some(2));
    assert_eq!(r, (2, Err(ConnectError::Protocol("b"))));
    let r = connect_run::<u8, &str>(vec![], Some(0));
    assert_eq!(r, (0, Err(ConnectError::MaxRetries)));
    let r = connect_run::<u8, &str>(vec![Err("a"), Ok(9)], None);
    assert_eq!(r, (2, Ok(9)));
}
