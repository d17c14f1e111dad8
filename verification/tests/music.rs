use ironbar_core::music::{
    CoverAction, CoverTracker, replace_with,
    PlayerState, PlayerType, Status, Track, bar_display, format_time, popup_controls,
    progress_text, replace_tokens,
};

#[test]
fn music_format_time_with_and_without_hours() {
    assert_eq!(format_time(65), "01:05");
    assert_eq!(format_time(3725), "1:02:05");
    assert_eq!(format_time(0), "00:00");
}

#[test]
fn music_replace_tokens_fills_known_tokens() {
    let t = Track {
        title: Some("Song".to_string()),
        artist: Some("Band".to_string()),
        track: Some(4),
        ..Default::default()
    };
    assert_eq!(replace_tokens("{artist} - {title} ({track}) {album}", &t), "Band - Song (4) ");
    assert_eq!(PlayerType::default(), PlayerType::Mpris);
}

#[test]
fn music_displays_follow_state() {
    let d = bar_display(PlayerState::Stopped, true);
    assert!(!d.button_visible);
    let d = bar_display(PlayerState::Paused, true);
    assert_eq!((d.play_icon_visible, d.pause_icon_visible), (Some(false), Some(true)));
    let d = bar_display(PlayerState::Playing, false);
    assert_eq!((d.play_icon_visible, d.pause_icon_visible), (Some(false), Some(false)));
    let c = popup_controls(&Status {
        state: PlayerState::Playing,
        volume_percent: Some(40),
        playlist_position: 0,
        playlist_length: 2,
    });
    assert!(!c.play_visible && c.pause_visible && !c.prev_sensitive && c.next_sensitive);
    assert_eq!(c.volume, Some(40));
    assert_eq!(progress_text(Some(61), Some(3600)), Some("01:01/1:00:00".to_string()));
    assert_eq!(progress_text(None, Some(3)), None);
}

#[test]
fn cover_reloads_only_when_it_changes() {
    let mut t = CoverTracker::new();
    assert!(matches!(t.on_cover(None), CoverAction::Keep));
    match t.on_cover(Some("/a.png".to_string())) {
        CoverAction::Load(p) => assert_eq!(p, "/a.png"),
        _ => panic!("expected a load"),
    }
    assert!(matches!(t.on_cover(Some("/a.png".to_string())), CoverAction::Keep));
    assert!(matches!(t.on_cover(None), CoverAction::Clear));
    assert!(t.current.is_none());
}

#[test]
fn replace_with_empty_pattern_surrounds_every_character() {
    let s: Vec<char> = "ab".chars().collect();
    let to: Vec<char> = "-".chars().collect();
    let r: String = replace_with(&s, &Vec::new(), &to).into_iter().collect();
    assert_eq!(r, "-a-b-");
    let from: Vec<char> = "x".chars().collect();
    assert_eq!(replace_with(&s, &from, &to), s);
}
