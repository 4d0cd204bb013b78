use stream_deck::app_state::AppState;
use stream_deck::discord::INVALID_TOKEN_CODE;
use stream_deck::twitch::{refresh_due_on_ping, refresh_due_on_poll};

#[test]
fn discord_accepts_any_code_but_invalid_token() {
    let mut s = AppState::new();
    assert!(s.apply_discord_authentication(None));
    assert!(s.is_discord_auth);
    assert!(s.apply_discord_authentication(Some(0)));
    assert!(s.apply_discord_authentication(Some(4008)));
    assert!(!s.apply_discord_authentication(Some(INVALID_TOKEN_CODE)));
    assert!(!s.is_discord_auth);
    assert_eq!(INVALID_TOKEN_CODE, 4009);
}

#[test]
fn voice_settings_drive_micro() {
    let mut s = AppState::new();
    assert!(s.apply_voice_settings(false));
    assert!(s.is_micro_on);
    assert!(!s.apply_voice_settings(true));
    assert!(!s.is_micro_on);
}

#[test]
fn refresh_margins() {
    assert!(refresh_due_on_ping(59, 999_999_999));
    assert!(!refresh_due_on_ping(60, 0));
    assert!(!refresh_due_on_ping(3600, 0));
    assert!(refresh_due_on_poll(60, 0));
    assert!(!refresh_due_on_poll(60, 1));
    assert!(refresh_due_on_poll(0, 0));
    assert!(!refresh_due_on_poll(61, 0));
}

#[test]
fn poll_records_live_and_viewers() {
    let mut s = AppState::new();
    assert!(s.apply_channel_search(&vec![true, false]));
    assert!(s.is_live);
    assert!(!s.apply_channel_search(&vec![false]));
    assert!(!s.is_live);
    assert_eq!(s.apply_stream_viewers(&vec![]), None);
    assert_eq!(s.viewers, 0);
    assert_eq!(s.apply_stream_viewers(&vec![321, 5]), Some(321));
    assert_eq!(s.viewers, 321);
    assert_eq!(s.apply_stream_viewers(&vec![(1usize << 32) + 5]), Some(5));
    assert_eq!(s.viewers, 5);
}
