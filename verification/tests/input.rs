use stream_deck::app_state::{AppState, DeckEvent};
use stream_deck::deck::{parse_press, DeckAction, DeckButton, DeckPress};
use stream_deck::standalone::State;
use stream_deck::writer::mic_event_from_payload;

fn frame(bytes: &[u8]) -> [u8; 8] {
    let mut b = [0u8; 8];
    b[..bytes.len()].copy_from_slice(bytes);
    b
}

#[test]
fn parse_button_frames() {
    assert_eq!(parse_press(&frame(b"B3_1"), 4), Some(DeckPress { button: DeckButton::B3, value: b'1' }));
    assert_eq!(parse_press(&frame(b"B9_0"), 4), Some(DeckPress { button: DeckButton::B9, value: b'0' }));
    assert_eq!(parse_press(&frame(b"B5"), 2), Some(DeckPress { button: DeckButton::B5, value: 0 }));
}

#[test]
fn parse_rejects_other_frames() {
    assert_eq!(parse_press(&frame(b"B3_1"), 0), None);
    assert_eq!(parse_press(&frame(b"A3_1"), 4), None);
    assert_eq!(parse_press(&frame(b"B2_1"), 4), None);
    assert_eq!(parse_press(&frame(b"B:_1"), 4), None);
}

#[test]
fn function_keys() {
    let keys: Vec<u8> = [DeckButton::B3, DeckButton::B4, DeckButton::B5, DeckButton::B6, DeckButton::B7, DeckButton::B8, DeckButton::B9]
        .iter()
        .map(|b| b.function_key())
        .collect();
    assert_eq!(keys, vec![13, 14, 15, 16, 17, 18, 19]);
}

#[test]
fn unlinked_switch_always_clicks() {
    let s = AppState::new();
    for v in [b'0', b'1', b'x'] {
        assert_eq!(s.press_action(DeckPress { button: DeckButton::B3, value: v }), DeckAction::ClickMicroKey);
    }
}

#[test]
fn linked_switch_clicks_only_on_change() {
    let mut s = AppState::new();
    s.is_discord_auth = true;
    let on = DeckPress { button: DeckButton::B3, value: b'1' };
    let off = DeckPress { button: DeckButton::B3, value: b'0' };
    let other = DeckPress { button: DeckButton::B3, value: b'7' };
    assert_eq!(s.press_action(on), DeckAction::ClickMicroKey);
    assert_eq!(s.press_action(off), DeckAction::Nothing);
    assert_eq!(s.press_action(other), DeckAction::Nothing);
    s.set_is_micro_on(true);
    assert_eq!(s.press_action(on), DeckAction::Nothing);
    assert_eq!(s.press_action(off), DeckAction::ClickMicroKey);
}

#[test]
fn macro_buttons_tap_their_key() {
    let s = AppState::new();
    assert_eq!(s.press_action(DeckPress { button: DeckButton::B6, value: b'1' }), DeckAction::TapMacroKey(DeckButton::B6));
}

#[test]
fn standalone_switch_sets_micro() {
    let mut s = State::new();
    assert!(s.apply_press(DeckPress { button: DeckButton::B3, value: b'1' }));
    assert!(s.is_micro_on);
    assert_eq!(String::from_utf8(s.serialize()).unwrap(), "*M1L0V000F000$");
    assert!(s.apply_press(DeckPress { button: DeckButton::B3, value: b'5' }));
    assert!(s.is_micro_on);
    assert!(s.apply_press(DeckPress { button: DeckButton::B3, value: b'0' }));
    assert!(!s.is_micro_on);
    assert!(!s.apply_press(DeckPress { button: DeckButton::B4, value: b'1' }));
    assert_eq!(s, State::new());
}

#[test]
fn mic_payloads() {
    assert_eq!(mic_event_from_payload("true"), DeckEvent::MicroUpdated(true));
    assert_eq!(mic_event_from_payload("false"), DeckEvent::MicroUpdated(false));
    assert_eq!(mic_event_from_payload("True"), DeckEvent::MicroUpdated(false));
    assert_eq!(mic_event_from_payload(""), DeckEvent::MicroUpdated(false));
}

#[test]
fn writer_takes_events() {
    let mut s = AppState::new();
    assert_eq!(s.take_deck_event(DeckEvent::Nothing), None);
    assert_eq!(s, AppState::new());
    let m = s.take_deck_event(DeckEvent::MicroUpdated(true)).unwrap();
    assert_eq!(m, b"*M1$".to_vec());
    assert!(s.is_micro_on);
    let m = s.take_deck_event(DeckEvent::StateUpdated).unwrap();
    assert_eq!(m, b"*M1L0V000F000$".to_vec());
    let m = s.take_deck_event(DeckEvent::MicroUpdated(false)).unwrap();
    assert_eq!(m, b"*M0$".to_vec());
    assert!(!s.is_micro_on);
}
