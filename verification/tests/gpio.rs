use daph::button_handler::Key;
use daph::gpio::{
    button_pins, pin_key, APPEND, LEFT_PIN, NEXT_PIN, PLAY_PAUSE_PIN, PREV_PIN, RIGHT_PIN,
    VOL_DOWN_PIN, VOL_UP_PIN,
};

#[test]
fn each_button_stands_for_its_key() {
    assert_eq!(pin_key(PLAY_PAUSE_PIN), Some(Key::Char(' ')));
    assert_eq!(pin_key(NEXT_PIN), Some(Key::Char('K')));
    assert_eq!(pin_key(PREV_PIN), Some(Key::Char('J')));
    assert_eq!(pin_key(VOL_UP_PIN), Some(Key::Char('j')));
    assert_eq!(pin_key(VOL_DOWN_PIN), Some(Key::Char('k')));
    assert_eq!(pin_key(APPEND), Some(Key::Char(':')));
    assert_eq!(pin_key(LEFT_PIN), Some(Key::Char('<')));
    assert_eq!(pin_key(RIGHT_PIN), Some(Key::Char('>')));
}

#[test]
fn buttons_sit_at_their_pins() {
    assert_eq!(pin_key(13), Some(Key::Char(' ')));
    assert_eq!(pin_key(20), Some(Key::Char(':')));
    assert_eq!(pin_key(16), Some(Key::Char('K')));
    assert_eq!(pin_key(21), Some(Key::Char('J')));
    assert_eq!(pin_key(6), Some(Key::Char('j')));
    assert_eq!(pin_key(19), Some(Key::Char('k')));
    assert_eq!(pin_key(26), Some(Key::Char('<')));
    assert_eq!(pin_key(5), Some(Key::Char('>')));
}

#[test]
fn a_pin_without_a_button_has_no_key() {
    assert_eq!(pin_key(0), None);
    assert_eq!(pin_key(7), None);
    assert_eq!(pin_key(255), None);
}

#[test]
fn no_two_buttons_share_a_key() {
    let pins = button_pins();
    assert_eq!(pins, vec![13, 20, 16, 21, 6, 19, 26, 5]);
    for a in 0..=255u8 {
        for b in 0..=255u8 {
            if a != b && pin_key(a).is_some() {
                assert_ne!(pin_key(a), pin_key(b));
            }
        }
    }
    let with_button = (0..=255u8).filter(|p| pin_key(*p).is_some()).count();
    assert_eq!(with_button, 8);
}
