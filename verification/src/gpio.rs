//! The buttons of the case: which key each of them stands for.

use crate::button_handler::Key;
use vstd::prelude::*;

verus! {

pub const APPEND: u8 = 20;

pub const NEXT_PIN: u8 = 16;

pub const PREV_PIN: u8 = 21;

pub const VOL_UP_PIN: u8 = 6;

pub const VOL_DOWN_PIN: u8 = 19;

pub const PLAY_PAUSE_PIN: u8 = 13;

pub const LEFT_PIN: u8 = 26;

pub const RIGHT_PIN: u8 = 5;

/// The time in milliseconds for which a button is deaf after a press.
pub const PIN_DEBOUNCE_MILLIS: u64 = 33;

/// The character that the button at a pin types, where the pin has a
/// button.
pub open spec fn pin_char(pin: u8) -> Option<char> {
    if pin == PLAY_PAUSE_PIN {
        Some(' ')
    } else if pin == NEXT_PIN {
        Some('K')
    } else if pin == PREV_PIN {
        Some('J')
    } else if pin == VOL_UP_PIN {
        Some('j')
    } else if pin == VOL_DOWN_PIN {
        Some('k')
    } else if pin == APPEND {
        Some(':')
    } else if pin == LEFT_PIN {
        Some('<')
    } else if pin == RIGHT_PIN {
        Some('>')
    } else {
        None
    }
}

/// The pins that have a button, in the order in which they are set up.
pub fn button_pins() -> (r: Vec<u8>)
    ensures
        r@ == seq![
            PLAY_PAUSE_PIN,
            APPEND,
            NEXT_PIN,
            PREV_PIN,
            VOL_UP_PIN,
            VOL_DOWN_PIN,
            LEFT_PIN,
            RIGHT_PIN,
        ],
        forall|i: int| 0 <= i < r@.len() ==> pin_char(#[trigger] r@[i]) is Some,
{
    vec![
        PLAY_PAUSE_PIN,
        APPEND,
        NEXT_PIN,
        PREV_PIN,
        VOL_UP_PIN,
        VOL_DOWN_PIN,
        LEFT_PIN,
        RIGHT_PIN,
    ]
}

/// Returns the key that a press of the button at a pin stands for: the same
/// key that the keyboard sends. A pin without a button gives `None`.
pub fn pin_key(pin: u8) -> (r: Option<Key>)
    ensures
        match pin_char(pin) {
            Some(c) => r == Some(Key::Char(c)),
            None => r is None,
        },
{
    if pin == PLAY_PAUSE_PIN {
        Some(Key::Char(' '))
    } else if pin == NEXT_PIN {
        Some(Key::Char('K'))
    } else if pin == PREV_PIN {
        Some(Key::Char('J'))
    } else if pin == VOL_UP_PIN {
        Some(Key::Char('j'))
    } else if pin == VOL_DOWN_PIN {
        Some(Key::Char('k'))
    } else if pin == APPEND {
        Some(Key::Char(':'))
    } else if pin == LEFT_PIN {
        Some(Key::Char('<'))
    } else if pin == RIGHT_PIN {
        Some(Key::Char('>'))
    } else {
        None
    }
}

/// No two buttons stand for the same key.
pub proof fn lemma_pin_char_injective(a: u8, b: u8)
    requires
        pin_char(a) is Some,
        pin_char(a) == pin_char(b),
    ensures
        a == b,
{
}

} // verus!
