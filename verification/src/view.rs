//! What the library works out for the screen: which track is shown, the
//! label of the volume overlay and where the overlay stands.

use crate::state::PlayerState;
use crate::text::push_char;
use vstd::prelude::*;

pub mod number_drawer;

verus! {

/// The track that is shown where no track is the current one.
pub const FALLBACK_TRACK: usize = 1;

/// The margin that the volume overlay keeps on a screen that is wide and
/// high enough for it.
pub const OVERLAY_SPACER: u16 = 5;

/// The character of a digit.
pub open spec fn digit_char(d: nat) -> char {
    if d == 0 {
        '0'
    } else if d == 1 {
        '1'
    } else if d == 2 {
        '2'
    } else if d == 3 {
        '3'
    } else if d == 4 {
        '4'
    } else if d == 5 {
        '5'
    } else if d == 6 {
        '6'
    } else if d == 7 {
        '7'
    } else if d == 8 {
        '8'
    } else {
        '9'
    }
}

/// A number in decimal digits, without leading zeros.
pub open spec fn decimal(n: nat) -> Seq<char>
    decreases n,
{
    if n < 10 {
        seq![digit_char(n)]
    } else {
        decimal(n / 10).push(digit_char(n % 10))
    }
}

/// The label of the volume overlay: the volume in tenths, in two digits at
/// least.
pub open spec fn volume_digits(volume: u32) -> Seq<char> {
    if volume / 10 < 10 {
        seq!['0'] + decimal((volume / 10) as nat)
    } else {
        decimal((volume / 10) as nat)
    }
}

/// The place of the track that the playback view shows: the current track,
/// or the fallback where there is none, if the catalog has a track there.
pub open spec fn shown(current: Option<usize>, len: nat) -> Option<usize> {
    let index = match current {
        Some(index) => index,
        None => FALLBACK_TRACK,
    };
    if index < len {
        Some(index)
    } else {
        None
    }
}

fn digit(d: u32) -> (r: char)
    requires
        d < 10,
    ensures
        r == digit_char(d as nat),
{
    if d == 0 {
        '0'
    } else if d == 1 {
        '1'
    } else if d == 2 {
        '2'
    } else if d == 3 {
        '3'
    } else if d == 4 {
        '4'
    } else if d == 5 {
        '5'
    } else if d == 6 {
        '6'
    } else if d == 7 {
        '7'
    } else if d == 8 {
        '8'
    } else {
        '9'
    }
}

/// Writes a number in decimal digits.
pub fn decimal_text(n: u32) -> (r: String)
    ensures
        r@ == decimal(n as nat),
{
    let mut text = String::new();
    write_decimal(&mut text, n);
    text
}

fn write_decimal(text: &mut String, n: u32)
    ensures
        final(text)@ == old(text)@ + decimal(n as nat),
    decreases n,
{
    if n >= 10 {
        write_decimal(text, n / 10);
    }
    push_char(text, digit(n % 10));
    assert(text@ =~= old(text)@ + decimal(n as nat));
}

/// Returns the label of the volume overlay for a volume in hundredths: the
/// volume in tenths, with a zero in front of a single digit.
pub fn volume_label(volume: u32) -> (r: String)
    ensures
        r@ == volume_digits(volume),
{
    let tenths = volume / 10;
    let mut text = String::new();
    if tenths < 10 {
        push_char(&mut text, '0');
    }
    write_decimal(&mut text, tenths);
    text
}

/// Returns the padding of the volume overlay on a screen of the given size,
/// from the left and from the top: half the size, less the margin that a
/// screen of more than ten columns and ten rows has room for, and one row
/// more from the top.
pub fn overlay_padding(width: u16, height: u16) -> (r: (u16, u16))
    ensures
        width > 10 && height > 10 ==> r.0 == width / 2 - OVERLAY_SPACER && r.1 == height / 2
            - OVERLAY_SPACER + 1,
        !(width > 10 && height > 10) ==> r.0 == width / 2 && r.1 == height / 2 + 1,
{
    let spacer: u16 = if width > 10 && height > 10 {
        OVERLAY_SPACER
    } else {
        0
    };
    (width / 2 - spacer, height / 2 - spacer + 1)
}

impl PlayerState {
    /// Returns the place of the track that the playback view shows.
    pub fn shown_track(&self) -> (r: Option<usize>)
        ensures
            r == shown(self@.current_track_index, self@.tracks.len()),
    {
        let index = match self.current_track_index {
            Some(index) => index,
            None => FALLBACK_TRACK,
        };
        if index < self.tracks.len() {
            Some(index)
        } else {
            None
        }
    }
}

} // verus!
