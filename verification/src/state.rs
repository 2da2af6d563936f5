//! The state of the player: the catalog, the modes, the cursors and the
//! inactivity counter.

use crate::cursor::Cursor;
use crate::order::Order;
use crate::text::push_char;
use crate::track::{catalog_wf, Audio};
use std::path::PathBuf;
use vstd::prelude::*;

verus! {

/// The seek distance, in seconds, where none is configured.
pub const DEFAULT_SEEK_DISTANCE: usize = 5;

/// The number of ticks without input after which the player goes back to
/// the playback view: four seconds at 49 milliseconds a tick of the
/// controller, 4 * 1000 / 49, to the nearest tick.
pub const DEBOUNCE_TICKS: usize = 82;

/// The unamplified volume, in hundredths.
pub const UNIT_VOLUME: u32 = 100;

/// What the configuration file says.
#[derive(Debug, Clone)]
pub struct Config {
    pub path: PathBuf,
    pub seek_distance: usize,
}

/// The dominant mode of the player.
#[derive(Clone, Copy, Debug, PartialEq, Eq, Structural)]
pub enum Mode {
    Playback,
    Choosing,
    Searching,
    Configuring,
}

/// The state of the player.
pub struct PlayerState {
    pub tracks: Vec<Audio>,
    pub is_searching: bool,
    pub is_adjusting: bool,
    pub is_configuring: bool,
    pub is_choosing: bool,
    pub keyword: String,
    pub current_track_index: Option<usize>,
    pub table_state: Cursor,
    pub list_state: Cursor,
    pub matched_tracks: Vec<Audio>,
    pub iteration_count: usize,
    /// In hundredths, as the engine last reported it.
    pub volume: u32,
    pub playback_order: Order,
    pub seek_distance: usize,
}

/// The state of the player as a value: the catalog and the matches as
/// sequences, the keyword as a sequence of characters.
pub struct PlayerView {
    pub tracks: Seq<Audio>,
    pub is_searching: bool,
    pub is_adjusting: bool,
    pub is_configuring: bool,
    pub is_choosing: bool,
    pub keyword: Seq<char>,
    pub current_track_index: Option<usize>,
    pub table_state: Cursor,
    pub list_state: Cursor,
    pub matched_tracks: Seq<Audio>,
    pub iteration_count: usize,
    pub volume: u32,
    pub playback_order: Order,
    pub seek_distance: usize,
}

impl View for PlayerState {
    type V = PlayerView;

    open spec fn view(&self) -> PlayerView {
        PlayerView {
            tracks: self.tracks@,
            is_searching: self.is_searching,
            is_adjusting: self.is_adjusting,
            is_configuring: self.is_configuring,
            is_choosing: self.is_choosing,
            keyword: self.keyword@,
            current_track_index: self.current_track_index,
            table_state: self.table_state,
            list_state: self.list_state,
            matched_tracks: self.matched_tracks@,
            iteration_count: self.iteration_count,
            volume: self.volume,
            playback_order: self.playback_order,
            seek_distance: self.seek_distance,
        }
    }
}

impl PlayerView {
    /// The state in which the player starts on a catalog: browsing, with
    /// nothing selected, nothing current and the catalog as it was loaded.
    pub open spec fn initial(tracks: Seq<Audio>, seek_distance: usize) -> PlayerView {
        PlayerView {
            tracks,
            is_searching: false,
            is_adjusting: false,
            is_configuring: false,
            is_choosing: true,
            keyword: Seq::empty(),
            current_track_index: None,
            table_state: Cursor { selected: None },
            list_state: Cursor { selected: None },
            matched_tracks: Seq::empty(),
            iteration_count: 0,
            volume: UNIT_VOLUME,
            playback_order: Order::Artist,
            seek_distance,
        }
    }

    /// What holds of the state at all times: a path names one track of the
    /// catalog, at most one track is marked as playing, and the inactivity
    /// counter is below its threshold.
    pub open spec fn wf(self) -> bool {
        &&& catalog_wf(self.tracks)
        &&& self.iteration_count < DEBOUNCE_TICKS
    }

    /// The dominant mode: searching before configuring, configuring before
    /// choosing, and playback where none of them is on.
    pub open spec fn mode(self) -> Mode {
        if self.is_searching {
            Mode::Searching
        } else if self.is_configuring {
            Mode::Configuring
        } else if self.is_choosing {
            Mode::Choosing
        } else {
            Mode::Playback
        }
    }
}

impl PlayerState {
    /// Returns the state in which the player starts on the given catalog.
    pub fn init(tracks: Vec<Audio>, seek_distance: usize) -> (r: PlayerState)
        ensures
            r@ == PlayerView::initial(tracks@, seek_distance),
            catalog_wf(tracks@) ==> r@.wf(),
    {
        PlayerState {
            tracks,
            is_searching: false,
            is_adjusting: false,
            is_configuring: false,
            is_choosing: true,
            keyword: String::new(),
            current_track_index: None,
            table_state: Cursor::new(),
            list_state: Cursor::new(),
            matched_tracks: Vec::new(),
            iteration_count: 0,
            volume: UNIT_VOLUME,
            playback_order: Order::Artist,
            seek_distance,
        }
    }

    /// Returns the starting state with the seek distance of a configuration.
    pub fn configured(config: &Config, tracks: Vec<Audio>) -> (r: PlayerState)
        ensures
            r@ == PlayerView::initial(tracks@, config.seek_distance),
            catalog_wf(tracks@) ==> r@.wf(),
    {
        PlayerState::init(tracks, config.seek_distance)
    }

    /// Returns the starting state with the default seek distance.
    pub fn with_defaults(tracks: Vec<Audio>) -> (r: PlayerState)
        ensures
            r@ == PlayerView::initial(tracks@, DEFAULT_SEEK_DISTANCE),
            catalog_wf(tracks@) ==> r@.wf(),
    {
        PlayerState::init(tracks, DEFAULT_SEEK_DISTANCE)
    }

    /// Returns the dominant mode.
    pub fn mode(&self) -> (r: Mode)
        ensures
            r == self@.mode(),
    {
        if self.is_searching {
            Mode::Searching
        } else if self.is_configuring {
            Mode::Configuring
        } else if self.is_choosing {
            Mode::Choosing
        } else {
            Mode::Playback
        }
    }

    /// Reads the bytes of a configuration file as text, each byte as the
    /// character with that code.
    pub fn config_text(bytes: &[u8]) -> (r: String)
        ensures
            r@ == bytes@.map_values(|b: u8| b as char),
    {
        let mut text = String::new();
        let n = bytes.len();
        let mut i: usize = 0;
        while i < n
            invariant
                n == bytes@.len(),
                i <= n,
                text@ == bytes@.take(i as int).map_values(|b: u8| b as char),
            decreases n - i,
        {
            push_char(&mut text, bytes[i] as char);
            assert(bytes@.take(i + 1) =~= bytes@.take(i as int).push(bytes@[i as int]));
            assert(bytes@.take(i + 1).map_values(|b: u8| b as char) =~= bytes@.take(
                i as int,
            ).map_values(|b: u8| b as char).push(bytes@[i as int] as char));
            i += 1;
        }
        assert(bytes@.take(n as int) =~= bytes@);
        text
    }
}

} // verus!
