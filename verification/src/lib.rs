//! The core of a small terminal audio player: the track catalog with its
//! orderings and search, the transport protocol and the decisions of the
//! playback engine, and the player's mode state machine.

pub mod button_handler;
pub mod controller;
pub mod cursor;
pub mod fuzzy_search;
pub mod gpio;
pub mod order;
pub mod permutation;
pub mod playback;
pub mod shuffle;
pub mod sorting;
pub mod state;
pub mod text;
pub mod track;
pub mod utility;
pub mod view;

pub use playback::Command;
pub use track::Audio;
