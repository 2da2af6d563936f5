//! The controller's decisions at each tick: to which handler a key goes and
//! what its answer does to the mode, when the next track is queued, and when
//! the player falls back to the playback view.

use crate::button_handler::{
    choosing_step, config_step, handle_choosing, handle_config, handle_playback, handle_search,
    lemma_choosing_step_wf, lemma_config_step_wf, lemma_playback_step_wf, lemma_stepped_wf,
    playback_step, search_action, step_track, Action, Key,
};
use crate::playback::{Command, SinkState, TICK_MILLIS};
use crate::state::{Mode, PlayerState, PlayerView, DEBOUNCE_TICKS};
use vstd::arithmetic::div_mod::lemma_mod_bound;
use vstd::prelude::*;

verus! {

/// How long the controller waits for the keyboard at each tick, in
/// milliseconds. With the wait for the report of the engine that makes the
/// length of a tick of the controller.
pub const KEYBOARD_WAIT_MILLIS: u64 = 16;

/// The time without input after which the player falls back to the playback
/// view, in milliseconds.
pub const DEBOUNCE_MILLIS: u64 = 4000;

/// What the controller is to do after a key: leave the run loop, and submit
/// a command to the engine, if there is one.
#[derive(Debug)]
pub struct Routed {
    pub exit: bool,
    pub command: Option<Command>,
}

impl PlayerView {
    /// The end of a track was reported: the track after the current one
    /// becomes the current one, the first after the last.
    pub open spec fn auto_queued(self, sink: SinkState) -> PlayerView {
        if sink.current_track_finished {
            self.stepped(true)
        } else {
            self
        }
    }

    /// The command with which the next track is queued at the end of a
    /// track.
    pub open spec fn auto_queue_command(self, sink: SinkState) -> Option<Command> {
        if sink.current_track_finished {
            self.step_command(true)
        } else {
            None
        }
    }

    /// With this tick the inactivity counter reaches its threshold.
    pub open spec fn debounce_due(self) -> bool {
        self.iteration_count + 1 >= DEBOUNCE_TICKS
    }

    /// One more tick without input. At the threshold the counter starts
    /// again, the volume overlay and configuring end, and browsing ends
    /// unless the device is empty.
    pub open spec fn debounced(self, sink: SinkState) -> PlayerView {
        if self.debounce_due() {
            PlayerView {
                is_adjusting: false,
                is_choosing: self.is_choosing && sink.is_empty,
                is_configuring: false,
                iteration_count: 0,
                ..self
            }
        } else {
            PlayerView { iteration_count: (self.iteration_count + 1) as usize, ..self }
        }
    }

    /// The state at the end of a tick with the given report: the next track
    /// queued where a track has finished, one more tick counted, and the
    /// reported volume kept.
    pub open spec fn observed(self, sink: SinkState) -> PlayerView {
        PlayerView { volume: sink.volume, ..self.auto_queued(sink).debounced(sink) }
    }

    /// An answer of a handler ends the mode in which the key was handled: an
    /// escape from any mode but playback, and a submit while configuring.
    pub open spec fn leaves(mode: Mode, action: Action) -> bool {
        mode != Mode::Playback && (action == Action::Escape || (mode == Mode::Configuring
            && action == Action::Submit))
    }

    /// The state when a handler has answered: where the answer ends the
    /// mode, the player is back in playback.
    pub open spec fn left(self, mode: Mode, action: Action) -> PlayerView {
        if PlayerView::leaves(mode, action) {
            PlayerView { is_searching: false, is_configuring: false, is_choosing: false, ..self }
        } else {
            self
        }
    }
}

/// What a key leads to: it is handled in the dominant mode, the answer of
/// the handler takes the player back to playback or not, and an escape
/// during playback ends the run loop.
pub open spec fn routed(
    pre: PlayerView,
    key: Key,
    post: PlayerView,
    exit: bool,
    command: Option<Command>,
) -> bool {
    exists|mid: PlayerView, action: Action|
        {
            &&& #[trigger] handled(pre, key, mid, action, command)
            &&& post == mid.left(pre.mode(), action)
            &&& exit == (pre.mode() == Mode::Playback && action == Action::Escape)
        }
}

/// The handler of the dominant mode takes the state from `pre` to `post`
/// on the key, with this answer and this command.
pub open spec fn handled(
    pre: PlayerView,
    key: Key,
    post: PlayerView,
    action: Action,
    command: Option<Command>,
) -> bool {
    match pre.mode() {
        Mode::Searching => post == pre.search_next(key) && action == search_action(key)
            && command is None,
        Mode::Configuring => config_step(pre, key, post, action) && command is None,
        Mode::Choosing => choosing_step(pre, key, post, action, command),
        Mode::Playback => playback_step(pre, key, post, action, command),
    }
}

/// Hands a key to the handler of the dominant mode. An escape from
/// searching, configuring or browsing, and a submit while configuring, take
/// the player back to playback; an escape during playback ends the run
/// loop.
pub fn route_key(key: Key, state: &mut PlayerState) -> (r: Routed)
    ensures
        routed(old(state)@, key, final(state)@, r.exit, r.command),
        old(state)@.wf() ==> final(state)@.wf(),
        r.exit ==> old(state)@.mode() == Mode::Playback && final(state)@ == old(state)@,
{
    let mode = state.mode();
    let (action, command) = match mode {
        Mode::Searching => (handle_search(key, state), None),
        Mode::Configuring => (handle_config(key, state), None),
        Mode::Choosing => handle_choosing(key, state),
        Mode::Playback => handle_playback(key, state),
    };
    let ghost mid = state@;
    let escaped = action == Action::Escape;
    let exit = match mode {
        Mode::Playback => escaped,
        _ => false,
    };
    let leaves = match mode {
        Mode::Playback => false,
        Mode::Configuring => escaped || action == Action::Submit,
        _ => escaped,
    };
    if leaves {
        state.is_searching = false;
        state.is_configuring = false;
        state.is_choosing = false;
    }
    proof {
        assert(handled(old(state)@, key, mid, action, command));
        assert(state@ == mid.left(old(state)@.mode(), action));
    }
    Routed { exit, command }
}

/// Queues the next track where the report says that a track has finished
/// and there is a current track: the track after it becomes the current one,
/// the first after the last, and the one command that comes back asks the
/// engine to play its file.
pub fn auto_queue(state: &mut PlayerState, sink: &SinkState) -> (r: Option<Command>)
    ensures
        final(state)@ == old(state)@.auto_queued(*sink),
        r == old(state)@.auto_queue_command(*sink),
        old(state)@.wf() ==> final(state)@.wf(),
{
    proof {
        if old(state)@.wf() {
            lemma_stepped_wf(old(state)@, true);
        }
    }
    if sink.current_track_finished {
        step_track(state, true)
    } else {
        None
    }
}

/// Counts one more tick without input. At the threshold the counter starts
/// again, the volume overlay and configuring end, and browsing ends unless
/// the device is empty.
pub fn debounce(state: &mut PlayerState, sink: &SinkState)
    ensures
        final(state)@ == old(state)@.debounced(*sink),
        final(state)@.iteration_count < DEBOUNCE_TICKS,
        old(state)@.wf() ==> final(state)@.wf(),
{
    if state.iteration_count >= DEBOUNCE_TICKS - 1 {
        state.is_adjusting = false;
        if !sink.is_empty {
            state.is_choosing = false;
        }
        state.is_configuring = false;
        state.iteration_count = 0;
    } else {
        state.iteration_count = state.iteration_count + 1;
    }
}

/// Ends a tick: queues the next track where one has finished, counts the
/// tick, and keeps the volume that the engine reports.
pub fn on_snapshot(state: &mut PlayerState, sink: &SinkState) -> (r: Option<Command>)
    ensures
        final(state)@ == old(state)@.observed(*sink),
        r == old(state)@.auto_queue_command(*sink),
        old(state)@.wf() ==> final(state)@.wf(),
{
    let command = auto_queue(state, sink);
    debounce(state, sink);
    state.volume = sink.volume;
    command
}

/// An answer that ends a mode takes the player back to playback.
pub proof fn lemma_left_is_playback(state: PlayerView, mode: Mode, action: Action)
    requires
        PlayerView::leaves(mode, action),
    ensures
        state.left(mode, action).mode() == Mode::Playback,
{
}

/// Every key keeps the state well formed, whatever the mode.
pub proof fn lemma_routed_wf(
    pre: PlayerView,
    key: Key,
    post: PlayerView,
    exit: bool,
    command: Option<Command>,
)
    requires
        pre.wf(),
        routed(pre, key, post, exit, command),
    ensures
        post.wf(),
{
    let (mid, action) = choose|mid: PlayerView, action: Action|
        {
            &&& #[trigger] handled(pre, key, mid, action, command)
            &&& post == mid.left(pre.mode(), action)
            &&& exit == (pre.mode() == Mode::Playback && action == Action::Escape)
        };
    match pre.mode() {
        Mode::Searching => {},
        Mode::Configuring => lemma_config_step_wf(pre, key, mid, action),
        Mode::Choosing => lemma_choosing_step_wf(pre, key, mid, action, command),
        Mode::Playback => lemma_playback_step_wf(pre, key, mid, action, command),
    }
}

/// The threshold of the inactivity counter is the fall-back time in ticks
/// of the controller, to the nearest tick.
pub proof fn lemma_debounce_ticks()
    ensures
        2 * (DEBOUNCE_TICKS * (TICK_MILLIS + KEYBOARD_WAIT_MILLIS) - DEBOUNCE_MILLIS) <= TICK_MILLIS
            + KEYBOARD_WAIT_MILLIS,
        2 * (DEBOUNCE_MILLIS - DEBOUNCE_TICKS * (TICK_MILLIS + KEYBOARD_WAIT_MILLIS)) <= TICK_MILLIS
            + KEYBOARD_WAIT_MILLIS,
{
}

/// At the threshold the inactivity counter starts again, the volume overlay
/// and configuring end whatever the device does, and browsing ends exactly
/// where the device is not empty.
pub proof fn lemma_debounce_at_threshold(state: PlayerView, sink: SinkState)
    requires
        state.iteration_count + 1 == DEBOUNCE_TICKS,
    ensures
        state.debounced(sink).iteration_count == 0,
        !state.debounced(sink).is_adjusting,
        !state.debounced(sink).is_configuring,
        state.debounced(sink).is_choosing == (state.is_choosing && sink.is_empty),
        state.debounced(sink).tracks == state.tracks,
{
}

/// Where a track has finished and the current track is track `k` of `n`,
/// the current track becomes track `(k + 1) mod n`, it alone is marked as
/// playing, and the one command is to play its file.
pub proof fn lemma_auto_queue_advances(state: PlayerView, sink: SinkState, k: usize)
    requires
        sink.current_track_finished,
        state.current_track_index == Some(k),
        state.tracks.len() > 0,
        state.tracks.len() <= usize::MAX,
    ensures
        0 <= (k + 1) % (state.tracks.len() as int) < state.tracks.len(),
        state.auto_queued(sink).current_track_index == Some(
            ((k + 1) % (state.tracks.len() as int)) as usize,
        ),
        state.auto_queue_command(sink) == Some(
            Command::New(state.tracks[(k + 1) % (state.tracks.len() as int)].path),
        ),
        forall|i: int|
            0 <= i < state.tracks.len() ==> (#[trigger] state.auto_queued(sink).tracks[i]).is_playing
                == (i == (k + 1) % (state.tracks.len() as int)),
{
    lemma_mod_bound(k + 1, state.tracks.len() as int);
}

} // verus!
