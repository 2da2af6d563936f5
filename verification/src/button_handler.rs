//! What a key does in each mode of the player: the next state, and the
//! command for the engine, if any.

use crate::fuzzy_search::{found, search};
use crate::order::Order;
use crate::playback::{play_pause_command, Command, MAX_VOLUME};
use crate::state::{PlayerState, PlayerView};
use crate::text::{pop_char, push_char};
use crate::track::catalog_wf;
use crate::utility::{
    lemma_now_playing_catalog, lemma_ordered_rearranges, lemma_rearranged_catalog, order_by,
    ordered, play_new_track,
};
use vstd::arithmetic::div_mod::{
    lemma_add_mod_noop, lemma_mod_add_multiples_vanish, lemma_mod_bound, lemma_small_mod,
};
use vstd::prelude::*;

verus! {

/// The step of one volume key, in hundredths.
pub const VOLUME_STEP: i32 = 10;

/// The last row of the option list.
pub const LAST_OPTION: usize = 3;

/// A key as the player understands it.
#[derive(Clone, Copy, Debug, PartialEq, Eq)]
pub enum Key {
    Tab,
    Esc,
    Enter,
    Backspace,
    Char(char),
    Other,
}

/// What a handler tells the router.
#[derive(Clone, Copy, Debug, PartialEq, Eq, Structural)]
pub enum Action {
    Nothing,
    Submit,
    Escape,
}

/// The place that follows `k` in a catalog of `n` tracks, the first after
/// the last.
pub open spec fn following(k: int, n: int) -> int {
    (k + 1) % n
}

/// The place that goes before `k` in a catalog of `n` tracks, the last
/// before the first.
pub open spec fn preceding(k: int, n: int) -> int {
    (k + n - 1) % n
}

impl PlayerView {
    /// Configuring switched on where it was off, and off where it was on.
    pub open spec fn config_toggled(self) -> PlayerView {
        PlayerView { is_configuring: !self.is_configuring, ..self }
    }

    /// The browse cursor one track down, but not below the last track; the
    /// player is choosing, and the inactivity counter starts again.
    pub open spec fn browse_down(self) -> PlayerView {
        PlayerView {
            is_choosing: true,
            iteration_count: 0,
            table_state: match self.table_state.selected {
                Some(row) => if row + 1 < self.tracks.len() {
                    self.table_state.moved_down()
                } else {
                    self.table_state
                },
                None => self.table_state,
            },
            ..self
        }
    }

    /// The browse cursor one track up, but not above the first; the player
    /// is choosing, and the inactivity counter starts again.
    pub open spec fn browse_up(self) -> PlayerView {
        PlayerView {
            is_choosing: true,
            iteration_count: 0,
            table_state: match self.table_state.selected {
                Some(_) => self.table_state.moved_up(),
                None => self.table_state,
            },
            ..self
        }
    }

    /// The place of the track that becomes the current one by a step
    /// forward or backward, where there is a current track and the catalog
    /// is not empty.
    pub open spec fn neighbour(self, forward: bool) -> Option<int> {
        match self.current_track_index {
            Some(k) => if self.tracks.len() > 0 {
                Some(
                    if forward {
                        following(k as int, self.tracks.len() as int)
                    } else {
                        preceding(k as int, self.tracks.len() as int)
                    },
                )
            } else {
                None
            },
            None => None,
        }
    }

    /// The state after a step to the next or the previous track.
    pub open spec fn stepped(self, forward: bool) -> PlayerView {
        match self.neighbour(forward) {
            Some(index) => self.now_playing(index),
            None => self,
        }
    }

    /// The command of a step to the next or the previous track: to play the
    /// file of the track that becomes the current one.
    pub open spec fn step_command(self, forward: bool) -> Option<Command> {
        match self.neighbour(forward) {
            Some(index) => Some(Command::New(self.tracks[index].path)),
            None => None,
        }
    }

    /// The catalog without the track under the browse cursor.
    pub open spec fn without_selected(self) -> PlayerView {
        match self.table_state.selected {
            Some(row) => if row < self.tracks.len() {
                PlayerView { tracks: self.tracks.remove(row as int), ..self }
            } else {
                self
            },
            None => self,
        }
    }

    /// The volume overlay shown, and the inactivity counter started again.
    pub open spec fn adjusting(self) -> PlayerView {
        PlayerView { is_adjusting: true, iteration_count: 0, ..self }
    }

    /// The command of the key that seeks forward: by the seek distance, in
    /// the length of the current track.
    pub open spec fn forward_command(self) -> Option<Command> {
        match self.current_track_index {
            Some(k) => if k < self.tracks.len() {
                Some(Command::Forward(self.seek_distance as u64, self.tracks[k as int].length))
            } else {
                None
            },
            None => None,
        }
    }

    /// The command of a volume key: a step up or down, where the volume as
    /// last reported leaves room for it.
    pub open spec fn volume_command(self, up: bool) -> Option<Command> {
        if up {
            if self.volume < MAX_VOLUME {
                Some(Command::Volume(VOLUME_STEP))
            } else {
                None
            }
        } else {
            if self.volume > 0 {
                Some(Command::Volume((-VOLUME_STEP) as i32))
            } else {
                None
            }
        }
    }

    /// The state after a character key that means the same while browsing
    /// and during playback.
    pub open spec fn shared_next(self, c: char) -> PlayerView {
        if c == ' ' {
            PlayerView { is_configuring: true, ..self }
        } else if c == '/' {
            PlayerView { is_searching: true, ..self }
        } else if c == 'D' {
            self.without_selected()
        } else if c == 'j' {
            self.browse_down()
        } else if c == 'k' {
            self.browse_up()
        } else if c == 'p' {
            self.stepped(false)
        } else if c == 'n' {
            self.stepped(true)
        } else if c == 'K' || c == 'J' {
            self.adjusting()
        } else {
            self
        }
    }

    /// The command of a character key that means the same while browsing and
    /// during playback.
    pub open spec fn shared_command(self, c: char) -> Option<Command> {
        if c == 'p' {
            self.step_command(false)
        } else if c == 'n' {
            self.step_command(true)
        } else if c == '<' {
            Some(Command::Backward(self.seek_distance as u64))
        } else if c == '>' {
            self.forward_command()
        } else if c == 'K' {
            self.volume_command(true)
        } else if c == 'J' {
            self.volume_command(false)
        } else {
            None
        }
    }

    /// The option cursor one row down, but not below the last option; the
    /// inactivity counter starts again.
    pub open spec fn option_down(self) -> PlayerView {
        PlayerView {
            iteration_count: 0,
            list_state: match self.list_state.selected {
                Some(row) => if row < LAST_OPTION {
                    self.list_state.moved_down()
                } else {
                    self.list_state
                },
                None => self.list_state,
            },
            ..self
        }
    }

    /// The option cursor one row up, but not above the first; the
    /// inactivity counter starts again.
    pub open spec fn option_up(self) -> PlayerView {
        PlayerView {
            iteration_count: 0,
            list_state: match self.list_state.selected {
                Some(_) => self.list_state.moved_up(),
                None => self.list_state,
            },
            ..self
        }
    }

    /// `next` is the state after the highlighted order was applied: the
    /// catalog is what that order makes of it, and the order is in force.
    /// Where no option is highlighted nothing changes.
    pub open spec fn submitted(self, next: PlayerView) -> bool {
        match self.list_state.selected {
            Some(row) => {
                &&& next == PlayerView {
                    tracks: next.tracks,
                    playback_order: Order::at_row(row as nat),
                    ..self
                }
                &&& ordered(
                    Order::at_row(row as nat),
                    self.playback_order,
                    self.tracks,
                    next.tracks,
                )
            },
            None => next == self,
        }
    }

    /// The state after a key while searching: a character is added to the
    /// keyword or the last one taken away, and the matches are those of the
    /// new keyword. The tab key switches configuring as in every mode.
    pub open spec fn search_next(self, key: Key) -> PlayerView {
        match key {
            Key::Tab => self.config_toggled(),
            Key::Char(c) => PlayerView {
                keyword: self.keyword.push(c),
                matched_tracks: found(self.tracks, self.keyword.push(c)),
                ..self
            },
            Key::Backspace => {
                let keyword = if self.keyword.len() > 0 {
                    self.keyword.drop_last()
                } else {
                    self.keyword
                };
                PlayerView { keyword, matched_tracks: found(self.tracks, keyword), ..self }
            },
            _ => self,
        }
    }

    /// `next` and `command` are what the key that confirms the browse
    /// cursor leads to: pause or resume where the cursor is on the current
    /// track, else that track becomes the current one and its file is to be
    /// played. A cursor that is on no track of the catalog does nothing.
    pub open spec fn confirmed(self, next: PlayerView, command: Option<Command>) -> bool {
        match self.table_state.selected {
            Some(row) => if row < self.tracks.len() {
                if self.current_track_index == Some(row) {
                    next == self && command is Some && command->0 is PlayPause
                } else {
                    next == self.now_playing(row as int) && command == Some(
                        Command::New(self.tracks[row as int].path),
                    )
                }
            } else {
                next == self && command is None
            },
            None => next == self && command is None,
        }
    }
}

/// What a key does while searching.
pub open spec fn search_action(key: Key) -> Action {
    match key {
        Key::Esc => Action::Escape,
        Key::Enter => Action::Submit,
        _ => Action::Nothing,
    }
}

/// What a key does while configuring.
pub open spec fn config_step(pre: PlayerView, key: Key, post: PlayerView, action: Action) -> bool {
    match key {
        Key::Tab => post == pre.config_toggled() && action == Action::Nothing,
        Key::Esc => post == pre && action == Action::Escape,
        Key::Enter => pre.submitted(post) && action == Action::Submit,
        Key::Char(c) => if c == 'j' {
            post == pre.option_down() && action == Action::Nothing
        } else if c == 'k' {
            post == pre.option_up() && action == Action::Nothing
        } else if c == ' ' {
            pre.submitted(post) && action == Action::Submit
        } else {
            post == pre && action == Action::Nothing
        },
        _ => post == pre && action == Action::Nothing,
    }
}

/// What a key does during playback.
pub open spec fn playback_step(
    pre: PlayerView,
    key: Key,
    post: PlayerView,
    action: Action,
    command: Option<Command>,
) -> bool {
    match key {
        Key::Tab => post == pre.config_toggled() && action == Action::Nothing && command is None,
        Key::Esc => post == pre && action == Action::Escape && command is None,
        Key::Char(c) => action == Action::Nothing && if c == ':' {
            post == pre && command is Some && command->0 is PlayPause
        } else {
            post == pre.shared_next(c) && command == pre.shared_command(c)
        },
        _ => post == pre && action == Action::Nothing && command is None,
    }
}

/// What a key does while browsing the catalog.
pub open spec fn choosing_step(
    pre: PlayerView,
    key: Key,
    post: PlayerView,
    action: Action,
    command: Option<Command>,
) -> bool {
    match key {
        Key::Tab => post == pre.config_toggled() && action == Action::Nothing && command is None,
        Key::Esc => post == pre && action == Action::Escape && command is None,
        Key::Char(c) => action == Action::Nothing && if c == ':' {
            pre.confirmed(post, command)
        } else {
            post == pre.shared_next(c) && command == pre.shared_command(c)
        },
        _ => post == pre && action == Action::Nothing && command is None,
    }
}

/// A catalog stays well formed when a track is taken out.
pub proof fn lemma_remove_catalog(state: PlayerView)
    requires
        catalog_wf(state.tracks),
    ensures
        catalog_wf(state.without_selected().tracks),
{
    let after = state.without_selected().tracks;
    if after != state.tracks {
        let row = state.table_state.selected->0 as int;
        assert forall|i: int, j: int|
            0 <= i < after.len() && 0 <= j < after.len() && (#[trigger] after[i]).is_playing && (
            #[trigger] after[j]).is_playing implies i == j by {
            let si = if i < row {
                i
            } else {
                i + 1
            };
            let sj = if j < row {
                j
            } else {
                j + 1
            };
            assert(after[i] == state.tracks[si] && after[j] == state.tracks[sj]);
        }
        assert forall|i: int, j: int| 0 <= i < j < after.len() implies (#[trigger] after[i]).path
            != (#[trigger] after[j]).path by {
            let si = if i < row {
                i
            } else {
                i + 1
            };
            let sj = if j < row {
                j
            } else {
                j + 1
            };
            assert(after[i] == state.tracks[si] && after[j] == state.tracks[sj]);
            assert(state.tracks[si].path != state.tracks[sj].path);
        }
    }
}

/// The neighbour of the current track is a track of the catalog.
pub proof fn lemma_neighbour_in_catalog(state: PlayerView, forward: bool)
    ensures
        state.neighbour(forward) matches Some(index) ==> 0 <= index < state.tracks.len(),
{
    if let Some(k) = state.current_track_index {
        let n = state.tracks.len() as int;
        if n > 0 {
            lemma_mod_bound(k + 1, n);
            lemma_mod_bound(k + n - 1, n);
        }
    }
}

/// A step to a neighbour keeps the state well formed.
pub proof fn lemma_stepped_wf(state: PlayerView, forward: bool)
    requires
        state.wf(),
    ensures
        state.stepped(forward).wf(),
{
    lemma_neighbour_in_catalog(state, forward);
    if let Some(index) = state.neighbour(forward) {
        lemma_now_playing_catalog(state, index);
    }
}

/// The keys that browsing and playback share keep the state well formed.
pub proof fn lemma_shared_next_wf(state: PlayerView, c: char)
    requires
        state.wf(),
    ensures
        state.shared_next(c).wf(),
{
    lemma_remove_catalog(state);
    lemma_stepped_wf(state, true);
    lemma_stepped_wf(state, false);
}

/// Every key keeps the state well formed while configuring: an order that
/// is applied moves the tracks and their marks together.
pub proof fn lemma_config_step_wf(pre: PlayerView, key: Key, post: PlayerView, action: Action)
    requires
        pre.wf(),
        config_step(pre, key, post, action),
    ensures
        post.wf(),
{
    if post.tracks != pre.tracks {
        let row = pre.list_state.selected->0;
        lemma_ordered_rearranges(
            Order::at_row(row as nat),
            pre.playback_order,
            pre.tracks,
            post.tracks,
        );
        lemma_rearranged_catalog(pre.tracks, post.tracks);
    }
}

/// Every key keeps the state well formed during playback.
pub proof fn lemma_playback_step_wf(
    pre: PlayerView,
    key: Key,
    post: PlayerView,
    action: Action,
    command: Option<Command>,
)
    requires
        pre.wf(),
        playback_step(pre, key, post, action, command),
    ensures
        post.wf(),
{
    if let Key::Char(c) = key {
        lemma_shared_next_wf(pre, c);
    }
}

/// Every key keeps the state well formed while browsing.
pub proof fn lemma_choosing_step_wf(
    pre: PlayerView,
    key: Key,
    post: PlayerView,
    action: Action,
    command: Option<Command>,
)
    requires
        pre.wf(),
        choosing_step(pre, key, post, action, command),
    ensures
        post.wf(),
{
    if let Key::Char(c) = key {
        lemma_shared_next_wf(pre, c);
    }
}

/// Steps to the track after the current one, or to the one before it, round
/// the ends of the catalog. Without a current track, or with an empty
/// catalog, nothing happens.
pub fn step_track(state: &mut PlayerState, forward: bool) -> (r: Option<Command>)
    ensures
        final(state)@ == old(state)@.stepped(forward),
        r == old(state)@.step_command(forward),
{
    match state.current_track_index {
        Some(k) => {
            let n = state.tracks.len();
            if n > 0 {
                let at = k % n;
                let index = if forward {
                    if at + 1 < n {
                        at + 1
                    } else {
                        0
                    }
                } else {
                    if at > 0 {
                        at - 1
                    } else {
                        n - 1
                    }
                };
                proof {
                    let kk = k as int;
                    let nn = n as int;
                    lemma_mod_bound(kk, nn);
                    if forward {
                        lemma_add_mod_noop(kk, 1, nn);
                        if nn > 1 {
                            lemma_small_mod(1, nn as nat);
                            if at + 1 < n {
                                lemma_small_mod((at + 1) as nat, nn as nat);
                            } else {
                                lemma_mod_add_multiples_vanish(0, nn);
                                lemma_small_mod(0, nn as nat);
                            }
                        } else {
                            lemma_mod_bound(kk + 1, nn);
                        }
                        assert(index == following(kk, nn));
                    } else {
                        lemma_add_mod_noop(kk, nn - 1, nn);
                        lemma_small_mod((nn - 1) as nat, nn as nat);
                        if at > 0 {
                            lemma_mod_add_multiples_vanish(at - 1, nn);
                            lemma_small_mod((at - 1) as nat, nn as nat);
                        } else {
                            lemma_small_mod((nn - 1) as nat, nn as nat);
                        }
                        assert(index == preceding(kk, nn));
                    }
                }
                Some(play_new_track(index, state))
            } else {
                None
            }
        },
        None => None,
    }
}

fn handle_shared(c: char, state: &mut PlayerState) -> (r: Option<Command>)
    requires
        c != ':',
    ensures
        final(state)@ == old(state)@.shared_next(c),
        r == old(state)@.shared_command(c),
{
    if c == ' ' {
        state.is_configuring = true;
        None
    } else if c == '/' {
        state.is_searching = true;
        None
    } else if c == 'D' {
        if let Some(row) = state.table_state.selected() {
            if row < state.tracks.len() {
                state.tracks.remove(row);
            }
        }
        None
    } else if c == 'j' {
        state.is_choosing = true;
        state.iteration_count = 0;
        if let Some(row) = state.table_state.selected() {
            let n = state.tracks.len();
            if n > 0 && row < n - 1 {
                state.table_state.select_next();
            }
        }
        None
    } else if c == 'k' {
        state.is_choosing = true;
        state.iteration_count = 0;
        if state.table_state.selected().is_some() {
            state.table_state.select_previous();
        }
        None
    } else if c == 'p' {
        step_track(state, false)
    } else if c == 'n' {
        step_track(state, true)
    } else if c == '<' {
        Some(Command::Backward(state.seek_distance as u64))
    } else if c == '>' {
        match state.current_track_index {
            Some(k) => if k < state.tracks.len() {
                Some(Command::Forward(state.seek_distance as u64, state.tracks[k].length))
            } else {
                None
            },
            None => None,
        }
    } else if c == 'K' {
        state.is_adjusting = true;
        state.iteration_count = 0;
        if state.volume < MAX_VOLUME {
            Some(Command::Volume(VOLUME_STEP))
        } else {
            None
        }
    } else if c == 'J' {
        state.is_adjusting = true;
        state.iteration_count = 0;
        if state.volume > 0 {
            Some(Command::Volume(-VOLUME_STEP))
        } else {
            None
        }
    } else {
        None
    }
}

fn apply_selected_order(state: &mut PlayerState)
    ensures
        old(state)@.submitted(final(state)@),
{
    if let Some(row) = state.list_state.selected() {
        let order = Order::from_row(row);
        let current = state.playback_order;
        order_by(&order, &current, &mut state.tracks);
        state.playback_order = order;
    }
}

/// Handles a key while the player is configuring: moves the option cursor,
/// or applies the highlighted order to the catalog.
pub fn handle_config(key: Key, state: &mut PlayerState) -> (r: Action)
    ensures
        config_step(old(state)@, key, final(state)@, r),
        old(state)@.wf() ==> final(state)@.wf(),
{
    let r = match key {
        Key::Tab => {
            state.is_configuring = !state.is_configuring;
            Action::Nothing
        },
        Key::Char(c) => {
            if c == 'j' {
                state.iteration_count = 0;
                if let Some(row) = state.list_state.selected() {
                    if row < LAST_OPTION {
                        state.list_state.select_next();
                    }
                }
                Action::Nothing
            } else if c == 'k' {
                state.iteration_count = 0;
                if state.list_state.selected().is_some() {
                    state.list_state.select_previous();
                }
                Action::Nothing
            } else if c == ' ' {
                apply_selected_order(state);
                Action::Submit
            } else {
                Action::Nothing
            }
        },
        Key::Esc => Action::Escape,
        Key::Enter => {
            apply_selected_order(state);
            Action::Submit
        },
        _ => Action::Nothing,
    };
    proof {
        if old(state)@.wf() {
            lemma_config_step_wf(old(state)@, key, state@, r);
        }
    }
    r
}

/// Handles a key while the player is searching: edits the keyword and
/// searches the catalog again, or switches configuring.
pub fn handle_search(key: Key, state: &mut PlayerState) -> (r: Action)
    ensures
        final(state)@ == old(state)@.search_next(key),
        r == search_action(key),
        old(state)@.wf() ==> final(state)@.wf(),
{
    match key {
        Key::Tab => {
            state.is_configuring = !state.is_configuring;
            Action::Nothing
        },
        Key::Char(c) => {
            push_char(&mut state.keyword, c);
            state.matched_tracks = search(&state.tracks, state.keyword.as_str());
            Action::Nothing
        },
        Key::Backspace => {
            pop_char(&mut state.keyword);
            state.matched_tracks = search(&state.tracks, state.keyword.as_str());
            Action::Nothing
        },
        Key::Esc => Action::Escape,
        Key::Enter => Action::Submit,
        _ => Action::Nothing,
    }
}

/// Handles a key during playback.
pub fn handle_playback(key: Key, state: &mut PlayerState) -> (r: (Action, Option<Command>))
    ensures
        playback_step(old(state)@, key, final(state)@, r.0, r.1),
        old(state)@.wf() ==> final(state)@.wf(),
{
    let r = match key {
        Key::Tab => {
            state.is_configuring = !state.is_configuring;
            (Action::Nothing, None)
        },
        Key::Esc => (Action::Escape, None),
        Key::Char(c) => {
            if c == ':' {
                (Action::Nothing, Some(play_pause_command()))
            } else {
                let command = handle_shared(c, state);
                (Action::Nothing, command)
            }
        },
        _ => (Action::Nothing, None),
    };
    proof {
        if old(state)@.wf() {
            lemma_playback_step_wf(old(state)@, key, state@, r.0, r.1);
        }
    }
    r
}

/// Handles a key while the player is browsing the catalog.
pub fn handle_choosing(key: Key, state: &mut PlayerState) -> (r: (Action, Option<Command>))
    ensures
        choosing_step(old(state)@, key, final(state)@, r.0, r.1),
        old(state)@.wf() ==> final(state)@.wf(),
{
    let r = match key {
        Key::Tab => {
            state.is_configuring = !state.is_configuring;
            (Action::Nothing, None)
        },
        Key::Esc => (Action::Escape, None),
        Key::Char(c) => {
            if c == ':' {
                let command = match state.table_state.selected() {
                    Some(row) => if row < state.tracks.len() {
                        let on_current = match state.current_track_index {
                            Some(current) => current == row,
                            None => false,
                        };
                        if on_current {
                            Some(play_pause_command())
                        } else {
                            Some(play_new_track(row, state))
                        }
                    } else {
                        None
                    },
                    None => None,
                };
                (Action::Nothing, command)
            } else {
                let command = handle_shared(c, state);
                (Action::Nothing, command)
            }
        },
        _ => (Action::Nothing, None),
    };
    proof {
        if old(state)@.wf() {
            lemma_choosing_step_wf(old(state)@, key, state@, r.0, r.1);
        }
    }
    r
}

} // verus!
