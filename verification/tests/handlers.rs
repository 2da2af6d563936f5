use daph::button_handler::{
    handle_choosing, handle_config, handle_playback, handle_search, step_track, Action, Key,
};
use daph::order::Order;
use daph::playback::Command;
use daph::state::PlayerState;
use daph::utility::play_new_track;
use daph::Audio;
use std::path::PathBuf;

fn track(name: &str, author: &str, length: u64) -> Audio {
    Audio {
        is_playing: false,
        name: String::from(name),
        author: String::from(author),
        length,
        path: PathBuf::from(format!("/music/{}.mp3", name)),
    }
}

fn player() -> PlayerState {
    let tracks = vec![
        track("Hello", "Adele", 295),
        track("Commit Ballad", "toe", 240),
        track("Bee Apple Lemon, Rock", "toe", 180),
        track("Bee Apple Lemon, Rock, Stone", "toe", 200),
    ];
    let mut state = PlayerState::init(tracks, 5);
    state.table_state.select_first();
    state.list_state.select_first();
    state
}

fn playing(state: &PlayerState) -> Vec<usize> {
    (0..state.tracks.len()).filter(|i| state.tracks[*i].is_playing).collect()
}

fn load_of(state: &PlayerState, index: usize) -> Option<Command> {
    Some(Command::New(state.tracks[index].path.clone()))
}

#[test]
fn play_new_track_marks_one_track_and_asks_for_its_file() {
    let mut state = player();
    let command = play_new_track(2, &mut state);
    assert_eq!(command, Command::New(PathBuf::from("/music/Bee Apple Lemon, Rock.mp3")));
    assert_eq!(state.current_track_index, Some(2));
    assert_eq!(playing(&state), vec![2]);
    let command = play_new_track(0, &mut state);
    assert_eq!(command, Command::New(PathBuf::from("/music/Hello.mp3")));
    assert_eq!(state.current_track_index, Some(0));
    assert_eq!(playing(&state), vec![0]);
}

#[test]
fn play_new_track_clears_a_mark_that_strayed() {
    let mut state = player();
    play_new_track(1, &mut state);
    state.tracks.swap(1, 3);
    play_new_track(0, &mut state);
    assert_eq!(playing(&state), vec![0]);
}

#[test]
fn tab_toggles_configuring_in_every_handler() {
    let mut state = player();
    assert_eq!(handle_playback(Key::Tab, &mut state), (Action::Nothing, None));
    assert!(state.is_configuring);
    assert_eq!(handle_choosing(Key::Tab, &mut state), (Action::Nothing, None));
    assert!(!state.is_configuring);
    assert_eq!(handle_config(Key::Tab, &mut state), Action::Nothing);
    assert!(state.is_configuring);
    assert_eq!(handle_search(Key::Tab, &mut state), Action::Nothing);
    assert!(!state.is_configuring);
    assert!(state.is_choosing);
    assert_eq!(state.keyword, "");
}

#[test]
fn escape_is_reported_and_changes_nothing() {
    let mut state = player();
    assert_eq!(handle_playback(Key::Esc, &mut state), (Action::Escape, None));
    assert_eq!(handle_choosing(Key::Esc, &mut state), (Action::Escape, None));
    assert_eq!(handle_config(Key::Esc, &mut state), Action::Escape);
    assert_eq!(handle_search(Key::Esc, &mut state), Action::Escape);
    assert!(state.is_choosing);
    assert!(!state.is_configuring);
    assert!(!state.is_searching);
}

#[test]
fn the_browse_cursor_stops_at_the_ends() {
    let mut state = player();
    state.is_choosing = false;
    state.iteration_count = 40;
    for expected in [1usize, 2, 3, 3, 3] {
        assert_eq!(handle_playback(Key::Char('j'), &mut state), (Action::Nothing, None));
        assert_eq!(state.table_state.selected(), Some(expected));
        assert!(state.is_choosing);
        assert_eq!(state.iteration_count, 0);
    }
    for expected in [2usize, 1, 0, 0] {
        state.iteration_count = 7;
        assert_eq!(handle_choosing(Key::Char('k'), &mut state), (Action::Nothing, None));
        assert_eq!(state.table_state.selected(), Some(expected));
        assert_eq!(state.iteration_count, 0);
    }
}

#[test]
fn the_browse_cursor_in_an_empty_catalog() {
    let mut state = PlayerState::init(Vec::new(), 5);
    state.table_state.select_first();
    handle_playback(Key::Char('j'), &mut state);
    assert_eq!(state.table_state.selected(), Some(0));
    handle_playback(Key::Char('k'), &mut state);
    assert_eq!(state.table_state.selected(), Some(0));
    assert_eq!(handle_playback(Key::Char('n'), &mut state), (Action::Nothing, None));
    assert_eq!(handle_playback(Key::Char('D'), &mut state), (Action::Nothing, None));
    assert_eq!(handle_choosing(Key::Char(':'), &mut state), (Action::Nothing, None));
    assert_eq!(handle_playback(Key::Char('>'), &mut state), (Action::Nothing, None));
}

#[test]
fn a_cursor_that_selects_nothing() {
    let mut state = PlayerState::init(vec![track("a", "b", 1)], 5);
    handle_playback(Key::Char('j'), &mut state);
    assert_eq!(state.table_state.selected(), None);
    handle_playback(Key::Char('k'), &mut state);
    assert_eq!(state.table_state.selected(), None);
    handle_config(Key::Char('j'), &mut state);
    handle_config(Key::Char('k'), &mut state);
    assert_eq!(state.list_state.selected(), None);
    assert_eq!(handle_choosing(Key::Char(':'), &mut state), (Action::Nothing, None));
    assert_eq!(handle_choosing(Key::Char('D'), &mut state), (Action::Nothing, None));
    assert_eq!(state.tracks.len(), 1);
}

#[test]
fn space_and_slash_change_the_mode() {
    let mut state = player();
    assert_eq!(handle_playback(Key::Char(' '), &mut state), (Action::Nothing, None));
    assert!(state.is_configuring);
    assert_eq!(handle_choosing(Key::Char('/'), &mut state), (Action::Nothing, None));
    assert!(state.is_searching);
}

#[test]
fn colon_during_playback_toggles_pause() {
    let mut state = player();
    let (action, command) = handle_playback(Key::Char(':'), &mut state);
    assert_eq!(action, Action::Nothing);
    assert!(matches!(command, Some(Command::PlayPause(_))));
    assert_eq!(state.current_track_index, None);
}

#[test]
fn colon_while_browsing_plays_the_track_under_the_cursor() {
    let mut state = player();
    state.table_state.select(Some(2));
    let (action, command) = handle_choosing(Key::Char(':'), &mut state);
    assert_eq!(action, Action::Nothing);
    assert_eq!(command, load_of(&state, 2));
    assert_eq!(state.current_track_index, Some(2));
    assert_eq!(playing(&state), vec![2]);

    state.table_state.select(Some(1));
    let (_, command) = handle_choosing(Key::Char(':'), &mut state);
    assert_eq!(command, load_of(&state, 1));
    assert_eq!(state.current_track_index, Some(1));
    assert_eq!(playing(&state), vec![1]);
}

#[test]
fn colon_on_the_current_track_toggles_pause() {
    let mut state = player();
    state.table_state.select(Some(2));
    handle_choosing(Key::Char(':'), &mut state);
    let (action, command) = handle_choosing(Key::Char(':'), &mut state);
    assert_eq!(action, Action::Nothing);
    assert!(matches!(command, Some(Command::PlayPause(_))));
    assert_eq!(state.current_track_index, Some(2));
    assert_eq!(playing(&state), vec![2]);
}

#[test]
fn next_and_previous_go_round_the_catalog() {
    let mut state = player();
    play_new_track(2, &mut state);
    let (_, command) = handle_playback(Key::Char('n'), &mut state);
    assert_eq!(command, load_of(&state, 3));
    assert_eq!(state.current_track_index, Some(3));
    assert_eq!(playing(&state), vec![3]);
    let (_, command) = handle_playback(Key::Char('n'), &mut state);
    assert_eq!(command, load_of(&state, 0));
    assert_eq!(state.current_track_index, Some(0));
    assert_eq!(playing(&state), vec![0]);
    let (_, command) = handle_choosing(Key::Char('p'), &mut state);
    assert_eq!(command, load_of(&state, 3));
    assert_eq!(state.current_track_index, Some(3));
    assert_eq!(playing(&state), vec![3]);
    let (_, command) = handle_choosing(Key::Char('p'), &mut state);
    assert_eq!(command, load_of(&state, 2));
    assert_eq!(playing(&state), vec![2]);
}

#[test]
fn next_and_previous_without_a_current_track_do_nothing() {
    let mut state = player();
    assert_eq!(handle_playback(Key::Char('n'), &mut state), (Action::Nothing, None));
    assert_eq!(handle_playback(Key::Char('p'), &mut state), (Action::Nothing, None));
    assert_eq!(state.current_track_index, None);
    assert!(playing(&state).is_empty());
}

#[test]
fn step_track_takes_a_current_index_beyond_the_catalog() {
    let mut state = player();
    state.current_track_index = Some(usize::MAX);
    let n = state.tracks.len();
    let expected = ((usize::MAX % n) + 1) % n;
    let command = step_track(&mut state, true);
    assert_eq!(state.current_track_index, Some(expected));
    assert_eq!(command, load_of(&state, expected));
    state.current_track_index = Some(9);
    step_track(&mut state, false);
    assert_eq!(state.current_track_index, Some(0));
    state.current_track_index = Some(9);
    step_track(&mut state, true);
    assert_eq!(state.current_track_index, Some(2));
}

#[test]
fn delete_takes_the_track_under_the_cursor_out() {
    let mut state = player();
    state.table_state.select(Some(1));
    assert_eq!(handle_playback(Key::Char('D'), &mut state), (Action::Nothing, None));
    assert_eq!(state.tracks.len(), 3);
    assert_eq!(state.tracks[0].name, "Hello");
    assert_eq!(state.tracks[1].name, "Bee Apple Lemon, Rock");
    assert_eq!(state.tracks[2].name, "Bee Apple Lemon, Rock, Stone");
    state.table_state.select(Some(3));
    handle_choosing(Key::Char('D'), &mut state);
    assert_eq!(state.tracks.len(), 3);
    state.table_state.select(Some(2));
    handle_choosing(Key::Char('D'), &mut state);
    assert_eq!(state.tracks.len(), 2);
}

#[test]
fn seek_keys_send_the_seek_distance() {
    let mut state = player();
    assert_eq!(
        handle_playback(Key::Char('<'), &mut state),
        (Action::Nothing, Some(Command::Backward(5)))
    );
    assert_eq!(handle_playback(Key::Char('>'), &mut state), (Action::Nothing, None));
    play_new_track(1, &mut state);
    assert_eq!(
        handle_playback(Key::Char('>'), &mut state),
        (Action::Nothing, Some(Command::Forward(5, 240)))
    );
    assert_eq!(
        handle_choosing(Key::Char('>'), &mut state),
        (Action::Nothing, Some(Command::Forward(5, 240)))
    );
    state.current_track_index = Some(17);
    assert_eq!(handle_playback(Key::Char('>'), &mut state), (Action::Nothing, None));
}

#[test]
fn volume_keys_send_a_step_where_there_is_room() {
    let mut state = player();
    state.iteration_count = 50;
    assert_eq!(
        handle_playback(Key::Char('K'), &mut state),
        (Action::Nothing, Some(Command::Volume(10)))
    );
    assert!(state.is_adjusting);
    assert_eq!(state.iteration_count, 0);
    state.is_adjusting = false;
    assert_eq!(
        handle_choosing(Key::Char('J'), &mut state),
        (Action::Nothing, Some(Command::Volume(-10)))
    );
    assert!(state.is_adjusting);
}

#[test]
fn volume_keys_send_nothing_at_the_ends_of_the_range() {
    let mut state = player();
    state.volume = 200;
    state.iteration_count = 50;
    assert_eq!(handle_playback(Key::Char('K'), &mut state), (Action::Nothing, None));
    assert!(state.is_adjusting);
    assert_eq!(state.iteration_count, 0);
    assert_eq!(
        handle_playback(Key::Char('J'), &mut state),
        (Action::Nothing, Some(Command::Volume(-10)))
    );
    state.volume = 0;
    assert_eq!(handle_playback(Key::Char('J'), &mut state), (Action::Nothing, None));
    assert_eq!(
        handle_playback(Key::Char('K'), &mut state),
        (Action::Nothing, Some(Command::Volume(10)))
    );
    state.volume = 190;
    assert_eq!(
        handle_playback(Key::Char('K'), &mut state),
        (Action::Nothing, Some(Command::Volume(10)))
    );
}

#[test]
fn other_keys_do_nothing() {
    let mut state = player();
    for key in [Key::Enter, Key::Backspace, Key::Other, Key::Char('x'), Key::Char('d')] {
        assert_eq!(handle_playback(key, &mut state), (Action::Nothing, None));
        assert_eq!(handle_choosing(key, &mut state), (Action::Nothing, None));
    }
    assert_eq!(handle_config(Key::Other, &mut state), Action::Nothing);
    assert_eq!(handle_config(Key::Char('x'), &mut state), Action::Nothing);
    assert_eq!(handle_search(Key::Other, &mut state), Action::Nothing);
    assert_eq!(state.tracks.len(), 4);
    assert!(state.is_choosing && !state.is_configuring && !state.is_searching);
    assert_eq!(state.keyword, "");
    assert_eq!(state.table_state.selected(), Some(0));
}

#[test]
fn the_option_cursor_stops_at_the_last_option() {
    let mut state = player();
    for expected in [1usize, 2, 3, 3] {
        state.iteration_count = 9;
        assert_eq!(handle_config(Key::Char('j'), &mut state), Action::Nothing);
        assert_eq!(state.list_state.selected(), Some(expected));
        assert_eq!(state.iteration_count, 0);
    }
    for expected in [2usize, 1, 0, 0] {
        assert_eq!(handle_config(Key::Char('k'), &mut state), Action::Nothing);
        assert_eq!(state.list_state.selected(), Some(expected));
    }
}

#[test]
fn enter_applies_the_highlighted_order() {
    let mut state = player();
    assert_eq!(state.playback_order, Order::Artist);
    state.list_state.select(Some(3));
    assert_eq!(handle_config(Key::Enter, &mut state), Action::Submit);
    assert_eq!(state.playback_order, Order::Track);
    let names: Vec<&str> = state.tracks.iter().map(|t| t.name.as_str()).collect();
    assert_eq!(
        names,
        vec!["Bee Apple Lemon, Rock", "Bee Apple Lemon, Rock, Stone", "Commit Ballad", "Hello"]
    );
    state.list_state.select(Some(2));
    assert_eq!(handle_config(Key::Char(' '), &mut state), Action::Submit);
    assert_eq!(state.playback_order, Order::Artist);
    let names: Vec<&str> = state.tracks.iter().map(|t| t.name.as_str()).collect();
    assert_eq!(
        names,
        vec!["Hello", "Bee Apple Lemon, Rock", "Bee Apple Lemon, Rock, Stone", "Commit Ballad"]
    );
}

#[test]
fn the_order_in_force_is_not_applied_again() {
    let mut state = player();
    state.tracks.reverse();
    let before = state.tracks.clone();
    state.list_state.select(Some(2));
    assert_eq!(handle_config(Key::Enter, &mut state), Action::Submit);
    assert_eq!(state.playback_order, Order::Artist);
    assert_eq!(state.tracks, before);
}

#[test]
fn submit_without_a_highlighted_option_changes_nothing() {
    let mut state = player();
    state.list_state.select(None);
    state.tracks.reverse();
    let before = state.tracks.clone();
    assert_eq!(handle_config(Key::Enter, &mut state), Action::Submit);
    assert_eq!(state.playback_order, Order::Artist);
    assert_eq!(state.tracks, before);
}

#[test]
fn shuffle_and_album_from_the_option_list() {
    let mut state = player();
    state.list_state.select(Some(1));
    let before = state.tracks.clone();
    assert_eq!(handle_config(Key::Enter, &mut state), Action::Submit);
    assert_eq!(state.playback_order, Order::Album);
    assert_eq!(state.tracks, before);
    play_new_track(1, &mut state);
    state.list_state.select(Some(0));
    assert_eq!(handle_config(Key::Enter, &mut state), Action::Submit);
    assert_eq!(state.playback_order, Order::Shuffle);
    let mut names: Vec<&str> = state.tracks.iter().map(|t| t.name.as_str()).collect();
    names.sort();
    assert_eq!(
        names,
        vec!["Bee Apple Lemon, Rock", "Bee Apple Lemon, Rock, Stone", "Commit Ballad", "Hello"]
    );
    assert_eq!(playing(&state).len(), 1);
    assert_eq!(state.tracks[playing(&state)[0]].name, "Commit Ballad");
}

#[test]
fn typing_edits_the_keyword_and_searches_again() {
    let mut state = player();
    for c in "Rock".chars() {
        assert_eq!(handle_search(Key::Char(c), &mut state), Action::Nothing);
    }
    assert_eq!(state.keyword, "Rock");
    assert_eq!(state.matched_tracks.len(), 2);
    assert_eq!(state.matched_tracks[0].name, "Bee Apple Lemon, Rock");
    for c in ", S".chars() {
        handle_search(Key::Char(c), &mut state);
    }
    assert_eq!(state.keyword, "Rock, S");
    assert_eq!(state.matched_tracks.len(), 1);
    assert_eq!(handle_search(Key::Backspace, &mut state), Action::Nothing);
    assert_eq!(handle_search(Key::Backspace, &mut state), Action::Nothing);
    assert_eq!(handle_search(Key::Backspace, &mut state), Action::Nothing);
    assert_eq!(state.keyword, "Rock");
    assert_eq!(state.matched_tracks.len(), 2);
    assert_eq!(state.tracks.len(), 4);
}

#[test]
fn backspace_on_an_empty_keyword() {
    let mut state = player();
    assert_eq!(handle_search(Key::Backspace, &mut state), Action::Nothing);
    assert_eq!(state.keyword, "");
    assert_eq!(state.matched_tracks.len(), 4);
}

#[test]
fn enter_while_searching_submits() {
    let mut state = player();
    handle_search(Key::Char('x'), &mut state);
    assert_eq!(handle_search(Key::Enter, &mut state), Action::Submit);
    assert_eq!(state.keyword, "x");
    assert_eq!(state.matched_tracks.len(), 0);
}
