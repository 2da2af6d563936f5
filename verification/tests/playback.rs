use daph::playback::{
    append, audio_command, new_song, next, play_pause, play_pause_command, seek_backward,
    seek_forward, volume_control, Command, DeviceAction, DeviceStatus, Engine, Position,
    SinkState, MAX_VOLUME,
};
use std::path::PathBuf;

fn device(paused: bool, empty: bool, secs: u64, volume: u32) -> DeviceStatus {
    DeviceStatus { paused, empty, position: Position { secs, nanos: 0 }, volume }
}

fn at(secs: u64, nanos: u32) -> DeviceStatus {
    DeviceStatus { paused: false, empty: false, position: Position { secs, nanos }, volume: 100 }
}

fn apply(status: &mut DeviceStatus, actions: &[DeviceAction]) {
    for action in actions {
        match action {
            DeviceAction::SetVolume(v) => status.volume = *v,
            DeviceAction::Seek(p) => status.position = *p,
            DeviceAction::Pause => status.paused = true,
            DeviceAction::Play => status.paused = false,
            DeviceAction::Stop => status.empty = true,
            DeviceAction::Append(_) => status.empty = false,
            DeviceAction::SkipOne => {}
        }
    }
}

#[test]
fn seek_forward_past_the_end_is_rejected() {
    let mut status = at(8, 0);
    let actions = seek_forward(&status, 5, 10);
    assert!(actions.is_empty());
    apply(&mut status, &actions);
    assert_eq!(status.position, Position { secs: 8, nanos: 0 });
}

#[test]
fn seek_forward_within_the_track_moves_the_position() {
    let mut status = at(2, 0);
    let actions = seek_forward(&status, 5, 10);
    assert_eq!(actions, vec![DeviceAction::Seek(Position { secs: 7, nanos: 0 })]);
    apply(&mut status, &actions);
    assert_eq!(status.position.secs, 7);
}

#[test]
fn seek_forward_must_stay_below_the_length() {
    assert!(seek_forward(&at(5, 0), 5, 10).is_empty());
    assert_eq!(
        seek_forward(&at(4, 0), 5, 10),
        vec![DeviceAction::Seek(Position { secs: 9, nanos: 0 })]
    );
    assert!(seek_forward(&at(0, 0), 10, 10).is_empty());
    assert!(seek_forward(&at(0, 0), 11, 10).is_empty());
    assert!(seek_forward(&at(0, 0), 0, 0).is_empty());
}

#[test]
fn seek_forward_keeps_the_part_of_a_second() {
    assert_eq!(
        seek_forward(&at(2, 250_000_000), 5, 10),
        vec![DeviceAction::Seek(Position { secs: 7, nanos: 250_000_000 })]
    );
}

#[test]
fn seek_forward_does_not_overflow() {
    assert!(seek_forward(&at(u64::MAX, 0), u64::MAX, u64::MAX).is_empty());
    assert!(seek_forward(&at(u64::MAX - 1, 0), 5, u64::MAX).is_empty());
    assert!(seek_forward(&at(1, 0), u64::MAX, u64::MAX).is_empty());
}

#[test]
fn seek_backward_before_the_start_goes_to_the_start() {
    let mut status = at(3, 0);
    let actions = seek_backward(&status, 5);
    assert_eq!(actions, vec![DeviceAction::Seek(Position { secs: 0, nanos: 0 })]);
    apply(&mut status, &actions);
    assert_eq!(status.position, Position { secs: 0, nanos: 0 });
    assert_eq!(
        seek_backward(&at(3, 500_000_000), 5),
        vec![DeviceAction::Seek(Position { secs: 0, nanos: 0 })]
    );
}

#[test]
fn seek_backward_within_the_track_moves_the_position() {
    assert_eq!(
        seek_backward(&at(9, 500), 5),
        vec![DeviceAction::Seek(Position { secs: 4, nanos: 500 })]
    );
    assert_eq!(
        seek_backward(&at(5, 0), 5),
        vec![DeviceAction::Seek(Position { secs: 0, nanos: 0 })]
    );
    assert_eq!(
        seek_backward(&at(5, 7), 0),
        vec![DeviceAction::Seek(Position { secs: 5, nanos: 7 })]
    );
}

#[test]
fn thirty_steps_up_end_at_the_maximum() {
    let mut status = device(false, false, 0, 100);
    for step in 1..=30u32 {
        let actions = audio_command(Command::Volume(10), &status);
        apply(&mut status, &actions);
        assert!(status.volume <= MAX_VOLUME);
        let expected = if step < 10 { 100 + 10 * step } else { 200 };
        assert_eq!(status.volume, expected);
        assert_eq!(actions.is_empty(), step > 10);
    }
    assert_eq!(status.volume, 200);
}

#[test]
fn thirty_steps_down_end_at_zero() {
    let mut status = device(false, false, 0, 100);
    for step in 1..=30u32 {
        let actions = audio_command(Command::Volume(-10), &status);
        apply(&mut status, &actions);
        let expected = if step < 10 { 100 - 10 * step } else { 0 };
        assert_eq!(status.volume, expected);
        assert_eq!(actions.is_empty(), step > 10);
    }
    assert_eq!(status.volume, 0);
}

#[test]
fn a_step_is_held_within_the_range() {
    assert_eq!(volume_control(&device(false, false, 0, 195), 10), vec![DeviceAction::SetVolume(200)]);
    assert_eq!(volume_control(&device(false, false, 0, 5), -10), vec![DeviceAction::SetVolume(0)]);
    assert_eq!(volume_control(&device(false, false, 0, 100), 10), vec![DeviceAction::SetVolume(110)]);
    assert_eq!(volume_control(&device(false, false, 0, 100), -10), vec![DeviceAction::SetVolume(90)]);
    assert_eq!(volume_control(&device(false, false, 0, 250), -10), vec![DeviceAction::SetVolume(200)]);
    assert_eq!(
        volume_control(&device(false, false, 0, u32::MAX), i32::MIN),
        vec![DeviceAction::SetVolume(200)]
    );
    assert_eq!(volume_control(&device(false, false, 0, 1), i32::MAX), vec![DeviceAction::SetVolume(200)]);
}

#[test]
fn a_step_that_cannot_move_the_volume_does_nothing() {
    assert!(volume_control(&device(false, false, 0, 200), 10).is_empty());
    assert!(volume_control(&device(false, false, 0, 0), -10).is_empty());
    assert!(volume_control(&device(false, false, 0, 100), 0).is_empty());
    assert!(volume_control(&device(false, false, 0, 250), 10).is_empty());
}

#[test]
fn play_pause_toggles() {
    assert_eq!(play_pause(&device(true, false, 0, 100)), vec![DeviceAction::Play]);
    assert_eq!(play_pause(&device(false, false, 0, 100)), vec![DeviceAction::Pause]);
    let mut status = device(false, false, 0, 100);
    let actions = audio_command(play_pause_command(), &status);
    apply(&mut status, &actions);
    assert!(status.paused);
    let actions = audio_command(play_pause_command(), &status);
    apply(&mut status, &actions);
    assert!(!status.paused);
}

#[test]
fn a_new_song_on_a_paused_device_skips_and_resumes() {
    let path = PathBuf::from("/m/a.mp3");
    assert_eq!(
        new_song(&device(true, false, 0, 100), path.clone()),
        vec![DeviceAction::Append(path.clone()), DeviceAction::SkipOne, DeviceAction::Play]
    );
    assert_eq!(
        audio_command(Command::New(path.clone()), &device(true, true, 0, 100)),
        vec![DeviceAction::Append(path), DeviceAction::SkipOne, DeviceAction::Play]
    );
}

#[test]
fn a_new_song_on_a_running_device_replaces_the_queue() {
    let path = PathBuf::from("/m/a.mp3");
    assert_eq!(
        new_song(&device(false, false, 0, 100), path.clone()),
        vec![DeviceAction::Stop, DeviceAction::Append(path.clone())]
    );
    assert_eq!(
        audio_command(Command::New(path.clone()), &device(false, true, 0, 100)),
        vec![DeviceAction::Stop, DeviceAction::Append(path)]
    );
}

#[test]
fn next_and_append() {
    let path = PathBuf::from("/m/b.flac");
    assert_eq!(next(), vec![DeviceAction::SkipOne]);
    assert_eq!(append(path.clone()), vec![DeviceAction::Append(path.clone())]);
    let status = device(false, false, 0, 100);
    assert_eq!(audio_command(Command::Next(PathBuf::new(), 1), &status), vec![DeviceAction::SkipOne]);
    assert_eq!(
        audio_command(Command::Append(path.clone(), 1), &status),
        vec![DeviceAction::Append(path)]
    );
}

#[test]
fn audio_command_hands_seeks_on() {
    assert_eq!(
        audio_command(Command::Forward(5, 10), &at(2, 0)),
        vec![DeviceAction::Seek(Position { secs: 7, nanos: 0 })]
    );
    assert!(audio_command(Command::Forward(5, 10), &at(8, 0)).is_empty());
    assert_eq!(
        audio_command(Command::Backward(5), &at(3, 0)),
        vec![DeviceAction::Seek(Position { secs: 0, nanos: 0 })]
    );
}

#[test]
fn the_report_copies_the_device() {
    let mut engine = Engine::new();
    assert!(!engine.was_playing);
    let status = DeviceStatus {
        paused: true,
        empty: false,
        position: Position { secs: 12, nanos: 34 },
        volume: 150,
    };
    let report = engine.snapshot(&status);
    assert_eq!(
        report,
        SinkState {
            is_paused: true,
            is_empty: false,
            is_playing: false,
            current_track_finished: false,
            position: Position { secs: 12, nanos: 34 },
            volume: 150,
        }
    );
    assert!(!engine.was_playing);
}

#[test]
fn the_end_of_a_track_is_reported_once() {
    let mut engine = Engine::new();
    let mut finished = Vec::new();
    for tick in 0..20 {
        let status = device(false, tick >= 7, tick, 100);
        let report = engine.snapshot(&status);
        assert_eq!(report.is_playing, tick < 7);
        finished.push(report.current_track_finished);
    }
    let edges: Vec<usize> = (0..20).filter(|i| finished[*i]).collect();
    assert_eq!(edges, vec![7]);
}

#[test]
fn a_pause_or_stop_is_no_end_of_a_track() {
    let mut engine = Engine::new();
    assert!(!engine.snapshot(&device(false, false, 0, 100)).current_track_finished);
    assert!(!engine.snapshot(&device(true, false, 1, 100)).current_track_finished);
    assert!(!engine.snapshot(&device(true, true, 1, 100)).current_track_finished);
    assert!(!engine.snapshot(&device(false, true, 1, 100)).current_track_finished);
    let mut idle = Engine::new();
    assert!(!idle.snapshot(&device(false, true, 0, 100)).current_track_finished);
    assert!(!idle.snapshot(&device(false, true, 0, 100)).current_track_finished);
}

#[test]
fn each_track_that_ends_is_reported() {
    let mut engine = Engine::new();
    let empties = [false, false, true, true, false, true, false, false, true];
    let got: Vec<bool> = empties
        .iter()
        .map(|e| engine.snapshot(&device(false, *e, 0, 100)).current_track_finished)
        .collect();
    assert_eq!(got, vec![false, false, true, false, false, true, false, false, true]);
}
