//! The transport protocol and the decisions of the playback engine: what a
//! command asks of the audio device in the state the device is in, and what
//! the engine reports of the device at each tick.

use crate::track::empty_path;
use std::path::PathBuf;
use vstd::prelude::*;

verus! {

/// The loudest volume, in hundredths of the unamplified level.
pub const MAX_VOLUME: u32 = 200;

/// The length of a tick of the engine, in milliseconds.
pub const TICK_MILLIS: u64 = 33;

/// A point in a track: whole seconds and the nanoseconds beyond them.
#[derive(Clone, Copy, Debug, PartialEq, Eq)]
pub struct Position {
    pub secs: u64,
    pub nanos: u32,
}

/// What the controller asks of the engine.
#[derive(Debug, PartialEq)]
pub enum Command {
    /// Pause, or resume where paused. The path is not used.
    PlayPause(PathBuf),
    /// Play the file at this path now, in place of what is playing.
    New(PathBuf),
    /// Seek forward by a distance in seconds, in a track of a length in
    /// seconds.
    Forward(u64, u64),
    /// Seek backward by a distance in seconds.
    Backward(u64),
    /// Change the volume by a step in hundredths.
    Volume(i32),
    /// Skip to the next queued item.
    Next(PathBuf, i32),
    /// Queue the file at this path behind what is queued.
    Append(PathBuf, i32),
}

/// What the engine reports of the device at one tick.
#[derive(Clone, Copy, Debug, PartialEq, Eq)]
pub struct SinkState {
    pub is_paused: bool,
    pub is_empty: bool,
    pub is_playing: bool,
    pub current_track_finished: bool,
    pub position: Position,
    /// In hundredths.
    pub volume: u32,
}

/// What the engine reads from the device before it decides.
#[derive(Clone, Copy, Debug)]
pub struct DeviceStatus {
    pub paused: bool,
    pub empty: bool,
    pub position: Position,
    /// In hundredths.
    pub volume: u32,
}

/// One operation on the device.
#[derive(Debug, PartialEq)]
pub enum DeviceAction {
    Pause,
    Play,
    Stop,
    /// Decode the file at this path and queue it.
    Append(PathBuf),
    SkipOne,
    Seek(Position),
    /// In hundredths.
    SetVolume(u32),
}

/// A step can move the volume: down while it is above zero, up while it is
/// below the maximum.
pub open spec fn volume_moves(volume: u32, step: i32) -> bool {
    (step < 0 && volume > 0) || (step > 0 && volume < MAX_VOLUME)
}

/// The volume after a step, held within zero and the maximum.
pub open spec fn volume_after(volume: u32, step: i32) -> u32 {
    if volume + step < 0 {
        0
    } else if volume + step > MAX_VOLUME {
        MAX_VOLUME
    } else {
        (volume + step) as u32
    }
}

/// The volume after the same step was taken `times` times, each time only
/// where it can move the volume.
pub open spec fn volume_after_steps(volume: u32, step: i32, times: nat) -> u32
    decreases times,
{
    if times == 0 {
        volume
    } else {
        let before = volume_after_steps(volume, step, (times - 1) as nat);
        if volume_moves(before, step) {
            volume_after(before, step)
        } else {
            before
        }
    }
}

pub open spec fn volume_actions(device: DeviceStatus, step: i32) -> Seq<DeviceAction> {
    if volume_moves(device.volume, step) {
        seq![DeviceAction::SetVolume(volume_after(device.volume, step))]
    } else {
        seq![]
    }
}

pub open spec fn play_pause_actions(device: DeviceStatus) -> Seq<DeviceAction> {
    if device.paused {
        seq![DeviceAction::Play]
    } else {
        seq![DeviceAction::Pause]
    }
}

pub open spec fn new_song_actions(device: DeviceStatus, path: PathBuf) -> Seq<DeviceAction> {
    if device.paused {
        seq![DeviceAction::Append(path), DeviceAction::SkipOne, DeviceAction::Play]
    } else {
        seq![DeviceAction::Stop, DeviceAction::Append(path)]
    }
}

pub open spec fn seek_forward_actions(device: DeviceStatus, distance: u64, length: u64) -> Seq<
    DeviceAction,
> {
    if device.position.secs + distance < length {
        seq![
            DeviceAction::Seek(
                Position {
                    secs: (device.position.secs + distance) as u64,
                    nanos: device.position.nanos,
                },
            ),
        ]
    } else {
        seq![]
    }
}

pub open spec fn seek_backward_actions(device: DeviceStatus, distance: u64) -> Seq<DeviceAction> {
    if device.position.secs >= distance {
        seq![
            DeviceAction::Seek(
                Position {
                    secs: (device.position.secs - distance) as u64,
                    nanos: device.position.nanos,
                },
            ),
        ]
    } else {
        seq![DeviceAction::Seek(Position { secs: 0, nanos: 0 })]
    }
}

/// What a command asks of the device in the state the device is in.
pub open spec fn command_actions(message: Command, device: DeviceStatus) -> Seq<DeviceAction> {
    match message {
        Command::PlayPause(_) => play_pause_actions(device),
        Command::New(path) => new_song_actions(device, path),
        Command::Forward(distance, length) => seek_forward_actions(device, distance, length),
        Command::Backward(distance) => seek_backward_actions(device, distance),
        Command::Volume(step) => volume_actions(device, step),
        Command::Next(_, _) => seq![DeviceAction::SkipOne],
        Command::Append(path, _) => seq![DeviceAction::Append(path)],
    }
}

/// Decides what a command asks of the device.
pub fn audio_command(message: Command, device: &DeviceStatus) -> (r: Vec<DeviceAction>)
    ensures
        r@ == command_actions(message, *device),
{
    match message {
        Command::PlayPause(_) => play_pause(device),
        Command::New(path) => new_song(device, path),
        Command::Forward(distance, length) => seek_forward(device, distance, length),
        Command::Backward(distance) => seek_backward(device, distance),
        Command::Volume(step) => volume_control(device, step),
        Command::Next(_, _) => next(),
        Command::Append(path, _) => append(path),
    }
}

/// Changes the volume by a step, held within zero and the maximum; a step
/// that cannot move the volume asks nothing of the device.
pub fn volume_control(device: &DeviceStatus, step: i32) -> (r: Vec<DeviceAction>)
    ensures
        r@ == volume_actions(*device, step),
{
    let volume = device.volume;
    if (step < 0 && volume > 0) || (step > 0 && volume < MAX_VOLUME) {
        let sum: i64 = volume as i64 + step as i64;
        let held: u32 = if sum < 0 {
            0
        } else if sum > MAX_VOLUME as i64 {
            MAX_VOLUME
        } else {
            sum as u32
        };
        let r = vec![DeviceAction::SetVolume(held)];
        assert(r@ =~= volume_actions(*device, step));
        r
    } else {
        Vec::new()
    }
}

/// Skips to the next queued item.
pub fn next() -> (r: Vec<DeviceAction>)
    ensures
        r@ == seq![DeviceAction::SkipOne],
{
    vec![DeviceAction::SkipOne]
}

/// Queues a file behind what is queued.
pub fn append(path: PathBuf) -> (r: Vec<DeviceAction>)
    ensures
        r@ == seq![DeviceAction::Append(path)],
{
    vec![DeviceAction::Append(path)]
}

/// Plays a file now. On a paused device the file is queued, what stood
/// before it is skipped and the device resumes; on a running device the
/// output stops and the file becomes the whole queue.
pub fn new_song(device: &DeviceStatus, path: PathBuf) -> (r: Vec<DeviceAction>)
    ensures
        r@ == new_song_actions(*device, path),
{
    if device.paused {
        vec![DeviceAction::Append(path), DeviceAction::SkipOne, DeviceAction::Play]
    } else {
        vec![DeviceAction::Stop, DeviceAction::Append(path)]
    }
}

/// Resumes a paused device and pauses a running one.
pub fn play_pause(device: &DeviceStatus) -> (r: Vec<DeviceAction>)
    ensures
        r@ == play_pause_actions(*device),
{
    if device.paused {
        vec![DeviceAction::Play]
    } else {
        vec![DeviceAction::Pause]
    }
}

/// Seeks forward by `distance` seconds where that stays below `length`
/// seconds, and not at all where it does not.
pub fn seek_forward(device: &DeviceStatus, distance: u64, length: u64) -> (r: Vec<DeviceAction>)
    ensures
        r@ == seek_forward_actions(*device, distance, length),
{
    let position = device.position;
    if distance < length && position.secs < length - distance {
        let target = Position { secs: position.secs + distance, nanos: position.nanos };
        vec![DeviceAction::Seek(target)]
    } else {
        Vec::new()
    }
}

/// Seeks backward by `distance` seconds, and to the start where the position
/// is less than that.
pub fn seek_backward(device: &DeviceStatus, distance: u64) -> (r: Vec<DeviceAction>)
    ensures
        r@ == seek_backward_actions(*device, distance),
{
    let position = device.position;
    let target = if position.secs >= distance {
        Position { secs: position.secs - distance, nanos: position.nanos }
    } else {
        Position { secs: 0, nanos: 0 }
    };
    vec![DeviceAction::Seek(target)]
}

/// The command that toggles between pause and play.
pub fn play_pause_command() -> (r: Command)
    ensures
        r is PlayPause,
{
    Command::PlayPause(empty_path())
}

/// What the engine remembers from one tick to the next.
#[derive(Clone, Copy, Debug)]
pub struct Engine {
    pub was_playing: bool,
}

impl Engine {
    /// The report of a tick at which the device is in the given state.
    pub open spec fn report(self, device: DeviceStatus) -> SinkState {
        SinkState {
            is_paused: device.paused,
            is_empty: device.empty,
            is_playing: !device.empty && !device.paused,
            current_track_finished: self.was_playing && device.empty,
            position: device.position,
            volume: device.volume,
        }
    }

    /// The engine after a tick at which the device is in the given state.
    pub open spec fn after(self, device: DeviceStatus) -> Engine {
        Engine { was_playing: !device.empty && !device.paused }
    }

    /// The reports of a run of ticks, one for each state of the device.
    pub open spec fn reports(self, devices: Seq<DeviceStatus>) -> Seq<SinkState>
        decreases devices.len(),
    {
        if devices.len() == 0 {
            seq![]
        } else {
            seq![self.report(devices[0])] + self.after(devices[0]).reports(devices.drop_first())
        }
    }

    /// Returns an engine that has not seen the device play yet.
    pub fn new() -> (r: Engine)
        ensures
            !r.was_playing,
    {
        Engine { was_playing: false }
    }

    /// One tick: reports the device and remembers whether it was playing.
    /// The report says that the track has finished exactly when the device
    /// was playing at the tick before and is empty now.
    pub fn snapshot(&mut self, device: &DeviceStatus) -> (r: SinkState)
        ensures
            r == old(self).report(*device),
            *final(self) == old(self).after(*device),
    {
        let is_playing = !device.empty && !device.paused;
        let r = SinkState {
            is_paused: device.paused,
            is_empty: device.empty,
            is_playing,
            current_track_finished: self.was_playing && device.empty,
            position: device.position,
            volume: device.volume,
        };
        self.was_playing = is_playing;
        r
    }

    /// A run of ticks gives one report for each tick, and each report but
    /// the first says that the track has finished exactly when the device was
    /// playing at the tick before and is empty at this one.
    pub proof fn lemma_reports(self, devices: Seq<DeviceStatus>)
        ensures
            self.reports(devices).len() == devices.len(),
            devices.len() > 0 ==> self.reports(devices)[0] == self.report(devices[0]),
            forall|i: int|
                0 < i < devices.len() ==> #[trigger] self.reports(devices)[i] == (Engine {
                    was_playing: !devices[i - 1].empty && !devices[i - 1].paused,
                }).report(devices[i]),
        decreases devices.len(),
    {
        if devices.len() > 0 {
            let rest = devices.drop_first();
            let then = self.after(devices[0]);
            then.lemma_reports(rest);
            assert forall|i: int| 0 < i < devices.len() implies #[trigger] self.reports(devices)[i]
                == (Engine {
                was_playing: !devices[i - 1].empty && !devices[i - 1].paused,
            }).report(devices[i]) by {
                assert(self.reports(devices)[i] == then.reports(rest)[i - 1]);
                assert(devices[i] == rest[i - 1]);
                if i > 1 {
                    assert(devices[i - 1] == rest[i - 2]);
                }
            }
        }
    }

    /// The end of a track is reported at one tick only: where the device
    /// plays up to tick `end` and is empty from there on, the report of tick
    /// `end` is the only one that says that the track has finished.
    pub proof fn lemma_finished_once(self, devices: Seq<DeviceStatus>, end: int)
        requires
            0 < end < devices.len(),
            forall|i: int| 0 <= i < end ==> !devices[i].empty && !devices[i].paused,
            forall|i: int| end <= i < devices.len() ==> devices[i].empty,
        ensures
            forall|i: int|
                0 <= i < devices.len() ==> ((#[trigger] self.reports(
                    devices,
                )[i]).current_track_finished <==> i == end),
    {
        self.lemma_reports(devices);
    }

    /// No two reports in a row say that the track has finished.
    pub proof fn lemma_finished_not_sustained(self, devices: Seq<DeviceStatus>, i: int)
        requires
            0 <= i,
            i + 1 < devices.len(),
            self.reports(devices)[i].current_track_finished,
        ensures
            !self.reports(devices)[i + 1].current_track_finished,
    {
        self.lemma_reports(devices);
    }
}

/// A step that is taken again and again never leaves the range of the
/// volume, and a step of ten hundredths upward, taken ten times or more from
/// the unamplified level, ends at the maximum.
pub proof fn lemma_volume_steps(volume: u32, step: i32, times: nat)
    requires
        volume <= MAX_VOLUME,
    ensures
        volume_after_steps(volume, step, times) <= MAX_VOLUME,
        volume == 100 && step == 10 && times < 10 ==> volume_after_steps(volume, step, times)
            == 100 + 10 * times,
        volume == 100 && step == 10 && times >= 10 ==> volume_after_steps(volume, step, times)
            == MAX_VOLUME,
        volume == 100 && step == -10 && times < 10 ==> volume_after_steps(volume, step, times)
            == 100 - 10 * times,
        volume == 100 && step == -10 && times >= 10 ==> volume_after_steps(volume, step, times)
            == 0,
    decreases times,
{
    if times > 0 {
        lemma_volume_steps(volume, step, (times - 1) as nat);
    }
}

} // verus!
