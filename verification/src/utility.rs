//! The orderings of the catalog, and the step that makes a track the
//! current one.

use crate::order::Order;
use crate::permutation::{lemma_identity_permutes, permuted_by, rearranged};
use crate::playback::Command;
use crate::shuffle::{
    lemma_shuffled_rearranges, random_u64, shuffle_with, shuffled, thread_rng,
};
use crate::sorting::{key_views, sort_by_keys, sorted_stably, SortKey};
use crate::state::{PlayerState, PlayerView};
use crate::text::{lowercase, to_lowercase};
use crate::track::{at_most_one_playing, catalog_wf, distinct_paths, Audio};
use std::path::PathBuf;
use vstd::prelude::*;

verus! {

/// The key by which an order puts a track in its place: by track name, the
/// case-folded name; by artist, the case-folded author and then the
/// case-folded name. The other orders have the same key for every track.
pub open spec fn order_key(mode: Order, track: Audio) -> (Seq<char>, Seq<char>) {
    match mode {
        Order::Track => (lowercase(track.name@), Seq::empty()),
        Order::Artist => (lowercase(track.author@), lowercase(track.name@)),
        _ => (Seq::empty(), Seq::empty()),
    }
}

/// The keys of a catalog under an order, track by track.
pub open spec fn order_keys(mode: Order, tracks: Seq<Audio>) -> Seq<(Seq<char>, Seq<char>)> {
    tracks.map_values(|t: Audio| order_key(mode, t))
}

/// `after` is the catalog `before` put in order by track name or by artist:
/// keys never fall from one track to the next, and tracks with equal keys
/// stand in the order in which they stood.
pub open spec fn sorted_by(mode: Order, before: Seq<Audio>, after: Seq<Audio>) -> bool {
    exists|perm: Seq<int>| sorted_stably(before, order_keys(mode, before), perm, after)
}

/// `after` is the catalog `before` shuffled with some draws.
pub open spec fn shuffled_somehow(before: Seq<Audio>, after: Seq<Audio>) -> bool {
    exists|draws: Seq<u64>| draws.len() == before.len() && after == shuffled(before, draws)
}

/// `after` is what the order `new` makes of the catalog `before` that stands
/// in the order `current`: nothing where the two are the same order or the
/// new one is by album; else the catalog shuffled, or put in order by its
/// keys.
pub open spec fn ordered(
    new: Order,
    current: Order,
    before: Seq<Audio>,
    after: Seq<Audio>,
) -> bool {
    if new == current {
        after == before
    } else {
        match new {
            Order::Shuffle => shuffled_somehow(before, after),
            Order::Album => after == before,
            Order::Artist => sorted_by(Order::Artist, before, after),
            Order::Track => sorted_by(Order::Track, before, after),
        }
    }
}

impl PlayerView {
    /// The state in which the track at `index` is the current one and the
    /// only one that is marked as playing.
    pub open spec fn now_playing(self, index: int) -> PlayerView {
        PlayerView {
            tracks: Seq::new(self.tracks.len(), |i: int| self.tracks[i].marked(i == index)),
            current_track_index: Some(index as usize),
            ..self
        }
    }
}

/// The name and the author of a track whose file gives none.
pub const UNTITLED: &'static str = "None";

/// A file extension is that of a format that the player reads.
pub open spec fn audio_extension(extension: Seq<char>) -> bool {
    extension == "mp3"@ || extension == "flac"@ || extension == "wav"@
}

/// Tells whether a file with this extension belongs in the catalog. Upper
/// and lower case are told apart.
pub fn is_audio_extension(extension: &str) -> (r: bool)
    ensures
        r == audio_extension(extension@),
{
    let given = extension.to_owned();
    given == "mp3".to_owned() || given == "flac".to_owned() || given == "wav".to_owned()
}

/// Makes the record of a track from what its file gives: the title and the
/// artist of its tag, where it has them, its length in seconds and its path.
/// The track is not marked as playing.
pub fn track_from_tags(
    title: Option<String>,
    artist: Option<String>,
    seconds: u64,
    path: PathBuf,
) -> (r: Audio)
    ensures
        !r.is_playing,
        r.length == seconds,
        r.path == path,
        match title {
            Some(text) => r.name == text,
            None => r.name@ == UNTITLED@,
        },
        match artist {
            Some(text) => r.author == text,
            None => r.author@ == UNTITLED@,
        },
{
    let name = match title {
        Some(text) => text,
        None => UNTITLED.to_owned(),
    };
    let author = match artist {
        Some(text) => text,
        None => UNTITLED.to_owned(),
    };
    Audio { is_playing: false, name, author, length: seconds, path }
}

fn fold_keys(mode: Order, tracks: &Vec<Audio>) -> (r: Vec<SortKey>)
    ensures
        r@.len() == tracks@.len(),
        key_views(r@) == order_keys(mode, tracks@),
{
    let n = tracks.len();
    let mut keys: Vec<SortKey> = Vec::new();
    let mut i: usize = 0;
    while i < n
        invariant
            i <= n,
            n == tracks@.len(),
            keys@.len() == i,
            forall|k: int| 0 <= k < i ==> (#[trigger] keys@[k])@ == order_key(mode, tracks@[k]),
        decreases n - i,
    {
        let key = match mode {
            Order::Track => SortKey {
                primary: to_lowercase(tracks[i].name.as_str()),
                secondary: String::new(),
            },
            Order::Artist => SortKey {
                primary: to_lowercase(tracks[i].author.as_str()),
                secondary: to_lowercase(tracks[i].name.as_str()),
            },
            _ => SortKey { primary: String::new(), secondary: String::new() },
        };
        keys.push(key);
        i += 1;
    }
    assert(key_views(keys@) =~= order_keys(mode, tracks@));
    keys
}

/// Puts the catalog in the order of the case-folded track names. Tracks with
/// the same folded name keep their order.
pub fn order_tracks(tracks: &mut Vec<Audio>)
    ensures
        sorted_by(Order::Track, old(tracks)@, final(tracks)@),
{
    let keys = fold_keys(Order::Track, tracks);
    sort_by_keys(tracks, keys);
}

/// Puts the catalog in the order of the case-folded authors, and the tracks
/// of one author in the order of their case-folded names. Tracks that agree
/// in both keep their order.
pub fn order_artist(tracks: &mut Vec<Audio>)
    ensures
        sorted_by(Order::Artist, old(tracks)@, final(tracks)@),
{
    let keys = fold_keys(Order::Artist, tracks);
    sort_by_keys(tracks, keys);
}

/// Leaves the catalog as it is: tracks carry no album yet.
pub fn order_album(tracks: &mut Vec<Audio>)
    ensures
        final(tracks)@ == old(tracks)@,
{
}

/// Shuffles the catalog: each place in turn gets a track drawn from those
/// not yet placed.
pub fn order_shuffle(tracks: &mut Vec<Audio>)
    ensures
        shuffled_somehow(old(tracks)@, final(tracks)@),
        rearranged(old(tracks)@, final(tracks)@),
{
    let n = tracks.len();
    let mut rng = thread_rng();
    let mut draws: Vec<u64> = Vec::new();
    let mut i: usize = 0;
    while i < n
        invariant
            i <= n,
            draws@.len() == i,
        decreases n - i,
    {
        draws.push(random_u64(&mut rng));
        i += 1;
    }
    shuffle_with(tracks, &draws);
    proof {
        lemma_shuffled_rearranges(old(tracks)@, draws@, draws@.len());
    }
}

/// Puts the catalog, which stands in the order `current`, in the order
/// `new`. Where the two are the same order nothing is done.
pub fn order_by(new: &Order, current: &Order, tracks: &mut Vec<Audio>)
    ensures
        ordered(*new, *current, old(tracks)@, final(tracks)@),
        *new == *current ==> final(tracks)@ == old(tracks)@,
        rearranged(old(tracks)@, final(tracks)@),
        catalog_wf(old(tracks)@) ==> catalog_wf(final(tracks)@),
{
    if *new != *current {
        match new {
            Order::Shuffle => order_shuffle(tracks),
            Order::Album => order_album(tracks),
            Order::Artist => order_artist(tracks),
            Order::Track => order_tracks(tracks),
        }
    }
    proof {
        lemma_ordered_rearranges(*new, *current, old(tracks)@, tracks@);
        if catalog_wf(old(tracks)@) {
            lemma_rearranged_catalog(old(tracks)@, tracks@);
        }
    }
}

/// Makes the track at `index` the current one: it alone is marked as
/// playing, and the command that comes back asks the engine to play its
/// file.
pub fn play_new_track(index: usize, state: &mut PlayerState) -> (r: Command)
    requires
        index < old(state)@.tracks.len(),
    ensures
        final(state)@ == old(state)@.now_playing(index as int),
        r == Command::New(old(state)@.tracks[index as int].path),
{
    let n = state.tracks.len();
    let mut i: usize = 0;
    while i < n
        invariant
            i <= n,
            index < n,
            n == old(state)@.tracks.len(),
            state@ == (PlayerView { tracks: state@.tracks, ..old(state)@ }),
            state@.tracks.len() == n,
            forall|k: int|
                0 <= k < i ==> #[trigger] state@.tracks[k] == old(state)@.tracks[k].marked(
                    k == index,
                ),
            forall|k: int| i <= k < n ==> #[trigger] state@.tracks[k] == old(state)@.tracks[k],
        decreases n - i,
    {
        state.tracks[i].is_playing = i == index;
        i += 1;
    }
    state.current_track_index = Some(index);
    assert(state@.tracks =~= old(state)@.now_playing(index as int).tracks);
    Command::New(state.tracks[index].path.clone())
}

/// Every order rearranges: the catalog afterwards holds the tracks that it
/// held, each as often as before.
pub proof fn lemma_ordered_rearranges(
    new: Order,
    current: Order,
    before: Seq<Audio>,
    after: Seq<Audio>,
)
    requires
        ordered(new, current, before, after),
    ensures
        rearranged(before, after),
{
    if new == current || new == Order::Album {
        lemma_identity_permutes(before);
    } else if new == Order::Shuffle {
        let draws = choose|draws: Seq<u64>|
            draws.len() == before.len() && after == shuffled(before, draws);
        lemma_shuffled_rearranges(before, draws, before.len());
    } else {
        let perm = choose|perm: Seq<int>|
            sorted_stably(before, order_keys(new, before), perm, after);
        assert(permuted_by(before, perm, after));
    }
}

/// A catalog stays well formed when it is rearranged: no path comes to
/// name two tracks, and no second track comes to be marked as playing.
pub proof fn lemma_rearranged_catalog(before: Seq<Audio>, after: Seq<Audio>)
    requires
        rearranged(before, after),
        catalog_wf(before),
    ensures
        catalog_wf(after),
{
    let perm = choose|perm: Seq<int>| permuted_by(before, perm, after);
    assert forall|i: int, j: int| 0 <= i < j < after.len() implies (#[trigger] after[i]).path != (
    #[trigger] after[j]).path by {
        assert(perm[i] != perm[j]);
        assert(after[i] == before[perm[i]] && after[j] == before[perm[j]]);
        if perm[i] < perm[j] {
            assert(before[perm[i]].path != before[perm[j]].path);
        } else {
            assert(before[perm[j]].path != before[perm[i]].path);
        }
    }
    assert forall|i: int, j: int|
        0 <= i < after.len() && 0 <= j < after.len() && (#[trigger] after[i]).is_playing && (
        #[trigger] after[j]).is_playing implies i == j by {
        assert(before[perm[i]].is_playing && before[perm[j]].is_playing);
        if i < j {
            assert(perm[i] != perm[j]);
        } else if j < i {
            assert(perm[j] != perm[i]);
        }
    }
}

/// After a track was made the current one, it is the only one that is
/// marked as playing, and every track has kept its path.
pub proof fn lemma_now_playing_catalog(state: PlayerView, index: int)
    requires
        0 <= index < state.tracks.len(),
    ensures
        at_most_one_playing(state.now_playing(index).tracks),
        state.now_playing(index).tracks[index].is_playing,
        distinct_paths(state.tracks) ==> distinct_paths(state.now_playing(index).tracks),
{
    let after = state.now_playing(index).tracks;
    if distinct_paths(state.tracks) {
        assert forall|i: int, j: int| 0 <= i < j < after.len() implies (#[trigger] after[i]).path
            != (#[trigger] after[j]).path by {
            assert(state.tracks[i].path != state.tracks[j].path);
        }
    }
}

} // verus!
