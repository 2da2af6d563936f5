//! The search of the catalog for a keyword.

use crate::text::{contains, is_substring, lowercase, to_lowercase};
use crate::track::Audio;
use vstd::prelude::*;

verus! {

/// A track matches a keyword where the keyword occurs in its name or in
/// its author. Upper and lower case are not told apart: both sides are
/// case-folded first.
pub open spec fn matches(track: Audio, keyword: Seq<char>) -> bool {
    folded_match(lowercase(track.name@), lowercase(track.author@), lowercase(keyword))
}

/// A keyword occurs in one of two texts.
pub open spec fn folded_match(name: Seq<char>, author: Seq<char>, keyword: Seq<char>) -> bool {
    is_substring(keyword, name) || is_substring(keyword, author)
}

/// The test of a track against a keyword, as a function of the track.
pub open spec fn match_test(keyword: Seq<char>) -> spec_fn(Audio) -> bool {
    |track: Audio| matches(track, keyword)
}

/// The tracks of the catalog that match the keyword, in the order of the
/// catalog.
pub open spec fn found(tracks: Seq<Audio>, keyword: Seq<char>) -> Seq<Audio> {
    tracks.filter(match_test(keyword))
}

/// Tells whether a keyword occurs in a name or in an author, all three
/// taken as they are.
pub fn matches_folded(name: &str, author: &str, keyword: &str) -> (r: bool)
    ensures
        r == folded_match(name@, author@, keyword@),
{
    contains(name, keyword) || contains(author, keyword)
}

/// Returns copies of the tracks whose name or author contains the keyword,
/// in the order of the catalog. Upper and lower case are not told apart.
pub fn search(tracks: &Vec<Audio>, keyword: &str) -> (r: Vec<Audio>)
    ensures
        r@ == found(tracks@, keyword@),
{
    let folded = to_lowercase(keyword);
    let mut hits: Vec<Audio> = Vec::new();
    let n = tracks.len();
    let mut i: usize = 0;
    while i < n
        invariant
            i <= n,
            n == tracks@.len(),
            folded@ == lowercase(keyword@),
            hits@ == found(tracks@.take(i as int), keyword@),
        decreases n - i,
    {
        let name = to_lowercase(tracks[i].name.as_str());
        let author = to_lowercase(tracks[i].author.as_str());
        proof {
            reveal(Seq::filter);
            assert(tracks@.take(i + 1).drop_last() =~= tracks@.take(i as int));
            assert(tracks@.take(i + 1).last() == tracks@[i as int]);
        }
        if matches_folded(name.as_str(), author.as_str(), folded.as_str()) {
            hits.push(tracks[i].duplicate());
        }
        i += 1;
    }
    assert(tracks@.take(n as int) =~= tracks@);
    hits
}

/// What is found is part of the catalog: every track that is found matches
/// the keyword, and no more tracks are found than the catalog holds.
pub proof fn lemma_found_matches(tracks: Seq<Audio>, keyword: Seq<char>)
    ensures
        found(tracks, keyword).len() <= tracks.len(),
        forall|i: int|
            0 <= i < found(tracks, keyword).len() ==> matches(
                #[trigger] found(tracks, keyword)[i],
                keyword,
            ),
        forall|i: int|
            0 <= i < tracks.len() && matches(tracks[i], keyword) ==> found(
                tracks,
                keyword,
            ).contains(#[trigger] tracks[i]),
{
    broadcast use Seq::lemma_filter_len, Seq::lemma_filter_pred, Seq::lemma_filter_contains;

    assert forall|i: int| 0 <= i < tracks.len() && matches(tracks[i], keyword) implies found(
        tracks,
        keyword,
    ).contains(#[trigger] tracks[i]) by {
        assert(match_test(keyword)(tracks[i]));
        tracks.lemma_filter_contains(match_test(keyword), i);
    }
    assert forall|i: int| 0 <= i < found(tracks, keyword).len() implies matches(
        #[trigger] found(tracks, keyword)[i],
        keyword,
    ) by {
        tracks.lemma_filter_pred(match_test(keyword), i);
    }
}

} // verus!
