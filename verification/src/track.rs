//! The track record of the catalog.

use std::path::PathBuf;
use vstd::prelude::*;

verus! {

/// A file path of the standard library. Its inside is not looked at: a path
/// is carried from the catalog to the playback engine as it is.
#[verifier::external_type_specification]
#[verifier::external_body]
pub struct ExPathBuf(PathBuf);

/// One track of the catalog. Its identity is its path.
#[derive(Debug, Clone, PartialEq)]
pub struct Audio {
    pub is_playing: bool,
    pub name: String,
    pub author: String,
    pub length: u64,
    pub path: PathBuf,
}

/// `PathBuf::clone` of the standard library. Trusted: the copy is the same
/// path.
pub assume_specification[ <PathBuf as Clone>::clone ](path: &PathBuf) -> (r: PathBuf)
    ensures
        r == *path,
;

/// `PathBuf::new` of the standard library, the empty path. Nothing is
/// claimed of it.
#[verifier::external_body]
pub(crate) fn empty_path() -> PathBuf {
    PathBuf::new()
}

impl Audio {
    /// The record with its playing mark set to `playing` and all else kept.
    pub open spec fn marked(self, playing: bool) -> Audio {
        Audio { is_playing: playing, ..self }
    }

    /// Returns a copy of the record.
    pub fn duplicate(&self) -> (r: Audio)
        ensures
            r == *self,
    {
        Audio {
            is_playing: self.is_playing,
            name: self.name.clone(),
            author: self.author.clone(),
            length: self.length,
            path: self.path.clone(),
        }
    }
}

/// At most one record of the catalog is marked as playing.
pub open spec fn at_most_one_playing(tracks: Seq<Audio>) -> bool {
    forall|i: int, j: int|
        0 <= i < tracks.len() && 0 <= j < tracks.len() && (#[trigger] tracks[i]).is_playing && (
        #[trigger] tracks[j]).is_playing ==> i == j
}

/// No two records of the catalog have the same path.
pub open spec fn distinct_paths(tracks: Seq<Audio>) -> bool {
    forall|i: int, j: int|
        0 <= i < j < tracks.len() ==> (#[trigger] tracks[i]).path != (#[trigger] tracks[j]).path
}

/// What holds of a catalog at all times: a path names one track, and at most
/// one track is marked as playing.
pub open spec fn catalog_wf(tracks: Seq<Audio>) -> bool {
    distinct_paths(tracks) && at_most_one_playing(tracks)
}

} // verus!
