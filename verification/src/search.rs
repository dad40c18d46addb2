use vstd::prelude::*;

use crate::text::str_eq;

verus! {

/// One song returned by the remote search: its numeric id, its title, and the
/// names of its artists.
#[derive(Debug)]
pub struct SongCandidate {
    pub id: u32,
    pub name: String,
    pub artists: Vec<String>,
}

/// Whether a candidate's artist list holds an exact, case-sensitive match for
/// the requested artist. A near-match — differing case, extra whitespace —
/// does not count.
pub open spec fn artist_matches(song: SongCandidate, artist: Seq<char>) -> bool {
    exists|k: int| 0 <= k < song.artists@.len() && #[trigger] song.artists@[k]@ == artist
}

/// Whether any candidate in the list matches the requested artist exactly.
pub open spec fn some_match(songs: Seq<SongCandidate>, artist: Seq<char>) -> bool {
    exists|i: int| 0 <= i < songs.len() && #[trigger] artist_matches(songs[i], artist)
}

/// The candidate at index `i` is the first whose artist list matches exactly.
pub open spec fn is_first_match(songs: Seq<SongCandidate>, artist: Seq<char>, i: int) -> bool {
    &&& 0 <= i < songs.len()
    &&& artist_matches(songs[i], artist)
    &&& forall|j: int| 0 <= j < i ==> !artist_matches(#[trigger] songs[j], artist)
}

/// Decide whether one candidate's artist list holds an exact match.
fn has_artist(song: &SongCandidate, artist: &str) -> (r: bool)
    ensures
        r == artist_matches(*song, artist@),
{
    let m = song.artists.len();
    let mut k: usize = 0;
    while k < m
        invariant
            m == song.artists@.len(),
            0 <= k <= m,
            forall|t: int| 0 <= t < k ==> #[trigger] song.artists@[t]@ != artist@,
        decreases m - k,
    {
        if str_eq(song.artists[k].as_str(), artist) {
            return true;
        }
        k = k + 1;
    }
    false
}

/// Pick from search results the id of the first song whose artist list holds
/// an exact, case-sensitive match for the requested artist; none when no song
/// matches.
pub fn select_song(songs: &Vec<SongCandidate>, artist: &str) -> (r: Option<u32>)
    ensures
        match r {
            Some(id) => exists|i: int|
                #[trigger] is_first_match(songs@, artist@, i) && songs@[i].id == id,
            None => !some_match(songs@, artist@),
        },
{
    let n = songs.len();
    let mut i: usize = 0;
    while i < n
        invariant
            n == songs@.len(),
            0 <= i <= n,
            forall|j: int| 0 <= j < i ==> !artist_matches(#[trigger] songs@[j], artist@),
        decreases n - i,
    {
        if has_artist(&songs[i], artist) {
            proof {
                assert(is_first_match(songs@, artist@, i as int));
            }
            return Some(songs[i].id);
        }
        i = i + 1;
    }
    None
}

} // verus!
