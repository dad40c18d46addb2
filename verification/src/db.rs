use vstd::prelude::*;

use crate::query::{outcome_of_text, process_raw, Outcome, ResolveError};
use crate::text::str_eq;

verus! {

/// One row of the local database's `songs` table.
#[derive(Debug)]
pub struct SongRow {
    pub name: String,
    pub artist: String,
    pub lyrics: String,
}

/// Whether a row matches the requested name and artist, by exact string
/// equality on both.
pub open spec fn row_matches(row: SongRow, name: Seq<char>, artist: Seq<char>) -> bool {
    row.name@ == name && row.artist@ == artist
}

/// Whether any row matches the requested name and artist.
pub open spec fn some_row(rows: Seq<SongRow>, name: Seq<char>, artist: Seq<char>) -> bool {
    exists|i: int| 0 <= i < rows.len() && #[trigger] row_matches(rows[i], name, artist)
}

/// The row at index `i` is the first that matches the requested name and
/// artist.
pub open spec fn is_first_row(
    rows: Seq<SongRow>,
    name: Seq<char>,
    artist: Seq<char>,
    i: int,
) -> bool {
    &&& 0 <= i < rows.len()
    &&& row_matches(rows[i], name, artist)
    &&& forall|j: int| 0 <= j < i ==> !row_matches(#[trigger] rows[j], name, artist)
}

/// Look a song up by exact equality on `(name, artist)`: the first matching
/// row's raw lyrics text wins; none when no row matches.
pub fn db_lookup<'a>(rows: &'a Vec<SongRow>, name: &str, artist: &str) -> (r: Option<&'a String>)
    ensures
        match r {
            Some(text) => exists|i: int|
                #[trigger] is_first_row(rows@, name@, artist@, i) && text@ == rows@[i].lyrics@,
            None => !some_row(rows@, name@, artist@),
        },
{
    let n = rows.len();
    let mut i: usize = 0;
    while i < n
        invariant
            n == rows@.len(),
            0 <= i <= n,
            forall|j: int| 0 <= j < i ==> !row_matches(#[trigger] rows@[j], name@, artist@),
        decreases n - i,
    {
        if str_eq(rows[i].name.as_str(), name) && str_eq(rows[i].artist.as_str(), artist) {
            proof {
                assert(is_first_row(rows@, name@, artist@, i as int));
            }
            return Some(&rows[i].lyrics);
        }
        i = i + 1;
    }
    None
}

/// Act on the local database's reply, for the database-backed configuration:
/// a lookup failure propagates, no matching row ends in `NotFound`, and the
/// first matching row's text runs through the full pipeline — timestamp
/// repair applies to database text too.
pub fn on_db(reply: Result<Vec<SongRow>, ResolveError>, name: &str, artist: &str) -> (out:
    Outcome)
    ensures
        match reply {
            Err(e) => out matches Outcome::Error(e2) && e2 == e,
            Ok(rows) => {
                if some_row(rows@, name@, artist@) {
                    exists|i: int|
                        #[trigger] is_first_row(rows@, name@, artist@, i) && outcome_of_text(
                            out,
                            rows@[i].lyrics@,
                            name@,
                        )
                } else {
                    out matches Outcome::Error(e) && e == ResolveError::NotFound
                }
            },
        },
{
    match reply {
        Err(e) => Outcome::Error(e),
        Ok(rows) => match db_lookup(&rows, name, artist) {
            Some(text) => match process_raw(text.as_str(), name) {
                Ok(ly) => Outcome::Resolved(Some(ly)),
                Err(e) => Outcome::Error(e),
            },
            None => Outcome::Error(ResolveError::NotFound),
        },
    }
}

} // verus!
