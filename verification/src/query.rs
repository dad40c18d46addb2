use vstd::prelude::*;

use crate::lines::{lines_view, normalize, normalize_spec, Lyrics};
use crate::parse::{lrc_parse, parse_lrc};
use crate::repair::{repair_spec, repair_timestamps};
use crate::search::{is_first_match, select_song, some_match, SongCandidate};
use crate::text::{lower_of, lowercase, str_eq};

verus! {

/// Why a resolution failed.
#[derive(Clone, Copy, Debug, PartialEq, Eq, Structural)]
pub enum ResolveError {
    /// The song or its lyrics are absent from every source.
    NotFound,
    /// Network failure or a non-success HTTP status from the remote service.
    Transport,
    /// The search reply or the lyric text could not be parsed.
    Malformed,
    /// A file or database operation failed, as distinct from mere absence.
    StorageError,
}

/// What one resolution yields.
#[derive(Debug)]
pub enum Outcome {
    /// The query equals the previous one; the caller keeps what it has.
    Unchanged,
    /// Resolution finished: the lyrics, or none for an empty name or artist.
    Resolved(Option<Lyrics>),
    /// Resolution failed.
    Error(ResolveError),
}

/// The resolver's decision on a fresh call, before any source is consulted.
#[derive(Debug)]
pub enum Step {
    /// The outcome is already determined; no I/O is to be performed.
    Done(Outcome),
    /// The remote search endpoint must be asked with this query text.
    Search(String),
}

/// The decision after the remote search replied.
#[derive(Debug)]
pub enum SearchStep {
    /// The outcome is determined; no further source is consulted.
    Done(Outcome),
    /// The file cache must be consulted with this song id.
    ReadCache(u32),
}

/// The decision after the file cache was consulted.
#[derive(Debug)]
pub enum CacheStep {
    /// The outcome is determined; no further source is consulted.
    Done(Outcome),
    /// The remote lyric endpoint must be asked with this song id.
    FetchLyric(u32),
}

/// The combined query text built from a name and an artist.
pub open spec fn query_of(name: Seq<char>, artist: Seq<char>) -> Seq<char> {
    name + " "@ + artist
}

/// A call with this name and artist against this stored query is
/// deduplicated.
pub open spec fn is_dup(last: Seq<char>, name: Seq<char>, artist: Seq<char>) -> bool {
    last == query_of(name, artist)
}

/// The query stored after a call with this name and artist, whatever the
/// call's outcome: the state is set before resolution is attempted.
pub open spec fn stored_after(name: Seq<char>, artist: Seq<char>) -> Seq<char> {
    query_of(name, artist)
}

/// Two consecutive calls with identical name and artist: whatever the first
/// call did — even fail — the second is deduplicated.
pub proof fn lemma_dedup_consecutive(last: Seq<char>, name: Seq<char>, artist: Seq<char>)
    ensures
        is_dup(stored_after(name, artist), name, artist),
{
}

/// Build the combined query text.
pub fn make_query(name: &str, artist: &str) -> (r: String)
    ensures
        r@ == query_of(name@, artist@),
{
    let mut q = String::from_str(name);
    q.append(" ");
    q.append(artist);
    q
}

/// The title whose lyrics carry a known sync error, lower-cased.
pub open spec fn override_title() -> Seq<char> {
    "shanghai breezes"@
}

/// The pipeline applied to raw lyrics text fetched for `name`: timestamp
/// repair, LRC parsing, then normalization with the per-title time override.
pub open spec fn process_spec(raw: Seq<char>, name: Seq<char>) -> Result<
    Seq<(int, Seq<char>)>,
    ResolveError,
> {
    match lrc_parse(repair_spec(raw)) {
        None => Err(ResolveError::Malformed),
        Some(parsed) => Ok(normalize_spec(parsed, lower_of(name) == override_title())),
    }
}

/// Turn raw LRC text into playback-ready lyrics: repair malformed timestamps,
/// parse, decode and trim each line, drop insignificant blank lines, and — for
/// the one specially handled title, compared case-insensitively — shift every
/// time tag earlier, clamped at zero.
pub fn process_raw(raw: &str, name: &str) -> (r: Result<Lyrics, ResolveError>)
    ensures
        match r {
            Ok(ly) => process_spec(raw@, name@) matches Ok(v) && ly@ == v && ly.wf(),
            Err(e) => process_spec(raw@, name@) matches Err(e2) && e2 == e,
        },
{
    let repaired = repair_timestamps(raw);
    match parse_lrc(repaired.as_str()) {
        None => Err(ResolveError::Malformed),
        Some(parsed) => {
            let lowered = lowercase(name);
            let shift = str_eq(lowered.as_str(), "shanghai breezes");
            let ghost parsed_view = lines_view(parsed@);
            let ly = normalize(parsed, shift);
            proof {
                crate::lines::lemma_normalize_keeps_order(parsed_view, shift);
            }
            Ok(ly)
        },
    }
}

/// The query resolver. It holds the one piece of state the pipeline needs:
/// the last query it was asked to resolve, used purely for deduplication.
pub struct Query {
    last_query: String,
}

impl Query {
    /// The stored last query.
    pub closed spec fn last(&self) -> Seq<char> {
        self.last_query@
    }

    /// A fresh resolver with no previous query.
    pub fn new() -> (q: Query)
        ensures
            q.last() == Seq::<char>::empty(),
    {
        let q = Query { last_query: String::from_str("") };
        proof {
            reveal_strlit("");
            assert(q.last() =~= Seq::<char>::empty());
        }
        q
    }

    /// Begin resolving lyrics for a name and artist. A repeated query is
    /// answered `Unchanged` at once; an empty name or artist resolves to no
    /// lyrics at once; in both cases no I/O is called for. Otherwise the
    /// stored query is updated — before resolution is attempted, so a failed
    /// attempt is not retried — and the caller is directed to ask the remote
    /// search endpoint, then hand the reply to `on_search`.
    pub fn get_lyrics(&mut self, name: &str, artist: &str) -> (step: Step)
        ensures
            final(self).last() == stored_after(name@, artist@),
            is_dup(old(self).last(), name@, artist@) ==> *final(self) == *old(self)
                && step matches Step::Done(Outcome::Unchanged),
            match step {
                Step::Done(o) => match o {
                    Outcome::Unchanged => is_dup(old(self).last(), name@, artist@),
                    Outcome::Resolved(ly) => ly is None && !is_dup(
                        old(self).last(),
                        name@,
                        artist@,
                    ) && (name@.len() == 0 || artist@.len() == 0),
                    Outcome::Error(_) => false,
                },
                Step::Search(q) => q@ == query_of(name@, artist@) && !is_dup(
                    old(self).last(),
                    name@,
                    artist@,
                ) && name@.len() > 0 && artist@.len() > 0,
            },
    {
        let query = make_query(name, artist);
        if str_eq(self.last_query.as_str(), query.as_str()) {
            Step::Done(Outcome::Unchanged)
        } else {
            self.last_query = make_query(name, artist);
            if name.unicode_len() == 0 || artist.unicode_len() == 0 {
                Step::Done(Outcome::Resolved(None))
            } else {
                Step::Search(query)
            }
        }
    }
}

/// Act on the remote search's reply: a failure propagates, a reply without an
/// exact artist match ends in `NotFound`, and the first exact match sends the
/// caller to the file cache with that song's id.
pub fn on_search(reply: Result<Vec<SongCandidate>, ResolveError>, artist: &str) -> (step:
    SearchStep)
    ensures
        match reply {
            Err(e) => step matches SearchStep::Done(o) && (o matches Outcome::Error(e2) && e2
                == e),
            Ok(songs) => {
                if some_match(songs@, artist@) {
                    step matches SearchStep::ReadCache(id) && exists|i: int|
                        #[trigger] is_first_match(songs@, artist@, i) && songs@[i].id == id
                } else {
                    step matches SearchStep::Done(o) && (o matches Outcome::Error(e) && e
                        == ResolveError::NotFound)
                }
            },
        },
{
    match reply {
        Err(e) => SearchStep::Done(Outcome::Error(e)),
        Ok(songs) => match select_song(&songs, artist) {
            Some(id) => SearchStep::ReadCache(id),
            None => SearchStep::Done(Outcome::Error(ResolveError::NotFound)),
        },
    }
}

/// Whether a consulted file-cache entry yields usable raw text: present and
/// non-empty. An absent or empty entry is a cache miss.
pub open spec fn cache_has_text(entry: Option<Seq<char>>) -> bool {
    entry matches Some(t) && t.len() > 0
}

/// The text a file-cache lookup produced, as a sequence of characters.
pub open spec fn cache_entry_view(entry: Option<String>) -> Option<Seq<char>> {
    match entry {
        Some(s) => Some(s@),
        None => None,
    }
}

/// Decide whether a file-cache lookup found usable lyrics text.
pub fn check_exist(entry: &Option<String>) -> (r: bool)
    ensures
        r == cache_has_text(cache_entry_view(*entry)),
{
    match entry {
        Some(s) => !s.as_str().is_empty(),
        None => false,
    }
}

/// Act on the file cache's reply for a song id: an I/O failure propagates and
/// stops the chain; a miss — absent or empty entry — falls through to the
/// remote lyric endpoint; a hit is processed into the final outcome.
pub fn on_cache(
    reply: Result<Option<String>, ResolveError>,
    song_id: u32,
    name: &str,
) -> (step: CacheStep)
    ensures
        match reply {
            Err(e) => step matches CacheStep::Done(o) && (o matches Outcome::Error(e2) && e2
                == e),
            Ok(entry) => {
                if cache_has_text(cache_entry_view(entry)) {
                    step matches CacheStep::Done(o) && outcome_of_text(
                        o,
                        cache_entry_view(entry)->Some_0,
                        name@,
                    )
                } else {
                    step matches CacheStep::FetchLyric(id) && id == song_id
                }
            },
        },
{
    match reply {
        Err(e) => CacheStep::Done(Outcome::Error(e)),
        Ok(entry) => {
            if check_exist(&entry) {
                let text = entry.unwrap();
                match process_raw(text.as_str(), name) {
                    Ok(ly) => CacheStep::Done(Outcome::Resolved(Some(ly))),
                    Err(e) => CacheStep::Done(Outcome::Error(e)),
                }
            } else {
                CacheStep::FetchLyric(song_id)
            }
        },
    }
}

/// The outcome `o` is what processing raw text `raw` for `name` yields:
/// resolved well-formed lyrics equal to the pipeline's result, or the
/// pipeline's error.
pub open spec fn outcome_of_text(o: Outcome, raw: Seq<char>, name: Seq<char>) -> bool {
    match process_spec(raw, name) {
        Ok(v) => o matches Outcome::Resolved(ol) && ol matches Some(ly) && ly@ == v
            && ly.wf(),
        Err(e) => o matches Outcome::Error(e2) && e2 == e,
    }
}

/// Act on the remote lyric endpoint's reply: a failure propagates; fetched
/// raw text is processed into the final outcome.
pub fn on_lyric(reply: Result<String, ResolveError>, name: &str) -> (out: Outcome)
    ensures
        match reply {
            Err(e) => out matches Outcome::Error(e2) && e2 == e,
            Ok(raw) => outcome_of_text(out, raw@, name@),
        },
{
    match reply {
        Err(e) => Outcome::Error(e),
        Ok(raw) => match process_raw(raw.as_str(), name) {
            Ok(ly) => Outcome::Resolved(Some(ly)),
            Err(e) => Outcome::Error(e),
        },
    }
}

} // verus!
