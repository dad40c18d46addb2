use lyrics_query::db::{db_lookup, on_db, SongRow};
use lyrics_query::lines::{normalize, shift_tag, Lyrics, TimedLine};
use lyrics_query::query::{
    check_exist, make_query, on_cache, on_lyric, on_search, process_raw, CacheStep, Outcome,
    Query, ResolveError, SearchStep, Step,
};
use lyrics_query::repair::repair_timestamps;
use lyrics_query::search::{select_song, SongCandidate};
use lyrics_query::text::trim_str;

fn line(time: i64, text: &str) -> TimedLine {
    TimedLine { time, text: String::from(text) }
}

fn song(id: u32, name: &str, artists: &[&str]) -> SongCandidate {
    SongCandidate {
        id,
        name: String::from(name),
        artists: artists.iter().map(|a| String::from(*a)).collect(),
    }
}

fn resolved(outcome: Outcome) -> Lyrics {
    match outcome {
        Outcome::Resolved(Some(ly)) => ly,
        other => panic!("expected resolved lyrics, got {:?}", other),
    }
}

#[test]
fn repair_drops_extra_digit() {
    let r = repair_timestamps("[00:10.123]Hello");
    assert_eq!(r, "[00:10.12]Hello");
}

#[test]
fn repair_two_digit_form_unchanged() {
    let s = "[00:10.00]Hello\n[01:02.03]World";
    assert_eq!(repair_timestamps(s), s);
}

#[test]
fn repair_is_idempotent() {
    let s = "intro [12:34.567]la [00:00.999]x [1:02.345]short";
    let once = repair_timestamps(s);
    let twice = repair_timestamps(&once);
    assert_eq!(twice, once);
}

#[test]
fn repair_leaves_non_tags_alone() {
    let s = "[ab:cd.efg] 00:10.123 [00:10.1234]";
    assert_eq!(repair_timestamps(s), "[ab:cd.efg] 00:10.123 [00:10.1234]");
}

#[test]
fn trim_removes_surrounding_whitespace() {
    assert_eq!(trim_str("  hello world\t"), "hello world");
    assert_eq!(trim_str("   "), "");
    assert_eq!(trim_str("x"), "x");
}

#[test]
fn trim_handles_unicode_whitespace() {
    assert_eq!(trim_str("\u{3000}ideographic\u{a0}space\u{2009}"), "ideographic\u{a0}space");
}

#[test]
fn named_entities_are_decoded() {
    let ly = normalize(vec![line(0, "&quot;Calypso&quot;")], false);
    assert_eq!(ly.lines[0].text, "\"Calypso\"");
}

#[test]
fn normalize_decodes_entities_and_trims() {
    let ly = normalize(vec![line(0, " &amp;x ")], false);
    assert_eq!(ly.lines.len(), 1);
    assert_eq!(ly.lines[0].time, 0);
    assert_eq!(ly.lines[0].text, "&x");
}

#[test]
fn blank_line_with_small_gap_is_dropped() {
    let ly = normalize(vec![line(10000, ""), line(12500, "Hello")], false);
    assert_eq!(ly.lines.len(), 1);
    assert_eq!(ly.lines[0].time, 12500);
    assert_eq!(ly.lines[0].text, "Hello");
}

#[test]
fn blank_line_with_large_gap_is_kept() {
    let ly = normalize(vec![line(10000, ""), line(15000, "Hello")], false);
    assert_eq!(ly.lines.len(), 2);
    assert_eq!(ly.lines[0].time, 10000);
    assert_eq!(ly.lines[0].text, "");
    assert_eq!(ly.lines[1].time, 15000);
    assert_eq!(ly.lines[1].text, "Hello");
}

#[test]
fn blank_last_line_is_kept() {
    let ly = normalize(vec![line(10000, "x"), line(11000, "")], false);
    assert_eq!(ly.lines.len(), 2);
    assert_eq!(ly.lines[1].time, 11000);
    assert_eq!(ly.lines[1].text, "");
}

#[test]
fn shift_clamps_at_zero() {
    assert_eq!(shift_tag(3000), 0);
    assert_eq!(shift_tag(8000), 3000);
    assert_eq!(shift_tag(5000), 0);
    assert_eq!(shift_tag(0), 0);
}

#[test]
fn override_applies_to_special_title_any_casing() {
    for name in ["Shanghai Breezes", "SHANGHAI BREEZES", "shanghai breezes"] {
        let out = process_raw("[00:03.00]One\n[00:08.00]Two", name);
        let ly = out.expect("should parse");
        assert_eq!(ly.lines.len(), 2);
        assert_eq!(ly.lines[0].time, 0);
        assert_eq!(ly.lines[0].text, "One");
        assert_eq!(ly.lines[1].time, 3000);
        assert_eq!(ly.lines[1].text, "Two");
    }
}

#[test]
fn override_leaves_other_titles_alone() {
    let ly = process_raw("[00:03.00]One\n[00:08.00]Two", "Calypso").expect("should parse");
    assert_eq!(ly.lines[0].time, 3000);
    assert_eq!(ly.lines[1].time, 8000);
}

#[test]
fn parsed_lines_come_out_sorted() {
    let ly = process_raw("[00:20.00]B\n[00:10.00]A", "Calypso").expect("should parse");
    assert_eq!(ly.lines.len(), 2);
    assert_eq!(ly.lines[0].time, 10000);
    assert_eq!(ly.lines[0].text, "A");
    assert_eq!(ly.lines[1].time, 20000);
    assert_eq!(ly.lines[1].text, "B");
}

#[test]
fn malformed_lyrics_are_rejected() {
    let out = process_raw("[00:99.00]x", "Calypso");
    assert!(matches!(out, Err(ResolveError::Malformed)));
}

#[test]
fn artist_match_is_exact() {
    let songs = vec![song(1, "Song", &["john denver"]), song(2, "Song", &["John Denver "])];
    assert_eq!(select_song(&songs, "John Denver"), None);
}

#[test]
fn first_exact_match_wins() {
    let songs = vec![
        song(1, "Song", &["Someone Else"]),
        song(2, "Song", &["X", "John Denver"]),
        song(3, "Song", &["John Denver"]),
    ];
    assert_eq!(select_song(&songs, "John Denver"), Some(2));
}

#[test]
fn empty_name_resolves_to_none() {
    let mut q = Query::new();
    let step = q.get_lyrics("", "John Denver");
    assert!(matches!(step, Step::Done(Outcome::Resolved(None))));
}

#[test]
fn empty_artist_resolves_to_none() {
    let mut q = Query::new();
    let step = q.get_lyrics("Calypso", "");
    assert!(matches!(step, Step::Done(Outcome::Resolved(None))));
}

#[test]
fn second_identical_call_is_unchanged() {
    let mut q = Query::new();
    let first = q.get_lyrics("Calypso", "John Denver");
    match first {
        Step::Search(query) => assert_eq!(query, "Calypso John Denver"),
        other => panic!("expected a search step, got {:?}", other),
    }
    let second = q.get_lyrics("Calypso", "John Denver");
    assert!(matches!(second, Step::Done(Outcome::Unchanged)));
}

#[test]
fn dedup_holds_even_after_empty_resolution() {
    let mut q = Query::new();
    let first = q.get_lyrics("", "John Denver");
    assert!(matches!(first, Step::Done(Outcome::Resolved(None))));
    let second = q.get_lyrics("", "John Denver");
    assert!(matches!(second, Step::Done(Outcome::Unchanged)));
}

#[test]
fn make_query_joins_with_space() {
    assert_eq!(make_query("a", "b"), "a b");
}

#[test]
fn search_error_propagates() {
    let step = on_search(Err(ResolveError::Transport), "John Denver");
    assert!(matches!(step, SearchStep::Done(Outcome::Error(ResolveError::Transport))));
}

#[test]
fn search_without_match_is_not_found() {
    let songs = vec![song(1, "Song", &["someone"])];
    let step = on_search(Ok(songs), "John Denver");
    assert!(matches!(step, SearchStep::Done(Outcome::Error(ResolveError::NotFound))));
}

#[test]
fn search_match_goes_to_cache() {
    let songs = vec![song(9, "Song", &["John Denver"])];
    let step = on_search(Ok(songs), "John Denver");
    assert!(matches!(step, SearchStep::ReadCache(9)));
}

#[test]
fn check_exist_wants_nonempty_text() {
    assert!(check_exist(&Some(String::from("[00:01.00]x"))));
    assert!(!check_exist(&Some(String::new())));
    assert!(!check_exist(&None));
}

#[test]
fn cache_miss_falls_through_to_remote() {
    let step = on_cache(Ok(None), 7, "Calypso");
    assert!(matches!(step, CacheStep::FetchLyric(7)));
    let step = on_cache(Ok(Some(String::new())), 7, "Calypso");
    assert!(matches!(step, CacheStep::FetchLyric(7)));
}

#[test]
fn cache_error_stops_the_chain() {
    let step = on_cache(Err(ResolveError::StorageError), 7, "Calypso");
    assert!(matches!(step, CacheStep::Done(Outcome::Error(ResolveError::StorageError))));
}

#[test]
fn cache_hit_is_processed() {
    let step = on_cache(Ok(Some(String::from("[00:10.00]Hi"))), 7, "Calypso");
    let ly = match step {
        CacheStep::Done(outcome) => resolved(outcome),
        other => panic!("expected a final outcome, got {:?}", other),
    };
    assert_eq!(ly.lines.len(), 1);
    assert_eq!(ly.lines[0].time, 10000);
    assert_eq!(ly.lines[0].text, "Hi");
}

#[test]
fn lyric_reply_is_processed() {
    let out = on_lyric(Ok(String::from("[00:10.123]Hi")), "Calypso");
    let ly = resolved(out);
    assert_eq!(ly.lines.len(), 1);
    assert_eq!(ly.lines[0].time, 10120);
    assert_eq!(ly.lines[0].text, "Hi");
}

#[test]
fn lyric_error_propagates() {
    let out = on_lyric(Err(ResolveError::Transport), "Calypso");
    assert!(matches!(out, Outcome::Error(ResolveError::Transport)));
}

fn row(name: &str, artist: &str, lyrics: &str) -> SongRow {
    SongRow {
        name: String::from(name),
        artist: String::from(artist),
        lyrics: String::from(lyrics),
    }
}

#[test]
fn db_lookup_is_exact_and_first_wins() {
    let rows = vec![
        row("calypso", "John Denver", "[00:01.00]wrong case"),
        row("Calypso", "John Denver", "[00:01.00]first"),
        row("Calypso", "John Denver", "[00:01.00]second"),
    ];
    let text = db_lookup(&rows, "Calypso", "John Denver").expect("should find a row");
    assert_eq!(text, "[00:01.00]first");
    assert_eq!(db_lookup(&rows, "calypso ", "John Denver"), None);
}

#[test]
fn db_hit_runs_through_repair() {
    let rows = vec![row("Calypso", "John Denver", "[00:10.123]Hi")];
    let out = on_db(Ok(rows), "Calypso", "John Denver");
    let ly = resolved(out);
    assert_eq!(ly.lines.len(), 1);
    assert_eq!(ly.lines[0].time, 10120);
    assert_eq!(ly.lines[0].text, "Hi");
}

#[test]
fn db_without_match_is_not_found() {
    let rows = vec![row("Other", "Someone", "[00:01.00]x")];
    let out = on_db(Ok(rows), "Calypso", "John Denver");
    assert!(matches!(out, Outcome::Error(ResolveError::NotFound)));
}

#[test]
fn db_error_propagates() {
    let out = on_db(Err(ResolveError::StorageError), "Calypso", "John Denver");
    assert!(matches!(out, Outcome::Error(ResolveError::StorageError)));
}
