use vstd::prelude::*;

use crate::lines::{lines_view, sorted_tags, TimedLine};

verus! {

/// What `lrc::Lyrics::from_str` yields for a raw LRC text: the timed lines in
/// their stored order, or nothing when the text is rejected. Parsing is a
/// function of the text alone.
pub uninterp spec fn lrc_parse(s: Seq<char>) -> Option<Seq<(int, Seq<char>)>>;

/// Relies on `lrc::Lyrics::from_str` (parsing is deterministic in the text),
/// `lrc::Lyrics::get_timed_lines` (the crate stores timed lines sorted by
/// non-decreasing time tag) and `lrc::TimeTag::get_timestamp` (the tag's
/// milliseconds).
#[verifier::external_body]
pub(crate) fn parse_lrc(s: &str) -> (r: Option<Vec<TimedLine>>)
    ensures
        match r {
            Some(v) => lrc_parse(s@) == Some(lines_view(v@)) && sorted_tags(lines_view(v@)),
            None => lrc_parse(s@) is None,
        },
{
    match lrc::Lyrics::from_str(s) {
        Ok(ly) => {
            let mut v: Vec<TimedLine> = Vec::new();
            for p in ly.get_timed_lines().iter() {
                v.push(TimedLine { time: p.0.get_timestamp(), text: p.1.to_string() });
            }
            Some(v)
        },
        Err(_) => None,
    }
}

} // verus!
