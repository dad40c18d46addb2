use vstd::prelude::*;

use crate::text::{decode_entities, decoded_of, trim_spec, trim_str};

verus! {

/// One synchronized lyric line: a time tag in milliseconds from track start,
/// and the text sung at that moment (possibly empty, a silence marker).
#[derive(Debug)]
pub struct TimedLine {
    pub time: i64,
    pub text: String,
}

impl View for TimedLine {
    type V = (int, Seq<char>);

    open spec fn view(&self) -> (int, Seq<char>) {
        (self.time as int, self.text@)
    }
}

/// An ordered sequence of timed lines, the playback-ready result of a
/// resolution.
#[derive(Debug)]
pub struct Lyrics {
    pub lines: Vec<TimedLine>,
}

impl View for Lyrics {
    type V = Seq<(int, Seq<char>)>;

    open spec fn view(&self) -> Seq<(int, Seq<char>)> {
        self.lines@.map_values(|l: TimedLine| l@)
    }
}

/// Time tags are in non-decreasing playback order.
pub open spec fn sorted_tags(s: Seq<(int, Seq<char>)>) -> bool {
    forall|i: int, j: int| 0 <= i <= j < s.len() ==> #[trigger] s[i].0 <= #[trigger] s[j].0
}

impl Lyrics {
    /// Well-formed lyrics list their lines in non-decreasing time order.
    pub open spec fn wf(&self) -> bool {
        sorted_tags(self@)
    }
}

/// A line's text after entity decoding and trimming.
pub open spec fn clean_of(s: Seq<char>) -> Seq<char> {
    trim_spec(decoded_of(s))
}

/// The largest gap, in milliseconds, that an empty line may span and still be
/// dropped as an insignificant instrumental pause.
pub const BLANK_GAP_MS: i64 = 3000;

/// The fixed correction, in milliseconds, applied to every time tag of the one
/// specially handled title.
pub const OVERRIDE_SHIFT_MS: i64 = 5000;

/// A timestamp shifted earlier by the fixed per-title correction, clamped so
/// that it never becomes negative.
pub open spec fn shift_tag_spec(t: int) -> int {
    if t - OVERRIDE_SHIFT_MS > 0 {
        t - OVERRIDE_SHIFT_MS
    } else {
        0
    }
}

/// Apply the fixed per-title correction to one timestamp, clamping at zero.
pub fn shift_tag(t: i64) -> (r: i64)
    ensures
        r == shift_tag_spec(t as int),
{
    if t > OVERRIDE_SHIFT_MS {
        t - OVERRIDE_SHIFT_MS
    } else {
        0
    }
}

/// The time tag a normalized line carries: shifted when the per-title
/// override is on, untouched otherwise.
pub open spec fn out_tag(t: int, shift: bool) -> int {
    if shift {
        shift_tag_spec(t)
    } else {
        t
    }
}

/// Whether the parsed line at index `i` is kept. A line is dropped exactly
/// when its cleaned text is empty, it is not the last line, and the next line
/// starts no more than `BLANK_GAP_MS` later.
pub open spec fn keep_at(lines: Seq<(int, Seq<char>)>, i: int) -> bool {
    clean_of(lines[i].1).len() > 0 || i == lines.len() - 1 || lines[i + 1].0 - lines[i].0
        > BLANK_GAP_MS
}

/// The normalized entry built from the parsed line at index `i`.
pub open spec fn entry_at(lines: Seq<(int, Seq<char>)>, i: int, shift: bool) -> (int, Seq<char>) {
    (out_tag(lines[i].0, shift), clean_of(lines[i].1))
}

/// The normalized form of the first `n` parsed lines, with keep decisions
/// taken against the whole parsed sequence.
pub open spec fn norm_prefix(lines: Seq<(int, Seq<char>)>, shift: bool, n: int) -> Seq<
    (int, Seq<char>),
>
    decreases n,
{
    if n <= 0 {
        Seq::empty()
    } else if keep_at(lines, n - 1) {
        norm_prefix(lines, shift, n - 1).push(entry_at(lines, n - 1, shift))
    } else {
        norm_prefix(lines, shift, n - 1)
    }
}

/// The normalized form of a whole parsed sequence: each line entity-decoded
/// and trimmed, insignificant blank lines dropped, the per-title time
/// correction applied when `shift` is on, and relative order kept.
pub open spec fn normalize_spec(lines: Seq<(int, Seq<char>)>, shift: bool) -> Seq<
    (int, Seq<char>),
> {
    norm_prefix(lines, shift, lines.len() as int)
}

/// The view of a vector of parsed lines.
pub open spec fn lines_view(v: Seq<TimedLine>) -> Seq<(int, Seq<char>)> {
    v.map_values(|l: TimedLine| l@)
}

/// Build the playback-ready lyrics from parsed timed lines: decode HTML
/// entities and trim each text, drop a blank line whose gap to the next line
/// is at most `BLANK_GAP_MS` (keeping the last line and longer pause markers),
/// and, when `shift` is on, move every kept time tag `OVERRIDE_SHIFT_MS`
/// earlier, clamped at zero.
pub fn normalize(parsed: Vec<TimedLine>, shift: bool) -> (r: Lyrics)
    ensures
        r@ == normalize_spec(lines_view(parsed@), shift),
{
    let ghost lines = lines_view(parsed@);
    let n = parsed.len();
    let mut kept: Vec<TimedLine> = Vec::new();
    let mut i: usize = 0;
    while i < n
        invariant
            n == parsed@.len(),
            0 <= i <= n,
            lines == lines_view(parsed@),
            lines.len() == n,
            lines_view(kept@) == norm_prefix(lines, shift, i as int),
        decreases n - i,
    {
        proof {
            assert(lines[i as int] == parsed@[i as int]@);
        }
        let decoded = decode_entities(parsed[i].text.as_str());
        let cleaned = trim_str(decoded.as_str());
        proof {
            assert(cleaned@ == clean_of(lines[i as int].1));
        }
        let keep: bool;
        if cleaned.as_str().unicode_len() > 0 {
            keep = true;
        } else if i == n - 1 {
            keep = true;
        } else {
            proof {
                assert(lines[i as int + 1] == parsed@[i as int + 1]@);
            }
            let cur = parsed[i].time;
            let next = parsed[i + 1].time;
            keep = (next as i128) - (cur as i128) > (BLANK_GAP_MS as i128);
        }
        proof {
            assert(keep == keep_at(lines, i as int));
        }
        if keep {
            let t = parsed[i].time;
            let new_t = if shift {
                shift_tag(t)
            } else {
                t
            };
            let ghost old_kept = kept@;
            kept.push(TimedLine { time: new_t, text: cleaned });
            proof {
                assert(kept@[kept@.len() - 1]@ == entry_at(lines, i as int, shift));
                assert(lines_view(kept@) =~= lines_view(old_kept).push(
                    entry_at(lines, i as int, shift),
                ));
            }
        }
        i = i + 1;
    }
    Lyrics { lines: kept }
}

/// Blank-line suppression: a line whose cleaned text is empty is dropped
/// exactly when it is not the last line and the next line starts no more than
/// `BLANK_GAP_MS` later; with a larger gap, or as the last line, it is kept.
pub proof fn lemma_blank_line_suppression(lines: Seq<(int, Seq<char>)>, shift: bool, i: int)
    requires
        0 <= i < lines.len(),
        clean_of(lines[i].1).len() == 0,
    ensures
        (i < lines.len() - 1 && lines[i + 1].0 - lines[i].0 <= BLANK_GAP_MS) ==> norm_prefix(
            lines,
            shift,
            i + 1,
        ) == norm_prefix(lines, shift, i),
        (i == lines.len() - 1 || lines[i + 1].0 - lines[i].0 > BLANK_GAP_MS) ==> norm_prefix(
            lines,
            shift,
            i + 1,
        ) == norm_prefix(lines, shift, i).push(entry_at(lines, i, shift)),
{
}

proof fn lemma_norm_prefix_sorted(lines: Seq<(int, Seq<char>)>, shift: bool, n: int)
    requires
        sorted_tags(lines),
        0 <= n <= lines.len(),
    ensures
        sorted_tags(norm_prefix(lines, shift, n)),
        forall|k: int|
            0 <= k < norm_prefix(lines, shift, n).len() ==> n > 0 && #[trigger] norm_prefix(
                lines,
                shift,
                n,
            )[k].0 <= out_tag(lines[n - 1].0, shift),
    decreases n,
{
    if n > 0 {
        lemma_norm_prefix_sorted(lines, shift, n - 1);
        let prev = norm_prefix(lines, shift, n - 1);
        assert forall|k: int| 0 <= k < prev.len() implies prev[k].0 <= out_tag(
            lines[n - 1].0,
            shift,
        ) by {
            assert(lines[n - 2].0 <= lines[n - 1].0);
        }
    }
}

/// Normalizing a sorted parsed sequence yields lyrics whose time tags are
/// still in non-decreasing playback order: the blank-line filter keeps
/// relative order, and the clamped shift is monotone.
pub proof fn lemma_normalize_keeps_order(lines: Seq<(int, Seq<char>)>, shift: bool)
    requires
        sorted_tags(lines),
    ensures
        sorted_tags(normalize_spec(lines, shift)),
{
    lemma_norm_prefix_sorted(lines, shift, lines.len() as int);
}

} // verus!
