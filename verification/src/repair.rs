use vstd::prelude::*;

verus! {

/// An ASCII decimal digit.
pub open spec fn is_digit(c: char) -> bool {
    c == '0' || c == '1' || c == '2' || c == '3' || c == '4' || c == '5' || c == '6' || c == '7'
        || c == '8' || c == '9'
}

/// Decide whether one character is an ASCII decimal digit.
pub fn is_digit_char(c: char) -> (r: bool)
    ensures
        r == is_digit(c),
{
    c == '0' || c == '1' || c == '2' || c == '3' || c == '4' || c == '5' || c == '6' || c == '7'
        || c == '8' || c == '9'
}

/// A malformed timestamp tag `[MM:SS.CCx]` starts at position `i`: a tag whose
/// hundredths field carries one extra trailing digit.
pub open spec fn tag_at(s: Seq<char>, i: int) -> bool {
    &&& 0 <= i
    &&& i + 11 <= s.len()
    &&& s[i] == '['
    &&& is_digit(s[i + 1])
    &&& is_digit(s[i + 2])
    &&& s[i + 3] == ':'
    &&& is_digit(s[i + 4])
    &&& is_digit(s[i + 5])
    &&& s[i + 6] == '.'
    &&& is_digit(s[i + 7])
    &&& is_digit(s[i + 8])
    &&& is_digit(s[i + 9])
    &&& s[i + 10] == ']'
}

/// The repaired text: every malformed tag `[MM:SS.CCx]` loses its extra
/// trailing digit, scanning left to right over non-overlapping matches;
/// everything else is copied unchanged.
pub open spec fn repair_spec(s: Seq<char>) -> Seq<char>
    decreases s.len(),
{
    if s.len() == 0 {
        s
    } else if tag_at(s, 0) {
        s.take(9).push(']') + repair_spec(s.skip(11))
    } else {
        seq![s[0]] + repair_spec(s.skip(1))
    }
}

/// Decide whether a malformed tag starts at position `i` of `s`.
fn tag_at_exec(s: &str, i: usize, n: usize) -> (r: bool)
    requires
        n == s@.len(),
        i <= n,
    ensures
        r == tag_at(s@, i as int),
{
    n - i >= 11 && s.get_char(i) == '[' && is_digit_char(s.get_char(i + 1)) && is_digit_char(
        s.get_char(i + 2),
    ) && s.get_char(i + 3) == ':' && is_digit_char(s.get_char(i + 4)) && is_digit_char(
        s.get_char(i + 5),
    ) && s.get_char(i + 6) == '.' && is_digit_char(s.get_char(i + 7)) && is_digit_char(
        s.get_char(i + 8),
    ) && is_digit_char(s.get_char(i + 9)) && s.get_char(i + 10) == ']'
}

/// Rewrite every timestamp tag of the shape `[MM:SS.CCx]` to `[MM:SS.CC]`,
/// dropping the extra trailing digit; tags already in two-digit form and all
/// other text are left untouched.
pub fn repair_timestamps(s: &str) -> (r: String)
    ensures
        r@ == repair_spec(s@),
{
    let n = s.unicode_len();
    let mut out = String::from_str("");
    proof {
        reveal_strlit("");
        assert(out@ =~= Seq::<char>::empty());
        assert(s@.skip(0) =~= s@);
        assert(out@ + repair_spec(s@.skip(0)) =~= repair_spec(s@));
    }
    let mut i: usize = 0;
    while i < n
        invariant
            n == s@.len(),
            0 <= i <= n,
            out@ + repair_spec(s@.skip(i as int)) == repair_spec(s@),
        decreases n - i,
    {
        let ghost t = s@.skip(i as int);
        if tag_at_exec(s, i, n) {
            proof {
                assert forall|k: int| 0 <= k < t.len() implies t[k] == s@[i + k] by {}
                assert(tag_at(t, 0));
                assert(repair_spec(t) == t.take(9).push(']') + repair_spec(t.skip(11)));
            }
            let piece = s.substring_char(i, i + 9);
            out.append(piece);
            out.append("]");
            proof {
                reveal_strlit("]");
                assert("]"@ =~= seq![']']);
                assert(piece@ =~= t.take(9));
                assert(t.skip(11) =~= s@.skip(i + 11));
                assert(out@ + repair_spec(s@.skip(i + 11)) =~= repair_spec(s@));
            }
            i = i + 11;
        } else {
            proof {
                assert forall|k: int| 0 <= k < t.len() implies t[k] == s@[i + k] by {}
                assert(!tag_at(t, 0));
                assert(t.len() > 0);
                assert(repair_spec(t) == seq![t[0]] + repair_spec(t.skip(1)));
            }
            let piece = s.substring_char(i, i + 1);
            out.append(piece);
            proof {
                assert(piece@ =~= seq![t[0]]);
                assert(t.skip(1) =~= s@.skip(i + 1));
                assert(out@ + repair_spec(s@.skip(i + 1)) =~= repair_spec(s@));
            }
            i = i + 1;
        }
    }
    proof {
        assert(s@.skip(n as int) =~= Seq::<char>::empty());
        assert(out@ =~= repair_spec(s@));
    }
    out
}

proof fn lemma_tag_at_skip(s: Seq<char>, k: int, i: int)
    requires
        0 <= k <= s.len(),
        0 <= i,
    ensures
        tag_at(s.skip(k), i) == tag_at(s, k + i),
{
    if i + 11 <= s.skip(k).len() {
        assert forall|j: int| 0 <= j < s.skip(k).len() implies s.skip(k)[j] == s[k + j] by {}
    }
}

/// Text already in two-digit form — holding no malformed tag — is returned by
/// the repair unchanged.
pub proof fn lemma_repair_two_digit_identity(s: Seq<char>)
    requires
        forall|i: int| !tag_at(s, i),
    ensures
        repair_spec(s) == s,
    decreases s.len(),
{
    if s.len() == 0 {
    } else {
        assert(!tag_at(s, 0));
        assert forall|i: int| !tag_at(s.skip(1), i) by {
            if 0 <= i {
                lemma_tag_at_skip(s, 1, i);
            }
        }
        lemma_repair_two_digit_identity(s.skip(1));
        assert(seq![s[0]] + s.skip(1) =~= s);
    }
}

proof fn lemma_repair_head(w: Seq<char>)
    ensures
        repair_spec(w).len() == 0 <==> w.len() == 0,
        w.len() > 0 ==> repair_spec(w)[0] == w[0],
{
    if w.len() > 0 {
        if tag_at(w, 0) {
            assert(repair_spec(w) == w.take(9).push(']') + repair_spec(w.skip(11)));
            assert(repair_spec(w)[0] == w.take(9)[0]);
        } else {
            assert(repair_spec(w) == seq![w[0]] + repair_spec(w.skip(1)));
        }
    }
}

proof fn lemma_repair_skip_head(w: Seq<char>, k: int)
    requires
        0 <= k <= repair_spec(w).len(),
        forall|j: int| 0 <= j < k ==> repair_spec(w)[j] != '[',
    ensures
        k <= w.len(),
        forall|j: int| 0 <= j < k ==> repair_spec(w)[j] == w[j],
        repair_spec(w).skip(k) == repair_spec(w.skip(k)),
    decreases k,
{
    if k == 0 {
        assert(repair_spec(w).skip(0) =~= repair_spec(w));
        assert(w.skip(0) =~= w);
    } else {
        lemma_repair_head(w);
        assert(w.len() > 0);
        assert(repair_spec(w)[0] == w[0]);
        assert(w[0] != '[');
        assert(!tag_at(w, 0));
        assert(repair_spec(w) == seq![w[0]] + repair_spec(w.skip(1)));
        let r1 = repair_spec(w.skip(1));
        assert forall|j: int| 0 <= j < k - 1 implies r1[j] != '[' by {
            assert(repair_spec(w)[j + 1] == r1[j]);
        }
        lemma_repair_skip_head(w.skip(1), k - 1);
        assert forall|j: int| 0 <= j < k implies repair_spec(w)[j] == w[j] by {
            if j > 0 {
                assert(repair_spec(w)[j] == r1[j - 1]);
                assert(r1[j - 1] == w.skip(1)[j - 1]);
            }
        }
        assert(w.skip(1).skip(k - 1) =~= w.skip(k));
        assert(repair_spec(w).skip(k) =~= r1.skip(k - 1));
    }
}

proof fn lemma_repair_no_tag(s: Seq<char>)
    ensures
        forall|i: int| !tag_at(repair_spec(s), i),
    decreases s.len(),
{
    if s.len() == 0 {
    } else if tag_at(s, 0) {
        let h = s.take(9).push(']');
        let r = repair_spec(s.skip(11));
        assert(repair_spec(s) == h + r);
        lemma_repair_no_tag(s.skip(11));
        assert forall|i: int| !tag_at(h + r, i) by {
            if 0 <= i && i + 11 <= h.len() + r.len() {
                if i >= 10 {
                    assert forall|j: int| 0 <= j < r.len() implies (h + r)[10 + j] == r[j] by {}
                    assert(!tag_at(r, i - 10));
                    if tag_at(h + r, i) {
                        assert((h + r)[i] == r[i - 10]);
                        assert((h + r)[i + 1] == r[i - 10 + 1]);
                        assert((h + r)[i + 2] == r[i - 10 + 2]);
                        assert((h + r)[i + 3] == r[i - 10 + 3]);
                        assert((h + r)[i + 4] == r[i - 10 + 4]);
                        assert((h + r)[i + 5] == r[i - 10 + 5]);
                        assert((h + r)[i + 6] == r[i - 10 + 6]);
                        assert((h + r)[i + 7] == r[i - 10 + 7]);
                        assert((h + r)[i + 8] == r[i - 10 + 8]);
                        assert((h + r)[i + 9] == r[i - 10 + 9]);
                        assert((h + r)[i + 10] == r[i - 10 + 10]);
                        assert(tag_at(r, i - 10));
                    }
                } else if i == 0 {
                    assert((h + r)[9] == h[9]);
                    assert(h[9] == ']');
                } else {
                    // 1 <= i <= 9: the bracket position falls inside the
                    // rewritten tag, whose characters there are never `[`.
                    assert((h + r)[i] == h[i]);
                    if i == 9 {
                        assert(h[9] == ']');
                    } else {
                        assert(h[i] == s[i]);
                        assert(tag_at(s, 0));
                        assert(s[i] != '[');
                    }
                }
            }
        }
    } else {
        let r = repair_spec(s.skip(1));
        assert(repair_spec(s) == seq![s[0]] + r);
        lemma_repair_no_tag(s.skip(1));
        let u = seq![s[0]] + r;
        assert forall|i: int| !tag_at(u, i) by {
            if 0 <= i && i + 11 <= u.len() {
                if i >= 1 {
                    assert forall|j: int| 0 <= j < r.len() implies u[1 + j] == r[j] by {}
                    assert(!tag_at(r, i - 1));
                    if tag_at(u, i) {
                        assert(u[i] == r[i - 1]);
                        assert(u[i + 1] == r[i - 1 + 1]);
                        assert(u[i + 2] == r[i - 1 + 2]);
                        assert(u[i + 3] == r[i - 1 + 3]);
                        assert(u[i + 4] == r[i - 1 + 4]);
                        assert(u[i + 5] == r[i - 1 + 5]);
                        assert(u[i + 6] == r[i - 1 + 6]);
                        assert(u[i + 7] == r[i - 1 + 7]);
                        assert(u[i + 8] == r[i - 1 + 8]);
                        assert(u[i + 9] == r[i - 1 + 9]);
                        assert(u[i + 10] == r[i - 1 + 10]);
                        assert(tag_at(r, i - 1));
                    }
                } else if i == 0 && tag_at(u, 0) {
                    // The head character would have to open a tag whose body
                    // is drawn from the repaired tail; the tail then starts
                    // with nine non-bracket characters followed by `]`, so the
                    // same shape already stood in the input, where no tag was.
                    let w = s.skip(1);
                    assert forall|j: int| 0 <= j < r.len() implies u[1 + j] == r[j] by {}
                    assert forall|j: int| 0 <= j < 9 implies r[j] != '[' by {
                        assert(r[j] == u[1 + j]);
                        if j == 2 {
                            assert(u[3] == ':');
                        } else if j == 5 {
                            assert(u[6] == '.');
                        } else {
                            assert(is_digit(u[1 + j]));
                        }
                    }
                    lemma_repair_skip_head(w, 9);
                    assert(r.skip(9) == repair_spec(w.skip(9)));
                    lemma_repair_head(w.skip(9));
                    assert(r.skip(9).len() > 0);
                    assert(r.skip(9)[0] == r[9]);
                    assert(w.skip(9).len() > 0);
                    assert(repair_spec(w.skip(9))[0] == w.skip(9)[0]);
                    assert(w.skip(9)[0] == w[9]);
                    assert(w[9] == r[9]);
                    assert(r[9] == u[10]);
                    assert(u[10] == ']');
                    assert(s[0] == u[0]);
                    assert(u[0] == '[');
                    assert forall|j: int| 0 <= j < w.len() implies w[j] == s[1 + j] by {}
                    assert(w.len() >= 10);
                    assert(s.len() >= 11);
                    assert forall|j: int| 1 <= j < 10 implies s[j] == u[j] by {
                        assert(r[j - 1] == w[j - 1]);
                        assert(s[j] == w[j - 1]);
                        assert(u[j] == r[j - 1]);
                    }
                    assert(s[10] == w[9]);
                    assert(s[10] == u[10]);
                    assert(tag_at(s, 0));
                    assert(false);
                }
            }
        }
    }
}

/// The repair is idempotent: repairing already-repaired text changes nothing.
pub proof fn lemma_repair_idempotent(s: Seq<char>)
    ensures
        repair_spec(repair_spec(s)) == repair_spec(s),
{
    lemma_repair_no_tag(s);
    lemma_repair_two_digit_identity(repair_spec(s));
}

} // verus!
