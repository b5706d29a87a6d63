//! Brace scanner: counts braces and recognises the two placeholder styles.
//!
//! A template uses the *single* style when its braces form spans `{...}`, and
//! the *double* style when they form spans `{{...}}`. In both styles a span
//! holds no further brace and the text between spans holds none either.

use vstd::prelude::*;
use crate::text::{is_whitespace, is_whitespace_char, to_chars};

verus! {

/// `c` is one of the two brace characters.
pub open spec fn is_brace(c: char) -> bool {
    c == '{' || c == '}'
}

/// The number of positions of `s` that hold `c`.
pub open spec fn occurrences(s: Seq<char>, c: char) -> nat {
    s.to_multiset().count(c)
}

/// No position of `s` holds a brace.
pub open spec fn brace_free(s: Seq<char>) -> bool {
    forall|i: int| 0 <= i < s.len() ==> !is_brace(#[trigger] s[i])
}

/// From position `i` on, `s` reads as text and complete spans `{...}`;
/// `inside` says whether position `i` lies within a span.
pub open spec fn single_spans_from(s: Seq<char>, i: int, inside: bool) -> bool
    decreases s.len() - i,
{
    if i >= s.len() {
        !inside
    } else if s[i] == '{' {
        !inside && single_spans_from(s, i + 1, true)
    } else if s[i] == '}' {
        inside && single_spans_from(s, i + 1, false)
    } else {
        single_spans_from(s, i + 1, inside)
    }
}

/// Where a scan for `{{...}}` spans stands.
#[derive(Clone, Copy, Debug, PartialEq, Eq, Structural)]
pub enum DoubleScan {
    /// Between spans.
    Text,
    /// After the first `{` of an opening pair.
    Opening,
    /// Within a span.
    Inside,
    /// After the first `}` of a closing pair.
    Closing,
}

/// From position `i` on, `s` reads as text and complete spans `{{...}}`,
/// given that the scan stands at `state` when it reaches `i`.
pub open spec fn double_spans_from(s: Seq<char>, i: int, state: DoubleScan) -> bool
    decreases s.len() - i,
{
    if i >= s.len() {
        state == DoubleScan::Text
    } else {
        match state {
            DoubleScan::Text => if s[i] == '{' {
                double_spans_from(s, i + 1, DoubleScan::Opening)
            } else {
                s[i] != '}' && double_spans_from(s, i + 1, DoubleScan::Text)
            },
            DoubleScan::Opening => s[i] == '{' && double_spans_from(s, i + 1, DoubleScan::Inside),
            DoubleScan::Inside => if s[i] == '}' {
                double_spans_from(s, i + 1, DoubleScan::Closing)
            } else {
                s[i] != '{' && double_spans_from(s, i + 1, DoubleScan::Inside)
            },
            DoubleScan::Closing => s[i] == '}' && double_spans_from(s, i + 1, DoubleScan::Text),
        }
    }
}

/// `s` has at least one brace and all its braces form spans `{...}`.
pub open spec fn only_single_braces(s: Seq<char>) -> bool {
    !brace_free(s) && single_spans_from(s, 0, false)
}

/// `s` has at least one brace and all its braces form spans `{{...}}`.
pub open spec fn only_double_braces(s: Seq<char>) -> bool {
    !brace_free(s) && double_spans_from(s, 0, DoubleScan::Text)
}

/// `s` holds two tokens: two non-whitespace characters with whitespace
/// somewhere between them.
pub open spec fn has_two_tokens(s: Seq<char>) -> bool {
    exists|a: int, b: int, c: int|
        0 <= a < b < c < s.len() && !is_whitespace_char(#[trigger] s[a]) && is_whitespace_char(
            #[trigger] s[b],
        ) && !is_whitespace_char(#[trigger] s[c])
}

/// Positions `i < j` delimit a braced stretch: `{` at `i`, `}` at `j`, and no
/// brace between them.
pub open spec fn braced_stretch(s: Seq<char>, i: int, j: int) -> bool {
    &&& 0 <= i < j < s.len()
    &&& s[i] == '{'
    &&& s[j] == '}'
    &&& brace_free(s.subrange(i + 1, j))
}

/// Some braced stretch of `s` holds more than one token.
pub open spec fn multiple_words_between_braces(s: Seq<char>) -> bool {
    exists|i: int, j: int| #[trigger]
        braced_stretch(s, i, j) && has_two_tokens(s.subrange(i + 1, j))
}

/// What a first character adds to the count of `c`.
proof fn lemma_occurrences_from(s: Seq<char>, i: int, c: char)
    requires
        0 <= i < s.len(),
    ensures
        occurrences(s.skip(i), c) == occurrences(s.skip(i + 1), c) + if s[i] == c {
            1int
        } else {
            0int
        },
{
    broadcast use vstd::multiset::group_multiset_axioms;

    let t = s.skip(i);
    assert(t.remove(0) == s.skip(i + 1));
    vstd::seq_lib::to_multiset_remove(t, 0);
    vstd::seq_lib::to_multiset_contains(t, t[0]);
    assert(t.contains(t[0]));
}

/// From a position on which single-brace spans are read, the braces that
/// follow are balanced, but for the `{` of the span that the position lies in.
proof fn lemma_single_spans_counts(s: Seq<char>, i: int, inside: bool)
    requires
        0 <= i <= s.len(),
        single_spans_from(s, i, inside),
    ensures
        occurrences(s.skip(i), '}') == occurrences(s.skip(i), '{') + if inside {
            1int
        } else {
            0int
        },
    decreases s.len() - i,
{
    if i < s.len() {
        lemma_occurrences_from(s, i, '{');
        lemma_occurrences_from(s, i, '}');
        if s[i] == '{' {
            lemma_single_spans_counts(s, i + 1, true);
        } else if s[i] == '}' {
            lemma_single_spans_counts(s, i + 1, false);
        } else {
            lemma_single_spans_counts(s, i + 1, inside);
        }
    } else {
        broadcast use vstd::multiset::group_multiset_axioms;

        vstd::seq_lib::to_multiset_len(s.skip(i));
        assert(s.skip(i).to_multiset() =~= vstd::multiset::Multiset::<char>::empty());
    }
}

/// How many more `}` than `{` follow a position at which a scan of
/// double-brace spans stands at `state`.
pub open spec fn closing_owed(state: DoubleScan) -> int {
    match state {
        DoubleScan::Text => 0,
        DoubleScan::Opening => 1,
        DoubleScan::Inside => 2,
        DoubleScan::Closing => 1,
    }
}

/// From a position on which double-brace spans are read, the braces that
/// follow are balanced, but for what the span under way still owes.
proof fn lemma_double_spans_counts(s: Seq<char>, i: int, state: DoubleScan)
    requires
        0 <= i <= s.len(),
        double_spans_from(s, i, state),
    ensures
        occurrences(s.skip(i), '}') == occurrences(s.skip(i), '{') + closing_owed(state),
    decreases s.len() - i,
{
    if i < s.len() {
        lemma_occurrences_from(s, i, '{');
        lemma_occurrences_from(s, i, '}');
        let next = match state {
            DoubleScan::Text => if s[i] == '{' {
                DoubleScan::Opening
            } else {
                DoubleScan::Text
            },
            DoubleScan::Opening => DoubleScan::Inside,
            DoubleScan::Inside => if s[i] == '}' {
                DoubleScan::Closing
            } else {
                DoubleScan::Inside
            },
            DoubleScan::Closing => DoubleScan::Text,
        };
        lemma_double_spans_counts(s, i + 1, next);
    } else {
        broadcast use vstd::multiset::group_multiset_axioms;

        vstd::seq_lib::to_multiset_len(s.skip(i));
        assert(s.skip(i).to_multiset() =~= vstd::multiset::Multiset::<char>::empty());
    }
}

/// A template whose braces all follow one style has as many `{` as `}`.
pub proof fn lemma_one_style_is_balanced(s: Seq<char>)
    requires
        only_single_braces(s) || only_double_braces(s),
    ensures
        occurrences(s, '{') == occurrences(s, '}'),
{
    assert(s.skip(0) == s);
    if only_single_braces(s) {
        lemma_single_spans_counts(s, 0, false);
    } else {
        lemma_double_spans_counts(s, 0, DoubleScan::Text);
    }
}

/// Counts the `{` characters of `s`.
pub fn count_left_braces(s: &str) -> (n: usize)
    ensures
        n == occurrences(s@, '{'),
{
    let chars = to_chars(s);
    count_char(&chars, '{')
}

/// Counts the `}` characters of `s`.
pub fn count_right_braces(s: &str) -> (n: usize)
    ensures
        n == occurrences(s@, '}'),
{
    let chars = to_chars(s);
    count_char(&chars, '}')
}

/// Counts the positions of `chars` that hold `c`.
pub fn count_char(chars: &Vec<char>, c: char) -> (n: usize)
    ensures
        n == occurrences(chars@, c),
{
    let mut n: usize = 0;
    let mut i: usize = 0;
    proof {
        broadcast use vstd::multiset::group_multiset_axioms;

        vstd::seq_lib::to_multiset_len(chars@.take(0));
        assert(chars@.take(0).to_multiset() =~= vstd::multiset::Multiset::<char>::empty());
    }
    while i < chars.len()
        invariant
            i <= chars.len(),
            n <= i,
            n == occurrences(chars@.take(i as int), c),
        decreases chars.len() - i,
    {
        proof {
            let k = i as int;
            assert(chars@.take(k + 1) == chars@.take(k).push(chars@[k]));
            vstd::seq_lib::to_multiset_build(chars@.take(k), chars@[k]);
        }
        if chars[i] == c {
            n += 1;
        }
        i += 1;
    }
    assert(chars@.take(i as int) == chars@);
    n
}

/// Tells whether `s` holds no brace at all.
pub fn has_no_braces(s: &str) -> (r: bool)
    ensures
        r == brace_free(s@),
{
    let chars = to_chars(s);
    no_braces_in(&chars)
}

/// Tells whether `chars` holds no brace at all.
pub fn no_braces_in(chars: &Vec<char>) -> (r: bool)
    ensures
        r == brace_free(chars@),
{
    let mut i: usize = 0;
    while i < chars.len()
        invariant
            i <= chars.len(),
            forall|k: int| 0 <= k < i ==> !is_brace(#[trigger] chars@[k]),
        decreases chars.len() - i,
    {
        if chars[i] == '{' || chars[i] == '}' {
            assert(is_brace(chars@[i as int]));
            return false;
        }
        i += 1;
    }
    true
}

/// Tells whether `s` has braces and all of them form spans `{...}`.
pub fn has_only_single_braces(s: &str) -> (r: bool)
    ensures
        r == only_single_braces(s@),
{
    let chars = to_chars(s);
    only_single_braces_in(&chars)
}

/// Tells whether `chars` has braces and all of them form spans `{...}`.
pub fn only_single_braces_in(chars: &Vec<char>) -> (r: bool)
    ensures
        r == only_single_braces(chars@),
{
    let mut inside = false;
    let mut seen = false;
    let mut i: usize = 0;
    while i < chars.len()
        invariant
            i <= chars.len(),
            single_spans_from(chars@, 0, false) == single_spans_from(chars@, i as int, inside),
            seen == exists|k: int| 0 <= k < i && is_brace(#[trigger] chars@[k]),
        decreases chars.len() - i,
    {
        let c = chars[i];
        if c == '{' {
            if inside {
                return false;
            }
            inside = true;
            seen = true;
        } else if c == '}' {
            if !inside {
                return false;
            }
            inside = false;
            seen = true;
        }
        assert(is_brace(c) ==> is_brace(chars@[i as int]));
        i += 1;
    }
    seen && !inside
}

/// Tells whether `s` has braces and all of them form spans `{{...}}`.
pub fn has_only_double_braces(s: &str) -> (r: bool)
    ensures
        r == only_double_braces(s@),
{
    let chars = to_chars(s);
    only_double_braces_in(&chars)
}

/// Tells whether `chars` has braces and all of them form spans `{{...}}`.
pub fn only_double_braces_in(chars: &Vec<char>) -> (r: bool)
    ensures
        r == only_double_braces(chars@),
{
    let mut state = DoubleScan::Text;
    let mut seen = false;
    let mut i: usize = 0;
    while i < chars.len()
        invariant
            i <= chars.len(),
            double_spans_from(chars@, 0, DoubleScan::Text) == double_spans_from(
                chars@,
                i as int,
                state,
            ),
            seen == exists|k: int| 0 <= k < i && is_brace(#[trigger] chars@[k]),
        decreases chars.len() - i,
    {
        let c = chars[i];
        let next = match state {
            DoubleScan::Text => if c == '{' {
                DoubleScan::Opening
            } else if c == '}' {
                return false;
            } else {
                DoubleScan::Text
            },
            DoubleScan::Opening => if c == '{' {
                DoubleScan::Inside
            } else {
                return false;
            },
            DoubleScan::Inside => if c == '}' {
                DoubleScan::Closing
            } else if c == '{' {
                return false;
            } else {
                DoubleScan::Inside
            },
            DoubleScan::Closing => if c == '}' {
                DoubleScan::Text
            } else {
                return false;
            },
        };
        if c == '{' || c == '}' {
            seen = true;
            assert(is_brace(chars@[i as int]));
        }
        state = next;
        i += 1;
    }
    seen && state == DoubleScan::Text
}

/// A text made of whitespace, then one run of other characters, then
/// whitespace again, does not hold two tokens.
proof fn lemma_single_run_has_one_token(s: Seq<char>, f: int, e: int)
    requires
        0 <= f <= e <= s.len(),
        forall|k: int| 0 <= k < f ==> is_whitespace_char(#[trigger] s[k]),
        forall|k: int| f <= k < e ==> !is_whitespace_char(#[trigger] s[k]),
        forall|k: int| e <= k < s.len() ==> is_whitespace_char(#[trigger] s[k]),
    ensures
        !has_two_tokens(s),
{
}

/// Tells whether some braced stretch of `s` holds more than one token.
pub fn has_multiple_words_between_braces(s: &str) -> (r: bool)
    ensures
        r == multiple_words_between_braces(s@),
{
    let chars = to_chars(s);
    multiple_words_between_braces_in(&chars)
}

/// Tells whether some braced stretch of `chars` holds more than one token.
pub fn multiple_words_between_braces_in(chars: &Vec<char>) -> (r: bool)
    ensures
        r == multiple_words_between_braces(chars@),
{
    let ghost s = chars@;
    // Whether the nearest brace to the left is a `{`.
    let mut inside = false;
    // What the stretch since that `{` holds: 0 only whitespace, 1 one token
    // still running, 2 one token and whitespace after it, 3 two tokens.
    let mut phase: u8 = 0;
    let ghost mut o: int = -1;
    let ghost mut f: int = 0;
    let ghost mut e: int = 0;
    let ghost mut w: (int, int, int) = (0, 0, 0);
    let mut i: usize = 0;
    while i < chars.len()
        invariant
            s == chars@,
            i <= chars.len(),
            -1 <= o < i,
            o >= 0 ==> is_brace(s[o]),
            forall|k: int| o < k < i ==> !is_brace(#[trigger] s[k]),
            inside == (o >= 0 && s[o] == '{'),
            forall|a: int, b: int| #[trigger]
                braced_stretch(s, a, b) && b < i ==> !has_two_tokens(s.subrange(a + 1, b)),
            phase <= 3,
            inside && phase < 3 ==> {
                &&& o < f <= e <= i
                &&& (phase == 0 ==> f == i)
                &&& (phase == 1 ==> f < e == i)
                &&& (phase == 2 ==> f < e < i)
                &&& forall|k: int| o < k < f ==> is_whitespace_char(#[trigger] s[k])
                &&& forall|k: int| f <= k < e ==> !is_whitespace_char(#[trigger] s[k])
                &&& forall|k: int| e <= k < i ==> is_whitespace_char(#[trigger] s[k])
            },
            inside && phase == 3 ==> {
                &&& o < w.0 < w.1 < w.2 < i
                &&& !is_whitespace_char(s[w.0])
                &&& is_whitespace_char(s[w.1])
                &&& !is_whitespace_char(s[w.2])
            },
        decreases chars.len() - i,
    {
        let c = chars[i];
        if c == '{' {
            proof {
                assert forall|a: int, b: int| #[trigger]
                    braced_stretch(s, a, b) && b < i + 1 implies !has_two_tokens(
                    s.subrange(a + 1, b),
                ) by {}
                o = i as int;
                f = i + 1;
                e = i + 1;
            }
            inside = true;
            phase = 0;
        } else if c == '}' {
            if inside && phase == 3 {
                proof {
                    let seg = s.subrange(o + 1, i as int);
                    assert(brace_free(seg)) by {
                        assert forall|k: int| 0 <= k < seg.len() implies !is_brace(
                            #[trigger] seg[k],
                        ) by {
                            assert(seg[k] == s[o + 1 + k]);
                        }
                    }
                    assert(seg[w.0 - o - 1] == s[w.0]);
                    assert(seg[w.1 - o - 1] == s[w.1]);
                    assert(seg[w.2 - o - 1] == s[w.2]);
                    assert(has_two_tokens(seg));
                    assert(braced_stretch(s, o, i as int));
                }
                return true;
            }
            proof {
                assert forall|a: int, b: int| #[trigger]
                    braced_stretch(s, a, b) && b < i + 1 implies !has_two_tokens(
                    s.subrange(a + 1, b),
                ) by {
                    if b == i {
                        let seg = s.subrange(a + 1, b);
                        if a < o {
                            assert(seg[o - a - 1] == s[o]);
                            assert(is_brace(seg[o - a - 1]));
                        }
                        assert(a == o);
                        assert forall|k: int| 0 <= k < seg.len() implies seg[k] == s[o + 1 + k] by {}
                        lemma_single_run_has_one_token(seg, f - o - 1, e - o - 1);
                    }
                }
                o = i as int;
            }
            inside = false;
            phase = 0;
        } else {
            proof {
                assert forall|a: int, b: int| #[trigger]
                    braced_stretch(s, a, b) && b < i + 1 implies !has_two_tokens(
                    s.subrange(a + 1, b),
                ) by {}
            }
            if inside {
                let blank = is_whitespace(c);
                if phase == 0 {
                    if blank {
                        proof {
                            f = i + 1;
                            e = i + 1;
                        }
                    } else {
                        proof {
                            f = i as int;
                            e = i + 1;
                        }
                        phase = 1;
                    }
                } else if phase == 1 {
                    if blank {
                        phase = 2;
                    } else {
                        proof {
                            e = i + 1;
                        }
                    }
                } else if phase == 2 {
                    if !blank {
                        proof {
                            w = (f, e, i as int);
                        }
                        phase = 3;
                    }
                }
            }
        }
        i += 1;
    }
    proof {
        assert forall|a: int, b: int| #[trigger] braced_stretch(s, a, b) implies !has_two_tokens(
            s.subrange(a + 1, b),
        ) by {}
    }
    false
}

} // verus!
