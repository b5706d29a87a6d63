//! Character-level helpers shared by the scanners: whitespace classification,
//! conversion between strings and character vectors, comparison and trimming.

use vstd::prelude::*;

verus! {

/// The characters that carry the Unicode `White_Space` property.
pub open spec fn is_whitespace_char(c: char) -> bool {
    let n = c as u32;
    ||| 0x09 <= n <= 0x0D
    ||| n == 0x20
    ||| n == 0x85
    ||| n == 0xA0
    ||| n == 0x1680
    ||| 0x2000 <= n <= 0x200A
    ||| n == 0x2028
    ||| n == 0x2029
    ||| n == 0x202F
    ||| n == 0x205F
    ||| n == 0x3000
}

/// Tells whether `c` is a whitespace character.
pub fn is_whitespace(c: char) -> (r: bool)
    ensures
        r == is_whitespace_char(c),
{
    let n: u32 = c as u32;
    (0x09 <= n && n <= 0x0D) || n == 0x20 || n == 0x85 || n == 0xA0 || n == 0x1680 || (0x2000 <= n
        && n <= 0x200A) || n == 0x2028 || n == 0x2029 || n == 0x202F || n == 0x205F || n == 0x3000
}

/// The characters of `s`, in order.
pub fn to_chars(s: &str) -> (out: Vec<char>)
    ensures
        out@ == s@,
{
    let mut out: Vec<char> = Vec::new();
    for c in it: s.chars()
        invariant
            out@ == it.seq().take(it.index() as int),
            it.seq() == s@,
    {
        out.push(c);
    }
    out
}

/// Tells whether two character vectors hold the same text.
pub fn chars_equal(a: &Vec<char>, b: &Vec<char>) -> (r: bool)
    ensures
        r == (a@ == b@),
{
    if a.len() != b.len() {
        return false;
    }
    let mut i: usize = 0;
    while i < a.len()
        invariant
            a.len() == b.len(),
            i <= a.len(),
            a@.take(i as int) == b@.take(i as int),
        decreases a.len() - i,
    {
        if a[i] != b[i] {
            return false;
        }
        i += 1;
        assert(a@.take(i as int) == a@.take(i - 1).push(a@[i - 1]));
        assert(b@.take(i as int) == b@.take(i - 1).push(b@[i - 1]));
    }
    assert(a@.take(i as int) == a@);
    assert(b@.take(i as int) == b@);
    true
}

/// Tells whether two strings hold the same text.
pub fn str_equal(a: &str, b: &str) -> (r: bool)
    ensures
        r == (a@ == b@),
{
    let x = to_chars(a);
    let y = to_chars(b);
    chars_equal(&x, &y)
}

/// `s` without its leading whitespace.
pub open spec fn trim_start(s: Seq<char>) -> Seq<char>
    decreases s.len(),
{
    if s.len() > 0 && is_whitespace_char(s[0]) {
        trim_start(s.drop_first())
    } else {
        s
    }
}

/// `s` without its trailing whitespace.
pub open spec fn trim_end(s: Seq<char>) -> Seq<char>
    decreases s.len(),
{
    if s.len() > 0 && is_whitespace_char(s.last()) {
        trim_end(s.drop_last())
    } else {
        s
    }
}

/// `s` without its leading and trailing whitespace.
pub open spec fn trimmed(s: Seq<char>) -> Seq<char> {
    trim_end(trim_start(s))
}

/// The bounds `(from, to)` of the trimmed part of `chars[lo..hi]`.
pub(crate) fn trim_bounds(chars: &Vec<char>, lo: usize, hi: usize) -> (r: (usize, usize))
    requires
        lo <= hi <= chars.len(),
    ensures
        lo <= r.0 <= r.1 <= hi,
        chars@.subrange(r.0 as int, r.1 as int) == trimmed(chars@.subrange(lo as int, hi as int)),
{
    let mut from: usize = lo;
    while from < hi && is_whitespace(chars[from])
        invariant
            lo <= from <= hi <= chars.len(),
            trim_start(chars@.subrange(lo as int, hi as int)) == trim_start(
                chars@.subrange(from as int, hi as int),
            ),
        decreases hi - from,
    {
        assert(chars@.subrange(from as int, hi as int).drop_first() == chars@.subrange(
            from + 1,
            hi as int,
        ));
        from += 1;
    }
    assert(trim_start(chars@.subrange(from as int, hi as int)) == chars@.subrange(
        from as int,
        hi as int,
    ));
    let mut to: usize = hi;
    while from < to && is_whitespace(chars[to - 1])
        invariant
            lo <= from <= to <= hi <= chars.len(),
            trimmed(chars@.subrange(lo as int, hi as int)) == trim_end(
                chars@.subrange(from as int, to as int),
            ),
        decreases to - from,
    {
        assert(chars@.subrange(from as int, to as int).drop_last() == chars@.subrange(
            from as int,
            to - 1,
        ));
        to -= 1;
    }
    (from, to)
}

} // verus!
