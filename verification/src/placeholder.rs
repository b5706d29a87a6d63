//! Variable references: which names a template refers to, and which
//! templates are nothing but one reference.

use vstd::prelude::*;
use vstd::string::*;
use crate::braces::{braced_stretch, is_brace};
use crate::template_format::{TemplateError, TemplateErrorView};
use crate::text::{to_chars, trim_bounds, trimmed};

verus! {

/// `c` is an ASCII letter or an underscore.
pub open spec fn is_identifier_start(c: char) -> bool {
    let n = c as u32;
    (0x41 <= n <= 0x5A) || (0x61 <= n <= 0x7A) || n == 0x5F
}

/// `c` is an ASCII letter, an ASCII digit or an underscore.
pub open spec fn is_identifier_char(c: char) -> bool {
    let n = c as u32;
    is_identifier_start(c) || (0x30 <= n <= 0x39)
}

/// `s` is a variable name: letters, digits and underscores, at least one of
/// them, and no digit in front.
pub open spec fn valid_identifier(s: Seq<char>) -> bool {
    &&& s.len() > 0
    &&& is_identifier_start(s[0])
    &&& forall|i: int| 0 <= i < s.len() ==> is_identifier_char(#[trigger] s[i])
}

/// The position of the last brace before position `n`, or -1 where there is
/// none.
pub open spec fn last_brace(s: Seq<char>, n: int) -> int
    decreases n,
{
    if n <= 0 {
        -1
    } else if is_brace(s[n - 1]) {
        n - 1
    } else {
        last_brace(s, n - 1)
    }
}

/// A reference closes at position `j`: a `}` whose nearest brace to the left
/// is a `{`.
pub open spec fn reference_closes_at(s: Seq<char>, j: int) -> bool {
    &&& 0 <= j < s.len()
    &&& s[j] == '}'
    &&& last_brace(s, j) >= 0
    &&& s[last_brace(s, j)] == '{'
}

/// The names referred to before position `n`, in the order in which their
/// references close. A name is what stands between the braces, without the
/// whitespace around it.
pub open spec fn names_before(s: Seq<char>, n: int) -> Seq<Seq<char>>
    decreases n,
{
    if n <= 0 {
        Seq::empty()
    } else if reference_closes_at(s, n - 1) {
        names_before(s, n - 1).push(trimmed(s.subrange(last_brace(s, n - 1) + 1, n - 1)))
    } else {
        names_before(s, n - 1)
    }
}

/// The names that `s` refers to, one for each reference, in order.
pub open spec fn referenced_names(s: Seq<char>) -> Seq<Seq<char>> {
    names_before(s, s.len() as int)
}

/// Every name of the list is a variable name.
pub open spec fn all_identifiers(names: Seq<Seq<char>>) -> bool {
    forall|i: int| 0 <= i < names.len() ==> valid_identifier(#[trigger] names[i])
}

/// Every reference of `s` is to a variable name, and to nothing else that
/// the braces could be made to hold.
pub open spec fn plain_references(s: Seq<char>) -> bool {
    all_identifiers(referenced_names(s))
}

/// The texts of a list of strings, in order.
pub open spec fn string_views(strings: Seq<String>) -> Seq<Seq<char>> {
    Seq::new(strings.len(), |i: int| strings[i]@)
}

/// `name` between single braces.
pub open spec fn in_single_braces(name: Seq<char>) -> Seq<char> {
    seq!['{'] + name + seq!['}']
}

/// `name` between double braces.
pub open spec fn in_double_braces(name: Seq<char>) -> Seq<char> {
    seq!['{', '{'] + name + seq!['}', '}']
}

/// The variable that `s` names, where `s` is nothing but one reference to a
/// valid variable name, in either brace style.
pub open spec fn placeholder_variable(s: Seq<char>) -> Option<Seq<char>> {
    if s.len() >= 4 && valid_identifier(s.subrange(2, s.len() - 2)) && s == in_double_braces(
        s.subrange(2, s.len() - 2),
    ) {
        Some(s.subrange(2, s.len() - 2))
    } else if s.len() >= 2 && valid_identifier(s.subrange(1, s.len() - 1)) && s
        == in_single_braces(s.subrange(1, s.len() - 1)) {
        Some(s.subrange(1, s.len() - 1))
    } else {
        None
    }
}

/// The last brace before position `n` is a brace, lies before `n`, and no
/// brace stands between it and `n`.
pub proof fn lemma_last_brace(s: Seq<char>, n: int)
    requires
        0 <= n <= s.len(),
    ensures
        -1 <= last_brace(s, n) < n,
        last_brace(s, n) >= 0 ==> is_brace(s[last_brace(s, n)]),
        forall|k: int| last_brace(s, n) < k < n ==> !is_brace(#[trigger] s[k]),
    decreases n,
{
    if n > 0 && !is_brace(s[n - 1]) {
        lemma_last_brace(s, n - 1);
    }
}

/// A reference closes at `j` exactly where a braced stretch ends at `j`, and
/// the stretch then opens at the nearest brace to the left of `j`.
pub proof fn lemma_reference_is_braced_stretch(s: Seq<char>, j: int)
    ensures
        reference_closes_at(s, j) <==> exists|i: int| braced_stretch(s, i, j),
        forall|i: int| braced_stretch(s, i, j) ==> i == last_brace(s, j),
{
    if 0 <= j < s.len() {
        lemma_last_brace(s, j);
        let o = last_brace(s, j);
        assert forall|i: int| braced_stretch(s, i, j) implies i == o by {
            let inner = s.subrange(i + 1, j);
            if i < o {
                assert(inner[o - i - 1] == s[o]);
            }
            if o < i {
                assert(is_brace(s[i]));
            }
        }
        if reference_closes_at(s, j) {
            let inner = s.subrange(o + 1, j);
            assert forall|k: int| 0 <= k < inner.len() implies !is_brace(#[trigger] inner[k]) by {
                assert(inner[k] == s[o + 1 + k]);
            }
            assert(braced_stretch(s, o, j));
        }
    }
}

/// Tells whether `chars[lo..hi]` is a variable name.
pub(crate) fn is_identifier_in(chars: &Vec<char>, lo: usize, hi: usize) -> (r: bool)
    requires
        lo <= hi <= chars.len(),
    ensures
        r == valid_identifier(chars@.subrange(lo as int, hi as int)),
{
    let ghost s = chars@.subrange(lo as int, hi as int);
    if lo == hi {
        return false;
    }
    let first: u32 = chars[lo] as u32;
    assert(s[0] == chars@[lo as int]);
    if !((0x41 <= first && first <= 0x5A) || (0x61 <= first && first <= 0x7A) || first == 0x5F) {
        return false;
    }
    let mut i: usize = lo;
    while i < hi
        invariant
            lo <= i <= hi <= chars.len(),
            s == chars@.subrange(lo as int, hi as int),
            forall|k: int| 0 <= k < i - lo ==> is_identifier_char(#[trigger] s[k]),
        decreases hi - i,
    {
        let n: u32 = chars[i] as u32;
        assert(s[i - lo] == chars@[i as int]);
        if !((0x41 <= n && n <= 0x5A) || (0x61 <= n && n <= 0x7A) || n == 0x5F || (0x30 <= n && n
            <= 0x39)) {
            return false;
        }
        i += 1;
    }
    true
}

/// Tells whether `s` is a variable name.
pub fn is_valid_identifier(s: &str) -> (r: bool)
    ensures
        r == valid_identifier(s@),
{
    let chars = to_chars(s);
    assert(chars@.subrange(0, chars@.len() as int) == chars@);
    is_identifier_in(&chars, 0, chars.len())
}

/// Tells whether every name of the list is a variable name.
pub fn are_identifiers(names: &Vec<String>) -> (r: bool)
    ensures
        r == all_identifiers(string_views(names@)),
{
    let mut i: usize = 0;
    while i < names.len()
        invariant
            i <= names@.len(),
            forall|k: int| 0 <= k < i ==> valid_identifier(#[trigger] string_views(names@)[k]),
        decreases names@.len() - i,
    {
        if !is_valid_identifier(names[i].as_str()) {
            assert(!valid_identifier(string_views(names@)[i as int]));
            return false;
        }
        i += 1;
    }
    true
}

/// Lists the names that `template` refers to, one for each reference, in
/// order.
pub fn extract_variables(template: &str) -> (names: Vec<String>)
    ensures
        string_views(names@) == referenced_names(template@),
{
    let chars = to_chars(template);
    let ghost s = chars@;
    let mut names: Vec<String> = Vec::new();
    let mut inside = false;
    let mut open: usize = 0;
    let mut i: usize = 0;
    assert(string_views(names@) == names_before(s, 0));
    while i < chars.len()
        invariant
            s == chars@,
            s == template@,
            i <= chars.len(),
            inside == (last_brace(s, i as int) >= 0 && s[last_brace(s, i as int)] == '{'),
            inside ==> open == last_brace(s, i as int),
            -1 <= last_brace(s, i as int) < i,
            string_views(names@) == names_before(s, i as int),
        decreases chars.len() - i,
    {
        let c = chars[i];
        if c == '{' {
            inside = true;
            open = i;
        } else if c == '}' {
            if inside {
                let bounds = trim_bounds(&chars, open + 1, i);
                let name = template.substring_char(bounds.0, bounds.1).to_owned();
                let ghost before = names@;
                names.push(name);
                assert(string_views(names@) == string_views(before).push(name@));
            }
            inside = false;
        }
        i += 1;
    }
    names
}

/// The variable that `template` names, where it is nothing but one
/// reference, `{name}` or `{{name}}`, to a valid variable name. Every other
/// template is reported as malformed, with the template as the text of the
/// error.
pub fn extract_placeholder_variable(template: &str) -> (r: Result<String, TemplateError>)
    ensures
        match r {
            Ok(name) => placeholder_variable(template@) == Some(name@),
            Err(e) => placeholder_variable(template@) is None && e@
                == TemplateErrorView::MalformedTemplate(template@),
        },
{
    let chars = to_chars(template);
    let n = chars.len();
    if n >= 4 && chars[0] == '{' && chars[1] == '{' && chars[n - 2] == '}' && chars[n - 1] == '}'
        && is_identifier_in(&chars, 2, n - 2) {
        assert(chars@ == in_double_braces(chars@.subrange(2, n - 2)));
        return Ok(template.substring_char(2, n - 2).to_owned());
    }
    if n >= 2 && chars[0] == '{' && chars[n - 1] == '}' && is_identifier_in(&chars, 1, n - 1) {
        assert(chars@ == in_single_braces(chars@.subrange(1, n - 1)));
        return Ok(template.substring_char(1, n - 1).to_owned());
    }
    proof {
        if n >= 4 && chars@ == in_double_braces(chars@.subrange(2, n - 2)) {
            assert(chars@[0] == '{' && chars@[1] == '{');
            assert(chars@[n - 2] == in_double_braces(chars@.subrange(2, n - 2))[n - 2]);
            assert(chars@[n - 1] == in_double_braces(chars@.subrange(2, n - 2))[n - 1]);
        }
        if n >= 2 && chars@ == in_single_braces(chars@.subrange(1, n - 1)) {
            assert(chars@[0] == '{');
            assert(chars@[n - 1] == in_single_braces(chars@.subrange(1, n - 1))[n - 1]);
        }
    }
    Err(TemplateError::MalformedTemplate(template.to_owned()))
}

} // verus!
