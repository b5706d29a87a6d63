//! Template formats, the errors of this library, and the classifier that
//! decides which format a template string is written in.

use vstd::prelude::*;
use crate::braces::{
    brace_free, count_char, double_spans_from, is_brace, lemma_one_style_is_balanced,
    multiple_words_between_braces, multiple_words_between_braces_in, no_braces_in, occurrences,
    only_double_braces, only_double_braces_in, only_single_braces, only_single_braces_in,
    single_spans_from, DoubleScan,
};
use crate::text::{str_equal, to_chars};
use crate::vars::Vars;
use handlebars::RenderError;
use vstd::std_specs::convert::FromSpecImpl;
use vstd::std_specs::convert::TryFromSpecImpl;
use vstd::string::*;

verus! {

/// The error type of the rendering engine, `handlebars::RenderError`.
#[verifier::external_type_specification]
#[verifier::external_body]
pub struct ExRenderError(RenderError);

/// The error type of the TOML reader, `toml::de::Error`.
#[verifier::external_type_specification]
#[verifier::external_body]
pub struct ExTomlError(toml::de::Error);

/// What can go wrong while a template is built or rendered.
#[derive(Debug)]
pub enum TemplateError {
    /// Unbalanced braces, or a placeholder that is not one bare variable.
    MalformedTemplate(String),
    /// Balanced braces in a form that is neither of the two styles.
    UnsupportedFormat(String),
    /// A variable that the template refers to has no value.
    MissingVariable(String),
    /// The rendering engine failed; the error is the engine's own.
    RuntimeError(RenderError),
    /// A role that cannot produce a message by itself.
    InvalidRoleError,
    /// A TOML document could not be read; the text is the reader's message.
    TomlDeserializationError(String),
}

/// A `TemplateError` with its texts as character sequences. Of an engine
/// failure only the kind is kept.
pub enum TemplateErrorView {
    MalformedTemplate(Seq<char>),
    UnsupportedFormat(Seq<char>),
    MissingVariable(Seq<char>),
    RuntimeError,
    InvalidRoleError,
    TomlDeserializationError(Seq<char>),
}

impl View for TemplateError {
    type V = TemplateErrorView;

    open spec fn view(&self) -> TemplateErrorView {
        match *self {
            TemplateError::MalformedTemplate(m) => TemplateErrorView::MalformedTemplate(m@),
            TemplateError::UnsupportedFormat(m) => TemplateErrorView::UnsupportedFormat(m@),
            TemplateError::MissingVariable(m) => TemplateErrorView::MissingVariable(m@),
            TemplateError::RuntimeError(_) => TemplateErrorView::RuntimeError,
            TemplateError::InvalidRoleError => TemplateErrorView::InvalidRoleError,
            TemplateError::TomlDeserializationError(m) => TemplateErrorView::TomlDeserializationError(
                m@,
            ),
        }
    }
}

/// Two errors are of the same kind and carry the same text; what the engine
/// says of its failure is not compared.
pub open spec fn errors_match(a: TemplateErrorView, b: TemplateErrorView) -> bool {
    match (a, b) {
        (TemplateErrorView::MissingVariable(x), TemplateErrorView::MissingVariable(y)) => x == y,
        (TemplateErrorView::MalformedTemplate(x), TemplateErrorView::MalformedTemplate(y)) => x
            == y,
        (TemplateErrorView::UnsupportedFormat(x), TemplateErrorView::UnsupportedFormat(y)) => x
            == y,
        (TemplateErrorView::RuntimeError, TemplateErrorView::RuntimeError) => true,
        (TemplateErrorView::InvalidRoleError, TemplateErrorView::InvalidRoleError) => true,
        (
            TemplateErrorView::TomlDeserializationError(x),
            TemplateErrorView::TomlDeserializationError(y),
        ) => x == y,
        _ => false,
    }
}

impl TemplateError {
    /// Tells whether `self` and `other` are the same error.
    pub fn matches(&self, other: &TemplateError) -> (r: bool)
        ensures
            r == errors_match(self@, other@),
    {
        match (self, other) {
            (TemplateError::MissingVariable(a), TemplateError::MissingVariable(b)) => str_equal(
                a.as_str(),
                b.as_str(),
            ),
            (TemplateError::MalformedTemplate(a), TemplateError::MalformedTemplate(b)) => str_equal(
                a.as_str(),
                b.as_str(),
            ),
            (TemplateError::UnsupportedFormat(a), TemplateError::UnsupportedFormat(b)) => str_equal(
                a.as_str(),
                b.as_str(),
            ),
            (TemplateError::RuntimeError(_), TemplateError::RuntimeError(_)) => true,
            (TemplateError::InvalidRoleError, TemplateError::InvalidRoleError) => true,
            (
                TemplateError::TomlDeserializationError(a),
                TemplateError::TomlDeserializationError(b),
            ) => str_equal(a.as_str(), b.as_str()),
            _ => false,
        }
    }
}

/// The text of an engine failure, as `handlebars::RenderError` displays it.
/// Nothing is claimed of the text.
#[verifier::external_body]
fn render_error_message(err: &RenderError) -> (text: String) {
    err.to_string()
}

/// The text of a failed TOML read, as `toml::de::Error` displays it. Nothing
/// is claimed of the text.
#[verifier::external_body]
fn toml_error_message(err: &toml::de::Error) -> (text: String) {
    err.to_string()
}

/// What introduces the message of each kind of error.
pub open spec fn message_prefix(e: TemplateErrorView) -> Seq<char> {
    match e {
        TemplateErrorView::MalformedTemplate(_) => "Malformed template: "@,
        TemplateErrorView::UnsupportedFormat(_) => "Unsupported format: "@,
        TemplateErrorView::MissingVariable(_) => "Missing variable: "@,
        TemplateErrorView::RuntimeError => "Render error: "@,
        TemplateErrorView::InvalidRoleError => "Invalid role error"@,
        TemplateErrorView::TomlDeserializationError(_) => "TOML deserialization error: "@,
    }
}

/// The text that an error carries; none for an invalid role, and for an
/// engine failure none that this library knows.
pub open spec fn message_detail(e: TemplateErrorView) -> Option<Seq<char>> {
    match e {
        TemplateErrorView::MalformedTemplate(m) => Some(m),
        TemplateErrorView::UnsupportedFormat(m) => Some(m),
        TemplateErrorView::MissingVariable(m) => Some(m),
        TemplateErrorView::RuntimeError => None,
        TemplateErrorView::InvalidRoleError => Some(Seq::empty()),
        TemplateErrorView::TomlDeserializationError(m) => Some(m),
    }
}

impl TemplateError {
    /// The message of the error: what introduces its kind, and then the text
    /// it carries. For an engine failure the text is the engine's.
    pub fn message(&self) -> (text: String)
        ensures
            message_prefix(self@).is_prefix_of(text@),
            message_detail(self@) matches Some(detail) ==> text@ == message_prefix(self@)
                + detail,
    {
        match self {
            TemplateError::MalformedTemplate(msg) => {
                let mut text = "Malformed template: ".to_owned();
                text.append(msg.as_str());
                text
            },
            TemplateError::UnsupportedFormat(msg) => {
                let mut text = "Unsupported format: ".to_owned();
                text.append(msg.as_str());
                text
            },
            TemplateError::MissingVariable(msg) => {
                let mut text = "Missing variable: ".to_owned();
                text.append(msg.as_str());
                text
            },
            TemplateError::RuntimeError(err) => {
                let mut text = "Render error: ".to_owned();
                let detail = render_error_message(err);
                text.append(detail.as_str());
                text
            },
            TemplateError::InvalidRoleError => {
                let text = "Invalid role error".to_owned();
                assert(text@ + Seq::<char>::empty() == text@);
                text
            },
            TemplateError::TomlDeserializationError(msg) => {
                let mut text = "TOML deserialization error: ".to_owned();
                text.append(msg.as_str());
                text
            },
        }
    }
}

impl From<RenderError> for TemplateError {
    fn from(err: RenderError) -> (r: TemplateError)
    {
        TemplateError::RuntimeError(err)
    }
}

impl FromSpecImpl<RenderError> for TemplateError {
    open spec fn obeys_from_spec() -> bool {
        true
    }

    open spec fn from_spec(err: RenderError) -> TemplateError {
        TemplateError::RuntimeError(err)
    }
}

impl From<toml::de::Error> for TemplateError {
    fn from(err: toml::de::Error) -> (r: TemplateError)
        ensures
            r is TomlDeserializationError,
    {
        TemplateError::TomlDeserializationError(toml_error_message(&err))
    }
}

// The contract of the operation stands on the function itself, over views:
// this trait states results by equality, which owned strings do not have.
impl FromSpecImpl<toml::de::Error> for TemplateError {
    open spec fn obeys_from_spec() -> bool {
        false
    }

    open spec fn from_spec(err: toml::de::Error) -> TemplateError {
        arbitrary()
    }
}

/// The syntax a template is written in.
#[derive(Debug, Clone, Copy, PartialEq, Eq, Structural)]
pub enum TemplateFormat {
    /// No placeholder at all.
    PlainText,
    /// Placeholders in single braces, `{name}`.
    FmtString,
    /// Placeholders in double braces, `{{name}}`.
    Mustache,
}

/// `s` has no placeholder: it holds no brace.
pub open spec fn plain_text(s: Seq<char>) -> bool {
    brace_free(s)
}

/// `s` is written in the double-brace style, one word in each span.
pub open spec fn mustache(s: Seq<char>) -> bool {
    only_double_braces(s) && !multiple_words_between_braces(s)
}

/// `s` is written in the single-brace style, one word in each span.
pub open spec fn fmtstring(s: Seq<char>) -> bool {
    only_single_braces(s) && !multiple_words_between_braces(s)
}

/// `s` has as many `{` as `}`.
pub open spec fn balanced(s: Seq<char>) -> bool {
    occurrences(s, '{') == occurrences(s, '}')
}

/// `s` has no brace, or balanced braces that all follow one style.
pub open spec fn valid_template(s: Seq<char>) -> bool {
    brace_free(s) || (balanced(s) && (only_double_braces(s) || only_single_braces(s)))
}

/// The format of `s`, or why it has none: unbalanced braces make it
/// malformed whatever else holds; balanced braces that follow neither style,
/// or hold several words in a span, make it unsupported.
pub open spec fn classify(s: Seq<char>) -> Result<TemplateFormat, TemplateErrorView> {
    if !balanced(s) {
        Err(TemplateErrorView::MalformedTemplate("Malformed template"@))
    } else if plain_text(s) {
        Ok(TemplateFormat::PlainText)
    } else if mustache(s) {
        Ok(TemplateFormat::Mustache)
    } else if fmtstring(s) {
        Ok(TemplateFormat::FmtString)
    } else {
        Err(TemplateErrorView::UnsupportedFormat("Unsupported template format"@))
    }
}

/// The format that `detect_template` finds in `s`, if any; balance is not
/// looked at.
pub open spec fn detected_format(s: Seq<char>) -> Option<TemplateFormat> {
    if plain_text(s) {
        Some(TemplateFormat::PlainText)
    } else if mustache(s) {
        Some(TemplateFormat::Mustache)
    } else if fmtstring(s) {
        Some(TemplateFormat::FmtString)
    } else {
        None
    }
}

/// The view of a classification result.
pub open spec fn format_result_view(r: Result<TemplateFormat, TemplateError>) -> Result<
    TemplateFormat,
    TemplateErrorView,
> {
    match r {
        Ok(f) => Ok(f),
        Err(e) => Err(e@),
    }
}

impl TemplateFormat {
    /// The name of the format.
    pub fn as_str(&self) -> (r: &'static str)
        ensures
            r@ == match *self {
                TemplateFormat::FmtString => "FmtString"@,
                TemplateFormat::Mustache => "Mustache"@,
                TemplateFormat::PlainText => "PlainText"@,
            },
    {
        match self {
            TemplateFormat::FmtString => "FmtString",
            TemplateFormat::Mustache => "Mustache",
            TemplateFormat::PlainText => "PlainText",
        }
    }

    /// Classifies `template`.
    pub fn from_template(template: &str) -> (r: Result<Self, TemplateError>)
        ensures
            format_result_view(r) == classify(template@),
    {
        let chars = to_chars(template);
        if count_char(&chars, '{') != count_char(&chars, '}') {
            return Err(TemplateError::MalformedTemplate("Malformed template".to_owned()));
        }
        if no_braces_in(&chars) {
            return Ok(TemplateFormat::PlainText);
        }
        let one_word = !multiple_words_between_braces_in(&chars);
        if one_word && only_double_braces_in(&chars) {
            Ok(TemplateFormat::Mustache)
        } else if one_word && only_single_braces_in(&chars) {
            Ok(TemplateFormat::FmtString)
        } else {
            Err(TemplateError::UnsupportedFormat("Unsupported template format".to_owned()))
        }
    }
}

/// `s` in lower case, as `str::to_lowercase` gives it.
pub uninterp spec fn lowercased(s: Seq<char>) -> Seq<char>;

/// Puts `s` in lower case with `str::to_lowercase`.
#[verifier::external_body]
fn lowercase(s: &str) -> (lower: String)
    ensures
        lower@ == lowercased(s@),
{
    s.to_lowercase()
}

/// The format that a name in lower case stands for.
pub open spec fn format_named(lower: Seq<char>) -> Result<TemplateFormat, TemplateErrorView> {
    if lower == "fmtstring"@ {
        Ok(TemplateFormat::FmtString)
    } else if lower == "mustache"@ {
        Ok(TemplateFormat::Mustache)
    } else if lower == "plaintext"@ {
        Ok(TemplateFormat::PlainText)
    } else {
        Err(TemplateErrorView::UnsupportedFormat("Unsupported template format"@))
    }
}

impl TemplateFormat {
    /// The format that `lower`, a name in lower case, stands for.
    pub fn from_lowercase_name(lower: &str) -> (r: Result<Self, TemplateError>)
        ensures
            format_result_view(r) == format_named(lower@),
    {
        if str_equal(lower, "fmtstring") {
            Ok(TemplateFormat::FmtString)
        } else if str_equal(lower, "mustache") {
            Ok(TemplateFormat::Mustache)
        } else if str_equal(lower, "plaintext") {
            Ok(TemplateFormat::PlainText)
        } else {
            Err(TemplateError::UnsupportedFormat("Unsupported template format".to_owned()))
        }
    }
}

impl<'a> TryFrom<&'a str> for TemplateFormat {
    type Error = TemplateError;

    /// The format that `s` names, whatever the case of its letters.
    fn try_from(s: &'a str) -> (r: Result<Self, TemplateError>)
        ensures
            format_result_view(r) == format_named(lowercased(s@)),
    {
        let lower = lowercase(s);
        TemplateFormat::from_lowercase_name(lower.as_str())
    }
}

// The contract of the operation stands on the function itself, over views:
// this trait states results by equality, which owned strings do not have.
impl<'a> TryFromSpecImpl<&'a str> for TemplateFormat {
    open spec fn obeys_try_from_spec() -> bool {
        false
    }

    open spec fn try_from_spec(s: &'a str) -> Result<Self, TemplateError> {
        arbitrary()
    }
}

/// Tells whether `s` has no placeholder.
pub fn is_plain_text(s: &str) -> (r: bool)
    ensures
        r == plain_text(s@),
{
    let chars = to_chars(s);
    no_braces_in(&chars)
}

/// Tells whether `s` is written in the double-brace style.
pub fn is_mustache(s: &str) -> (r: bool)
    ensures
        r == mustache(s@),
{
    let chars = to_chars(s);
    only_double_braces_in(&chars) && !multiple_words_between_braces_in(&chars)
}

/// Tells whether `s` is written in the single-brace style.
pub fn is_fmtstring(s: &str) -> (r: bool)
    ensures
        r == fmtstring(s@),
{
    let chars = to_chars(s);
    only_single_braces_in(&chars) && !multiple_words_between_braces_in(&chars)
}

/// Tells whether `s` has no brace, or balanced braces of one style.
pub fn is_valid_template(s: &str) -> (r: bool)
    ensures
        r == valid_template(s@),
{
    let chars = to_chars(s);
    if no_braces_in(&chars) {
        return true;
    }
    count_char(&chars, '{') == count_char(&chars, '}') && (only_double_braces_in(&chars)
        || only_single_braces_in(&chars))
}

/// Accepts `s` if it is a valid template, and else reports it as malformed,
/// with `s` itself as the text of the error.
pub fn validate_template(s: &str) -> (r: Result<(), TemplateError>)
    ensures
        match r {
            Ok(_) => valid_template(s@),
            Err(e) => !valid_template(s@) && e@ == TemplateErrorView::MalformedTemplate(s@),
        },
{
    if !is_valid_template(s) {
        return Err(TemplateError::MalformedTemplate(s.to_owned()));
    }
    Ok(())
}

/// Finds the format of `s` from its braces alone, and reports `s` as
/// unsupported, with `s` itself as the text of the error, if it has none.
pub fn detect_template(s: &str) -> (r: Result<TemplateFormat, TemplateError>)
    ensures
        format_result_view(r) == match detected_format(s@) {
            Some(f) => Ok::<TemplateFormat, TemplateErrorView>(f),
            None => Err(TemplateErrorView::UnsupportedFormat(s@)),
        },
{
    let chars = to_chars(s);
    if no_braces_in(&chars) {
        return Ok(TemplateFormat::PlainText);
    }
    let one_word = !multiple_words_between_braces_in(&chars);
    if one_word && only_double_braces_in(&chars) {
        Ok(TemplateFormat::Mustache)
    } else if one_word && only_single_braces_in(&chars) {
        Ok(TemplateFormat::FmtString)
    } else {
        Err(TemplateError::UnsupportedFormat(s.to_owned()))
    }
}

/// A text without braces has no `{` and no `}` to count.
pub proof fn lemma_brace_free_counts(s: Seq<char>)
    requires
        brace_free(s),
    ensures
        occurrences(s, '{') == 0,
        occurrences(s, '}') == 0,
{
    vstd::seq_lib::to_multiset_contains(s, '{');
    vstd::seq_lib::to_multiset_contains(s, '}');
    if s.contains('{') {
        let i = choose|i: int| 0 <= i < s.len() && s[i] == '{';
        assert(is_brace(s[i]));
    }
    if s.contains('}') {
        let i = choose|i: int| 0 <= i < s.len() && s[i] == '}';
        assert(is_brace(s[i]));
    }
}

/// Every template without a brace is plain text.
pub proof fn lemma_no_braces_is_plain_text(s: Seq<char>)
    requires
        brace_free(s),
    ensures
        classify(s) == Ok::<TemplateFormat, TemplateErrorView>(TemplateFormat::PlainText),
{
    lemma_brace_free_counts(s);
}

/// A text that reads from `i` on both as single-brace spans and as
/// double-brace spans has no brace from `i` on.
proof fn lemma_both_styles_no_brace(s: Seq<char>, i: int)
    requires
        0 <= i,
        single_spans_from(s, i, false),
        double_spans_from(s, i, DoubleScan::Text),
    ensures
        forall|k: int| i <= k < s.len() ==> !is_brace(#[trigger] s[k]),
    decreases s.len() - i,
{
    if i < s.len() {
        if s[i] == '{' {
            assert(single_spans_from(s, i + 1, true));
            assert(double_spans_from(s, i + 1, DoubleScan::Opening));
            assert(false);
        } else {
            lemma_both_styles_no_brace(s, i + 1);
        }
    }
}

/// No template follows both brace styles: the two are mutually exclusive.
pub proof fn lemma_styles_exclusive(s: Seq<char>)
    ensures
        !(only_single_braces(s) && only_double_braces(s)),
        !(fmtstring(s) && mustache(s)),
{
    if single_spans_from(s, 0, false) && double_spans_from(s, 0, DoubleScan::Text) {
        lemma_both_styles_no_brace(s, 0);
        assert(brace_free(s));
    }
}

/// A template is classified as one style only if its braces follow that
/// style and not the other; braces that follow neither style, as where both
/// are mixed, never give a format.
pub proof fn lemma_classify_one_style(s: Seq<char>)
    ensures
        classify(s) == Ok::<TemplateFormat, TemplateErrorView>(TemplateFormat::Mustache)
            ==> only_double_braces(s) && !only_single_braces(s),
        classify(s) == Ok::<TemplateFormat, TemplateErrorView>(TemplateFormat::FmtString)
            ==> only_single_braces(s) && !only_double_braces(s),
        !brace_free(s) && !only_single_braces(s) && !only_double_braces(s) ==> (classify(s)
            matches Err(e) && (e is MalformedTemplate || e is UnsupportedFormat)),
{
    lemma_styles_exclusive(s);
}

/// A template has a format exactly where it is written in that format:
/// braces that follow one style are balanced, so that nothing else decides.
pub proof fn lemma_classify_by_style(s: Seq<char>)
    ensures
        classify(s) == Ok::<TemplateFormat, TemplateErrorView>(TemplateFormat::PlainText)
            <==> plain_text(s),
        classify(s) == Ok::<TemplateFormat, TemplateErrorView>(TemplateFormat::Mustache)
            <==> mustache(s),
        classify(s) == Ok::<TemplateFormat, TemplateErrorView>(TemplateFormat::FmtString)
            <==> fmtstring(s),
        valid_template(s) <==> brace_free(s) || only_double_braces(s) || only_single_braces(s),
{
    lemma_styles_exclusive(s);
    if brace_free(s) {
        lemma_brace_free_counts(s);
    }
    if only_single_braces(s) || only_double_braces(s) {
        lemma_one_style_is_balanced(s);
    }
}

/// Unbalanced braces make a template malformed, whatever its style.
pub proof fn lemma_unbalanced_is_malformed(s: Seq<char>)
    requires
        occurrences(s, '{') != occurrences(s, '}'),
    ensures
        classify(s) == Err::<TemplateFormat, TemplateErrorView>(
            TemplateErrorView::MalformedTemplate("Malformed template"@),
        ),
{
}

/// Puts the variables given at render time on top of those fixed beforehand:
/// where both bind a name, the render-time value stands.
pub fn merge_vars(partials: &Vars, runtime_vars: &Vars) -> (merged: Vars)
    ensures
        merged@ == partials@.union_prefer_right(runtime_vars@),
{
    partials.merged_with(runtime_vars)
}

} // verus!
