//! A template string together with its format, and how it is rendered.

use vstd::prelude::*;
use vstd::string::*;
use crate::braces::is_brace;
use crate::placeholder::{
    are_identifiers, extract_variables, last_brace, plain_references, reference_closes_at,
    referenced_names, string_views,
};
use crate::template_format::{classify, TemplateError, TemplateErrorView, TemplateFormat};
use crate::text::{to_chars, trim_bounds, trimmed};
use crate::vars::{bindings_map, distinct_names, Vars};
use handlebars::RenderError;

verus! {

/// A template string with the format it was classified as.
#[derive(Debug)]
pub struct Template {
    template: String,
    template_format: TemplateFormat,
}

/// A `Template` with its text as a character sequence.
pub struct TemplateView {
    pub text: Seq<char>,
    pub format: TemplateFormat,
}

impl View for Template {
    type V = TemplateView;

    closed spec fn view(&self) -> TemplateView {
        TemplateView { text: self.template@, format: self.template_format }
    }
}

/// The view of the outcome of building a template.
pub open spec fn template_result_view(r: Result<Template, TemplateError>) -> Result<
    TemplateView,
    TemplateErrorView,
> {
    match r {
        Ok(t) => Ok(t@),
        Err(e) => Err(e@),
    }
}

/// The outcome of building a template from `text`.
pub open spec fn template_from(text: Seq<char>) -> Result<TemplateView, TemplateErrorView> {
    match classify(text) {
        Ok(format) => Ok(TemplateView { text, format }),
        Err(e) => Err(e),
    }
}

/// The first of `names` that `vars` gives no value, if there is one.
pub open spec fn first_missing(names: Seq<Seq<char>>, vars: Map<Seq<char>, Seq<char>>) -> Option<
    Seq<char>,
>
    decreases names.len(),
{
    if names.len() == 0 {
        None
    } else {
        match first_missing(names.drop_last(), vars) {
            Some(name) => Some(name),
            None => if vars.contains_key(names.last()) {
                None
            } else {
                Some(names.last())
            },
        }
    }
}

/// The value that `vars` gives `name`; the empty text where it gives none.
pub open spec fn value_of(vars: Map<Seq<char>, Seq<char>>, name: Seq<char>) -> Seq<char> {
    if vars.contains_key(name) {
        vars[name]
    } else {
        Seq::empty()
    }
}

/// Position `j` of `s` lies outside every reference: the nearest brace to
/// its left, if there is one, is no `{`.
pub open spec fn outside_braces(s: Seq<char>, j: int) -> bool {
    !(last_brace(s, j) >= 0 && s[last_brace(s, j)] == '{')
}

/// What the first `n` characters of `s` render to: a character outside the
/// braces stands for itself, the `}` that closes a reference stands for the
/// value of the name referred to, and nothing else is kept.
pub open spec fn substituted_before(s: Seq<char>, vars: Map<Seq<char>, Seq<char>>, n: int) -> Seq<
    char,
>
    decreases n,
{
    if n <= 0 {
        Seq::empty()
    } else {
        let j = n - 1;
        let before = substituted_before(s, vars, j);
        if reference_closes_at(s, j) {
            before + value_of(vars, trimmed(s.subrange(last_brace(s, j) + 1, j)))
        } else if !is_brace(s[j]) && outside_braces(s, j) {
            before.push(s[j])
        } else {
            before
        }
    }
}

/// `s` with each reference `{name}` replaced by the value of `name`.
pub open spec fn substituted(s: Seq<char>, vars: Map<Seq<char>, Seq<char>>) -> Seq<char> {
    substituted_before(s, vars, s.len() as int)
}

/// What the rendering engine makes of a double-brace template and a set of
/// variables: the rendered text, or nothing where the engine fails.
pub uninterp spec fn mustache_rendering(
    template: Seq<char>,
    vars: Map<Seq<char>, Seq<char>>,
) -> Option<Seq<char>>;

/// The text that the engine gave, if it gave one.
pub open spec fn engine_result_view(r: Result<String, RenderError>) -> Option<Seq<char>> {
    match r {
        Ok(s) => Some(s@),
        Err(_) => None,
    }
}

/// The view of the outcome of rendering a template.
pub open spec fn render_result_view(r: Result<String, TemplateError>) -> Result<
    Seq<char>,
    TemplateErrorView,
> {
    match r {
        Ok(s) => Ok(s@),
        Err(e) => Err(e@),
    }
}

/// What the engine's outcome means to a caller of this library.
pub open spec fn engine_outcome(engine: Option<Seq<char>>) -> Result<
    Seq<char>,
    TemplateErrorView,
> {
    match engine {
        Some(text) => Ok(text),
        None => Err(TemplateErrorView::RuntimeError),
    }
}

/// What `template` renders to with `vars`, where `engine` is what the
/// rendering engine makes of the two. Plain text renders to itself. In the
/// double-brace style every reference must be to a variable name: a template
/// with any other reference is unsupported. For the two brace styles every
/// name referred to must have a value: the first that has none is reported as
/// missing.
pub open spec fn rendered_text(
    template: TemplateView,
    vars: Map<Seq<char>, Seq<char>>,
    engine: Option<Seq<char>>,
) -> Result<Seq<char>, TemplateErrorView> {
    match template.format {
        TemplateFormat::PlainText => Ok(template.text),
        TemplateFormat::FmtString => match first_missing(referenced_names(template.text), vars) {
            Some(name) => Err(TemplateErrorView::MissingVariable(name)),
            None => Ok(substituted(template.text, vars)),
        },
        TemplateFormat::Mustache => if !plain_references(template.text) {
            Err(TemplateErrorView::UnsupportedFormat("Unsupported template format"@))
        } else {
            match first_missing(referenced_names(template.text), vars) {
                Some(name) => Err(TemplateErrorView::MissingVariable(name)),
                None => engine_outcome(engine),
            }
        },
    }
}

/// Renders a double-brace template with `handlebars::Handlebars::render_template`,
/// on a registry that holds nothing, with the bindings as the data. The
/// template refers to variable names only, so that the engine has values to
/// put in and nothing to expand, and no name is bound twice. The outcome is
/// the engine's: whether it succeeds, and the text it gives, depend on the
/// template and on the values of the variables alone.
#[verifier::external_body]
fn render_mustache(template: &str, bindings: &Vec<(String, String)>) -> (r: Result<
    String,
    RenderError,
>)
    requires
        plain_references(template@),
        distinct_names(bindings@),
    ensures
        engine_result_view(r) == mustache_rendering(template@, bindings_map(bindings@)),
{
    let mut data = std::collections::BTreeMap::new();
    for binding in bindings.iter() {
        data.insert(binding.0.as_str(), binding.1.as_str());
    }
    handlebars::Handlebars::new().render_template(template, &data)
}

/// The first of `names` that `vars` gives no value, if there is one.
pub fn find_missing(names: &Vec<String>, vars: &Vars) -> (r: Option<String>)
    ensures
        match r {
            Some(name) => first_missing(string_views(names@), vars@) == Some(name@),
            None => first_missing(string_views(names@), vars@) is None,
        },
{
    let ghost views = string_views(names@);
    let mut i: usize = 0;
    while i < names.len()
        invariant
            i <= names@.len(),
            views == string_views(names@),
            first_missing(views.take(i as int), vars@) is None,
        decreases names@.len() - i,
    {
        assert(views.take(i + 1).drop_last() == views.take(i as int));
        if !vars.contains_key(names[i].as_str()) {
            proof {
                lemma_first_missing_stays(views, vars@, i + 1, views.len() as int);
                assert(views.take(views.len() as int) == views);
            }
            return Some(names[i].clone());
        }
        i += 1;
    }
    assert(views.take(i as int) == views);
    None
}

/// A name found missing among the first `n` names is the one found missing
/// among the first `m`, for every `m` from `n` on.
proof fn lemma_first_missing_stays(
    names: Seq<Seq<char>>,
    vars: Map<Seq<char>, Seq<char>>,
    n: int,
    m: int,
)
    requires
        0 <= n <= m <= names.len(),
        first_missing(names.take(n), vars) is Some,
    ensures
        first_missing(names.take(m), vars) == first_missing(names.take(n), vars),
    decreases m - n,
{
    if n < m {
        lemma_first_missing_stays(names, vars, n, m - 1);
        assert(names.take(m).drop_last() == names.take(m - 1));
    }
}

/// Turns the engine's outcome into this library's: its text as it is, its
/// error as a runtime error that holds it.
pub fn from_engine(outcome: Result<String, RenderError>) -> (r: Result<String, TemplateError>)
    ensures
        render_result_view(r) == engine_outcome(engine_result_view(outcome)),
        outcome matches Ok(text) ==> r == Ok::<String, TemplateError>(text),
        outcome matches Err(err) ==> r == Err::<String, TemplateError>(
            TemplateError::RuntimeError(err),
        ),
{
    match outcome {
        Ok(text) => Ok(text),
        Err(err) => Err(TemplateError::from(err)),
    }
}

/// Replaces each reference `{name}` of `template` by the value that `vars`
/// gives `name`, and by nothing where it gives none.
pub fn substitute(template: &str, vars: &Vars) -> (out: String)
    ensures
        out@ == substituted(template@, vars@),
{
    let chars = to_chars(template);
    let ghost s = chars@;
    let mut out = String::new();
    let mut inside = false;
    let mut open: usize = 0;
    let mut chunk_start: usize = 0;
    let mut i: usize = 0;
    assert(s.subrange(0, 0) == Seq::<char>::empty());
    while i < chars.len()
        invariant
            s == chars@,
            s == template@,
            i <= chars.len(),
            -1 <= last_brace(s, i as int) < i,
            inside == (last_brace(s, i as int) >= 0 && s[last_brace(s, i as int)] == '{'),
            inside ==> open == last_brace(s, i as int),
            inside ==> out@ == substituted_before(s, vars@, i as int),
            !inside ==> chunk_start == last_brace(s, i as int) + 1,
            !inside ==> out@ + s.subrange(chunk_start as int, i as int) == substituted_before(
                s,
                vars@,
                i as int,
            ),
        decreases chars.len() - i,
    {
        let c = chars[i];
        if c == '{' {
            if !inside {
                out.append(template.substring_char(chunk_start, i));
            }
            inside = true;
            open = i;
        } else if c == '}' {
            if inside {
                let bounds = trim_bounds(&chars, open + 1, i);
                let name = template.substring_char(bounds.0, bounds.1);
                match vars.get(name) {
                    Some(value) => {
                        out.append(value);
                    },
                    None => {
                        assert(out@ + Seq::<char>::empty() == out@);
                    },
                }
            } else {
                out.append(template.substring_char(chunk_start, i));
            }
            inside = false;
            chunk_start = i + 1;
            assert(s.subrange(i + 1, i + 1) == Seq::<char>::empty());
            assert(out@ + Seq::<char>::empty() == out@);
        } else if !inside {
            assert(s.subrange(chunk_start as int, i + 1) == s.subrange(
                chunk_start as int,
                i as int,
            ).push(s[i as int]));
            assert(out@ + s.subrange(chunk_start as int, i as int).push(s[i as int]) == (out@
                + s.subrange(chunk_start as int, i as int)).push(s[i as int]));
        }
        i += 1;
    }
    if !inside {
        out.append(template.substring_char(chunk_start, i));
    }
    out
}

impl Template {
    /// Classifies `tmpl` and keeps it with its format. A string that has no
    /// format is refused with the classifier's error.
    pub fn new(tmpl: &str) -> (r: Result<Self, TemplateError>)
        ensures
            template_result_view(r) == template_from(tmpl@),
    {
        match TemplateFormat::from_template(tmpl) {
            Ok(template_format) => Ok(Template { template: tmpl.to_owned(), template_format }),
            Err(e) => Err(e),
        }
    }

    /// The same as `new`.
    pub fn from_template(tmpl: &str) -> (r: Result<Self, TemplateError>)
        ensures
            template_result_view(r) == template_from(tmpl@),
    {
        Template::new(tmpl)
    }

    /// The template string.
    pub fn template(&self) -> (r: &str)
        ensures
            r@ == self@.text,
    {
        self.template.as_str()
    }

    /// The format of the template string.
    pub fn template_format(&self) -> (r: TemplateFormat)
        ensures
            r == self@.format,
    {
        self.template_format
    }

    /// The names that the template refers to, one for each reference, in
    /// order.
    pub fn input_variables(&self) -> (names: Vec<String>)
        ensures
            string_views(names@) == referenced_names(self@.text),
    {
        extract_variables(self.template.as_str())
    }

    /// Renders the template with `variables`. A double-brace template is
    /// handed to the engine only where each of its references is to a
    /// variable name; any other is refused as unsupported.
    pub fn format(&self, variables: &Vars) -> (r: Result<String, TemplateError>)
        ensures
            render_result_view(r) == rendered_text(
                self@,
                variables@,
                mustache_rendering(self@.text, variables@),
            ),
    {
        match self.template_format {
            TemplateFormat::PlainText => Ok(self.template.clone()),
            TemplateFormat::FmtString => {
                let names = extract_variables(self.template.as_str());
                match find_missing(&names, variables) {
                    Some(name) => Err(TemplateError::MissingVariable(name)),
                    None => Ok(substitute(self.template.as_str(), variables)),
                }
            },
            TemplateFormat::Mustache => {
                let names = extract_variables(self.template.as_str());
                if !are_identifiers(&names) {
                    return Err(
                        TemplateError::UnsupportedFormat("Unsupported template format".to_owned()),
                    );
                }
                match find_missing(&names, variables) {
                    Some(name) => Err(TemplateError::MissingVariable(name)),
                    None => {
                        let bindings = variables.bindings();
                        from_engine(render_mustache(self.template.as_str(), &bindings))
                    },
                }
            },
        }
    }
}

impl Clone for Template {
    fn clone(&self) -> (r: Self)
        ensures
            r@ == self@,
    {
        Template { template: self.template.clone(), template_format: self.template_format }
    }
}

} // verus!
