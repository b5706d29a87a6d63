//! The entry of a chat template that stands for a list of earlier messages.

use vstd::prelude::*;
use vstd::std_specs::convert::TryFromSpecImpl;
use crate::placeholder::{extract_placeholder_variable, placeholder_variable};
use crate::template_format::{TemplateError, TemplateErrorView};

verus! {

/// Names the variable that holds a serialised list of messages, says whether
/// the list may be left out, and how many of its messages are wanted.
#[derive(Debug)]
pub struct MessagesPlaceholder {
    variable_name: String,
    optional: bool,
    n_messages: usize,
}

/// A `MessagesPlaceholder` with its name as a character sequence.
pub struct MessagesPlaceholderView {
    pub variable_name: Seq<char>,
    pub optional: bool,
    pub n_messages: nat,
}

impl View for MessagesPlaceholder {
    type V = MessagesPlaceholderView;

    closed spec fn view(&self) -> MessagesPlaceholderView {
        MessagesPlaceholderView {
            variable_name: self.variable_name@,
            optional: self.optional,
            n_messages: self.n_messages as nat,
        }
    }
}

/// The placeholder that a template string gives: the variable it names,
/// required, with the default limit.
pub open spec fn default_placeholder(name: Seq<char>) -> MessagesPlaceholderView {
    MessagesPlaceholderView {
        variable_name: name,
        optional: false,
        n_messages: MessagesPlaceholder::DEFAULT_LIMIT as nat,
    }
}

/// The outcome of reading a template string as a placeholder.
pub open spec fn placeholder_from_template(template: Seq<char>) -> Result<
    MessagesPlaceholderView,
    TemplateErrorView,
> {
    match placeholder_variable(template) {
        Some(name) => Ok(default_placeholder(name)),
        None => Err(TemplateErrorView::MalformedTemplate(template)),
    }
}

/// The view of the outcome of reading a placeholder.
pub open spec fn placeholder_result_view(r: Result<MessagesPlaceholder, TemplateError>) -> Result<
    MessagesPlaceholderView,
    TemplateErrorView,
> {
    match r {
        Ok(p) => Ok(p@),
        Err(e) => Err(e@),
    }
}

impl MessagesPlaceholder {
    /// How many messages a placeholder asks for unless it is told otherwise.
    pub const DEFAULT_LIMIT: usize = 1000;

    /// A required placeholder for `variable_name` with the default limit.
    pub fn new(variable_name: String) -> (r: Self)
        ensures
            r@ == default_placeholder(variable_name@),
    {
        MessagesPlaceholder { variable_name, optional: false, n_messages: Self::DEFAULT_LIMIT }
    }

    /// A placeholder for `variable_name`. A limit of zero asks for the whole
    /// list.
    pub fn with_options(variable_name: String, optional: bool, n_messages: usize) -> (r: Self)
        ensures
            r@ == (MessagesPlaceholderView {
                variable_name: variable_name@,
                optional,
                n_messages: n_messages as nat,
            }),
    {
        MessagesPlaceholder { variable_name, optional, n_messages }
    }

    /// The variable that holds the messages.
    pub fn variable_name(&self) -> (r: &str)
        ensures
            r@ == self@.variable_name,
    {
        self.variable_name.as_str()
    }

    /// Whether the messages may be left out.
    pub fn optional(&self) -> (r: bool)
        ensures
            r == self@.optional,
    {
        self.optional
    }

    /// How many messages are wanted; zero for all of them.
    pub fn n_messages(&self) -> (r: usize)
        ensures
            r == self@.n_messages,
    {
        self.n_messages
    }

    /// Reads `template` as a placeholder: it must be nothing but one
    /// reference, `{name}` or `{{name}}`, to a valid variable name.
    pub fn from_template(template: &str) -> (r: Result<Self, TemplateError>)
        ensures
            placeholder_result_view(r) == placeholder_from_template(template@),
    {
        match extract_placeholder_variable(template) {
            Ok(name) => Ok(MessagesPlaceholder::new(name)),
            Err(e) => Err(e),
        }
    }
}

impl Clone for MessagesPlaceholder {
    fn clone(&self) -> (r: Self)
        ensures
            r@ == self@,
    {
        MessagesPlaceholder {
            variable_name: self.variable_name.clone(),
            optional: self.optional,
            n_messages: self.n_messages,
        }
    }
}

impl<'a> TryFrom<&'a str> for MessagesPlaceholder {
    type Error = TemplateError;

    fn try_from(template: &'a str) -> (r: Result<Self, TemplateError>)
        ensures
            placeholder_result_view(r) == placeholder_from_template(template@),
    {
        MessagesPlaceholder::from_template(template)
    }
}

// The contract of the operation stands on the function itself, over views:
// this trait states results by equality, which owned strings do not have.
impl<'a> TryFromSpecImpl<&'a str> for MessagesPlaceholder {
    open spec fn obeys_try_from_spec() -> bool {
        false
    }

    open spec fn try_from_spec(template: &'a str) -> Result<Self, TemplateError> {
        arbitrary()
    }
}

} // verus!
