//! A chat template built from borrowed template strings.

use vstd::prelude::*;
use vstd::std_specs::ops::AddSpecImpl;
use crate::chat_template::render_entries;
use crate::message::Message;
use crate::message_like::{
    build_entries, concatenate, entries_from, entry_views, messages_result_view, pair_views,
    rendered_entries, MessageLike, MessageLikeView,
};
use crate::role::Role;
use crate::template_format::{TemplateError, TemplateErrorView};
use crate::vars::Vars;

verus! {

/// An ordered list of chat entries.
#[derive(Debug)]
pub struct ChatPromptTemplate {
    pub messages: Vec<MessageLike>,
}

impl View for ChatPromptTemplate {
    type V = Seq<MessageLikeView>;

    open spec fn view(&self) -> Seq<MessageLikeView> {
        entry_views(self.messages@)
    }
}

/// The view of the outcome of building a chat prompt template.
pub open spec fn chat_prompt_result_view(r: Result<ChatPromptTemplate, TemplateError>) -> Result<
    Seq<MessageLikeView>,
    TemplateErrorView,
> {
    match r {
        Ok(chat) => Ok(chat@),
        Err(e) => Err(e@),
    }
}

impl ChatPromptTemplate {
    /// Builds the entries of a chat from pairs of a role and a template
    /// string, in order. The first pair that gives no entry fails the whole
    /// construction with its error.
    pub fn from_messages(messages: &[(Role, &str)]) -> (r: Result<Self, TemplateError>)
        ensures
            chat_prompt_result_view(r) == entries_from(pair_views(messages@)),
    {
        match build_entries(messages) {
            Ok(entries) => Ok(ChatPromptTemplate { messages: entries }),
            Err(e) => Err(e),
        }
    }

    /// Renders the chat with `variables`; the same as `format_messages`.
    pub fn invoke(&self, variables: &Vars) -> (r: Result<Vec<Message>, TemplateError>)
        ensures
            messages_result_view(r) == rendered_entries(self@, variables@),
    {
        self.format_messages(variables)
    }

    /// Renders every entry with `variables` and gathers the messages in the
    /// order of the entries. The first entry that fails makes the whole
    /// rendering fail with its error.
    pub fn format_messages(&self, variables: &Vars) -> (r: Result<Vec<Message>, TemplateError>)
        ensures
            messages_result_view(r) == rendered_entries(self@, variables@),
    {
        render_entries(&self.messages, variables)
    }
}

impl core::ops::Add for ChatPromptTemplate {
    type Output = ChatPromptTemplate;

    fn add(self, other: ChatPromptTemplate) -> (r: ChatPromptTemplate)
        ensures
            r@ == self@ + other@,
    {
        ChatPromptTemplate { messages: concatenate(self.messages, other.messages) }
    }
}

// The contract of the operation stands on the function itself, over views:
// this trait states results by equality, which owned strings do not have.
impl AddSpecImpl for ChatPromptTemplate {
    open spec fn obeys_add_spec() -> bool {
        false
    }

    open spec fn add_req(self, other: ChatPromptTemplate) -> bool {
        true
    }

    open spec fn add_spec(self, other: ChatPromptTemplate) -> ChatPromptTemplate {
        arbitrary()
    }
}

} // verus!
