//! A chat template: an ordered list of entries, built from roles and template
//! strings and rendered to a flat list of messages.

use vstd::prelude::*;
use vstd::string::*;
use vstd::std_specs::ops::AddSpecImpl;
use crate::message::{message_views, Message, MessageView};
use crate::message_like::{
    build_entries, concatenate, entries_from, entry_views, lemma_rendering_error_stays,
    messages_result_view, pair_views, rendered_entries, MessageLike, MessageLikeView,
};
use crate::role::Role;
use crate::template::render_result_view;
use crate::template_format::{TemplateError, TemplateErrorView};
use crate::vars::Vars;

verus! {

/// An ordered list of chat entries.
#[derive(Debug)]
pub struct ChatTemplate {
    pub messages: Vec<MessageLike>,
}

impl View for ChatTemplate {
    type V = Seq<MessageLikeView>;

    open spec fn view(&self) -> Seq<MessageLikeView> {
        entry_views(self.messages@)
    }
}

/// The roles and texts of a list of pairs of a role and an owned string.
pub open spec fn owned_pair_views(pairs: Seq<(Role, String)>) -> Seq<(Role, Seq<char>)> {
    Seq::new(pairs.len(), |i: int| (pairs[i].0, pairs[i].1@))
}

/// The view of the outcome of building a chat template.
pub open spec fn chat_result_view(r: Result<ChatTemplate, TemplateError>) -> Result<
    Seq<MessageLikeView>,
    TemplateErrorView,
> {
    match r {
        Ok(chat) => Ok(chat@),
        Err(e) => Err(e@),
    }
}

/// The contents of `messages`, one on each line.
pub open spec fn joined_contents(messages: Seq<MessageView>) -> Seq<char>
    decreases messages.len(),
{
    if messages.len() == 0 {
        Seq::empty()
    } else if messages.len() == 1 {
        messages[0].content
    } else {
        joined_contents(messages.drop_last()) + seq!['\n'] + messages.last().content
    }
}

/// What a chat template renders to as one text.
pub open spec fn rendered_chat_text(
    entries: Seq<MessageLikeView>,
    vars: Map<Seq<char>, Seq<char>>,
) -> Result<Seq<char>, TemplateErrorView> {
    match rendered_entries(entries, vars) {
        Ok(messages) => Ok(joined_contents(messages)),
        Err(e) => Err(e),
    }
}

/// Gathers the messages of all entries in order, and stops at the first
/// entry that fails.
pub fn render_entries(entries: &Vec<MessageLike>, variables: &Vars) -> (r: Result<
    Vec<Message>,
    TemplateError,
>)
    ensures
        messages_result_view(r) == rendered_entries(entry_views(entries@), variables@),
{
    let ghost views = entry_views(entries@);
    let mut out: Vec<Message> = Vec::new();
    let mut i: usize = 0;
    assert(message_views(out@) == Seq::<MessageView>::empty());
    while i < entries.len()
        invariant
            i <= entries@.len(),
            views == entry_views(entries@),
            rendered_entries(views.take(i as int), variables@) == Ok::<
                Seq<MessageView>,
                TemplateErrorView,
            >(message_views(out@)),
        decreases entries@.len() - i,
    {
        assert(views.take(i + 1).drop_last() == views.take(i as int));
        assert(views.take(i + 1).last() == entries@[i as int]@);
        match entries[i].render(variables) {
            Ok(mut more) => {
                let ghost before = out@;
                let ghost added = more@;
                out.append(&mut more);
                assert(message_views(out@) == message_views(before) + message_views(added));
            },
            Err(e) => {
                proof {
                    lemma_rendering_error_stays(views, variables@, i + 1, views.len() as int);
                    assert(views.take(views.len() as int) == views);
                }
                return Err(e);
            },
        }
        i += 1;
    }
    assert(views.take(i as int) == views);
    Ok(out)
}

impl ChatTemplate {
    /// Builds the entries of a chat from pairs of a role and a template
    /// string, in order. The first pair that gives no entry fails the whole
    /// construction with its error.
    pub fn from_messages(messages: Vec<(Role, String)>) -> (r: Result<Self, TemplateError>)
        ensures
            chat_result_view(r) == entries_from(owned_pair_views(messages@)),
    {
        let mut pairs: Vec<(Role, &str)> = Vec::new();
        let mut i: usize = 0;
        while i < messages.len()
            invariant
                i <= messages@.len(),
                pair_views(pairs@) == owned_pair_views(messages@).take(i as int),
            decreases messages@.len() - i,
        {
            let ghost before = pairs@;
            let text = messages[i].1.as_str();
            pairs.push((messages[i].0, text));
            assert(pair_views(pairs@) == pair_views(before).push((messages@[i as int].0, text@)));
            assert(owned_pair_views(messages@).take(i + 1) == owned_pair_views(messages@).take(
                i as int,
            ).push((messages@[i as int].0, messages@[i as int].1@)));
            i += 1;
        }
        assert(owned_pair_views(messages@).take(i as int) == owned_pair_views(messages@));
        match build_entries(pairs.as_slice()) {
            Ok(entries) => Ok(ChatTemplate { messages: entries }),
            Err(e) => Err(e),
        }
    }

    /// Renders the chat with `variables`; the same as `format_messages`.
    pub fn invoke(&self, variables: &Vars) -> (r: Result<Vec<Message>, TemplateError>)
        ensures
            messages_result_view(r) == rendered_entries(self@, variables@),
    {
        self.format_messages(variables)
    }

    /// Renders every entry with `variables` and gathers the messages in the
    /// order of the entries. The first entry that fails makes the whole
    /// rendering fail with its error.
    pub fn format_messages(&self, variables: &Vars) -> (r: Result<Vec<Message>, TemplateError>)
        ensures
            messages_result_view(r) == rendered_entries(self@, variables@),
    {
        render_entries(&self.messages, variables)
    }

    /// Renders the chat with `variables` to one text: the contents of the
    /// messages, one on each line.
    pub fn format(&self, variables: &Vars) -> (r: Result<String, TemplateError>)
        ensures
            render_result_view(r) == rendered_chat_text(self@, variables@),
    {
        match self.format_messages(variables) {
            Ok(messages) => Ok(join_contents(&messages)),
            Err(e) => Err(e),
        }
    }

    /// The chat that holds the entries of `self` and after them those of
    /// `other`.
    pub fn combine(self, other: ChatTemplate) -> (r: ChatTemplate)
        ensures
            r@ == self@ + other@,
    {
        ChatTemplate { messages: concatenate(self.messages, other.messages) }
    }
}

/// Writes the contents of `messages` one on each line.
pub fn join_contents(messages: &Vec<Message>) -> (text: String)
    ensures
        text@ == joined_contents(message_views(messages@)),
{
    let ghost views = message_views(messages@);
    let mut text = String::new();
    let mut i: usize = 0;
    while i < messages.len()
        invariant
            i <= messages@.len(),
            views == message_views(messages@),
            text@ == joined_contents(views.take(i as int)),
        decreases messages@.len() - i,
    {
        proof {
            reveal_strlit("\n");
            assert(views.take(i + 1).drop_last() == views.take(i as int));
            assert("\n"@ == seq!['\n']);
            if i == 0 {
                assert(Seq::<char>::empty() + views[0].content == views[0].content);
            }
        }
        if i > 0 {
            text.append("\n");
        }
        text.append(messages[i].content());
        i += 1;
    }
    assert(views.take(i as int) == views);
    text
}

impl Clone for ChatTemplate {
    fn clone(&self) -> (r: Self)
        ensures
            r@ == self@,
    {
        let mut messages: Vec<MessageLike> = Vec::new();
        let mut i: usize = 0;
        while i < self.messages.len()
            invariant
                i <= self.messages@.len(),
                entry_views(messages@) == entry_views(self.messages@).take(i as int),
            decreases self.messages@.len() - i,
        {
            let entry = self.messages[i].clone();
            let ghost before = messages@;
            messages.push(entry);
            assert(entry_views(messages@) == entry_views(before).push(entry@));
            assert(entry_views(self.messages@).take(i + 1) == entry_views(self.messages@).take(
                i as int,
            ).push(self.messages@[i as int]@));
            i += 1;
        }
        assert(entry_views(self.messages@).take(i as int) == entry_views(self.messages@));
        ChatTemplate { messages }
    }
}

impl core::ops::Add for ChatTemplate {
    type Output = ChatTemplate;

    fn add(self, other: ChatTemplate) -> (r: ChatTemplate)
        ensures
            r@ == self@ + other@,
    {
        self.combine(other)
    }
}

// The contract of the operation stands on the function itself, over views:
// this trait states results by equality, which owned strings do not have.
impl AddSpecImpl for ChatTemplate {
    open spec fn obeys_add_spec() -> bool {
        false
    }

    open spec fn add_req(self, other: ChatTemplate) -> bool {
        true
    }

    open spec fn add_spec(self, other: ChatTemplate) -> ChatTemplate {
        arbitrary()
    }
}

/// No pairs give an empty chat, and an empty chat renders to no message,
/// whatever the variables.
pub proof fn lemma_empty_chat(vars: Map<Seq<char>, Seq<char>>)
    ensures
        entries_from(Seq::<(Role, Seq<char>)>::empty()) == Ok::<
            Seq<MessageLikeView>,
            TemplateErrorView,
        >(Seq::empty()),
        rendered_entries(Seq::<MessageLikeView>::empty(), vars) == Ok::<
            Seq<MessageView>,
            TemplateErrorView,
        >(Seq::empty()),
{
}

/// Putting chats one after the other is associative, and the empty chat
/// changes nothing on either side.
pub proof fn lemma_combine_laws(
    a: Seq<MessageLikeView>,
    b: Seq<MessageLikeView>,
    c: Seq<MessageLikeView>,
)
    ensures
        (a + b) + c == a + (b + c),
        Seq::<MessageLikeView>::empty() + a == a,
        a + Seq::<MessageLikeView>::empty() == a,
{
}

} // verus!
