//! The entries of a chat template: a message that is ready, a template that
//! waits for its variables, or a placeholder for earlier messages.

use vstd::prelude::*;
use vstd::string::*;
use crate::message::{
    decode_history, decoded_history, history_view, message_views, Message, MessageView,
};
use crate::messages_placeholder::{
    placeholder_from_template, MessagesPlaceholder, MessagesPlaceholderView,
};
use crate::role::{role_message_type, Role};
use crate::template::{
    mustache_rendering, render_result_view, rendered_text, template_from, Template, TemplateView,
};
use crate::template_format::{TemplateError, TemplateErrorView, TemplateFormat};
use crate::vars::Vars;

verus! {

/// One entry of a chat template.
#[derive(Debug)]
pub enum MessageLike {
    /// A message whose role and content are fixed.
    BaseMessage(Message),
    /// A role and the template of what it says.
    RolePromptTemplate(Role, Template),
    /// A place where earlier messages are put in.
    Placeholder(MessagesPlaceholder),
}

/// A `MessageLike` with its texts as character sequences.
pub enum MessageLikeView {
    BaseMessage(MessageView),
    RolePromptTemplate(Role, TemplateView),
    Placeholder(MessagesPlaceholderView),
}

impl View for MessageLike {
    type V = MessageLikeView;

    open spec fn view(&self) -> MessageLikeView {
        match *self {
            MessageLike::BaseMessage(m) => MessageLikeView::BaseMessage(m@),
            MessageLike::RolePromptTemplate(role, t) => MessageLikeView::RolePromptTemplate(
                role,
                t@,
            ),
            MessageLike::Placeholder(p) => MessageLikeView::Placeholder(p@),
        }
    }
}

/// The views of a list of entries, in order.
pub open spec fn entry_views(entries: Seq<MessageLike>) -> Seq<MessageLikeView> {
    Seq::new(entries.len(), |i: int| entries[i]@)
}

/// The entry that a role and a template string give. The placeholder role
/// gives a placeholder. Any other role gives a fixed message where the
/// string is plain text, and else the role with the template.
pub open spec fn entry_from(role: Role, text: Seq<char>) -> Result<
    MessageLikeView,
    TemplateErrorView,
> {
    if role == Role::Placeholder {
        match placeholder_from_template(text) {
            Ok(p) => Ok(MessageLikeView::Placeholder(p)),
            Err(e) => Err(e),
        }
    } else {
        match template_from(text) {
            Err(e) => Err(e),
            Ok(t) => if t.format == TemplateFormat::PlainText {
                match role_message_type(role) {
                    Some(message_type) => Ok(
                        MessageLikeView::BaseMessage(MessageView { message_type, content: text }),
                    ),
                    None => Err(TemplateErrorView::InvalidRoleError),
                }
            } else {
                Ok(MessageLikeView::RolePromptTemplate(role, t))
            },
        }
    }
}

/// The entries that a list of roles and template strings gives, or the error
/// of the first pair that gives none.
pub open spec fn entries_from(pairs: Seq<(Role, Seq<char>)>) -> Result<
    Seq<MessageLikeView>,
    TemplateErrorView,
>
    decreases pairs.len(),
{
    if pairs.len() == 0 {
        Ok(Seq::empty())
    } else {
        match entries_from(pairs.drop_last()) {
            Err(e) => Err(e),
            Ok(entries) => match entry_from(pairs.last().0, pairs.last().1) {
                Ok(entry) => Ok(entries.push(entry)),
                Err(e) => Err(e),
            },
        }
    }
}

/// The messages kept of a decoded list: the first `limit` of them where the
/// limit is positive, and all of them where it is zero.
pub open spec fn limited(messages: Seq<MessageView>, limit: nat) -> Seq<MessageView> {
    if 0 < limit < messages.len() {
        messages.take(limit as int)
    } else {
        messages
    }
}

/// What a placeholder makes of the outcome of decoding its variable.
pub open spec fn history_outcome(
    placeholder: MessagesPlaceholderView,
    decoded: Result<Seq<MessageView>, Seq<char>>,
) -> Result<Seq<MessageView>, TemplateErrorView> {
    match decoded {
        Ok(messages) => Ok(limited(messages, placeholder.n_messages)),
        Err(message) => Err(
            TemplateErrorView::MalformedTemplate("Failed to deserialize placeholder: "@ + message),
        ),
    }
}

/// What a rendered text makes as the message of a role.
pub open spec fn spoken(role: Role, text: Result<Seq<char>, TemplateErrorView>) -> Result<
    Seq<MessageView>,
    TemplateErrorView,
> {
    match text {
        Err(e) => Err(e),
        Ok(content) => match role_message_type(role) {
            Some(message_type) => Ok(seq![MessageView { message_type, content }]),
            None => Err(TemplateErrorView::InvalidRoleError),
        },
    }
}

/// The messages that one entry renders to with `vars`. A fixed message
/// renders to itself. A template renders to one message of its role. An
/// optional placeholder renders to nothing; a required one to the decoded
/// and limited list held by its variable, which must have a value.
pub open spec fn rendered_entry(entry: MessageLikeView, vars: Map<Seq<char>, Seq<char>>) -> Result<
    Seq<MessageView>,
    TemplateErrorView,
> {
    match entry {
        MessageLikeView::BaseMessage(m) => Ok(seq![m]),
        MessageLikeView::RolePromptTemplate(role, t) => spoken(
            role,
            rendered_text(t, vars, mustache_rendering(t.text, vars)),
        ),
        MessageLikeView::Placeholder(p) => if p.optional {
            Ok(Seq::empty())
        } else if !vars.contains_key(p.variable_name) {
            Err(TemplateErrorView::MissingVariable(p.variable_name))
        } else {
            history_outcome(p, decoded_history(vars[p.variable_name]))
        },
    }
}

/// The messages that a list of entries renders to: those of each entry, in
/// the order of the entries, or the error of the first entry that fails.
pub open spec fn rendered_entries(
    entries: Seq<MessageLikeView>,
    vars: Map<Seq<char>, Seq<char>>,
) -> Result<Seq<MessageView>, TemplateErrorView>
    decreases entries.len(),
{
    if entries.len() == 0 {
        Ok(Seq::empty())
    } else {
        match rendered_entries(entries.drop_last(), vars) {
            Err(e) => Err(e),
            Ok(messages) => match rendered_entry(entries.last(), vars) {
                Ok(more) => Ok(messages + more),
                Err(e) => Err(e),
            },
        }
    }
}

/// The view of the outcome of building an entry.
pub open spec fn entry_result_view(r: Result<MessageLike, TemplateError>) -> Result<
    MessageLikeView,
    TemplateErrorView,
> {
    match r {
        Ok(entry) => Ok(entry@),
        Err(e) => Err(e@),
    }
}

/// The view of the outcome of rendering.
pub open spec fn messages_result_view(r: Result<Vec<Message>, TemplateError>) -> Result<
    Seq<MessageView>,
    TemplateErrorView,
> {
    match r {
        Ok(messages) => Ok(message_views(messages@)),
        Err(e) => Err(e@),
    }
}

/// Once the entries of a prefix of `pairs` fail, those of every longer
/// prefix fail with the same error.
pub proof fn lemma_entries_error_stays(pairs: Seq<(Role, Seq<char>)>, n: int, m: int)
    requires
        0 <= n <= m <= pairs.len(),
        entries_from(pairs.take(n)) is Err,
    ensures
        entries_from(pairs.take(m)) == entries_from(pairs.take(n)),
    decreases m - n,
{
    if n < m {
        lemma_entries_error_stays(pairs, n, m - 1);
        assert(pairs.take(m).drop_last() == pairs.take(m - 1));
    }
}

/// Once the rendering of a prefix of `entries` fails, that of every longer
/// prefix fails with the same error.
pub proof fn lemma_rendering_error_stays(
    entries: Seq<MessageLikeView>,
    vars: Map<Seq<char>, Seq<char>>,
    n: int,
    m: int,
)
    requires
        0 <= n <= m <= entries.len(),
        rendered_entries(entries.take(n), vars) is Err,
    ensures
        rendered_entries(entries.take(m), vars) == rendered_entries(entries.take(n), vars),
    decreases m - n,
{
    if n < m {
        lemma_rendering_error_stays(entries, vars, n, m - 1);
        assert(entries.take(m).drop_last() == entries.take(m - 1));
    }
}

/// Entries put one after the other render to the messages of the first list
/// followed by those of the second; where the first list fails its error
/// stands, and else that of the second.
pub proof fn lemma_rendering_of_concatenation(
    a: Seq<MessageLikeView>,
    b: Seq<MessageLikeView>,
    vars: Map<Seq<char>, Seq<char>>,
)
    ensures
        rendered_entries(a + b, vars) == match rendered_entries(a, vars) {
            Err(e) => Err(e),
            Ok(first) => match rendered_entries(b, vars) {
                Ok(second) => Ok(first + second),
                Err(e) => Err(e),
            },
        },
    decreases b.len(),
{
    if b.len() == 0 {
        assert(a + b == a);
        if let Ok(first) = rendered_entries(a, vars) {
            assert(first + Seq::<MessageView>::empty() == first);
        }
    } else {
        lemma_rendering_of_concatenation(a, b.drop_last(), vars);
        assert((a + b).drop_last() == a + b.drop_last());
        assert((a + b).last() == b.last());
        if let Ok(first) = rendered_entries(a, vars) {
            if let Ok(second) = rendered_entries(b.drop_last(), vars) {
                if let Ok(more) = rendered_entry(b.last(), vars) {
                    assert((first + second) + more == first + (second + more));
                }
            }
        }
    }
}

/// The roles and texts of a list of pairs of a role and a template string.
pub open spec fn pair_views(pairs: Seq<(Role, &str)>) -> Seq<(Role, Seq<char>)> {
    Seq::new(pairs.len(), |i: int| (pairs[i].0, pairs[i].1@))
}

/// The view of the outcome of building a list of entries.
pub open spec fn entries_result_view(r: Result<Vec<MessageLike>, TemplateError>) -> Result<
    Seq<MessageLikeView>,
    TemplateErrorView,
> {
    match r {
        Ok(entries) => Ok(entry_views(entries@)),
        Err(e) => Err(e@),
    }
}

/// The messages of a list of outcomes, one outcome for each entry: those of
/// each outcome in the order of the list, or the error of the first outcome
/// that is one.
pub open spec fn gathered(outcomes: Seq<Result<Seq<MessageView>, TemplateErrorView>>) -> Result<
    Seq<MessageView>,
    TemplateErrorView,
>
    decreases outcomes.len(),
{
    if outcomes.len() == 0 {
        Ok(Seq::empty())
    } else {
        match gathered(outcomes.drop_last()) {
            Err(e) => Err(e),
            Ok(messages) => match outcomes.last() {
                Ok(more) => Ok(messages + more),
                Err(e) => Err(e),
            },
        }
    }
}

/// The views of a list of outcomes, in order.
pub open spec fn outcome_views(outcomes: Seq<Result<Vec<Message>, TemplateError>>) -> Seq<
    Result<Seq<MessageView>, TemplateErrorView>,
> {
    Seq::new(outcomes.len(), |i: int| messages_result_view(outcomes[i]))
}

/// What each entry of a list renders to by itself, in order.
pub open spec fn entry_outcomes(
    entries: Seq<MessageLikeView>,
    vars: Map<Seq<char>, Seq<char>>,
) -> Seq<Result<Seq<MessageView>, TemplateErrorView>> {
    Seq::new(entries.len(), |i: int| rendered_entry(entries[i], vars))
}

/// Rendering a list of entries is gathering what each entry renders to by
/// itself.
pub proof fn lemma_gathered_is_rendering(
    entries: Seq<MessageLikeView>,
    vars: Map<Seq<char>, Seq<char>>,
)
    ensures
        gathered(entry_outcomes(entries, vars)) == rendered_entries(entries, vars),
    decreases entries.len(),
{
    if entries.len() > 0 {
        lemma_gathered_is_rendering(entries.drop_last(), vars);
        assert(entry_outcomes(entries, vars).drop_last() == entry_outcomes(
            entries.drop_last(),
            vars,
        ));
    }
}

/// Once the outcomes of a prefix hold an error, those of every longer prefix
/// gather to the same error.
proof fn lemma_gathered_error_stays(
    outcomes: Seq<Result<Seq<MessageView>, TemplateErrorView>>,
    n: int,
    m: int,
)
    requires
        0 <= n <= m <= outcomes.len(),
        gathered(outcomes.take(n)) is Err,
    ensures
        gathered(outcomes.take(m)) == gathered(outcomes.take(n)),
    decreases m - n,
{
    if n < m {
        lemma_gathered_error_stays(outcomes, n, m - 1);
        assert(outcomes.take(m).drop_last() == outcomes.take(m - 1));
    }
}

/// Puts the messages of all outcomes in one list, in the order of the
/// outcomes; where an outcome is an error, the first such error is the
/// result, wherever the others stand.
pub fn gather(outcomes: Vec<Result<Vec<Message>, TemplateError>>) -> (r: Result<
    Vec<Message>,
    TemplateError,
>)
    ensures
        messages_result_view(r) == gathered(outcome_views(outcomes@)),
{
    let ghost views = outcome_views(outcomes@);
    let mut out: Vec<Message> = Vec::new();
    assert(message_views(out@) == Seq::<MessageView>::empty());
    for outcome in it: outcomes.into_iter()
        invariant
            it.seq() == outcomes@,
            views == outcome_views(outcomes@),
            gathered(views.take(it.index() as int)) == Ok::<Seq<MessageView>, TemplateErrorView>(
                message_views(out@),
            ),
    {
        let ghost i = it.index() as int;
        assert(views.take(i + 1).drop_last() == views.take(i));
        assert(views.take(i + 1).last() == messages_result_view(outcome));
        match outcome {
            Ok(mut more) => {
                let ghost before = out@;
                let ghost added = more@;
                out.append(&mut more);
                assert(message_views(out@) == message_views(before) + message_views(added));
            },
            Err(e) => {
                proof {
                    lemma_gathered_error_stays(views, i + 1, views.len() as int);
                    assert(views.take(views.len() as int) == views);
                }
                return Err(e);
            },
        }
    }
    assert(views.take(views.len() as int) == views);
    Ok(out)
}

/// Builds the entries that pairs of a role and a template string give, in
/// order. The first pair that gives no entry fails the whole construction
/// with its error.
pub fn build_entries(pairs: &[(Role, &str)]) -> (r: Result<Vec<MessageLike>, TemplateError>)
    ensures
        entries_result_view(r) == entries_from(pair_views(pairs@)),
{
    let ghost views = pair_views(pairs@);
    let mut result: Vec<MessageLike> = Vec::new();
    let mut i: usize = 0;
    assert(entry_views(result@) == Seq::<MessageLikeView>::empty());
    while i < pairs.len()
        invariant
            i <= pairs@.len(),
            views == pair_views(pairs@),
            entries_from(views.take(i as int)) == Ok::<Seq<MessageLikeView>, TemplateErrorView>(
                entry_views(result@),
            ),
        decreases pairs@.len() - i,
    {
        assert(views.take(i + 1).drop_last() == views.take(i as int));
        assert(views.take(i + 1).last() == views[i as int]);
        match MessageLike::from_role_and_template(pairs[i].0, pairs[i].1) {
            Ok(entry) => {
                let ghost before = result@;
                result.push(entry);
                assert(entry_views(result@) == entry_views(before).push(entry@));
            },
            Err(e) => {
                proof {
                    lemma_entries_error_stays(views, i + 1, views.len() as int);
                    assert(views.take(views.len() as int) == views);
                }
                return Err(e);
            },
        }
        i += 1;
    }
    assert(views.take(i as int) == views);
    Ok(result)
}

/// The entries of `first` and after them those of `second`.
pub fn concatenate(first: Vec<MessageLike>, second: Vec<MessageLike>) -> (r: Vec<MessageLike>)
    ensures
        r@ == first@ + second@,
        entry_views(r@) == entry_views(first@) + entry_views(second@),
{
    let mut entries = first;
    let mut rest = second;
    entries.append(&mut rest);
    entries
}

/// The one message that `role` speaks with a rendered text; the error of the
/// rendering where it failed.
pub fn speak(role: Role, text: Result<String, TemplateError>) -> (r: Result<
    Vec<Message>,
    TemplateError,
>)
    ensures
        messages_result_view(r) == spoken(role, render_result_view(text)),
{
    match text {
        Err(e) => Err(e),
        Ok(content) => match role.to_message(content.as_str()) {
            Ok(message) => {
                let mut messages: Vec<Message> = Vec::new();
                messages.push(message);
                assert(message_views(messages@) == seq![message@]);
                Ok(messages)
            },
            Err(_) => Err(TemplateError::InvalidRoleError),
        },
    }
}

/// What `placeholder` makes of the outcome of decoding its variable: the
/// messages up to its limit, or a malformed-template error that carries the
/// decoder's message.
pub fn select_history(placeholder: &MessagesPlaceholder, decoded: Result<Vec<Message>, String>) -> (r:
    Result<Vec<Message>, TemplateError>)
    ensures
        messages_result_view(r) == history_outcome(placeholder@, history_view(decoded)),
{
    match decoded {
        Ok(mut messages) => {
            let limit = placeholder.n_messages();
            let ghost all = messages@;
            if limit > 0 && limit < messages.len() {
                messages.truncate(limit);
                assert(message_views(messages@) == message_views(all).take(limit as int));
            }
            Ok(messages)
        },
        Err(message) => {
            let mut text = "Failed to deserialize placeholder: ".to_owned();
            text.append(message.as_str());
            Err(TemplateError::MalformedTemplate(text))
        },
    }
}

impl MessageLike {
    /// An entry that is a fixed message.
    pub fn from_base_message(message: Message) -> (r: Self)
        ensures
            r == MessageLike::BaseMessage(message),
    {
        MessageLike::BaseMessage(message)
    }

    /// An entry that is a role with its template.
    pub fn from_role_prompt_template(role: Role, template: Template) -> (r: Self)
        ensures
            r == MessageLike::RolePromptTemplate(role, template),
    {
        MessageLike::RolePromptTemplate(role, template)
    }

    /// An entry that is a placeholder.
    pub fn from_placeholder(placeholder: MessagesPlaceholder) -> (r: Self)
        ensures
            r == MessageLike::Placeholder(placeholder),
    {
        MessageLike::Placeholder(placeholder)
    }

    /// The entry that `role` and the template string `tmpl` give.
    pub fn from_role_and_template(role: Role, tmpl: &str) -> (r: Result<Self, TemplateError>)
        ensures
            entry_result_view(r) == entry_from(role, tmpl@),
    {
        if role == Role::Placeholder {
            return match MessagesPlaceholder::from_template(tmpl) {
                Ok(placeholder) => Ok(MessageLike::from_placeholder(placeholder)),
                Err(e) => Err(e),
            };
        }
        let template = match Template::from_template(tmpl) {
            Ok(template) => template,
            Err(e) => return Err(e),
        };
        match template.template_format() {
            TemplateFormat::PlainText => match role.to_message(tmpl) {
                Ok(message) => Ok(MessageLike::from_base_message(message)),
                Err(_) => Err(TemplateError::InvalidRoleError),
            },
            _ => Ok(MessageLike::from_role_prompt_template(role, template)),
        }
    }

    /// The messages that this entry renders to with `variables`.
    pub fn render(&self, variables: &Vars) -> (r: Result<Vec<Message>, TemplateError>)
        ensures
            messages_result_view(r) == rendered_entry(self@, variables@),
    {
        match self {
            MessageLike::BaseMessage(message) => {
                let mut messages: Vec<Message> = Vec::new();
                messages.push(message.clone());
                assert(message_views(messages@) == seq![message@]);
                Ok(messages)
            },
            MessageLike::RolePromptTemplate(role, template) => speak(
                *role,
                template.format(variables),
            ),
            MessageLike::Placeholder(placeholder) => {
                if placeholder.optional() {
                    let messages: Vec<Message> = Vec::new();
                    assert(message_views(messages@) == Seq::<MessageView>::empty());
                    return Ok(messages);
                }
                match variables.get(placeholder.variable_name()) {
                    None => Err(
                        TemplateError::MissingVariable(placeholder.variable_name().to_owned()),
                    ),
                    Some(payload) => select_history(placeholder, decode_history(payload)),
                }
            },
        }
    }
}

impl Clone for MessageLike {
    fn clone(&self) -> (r: Self)
        ensures
            r@ == self@,
    {
        match self {
            MessageLike::BaseMessage(message) => MessageLike::BaseMessage(message.clone()),
            MessageLike::RolePromptTemplate(role, template) => MessageLike::RolePromptTemplate(
                *role,
                template.clone(),
            ),
            MessageLike::Placeholder(placeholder) => MessageLike::Placeholder(placeholder.clone()),
        }
    }
}

/// An optional placeholder renders to no message and to no error, whether
/// its variable has a value or not.
pub proof fn lemma_optional_placeholder_renders_nothing(
    placeholder: MessagesPlaceholderView,
    vars: Map<Seq<char>, Seq<char>>,
)
    requires
        placeholder.optional,
    ensures
        rendered_entry(MessageLikeView::Placeholder(placeholder), vars) == Ok::<
            Seq<MessageView>,
            TemplateErrorView,
        >(Seq::empty()),
{
}

/// A placeholder with a positive limit keeps of a longer decoded list
/// exactly its first messages, as many as the limit says, in their order.
pub proof fn lemma_limit_keeps_first_messages(
    placeholder: MessagesPlaceholderView,
    messages: Seq<MessageView>,
)
    requires
        0 < placeholder.n_messages < messages.len(),
    ensures
        history_outcome(placeholder, Ok(messages)) matches Ok(kept) && {
            &&& kept.len() == placeholder.n_messages
            &&& forall|i: int| 0 <= i < kept.len() ==> kept[i] == messages[i]
        },
{
}

} // verus!
