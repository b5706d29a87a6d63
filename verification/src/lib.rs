//! Chat prompt templates: role-tagged template strings that are classified
//! by their brace syntax when a chat is built, and rendered to a flat list of
//! messages when the variables are known.

pub mod braces;
pub mod chat_prompt_template;
pub mod chat_template;
pub mod message;
pub mod message_like;
pub mod messages_placeholder;
pub mod placeholder;
pub mod role;
pub mod template;
pub mod template_format;
pub mod text;
pub mod vars;

pub use chat_prompt_template::ChatPromptTemplate;
pub use chat_template::ChatTemplate;
pub use message::Message;
pub use message::MessageType;
pub use message_like::MessageLike;
pub use messages_placeholder::MessagesPlaceholder;
pub use placeholder::extract_placeholder_variable;
pub use placeholder::extract_variables;
pub use placeholder::is_valid_identifier;
pub use role::InvalidRoleError;
pub use role::Role;
pub use template::Template;
pub use template_format::TemplateError;
pub use template_format::TemplateFormat;
pub use vars::Vars;
