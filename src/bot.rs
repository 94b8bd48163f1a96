//! Shapes of the chat bot's language-model requests.

use vstd::prelude::*;

verus! {

/// A request to a language model: the model, the conversation, a key, a
/// system prompt and a sampling temperature.
#[derive(Clone, Debug, Default, PartialEq)]
pub struct Root {
    pub model: Model,
    pub messages: Vec<Message>,
    pub key: String,
    pub prompt: String,
    pub temperature: i64,
}

/// A language model and its limits.
#[derive(Clone, Debug, Default, PartialEq)]
pub struct Model {
    pub id: String,
    pub name: String,
    pub max_length: i64,
    pub token_limit: i64,
}

/// One message of a conversation.
#[derive(Clone, Debug, Default, PartialEq)]
pub struct Message {
    pub role: String,
    pub content: String,
}

} // verus!
