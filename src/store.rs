use vstd::prelude::*;

verus! {

/// A stored chat: its id, creation and last-update times in milliseconds since
/// the epoch, and optional model, system prompt and parameters.
pub struct ChatMeta {
    pub id: String,
    pub created_at: i64,
    pub updated_at: i64,
    pub model: Option<String>,
    pub system_prompt: Option<String>,
    pub params_json: Option<String>,
}

/// A stored message of a chat.
pub struct MessageRow {
    pub id: String,
    pub chat_id: String,
    pub role: String,
    pub content: String,
    pub created_at: i64,
    pub meta_json: Option<String>,
}

/// A stored chat together with whether it has any message.
pub struct ChatWithFlags {
    pub id: String,
    pub created_at: i64,
    pub updated_at: i64,
    pub model: Option<String>,
    pub system_prompt: Option<String>,
    pub params_json: Option<String>,
    pub has_messages: bool,
}

} // verus!
