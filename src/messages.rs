use vstd::prelude::*;

verus! {

/// One role/content pair of a conversation.
pub struct ChatMessage {
    pub role: String,
    pub content: String,
}

/// One decoded record of the upstream stream: an optional message fragment,
/// the completion flag and optional timing and count figures.
pub struct ChatChunk {
    pub message: Option<ChatMessage>,
    pub done: bool,
    pub total_duration: Option<u64>,
    pub load_duration: Option<u64>,
    pub prompt_eval_count: Option<i32>,
    pub prompt_eval_duration: Option<u64>,
    pub eval_count: Option<i32>,
    pub eval_duration: Option<u64>,
}

/// The summary a relay operation hands back to its caller.
pub struct ChatResponse {
    pub success: bool,
    pub error: Option<String>,
}

/// A notification published to the UI, each tagged with its session id.
pub enum Notification {
    StreamStart { session_id: String },
    Chunk { session_id: String, chunk: ChatChunk },
    Cancelled { session_id: String },
    Error { session_id: String, message: String },
    Complete { session_id: String, completed: bool },
}

/// A notification with its texts as character sequences.
pub enum Note {
    StreamStart(Seq<char>),
    Chunk(Seq<char>, ChatChunk),
    Cancelled(Seq<char>),
    Error(Seq<char>, Seq<char>),
    Complete(Seq<char>, bool),
}

impl View for Notification {
    type V = Note;

    open spec fn view(&self) -> Note {
        match self {
            Notification::StreamStart { session_id } => Note::StreamStart(session_id@),
            Notification::Chunk { session_id, chunk } => Note::Chunk(session_id@, *chunk),
            Notification::Cancelled { session_id } => Note::Cancelled(session_id@),
            Notification::Error { session_id, message } => Note::Error(session_id@, message@),
            Notification::Complete { session_id, completed } => Note::Complete(
                session_id@,
                *completed,
            ),
        }
    }
}

/// The views of a sequence of notifications.
pub open spec fn notes_of(v: Seq<Notification>) -> Seq<Note> {
    v.map_values(|n: Notification| n@)
}

pub open spec fn is_placeholder(m: ChatMessage) -> bool {
    m.role@ == "user"@ && m.content@ == Seq::<char>::empty()
}

/// The messages that go out: the caller's, or a single empty user message in
/// place of an empty list.
pub fn outbound_messages(messages: Vec<ChatMessage>) -> (r: Vec<ChatMessage>)
    ensures
        messages@.len() == 0 ==> r@.len() == 1 && is_placeholder(r@[0]),
        messages@.len() > 0 ==> r@ == messages@,
{
    if messages.len() == 0 {
        let mut r: Vec<ChatMessage> = Vec::new();
        proof {
            reveal_strlit("user");
        }
        r.push(ChatMessage { role: "user".to_owned(), content: String::new() });
        r
    } else {
        messages
    }
}

/// The integer generation options as outbound protocol fields, in this order:
/// `top_k`, then `num_predict` (from `max_tokens`); an absent option is left out.
pub fn integer_options(top_k: Option<i32>, max_tokens: Option<i32>) -> (r: Vec<(String, i32)>)
    ensures
        r@.len() == (if top_k.is_some() { 1int } else { 0int }) + (if max_tokens.is_some() {
            1int
        } else {
            0int
        }),
        top_k.is_some() ==> r@[0].0@ == "top_k"@ && r@[0].1 == top_k.unwrap(),
        max_tokens.is_some() ==> r@.last().0@ == "num_predict"@ && r@.last().1
            == max_tokens.unwrap(),
{
    let mut r: Vec<(String, i32)> = Vec::new();
    proof {
        reveal_strlit("top_k");
        reveal_strlit("num_predict");
    }
    if let Some(k) = top_k {
        r.push(("top_k".to_owned(), k));
    }
    if let Some(m) = max_tokens {
        r.push(("num_predict".to_owned(), m));
    }
    r
}

/// The result of a relay that reached its end: success exactly when the
/// stream completed.
pub fn relay_result(completed: bool) -> (r: ChatResponse)
    ensures
        r.success == completed,
        completed ==> r.error.is_none(),
        !completed ==> r.error.is_some() && r.error.unwrap()@ == "Stream incomplete"@,
{
    if completed {
        ChatResponse { success: true, error: None }
    } else {
        proof {
            reveal_strlit("Stream incomplete");
        }
        ChatResponse { success: false, error: Some("Stream incomplete".to_owned()) }
    }
}

/// The result of a request that the server refused with a non-success status,
/// given the status as text (`"500 Internal Server Error"`).
pub fn http_error_result(status: &str) -> (r: ChatResponse)
    ensures
        !r.success,
        r.error.is_some() && r.error.unwrap()@ == "HTTP error: "@ + status@,
{
    proof {
        reveal_strlit("HTTP error: ");
    }
    let msg = "HTTP error: ".to_owned().concat(status);
    ChatResponse { success: false, error: Some(msg) }
}

} // verus!
