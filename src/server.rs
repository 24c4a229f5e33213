use vstd::prelude::*;

verus! {

/// Whether the model server answered a probe, at which address, and why not.
pub struct HealthStatus {
    pub connected: bool,
    pub url: String,
    pub error: Option<String>,
}

pub open spec fn default_url() -> Seq<char> {
    "http://localhost:11434"@
}

/// The server address: the one given, or the local default.
pub fn server_url_or_default(url: Option<String>) -> (r: String)
    ensures
        r@ == match url {
            Some(u) => u@,
            None => default_url(),
        },
{
    match url {
        Some(u) => u,
        None => {
            proof {
                reveal_strlit("http://localhost:11434");
            }
            "http://localhost:11434".to_owned()
        },
    }
}

/// The chat endpoint of a server.
pub fn chat_endpoint(url: &str) -> (r: String)
    ensures
        r@ == url@ + "/api/chat"@,
{
    proof {
        reveal_strlit("/api/chat");
    }
    url.to_owned().concat("/api/chat")
}

/// The endpoint that a health probe asks.
pub fn health_endpoint(url: &str) -> (r: String)
    ensures
        r@ == url@ + "/api/tags"@,
{
    proof {
        reveal_strlit("/api/tags");
    }
    url.to_owned().concat("/api/tags")
}

impl HealthStatus {
    /// The server answered with a success status.
    pub fn reachable(url: String) -> (r: HealthStatus)
        ensures
            r.connected,
            r.url@ == url@,
            r.error.is_none(),
    {
        HealthStatus { connected: true, url, error: None }
    }

    /// The server answered with another status (given as text).
    pub fn refused(url: String, status: &str) -> (r: HealthStatus)
        ensures
            !r.connected,
            r.url@ == url@,
            r.error.is_some() && r.error.unwrap()@ == "Server returned status: "@ + status@,
    {
        proof {
            reveal_strlit("Server returned status: ");
        }
        let msg = "Server returned status: ".to_owned().concat(status);
        HealthStatus { connected: false, url, error: Some(msg) }
    }

    /// The probe failed before any answer, with this message.
    pub fn unreachable(url: String, message: String) -> (r: HealthStatus)
        ensures
            !r.connected,
            r.url@ == url@,
            r.error.is_some() && r.error.unwrap()@ == message@,
    {
        HealthStatus { connected: false, url, error: Some(message) }
    }
}

} // verus!
