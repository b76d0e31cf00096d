use vstd::prelude::*;

verus! {

/// The three roles a chat message may carry once validated.
#[derive(Clone, Copy, Debug, PartialEq, Eq, Structural)]
pub enum ChatRoles {
    User,
    Assistant,
    System,
}

/// The wire name of a canonical role.
pub open spec fn role_name_spec(r: ChatRoles) -> Seq<char> {
    match r {
        ChatRoles::User => "user"@,
        ChatRoles::Assistant => "assistant"@,
        ChatRoles::System => "system"@,
    }
}

/// The canonical role that a wire name denotes, if any.
pub open spec fn role_of(s: Seq<char>) -> Option<ChatRoles> {
    if s == "system"@ {
        Some(ChatRoles::System)
    } else if s == "user"@ {
        Some(ChatRoles::User)
    } else if s == "assistant"@ {
        Some(ChatRoles::Assistant)
    } else {
        None
    }
}

impl ChatRoles {
    /// Parses a wire role name; any name outside the closed set gives `None`.
    pub fn parse(s: &String) -> (r: Option<ChatRoles>)
        ensures
            r == role_of(s@),
    {
        if *s == String::from_str("system") {
            Some(ChatRoles::System)
        } else if *s == String::from_str("user") {
            Some(ChatRoles::User)
        } else if *s == String::from_str("assistant") {
            Some(ChatRoles::Assistant)
        } else {
            None
        }
    }

    /// The wire name of this role.
    pub fn name(&self) -> (r: String)
        ensures
            r@ == role_name_spec(*self),
    {
        match self {
            ChatRoles::User => String::from_str("user"),
            ChatRoles::Assistant => String::from_str("assistant"),
            ChatRoles::System => String::from_str("system"),
        }
    }
}

/// Naming a role and parsing the name gives the role back.
pub proof fn lemma_role_name_round_trip(r: ChatRoles)
    ensures
        role_of(role_name_spec(r)) == Some(r),
{
    reveal_strlit("system");
    reveal_strlit("user");
    reveal_strlit("assistant");
    assert("system"@.len() == 6);
    assert("user"@.len() == 4);
    assert("assistant"@.len() == 9);
}

/// A chat message as a caller hands it in: the role is still free text.
#[derive(Clone, Debug)]
pub struct ChatMessage {
    pub role: String,
    pub content: String,
}

/// A chat request as a caller hands it in.
///
/// The sampling temperature is carried in thousandths (`1500` is `1.5`).
#[derive(Clone, Debug)]
pub struct LlmRequest {
    pub model: String,
    pub messages: Vec<ChatMessage>,
    pub temperature_milli: Option<i32>,
    pub max_tokens: Option<u32>,
}

/// The answer to one non-streaming chat request.
#[derive(Clone, Debug)]
pub struct LlmResponse {
    pub content: String,
    pub tokens_used: Option<u32>,
}

} // verus!
