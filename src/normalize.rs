use vstd::prelude::*;

use crate::error::{CanonicalError, ErrorKind};
use crate::message::{ChatMessage, ChatRoles, LlmRequest, role_of};

verus! {

/// The largest accepted temperature, in thousandths.
pub const MAX_TEMPERATURE_MILLI: i32 = 2000;

/// A message whose role has been checked against the closed set.
#[derive(Clone, Debug)]
pub struct ValidMessage {
    pub role: ChatRoles,
    pub content: String,
}

/// A request that passed validation; adapters only ever see these.
#[derive(Clone, Debug)]
pub struct ValidRequest {
    pub model: String,
    pub messages: Vec<ValidMessage>,
    pub temperature_milli: Option<i32>,
    pub max_tokens: Option<u32>,
}

/// The first thing wrong with a request, in the order the checks run.
#[derive(Clone, Copy, Debug, PartialEq, Eq, Structural)]
pub enum RequestFault {
    NoMessages,
    UnknownRole,
    TemperatureOutOfRange,
    MaxTokensZero,
}

pub open spec fn roles_valid(msgs: Seq<ChatMessage>) -> bool {
    forall|i: int| 0 <= i < msgs.len() ==> (#[trigger] role_of(msgs[i].role@)) is Some
}

pub open spec fn temperature_valid(t: Option<i32>) -> bool {
    match t {
        Some(v) => 0 <= v <= MAX_TEMPERATURE_MILLI,
        None => true,
    }
}

pub open spec fn max_tokens_valid(m: Option<u32>) -> bool {
    match m {
        Some(v) => v > 0,
        None => true,
    }
}

/// The first failed check of a request: `messages` first, then each
/// message's role, then `temperature`, then `max_tokens`.
pub open spec fn fault_of(req: LlmRequest) -> Option<RequestFault> {
    if req.messages@.len() == 0 {
        Some(RequestFault::NoMessages)
    } else if !roles_valid(req.messages@) {
        Some(RequestFault::UnknownRole)
    } else if !temperature_valid(req.temperature_milli) {
        Some(RequestFault::TemperatureOutOfRange)
    } else if !max_tokens_valid(req.max_tokens) {
        Some(RequestFault::MaxTokensZero)
    } else {
        None
    }
}

/// The error message for a fault; it starts with the offending field's name.
pub open spec fn fault_message(f: RequestFault) -> Seq<char> {
    match f {
        RequestFault::NoMessages => "messages: must not be empty"@,
        RequestFault::UnknownRole => "messages: role must be system, user or assistant"@,
        RequestFault::TemperatureOutOfRange => "temperature: must be between 0.0 and 2.0"@,
        RequestFault::MaxTokensZero => "max_tokens: must be positive"@,
    }
}

/// `v` is the validated form of `req`.
pub open spec fn validated_from(v: ValidRequest, req: LlmRequest) -> bool {
    &&& v.model@ == req.model@
    &&& v.messages@.len() == req.messages@.len()
    &&& forall|i: int|
        0 <= i < v.messages@.len() ==> {
            &&& Some(#[trigger] v.messages@[i].role) == role_of(req.messages@[i].role@)
            &&& v.messages@[i].content@ == req.messages@[i].content@
        }
    &&& v.temperature_milli == req.temperature_milli
    &&& v.max_tokens == req.max_tokens
}

fn invalid(f: RequestFault) -> (e: CanonicalError)
    ensures
        e.kind == ErrorKind::InvalidRequest,
        !e.retryable,
        e.message@ == fault_message(f),
{
    let message = match f {
        RequestFault::NoMessages => String::from_str("messages: must not be empty"),
        RequestFault::UnknownRole => String::from_str(
            "messages: role must be system, user or assistant",
        ),
        RequestFault::TemperatureOutOfRange => String::from_str(
            "temperature: must be between 0.0 and 2.0",
        ),
        RequestFault::MaxTokensZero => String::from_str("max_tokens: must be positive"),
    };
    CanonicalError::new(ErrorKind::InvalidRequest, message)
}

/// Validates a request and gives back its canonical form, or an
/// `InvalidRequest` error naming the first offending field.
pub fn normalize(req: &LlmRequest) -> (r: Result<ValidRequest, CanonicalError>)
    ensures
        r is Ok <==> fault_of(*req) is None,
        r matches Ok(v) ==> validated_from(v, *req),
        r matches Err(e) ==> {
            &&& e.kind == ErrorKind::InvalidRequest
            &&& !e.retryable
            &&& e.message@ == fault_message(fault_of(*req)->0)
        },
{
    if req.messages.len() == 0 {
        return Err(invalid(RequestFault::NoMessages));
    }
    let mut messages: Vec<ValidMessage> = Vec::new();
    let mut i: usize = 0;
    while i < req.messages.len()
        invariant
            i <= req.messages@.len(),
            messages@.len() == i,
            forall|j: int|
                0 <= j < i ==> {
                    &&& Some(#[trigger] messages@[j].role) == role_of(req.messages@[j].role@)
                    &&& messages@[j].content@ == req.messages@[j].content@
                },
        decreases req.messages@.len() - i,
    {
        let m = &req.messages[i];
        match ChatRoles::parse(&m.role) {
            Some(role) => {
                messages.push(ValidMessage { role, content: m.content.clone() });
            },
            None => {
                assert(role_of(req.messages@[i as int].role@) is None);
                return Err(invalid(RequestFault::UnknownRole));
            },
        }
        i = i + 1;
    }
    assert(roles_valid(req.messages@)) by {
        assert forall|j: int| 0 <= j < req.messages@.len() implies (#[trigger] role_of(
            req.messages@[j].role@,
        )) is Some by {
            assert(Some(messages@[j].role) == role_of(req.messages@[j].role@));
        }
    }
    if let Some(t) = req.temperature_milli {
        if t < 0 || t > MAX_TEMPERATURE_MILLI {
            return Err(invalid(RequestFault::TemperatureOutOfRange));
        }
    }
    if let Some(m) = req.max_tokens {
        if m == 0 {
            return Err(invalid(RequestFault::MaxTokensZero));
        }
    }
    Ok(
        ValidRequest {
            model: req.model.clone(),
            messages,
            temperature_milli: req.temperature_milli,
            max_tokens: req.max_tokens,
        },
    )
}

/// A request without messages is always rejected, whatever else it holds.
pub proof fn lemma_empty_messages_rejected(req: LlmRequest)
    requires
        req.messages@.len() == 0,
    ensures
        fault_of(req) == Some(RequestFault::NoMessages),
{
}

/// A request whose messages include one with a role outside the closed set
/// is rejected with the fault on `messages`, and the error message begins
/// with that field's name.
pub proof fn lemma_unknown_role_rejected(req: LlmRequest, i: int)
    requires
        0 <= i < req.messages@.len(),
        role_of(req.messages@[i].role@) is None,
    ensures
        fault_of(req) == Some(RequestFault::UnknownRole),
        fault_message(RequestFault::UnknownRole).subrange(0, 8) == "messages"@,
{
    reveal_strlit("messages: role must be system, user or assistant");
    reveal_strlit("messages");
    assert(fault_message(RequestFault::UnknownRole).subrange(0, 8) =~= "messages"@);
}

} // verus!
