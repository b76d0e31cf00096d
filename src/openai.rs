use vstd::prelude::*;

use crate::error::VendorFailure;
use crate::message::{ChatRoles, LlmResponse};
use crate::normalize::{ValidMessage, ValidRequest};

verus! {

/// The role vocabulary of the OpenAI chat-completion API.
#[derive(Clone, Copy, Debug, PartialEq, Eq, Structural)]
pub enum OpenAiRole {
    System,
    User,
    Assistant,
    Tool,
    Function,
    Developer,
}

pub open spec fn to_vendor_spec(r: ChatRoles) -> OpenAiRole {
    match r {
        ChatRoles::System => OpenAiRole::System,
        ChatRoles::User => OpenAiRole::User,
        ChatRoles::Assistant => OpenAiRole::Assistant,
    }
}

pub open spec fn from_vendor_spec(v: OpenAiRole) -> Option<ChatRoles> {
    match v {
        OpenAiRole::System => Some(ChatRoles::System),
        OpenAiRole::User => Some(ChatRoles::User),
        OpenAiRole::Assistant => Some(ChatRoles::Assistant),
        _ => None,
    }
}

/// The vendor role a canonical role is sent as.
pub fn to_vendor_role(r: ChatRoles) -> (v: OpenAiRole)
    ensures
        v == to_vendor_spec(r),
{
    match r {
        ChatRoles::System => OpenAiRole::System,
        ChatRoles::User => OpenAiRole::User,
        ChatRoles::Assistant => OpenAiRole::Assistant,
    }
}

/// The canonical role a vendor role stands for; the vendor's extra roles
/// have none.
pub fn from_vendor_role(v: OpenAiRole) -> (r: Option<ChatRoles>)
    ensures
        r == from_vendor_spec(v),
{
    match v {
        OpenAiRole::System => Some(ChatRoles::System),
        OpenAiRole::User => Some(ChatRoles::User),
        OpenAiRole::Assistant => Some(ChatRoles::Assistant),
        _ => None,
    }
}

/// Sending a canonical role to the vendor and reading it back gives the
/// same role.
pub proof fn lemma_vendor_role_round_trip(r: ChatRoles)
    ensures
        from_vendor_spec(to_vendor_spec(r)) == Some(r),
{
}

/// One message in the vendor's shape.
#[derive(Clone, Debug)]
pub struct OpenAiMessage {
    pub role: OpenAiRole,
    pub content: String,
}

/// A chat-completion request in the vendor's shape.
#[derive(Clone, Debug)]
pub struct OpenAiChatRequest {
    pub model: String,
    pub messages: Vec<OpenAiMessage>,
    pub temperature_milli: Option<i32>,
    pub max_tokens: Option<u32>,
}

/// The deadline an adapter's calls carry unless one is configured.
pub const DEFAULT_TIMEOUT_MS: u64 = 30000;

/// What an adapter is built with: credentials and endpoint settings.
#[derive(Clone, Debug)]
pub struct ProviderConfig {
    pub api_key: String,
    pub base_url: Option<String>,
    pub request_timeout_ms: u64,
}

/// The OpenAI adapter: its configuration and the translations between the
/// canonical model and the vendor's.
#[derive(Clone, Debug)]
pub struct OpenAIProvider {
    pub config: ProviderConfig,
}

impl OpenAIProvider {
    /// An adapter for the given key, on the vendor's default endpoint and
    /// with the default deadline.
    pub fn new(api_key: String) -> (r: OpenAIProvider)
        ensures
            r.config.api_key == api_key,
            r.config.base_url is None,
            r.config.request_timeout_ms == DEFAULT_TIMEOUT_MS,
    {
        OpenAIProvider {
            config: ProviderConfig { api_key, base_url: None, request_timeout_ms: DEFAULT_TIMEOUT_MS },
        }
    }

    /// An adapter with an explicit configuration.
    pub fn with_config(config: ProviderConfig) -> (r: OpenAIProvider)
        ensures
            r.config == config,
    {
        OpenAIProvider { config }
    }

    /// Whether the adapter offers streamed answers.
    pub fn supports_streaming(&self) -> (r: bool)
        ensures
            r,
    {
        true
    }

    /// The stable name this adapter is registered under.
    pub fn get_provider_name(&self) -> (r: &'static str)
        ensures
            r@ == "openai"@,
    {
        "openai"
    }

    /// Translates one validated message to the vendor's shape.
    pub fn convert_message(&self, m: &ValidMessage) -> (r: OpenAiMessage)
        ensures
            r.role == to_vendor_spec(m.role),
            r.content@ == m.content@,
    {
        OpenAiMessage { role: to_vendor_role(m.role), content: m.content.clone() }
    }

    /// Translates a validated request to the vendor's shape.
    pub fn build_request(&self, req: &ValidRequest) -> (r: OpenAiChatRequest)
        ensures
            r.model@ == req.model@,
            r.messages@.len() == req.messages@.len(),
            forall|i: int|
                0 <= i < r.messages@.len() ==> {
                    &&& (#[trigger] r.messages@[i]).role == to_vendor_spec(req.messages@[i].role)
                    &&& r.messages@[i].content@ == req.messages@[i].content@
                },
            r.temperature_milli == req.temperature_milli,
            r.max_tokens == req.max_tokens,
    {
        let mut messages: Vec<OpenAiMessage> = Vec::new();
        let mut i: usize = 0;
        while i < req.messages.len()
            invariant
                i <= req.messages@.len(),
                messages@.len() == i,
                forall|j: int|
                    0 <= j < i ==> {
                        &&& (#[trigger] messages@[j]).role == to_vendor_spec(req.messages@[j].role)
                        &&& messages@[j].content@ == req.messages@[j].content@
                    },
            decreases req.messages@.len() - i,
        {
            messages.push(self.convert_message(&req.messages[i]));
            i = i + 1;
        }
        OpenAiChatRequest {
            model: req.model.clone(),
            messages,
            temperature_milli: req.temperature_milli,
            max_tokens: req.max_tokens,
        }
    }

    /// Reads the answer out of a chat completion: the content of the first
    /// choice (empty when there is none or it has no content) and the total
    /// token count the vendor reported.
    pub fn response_from(choices: Vec<Option<String>>, total_tokens: Option<u32>) -> (r:
        LlmResponse)
        ensures
            choices@.len() > 0 && choices@[0] is Some ==> r.content@ == choices@[0]->0@,
            !(choices@.len() > 0 && choices@[0] is Some) ==> r.content@.len() == 0,
            r.tokens_used == total_tokens,
    {
        let mut choices = choices;
        let content = if choices.len() > 0 {
            match choices.swap_remove(0) {
                Some(c) => c,
                None => String::new(),
            }
        } else {
            String::new()
        };
        LlmResponse { content, tokens_used: total_tokens }
    }
}

/// Where a failure of the vendor's client library came from.
#[derive(Clone, Copy, Debug, PartialEq, Eq, Structural)]
pub enum OpenAiErrorSource {
    /// The HTTP transport.
    Http,
    /// An error object returned by the API.
    Api,
    /// A response that could not be decoded.
    Decode,
    /// The event stream of a streamed answer.
    Stream,
    /// Arguments rejected before the call was made.
    InvalidArgument,
    /// Local file handling.
    File,
}

/// The facts about a client-library failure that decide its classification.
#[derive(Clone, Debug)]
pub struct OpenAiErrorInfo {
    pub source: OpenAiErrorSource,
    /// The HTTP status, only when the transport itself reported one; an
    /// answered request that failed carries none and is told apart by its
    /// error code and type.
    pub status: Option<u16>,
    pub timed_out: bool,
    pub connect_failed: bool,
    /// The API's error code, when it sent one.
    pub code: Option<String>,
    /// The API's error type, when it sent one.
    pub error_type: Option<String>,
    pub message: String,
}

pub open spec fn is_code(code: Option<String>, name: Seq<char>) -> bool {
    match code {
        Some(c) => c@ == name,
        None => false,
    }
}

/// The vendor failure a client-library error stands for.
pub open spec fn classify_spec(e: OpenAiErrorInfo) -> VendorFailure {
    match e.source {
        OpenAiErrorSource::Http => if e.timed_out {
            VendorFailure::Timeout
        } else if e.status is Some {
            VendorFailure::Status(e.status->0)
        } else if e.connect_failed {
            VendorFailure::ConnectionReset
        } else {
            VendorFailure::Other(e.message)
        },
        OpenAiErrorSource::Api => if is_code(e.code, "invalid_api_key"@) {
            VendorFailure::InvalidCredentials
        } else if is_code(e.code, "rate_limit_exceeded"@) || is_code(e.code, "insufficient_quota"@)
            || is_code(e.error_type, "insufficient_quota"@) {
            VendorFailure::QuotaExceeded
        } else if is_code(e.error_type, "server_error"@) {
            VendorFailure::ServerError
        } else if is_code(e.error_type, "invalid_request_error"@) {
            VendorFailure::MalformedRequest
        } else {
            VendorFailure::Other(e.message)
        },
        OpenAiErrorSource::Stream => VendorFailure::ConnectionReset,
        OpenAiErrorSource::InvalidArgument => VendorFailure::MalformedRequest,
        _ => VendorFailure::Other(e.message),
    }
}

fn code_is(code: &Option<String>, name: &str) -> (r: bool)
    ensures
        r == is_code(*code, name@),
{
    match code {
        Some(c) => *c == String::from_str(name),
        None => false,
    }
}

/// Classifies a failure of the vendor's client library for the error
/// translator.
pub fn classify_error(e: OpenAiErrorInfo) -> (r: VendorFailure)
    ensures
        r == classify_spec(e),
{
    match e.source {
        OpenAiErrorSource::Http => if e.timed_out {
            VendorFailure::Timeout
        } else if let Some(s) = e.status {
            VendorFailure::Status(s)
        } else if e.connect_failed {
            VendorFailure::ConnectionReset
        } else {
            VendorFailure::Other(e.message)
        },
        OpenAiErrorSource::Api => if code_is(&e.code, "invalid_api_key") {
            VendorFailure::InvalidCredentials
        } else if code_is(&e.code, "rate_limit_exceeded") || code_is(&e.code, "insufficient_quota")
            || code_is(&e.error_type, "insufficient_quota") {
            VendorFailure::QuotaExceeded
        } else if code_is(&e.error_type, "server_error") {
            VendorFailure::ServerError
        } else if code_is(&e.error_type, "invalid_request_error") {
            VendorFailure::MalformedRequest
        } else {
            VendorFailure::Other(e.message)
        },
        OpenAiErrorSource::Stream => VendorFailure::ConnectionReset,
        OpenAiErrorSource::InvalidArgument => VendorFailure::MalformedRequest,
        _ => VendorFailure::Other(e.message),
    }
}

} // verus!
