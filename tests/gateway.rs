use llm_gateway::auth::UnAuthorizedError;
use llm_gateway::catalog::aggregate;
use llm_gateway::error::{translate, CanonicalError, ErrorKind, VendorFailure};
use llm_gateway::gateway::{check_streaming, finish_chat, prepare_chat};
use llm_gateway::message::{ChatMessage, ChatRoles, LlmRequest, LlmResponse};
use llm_gateway::normalize::normalize;
use llm_gateway::openai::{from_vendor_role, to_vendor_role, OpenAIProvider, OpenAiRole};
use llm_gateway::registry::ProviderRegistry;
use llm_gateway::stream::{Delivery, StreamBroker, StreamEvent, StreamState};

fn msg(role: &str, content: &str) -> ChatMessage {
    ChatMessage { role: role.to_string(), content: content.to_string() }
}

fn request(messages: Vec<ChatMessage>) -> LlmRequest {
    LlmRequest { model: "gpt-x".to_string(), messages, temperature_milli: None, max_tokens: None }
}

fn expect_err<T>(r: Result<T, CanonicalError>) -> CanonicalError {
    match r {
        Ok(_) => panic!("expected an error"),
        Err(e) => e,
    }
}

#[test]
fn empty_messages_are_invalid() {
    let e = expect_err(normalize(&request(vec![])));
    assert_eq!(e.kind, ErrorKind::InvalidRequest);
    assert!(!e.retryable);
    assert!(e.message.starts_with("messages"));
}

#[test]
fn empty_messages_never_reach_an_adapter() {
    let mut reg: ProviderRegistry<u32> = ProviderRegistry::new();
    assert!(reg.register("openai".to_string(), 7).is_ok());
    let e = expect_err(prepare_chat(&reg, &"openai".to_string(), &request(vec![])));
    assert_eq!(e.kind, ErrorKind::InvalidRequest);
}

#[test]
fn tool_role_is_invalid_and_names_messages() {
    let e = expect_err(normalize(&request(vec![msg("user", "hi"), msg("tool", "x")])));
    assert_eq!(e.kind, ErrorKind::InvalidRequest);
    assert!(e.message.starts_with("messages"));
    assert_eq!(e.message, "messages: role must be system, user or assistant");
}

#[test]
fn checks_run_in_field_order() {
    let mut r = request(vec![msg("developer", "x")]);
    r.temperature_milli = Some(5000);
    r.max_tokens = Some(0);
    assert!(expect_err(normalize(&r)).message.starts_with("messages"));
    r.messages = vec![msg("system", "be brief")];
    assert!(expect_err(normalize(&r)).message.starts_with("temperature"));
    r.temperature_milli = Some(2000);
    assert!(expect_err(normalize(&r)).message.starts_with("max_tokens"));
    r.max_tokens = Some(1);
    assert!(normalize(&r).is_ok());
}

#[test]
fn negative_temperature_is_invalid() {
    let mut r = request(vec![msg("user", "hi")]);
    r.temperature_milli = Some(-1);
    assert_eq!(expect_err(normalize(&r)).message, "temperature: must be between 0.0 and 2.0");
    r.temperature_milli = Some(0);
    assert!(normalize(&r).is_ok());
}

#[test]
fn normalize_keeps_request_content() {
    let mut r = request(vec![msg("system", "s"), msg("user", "u"), msg("assistant", "a")]);
    r.temperature_milli = Some(700);
    r.max_tokens = Some(128);
    let v = normalize(&r).unwrap();
    assert_eq!(v.model, "gpt-x");
    let roles: Vec<ChatRoles> = v.messages.iter().map(|m| m.role).collect();
    assert_eq!(roles, vec![ChatRoles::System, ChatRoles::User, ChatRoles::Assistant]);
    assert_eq!(v.messages[1].content, "u");
    assert_eq!(v.temperature_milli, Some(700));
    assert_eq!(v.max_tokens, Some(128));
    assert_eq!(r.messages[0].role, "system");
}

#[test]
fn roles_round_trip_through_names_and_vendor() {
    for r in [ChatRoles::System, ChatRoles::User, ChatRoles::Assistant] {
        assert_eq!(ChatRoles::parse(&r.name()), Some(r));
        assert_eq!(from_vendor_role(to_vendor_role(r)), Some(r));
    }
    assert_eq!(to_vendor_role(ChatRoles::System), OpenAiRole::System);
    assert_eq!(from_vendor_role(OpenAiRole::Tool), None);
    assert_eq!(ChatRoles::parse(&"tool".to_string()), None);
    assert_eq!(ChatRoles::User.name(), "user");
}

#[test]
fn stream_numbers_chunks_and_ends_once() {
    let mut b = StreamBroker::new();
    let mut out = Vec::new();
    for ev in [
        StreamEvent::Text("He".to_string()),
        StreamEvent::Text("llo".to_string()),
        StreamEvent::End,
        StreamEvent::Text("late".to_string()),
        StreamEvent::Failure(VendorFailure::Timeout),
    ] {
        if let Some(d) = b.step(ev) {
            out.push(d);
        }
    }
    assert_eq!(out.len(), 3);
    let mut text = String::new();
    for (i, d) in out.iter().enumerate() {
        match d {
            Delivery::Chunk(c) => {
                assert_eq!(c.sequence_number, i as u64);
                assert_eq!(c.is_final, i == 2);
                text.push_str(&c.text);
            }
            Delivery::Terminal(_) => panic!("no terminal error expected"),
        }
    }
    assert_eq!(text, "Hello");
    assert!(!b.is_open());
}

#[test]
fn cancel_stops_delivery() {
    let mut b = StreamBroker::new();
    assert!(matches!(b.step(StreamEvent::Text("a".to_string())), Some(Delivery::Chunk(_))));
    assert!(matches!(b.step(StreamEvent::Text("b".to_string())), Some(Delivery::Chunk(_))));
    match b.step(StreamEvent::Cancel) {
        Some(Delivery::Terminal(e)) => {
            assert_eq!(e.kind, ErrorKind::Unknown);
            assert!(!e.retryable);
        }
        _ => panic!("cancel must end the stream"),
    }
    assert!(b.step(StreamEvent::Text("c".to_string())).is_none());
    assert!(b.step(StreamEvent::End).is_none());
    assert!(b.step(StreamEvent::Cancel).is_none());
}

#[test]
fn transport_failure_is_terminal_error() {
    let mut b = StreamBroker::new();
    assert!(b.step(StreamEvent::Text("x".to_string())).is_some());
    match b.step(StreamEvent::Failure(VendorFailure::ConnectionReset)) {
        Some(Delivery::Terminal(e)) => {
            assert_eq!(e.kind, ErrorKind::ProviderUnavailable);
            assert!(e.retryable);
        }
        _ => panic!("failure must end the stream with an error"),
    }
    assert!(b.step(StreamEvent::End).is_none());
}

#[test]
fn aggregate_tolerates_one_timeout() {
    let mut reg: ProviderRegistry<u8> = ProviderRegistry::new();
    reg.register("a".to_string(), 1).unwrap();
    reg.register("b".to_string(), 2).unwrap();
    reg.register("c".to_string(), 3).unwrap();
    let outcomes = vec![
        Ok(vec!["m1".to_string(), "m2".to_string()]),
        Err(VendorFailure::Timeout),
        Ok(vec!["m3".to_string()]),
    ];
    let cat = aggregate(&reg, &outcomes);
    assert_eq!(cat.len(), 3);
    assert_eq!(cat[0].name, "a");
    assert_eq!(cat[0].models, vec!["m1".to_string(), "m2".to_string()]);
    assert_eq!(cat[1].name, "b");
    assert!(cat[1].models.is_empty());
    assert_eq!(cat[2].name, "c");
    assert_eq!(cat[2].models, vec!["m3".to_string()]);
}

#[test]
fn aggregate_of_empty_registry_is_empty() {
    let reg: ProviderRegistry<u8> = ProviderRegistry::new();
    assert!(aggregate(&reg, &vec![]).is_empty());
}

#[test]
fn openai_chat_scenario() {
    let mut reg: ProviderRegistry<OpenAIProvider> = ProviderRegistry::new();
    let p = OpenAIProvider::new("sk-test".to_string());
    reg.register(p.get_provider_name().to_string(), p).unwrap();
    let req = request(vec![msg("user", "hi")]);
    let (adapter, valid) = prepare_chat(&reg, &"openai".to_string(), &req).unwrap();
    assert_eq!(adapter.config.api_key, "sk-test");
    let wire = adapter.build_request(&valid);
    assert_eq!(wire.model, "gpt-x");
    assert_eq!(wire.messages[0].role, OpenAiRole::User);
    assert_eq!(wire.messages[0].content, "hi");

    let resp = OpenAIProvider::response_from(vec![Some("hello there".to_string())], Some(12));
    let ok = finish_chat(Ok(resp)).unwrap();
    assert_eq!(ok.content, "hello there");
    assert_eq!(ok.tokens_used, Some(12));

    let e = expect_err(finish_chat(Err(VendorFailure::Timeout)));
    assert_eq!(e.kind, ErrorKind::ProviderUnavailable);
    assert!(e.retryable);
    assert_eq!(e.http_status(), 503);
}

#[test]
fn unknown_provider_is_unsupported() {
    let reg: ProviderRegistry<u8> = ProviderRegistry::new();
    let e = expect_err(prepare_chat(&reg, &"nope".to_string(), &request(vec![msg("user", "hi")])));
    assert_eq!(e.kind, ErrorKind::Unsupported);
    assert_eq!(e.http_status(), 501);
}

#[test]
fn duplicate_registration_is_refused() {
    let mut reg: ProviderRegistry<u8> = ProviderRegistry::new();
    assert!(reg.register("openai".to_string(), 1).is_ok());
    assert!(reg.register("openai".to_string(), 2).is_err());
    assert_eq!(reg.len(), 1);
    assert_eq!(*reg.resolve(&"openai".to_string()).unwrap(), 1);
    assert_eq!(reg.list_providers(), vec!["openai".to_string()]);
}

#[test]
fn error_table() {
    let cases = [
        (VendorFailure::Status(401), ErrorKind::AuthFailure, false, 401),
        (VendorFailure::InvalidCredentials, ErrorKind::AuthFailure, false, 401),
        (VendorFailure::Status(400), ErrorKind::InvalidRequest, false, 400),
        (VendorFailure::MalformedRequest, ErrorKind::InvalidRequest, false, 400),
        (VendorFailure::Status(429), ErrorKind::RateLimited, true, 429),
        (VendorFailure::QuotaExceeded, ErrorKind::RateLimited, true, 429),
        (VendorFailure::Status(502), ErrorKind::ProviderUnavailable, true, 503),
        (VendorFailure::ServerError, ErrorKind::ProviderUnavailable, true, 503),
        (VendorFailure::ConnectionReset, ErrorKind::ProviderUnavailable, true, 503),
        (VendorFailure::Timeout, ErrorKind::ProviderUnavailable, true, 503),
        (VendorFailure::UnsupportedOperation, ErrorKind::Unsupported, false, 501),
        (VendorFailure::Status(418), ErrorKind::Unknown, false, 500),
        (VendorFailure::Other("odd".to_string()), ErrorKind::Unknown, false, 500),
    ];
    for (f, kind, retry, status) in cases {
        let e = translate(f);
        assert_eq!(e.kind, kind);
        assert_eq!(e.retryable, retry);
        assert_eq!(e.http_status(), status);
    }
    assert_eq!(translate(VendorFailure::Other("odd".to_string())).message, "odd");
}

#[test]
fn streaming_capability_gate() {
    assert!(check_streaming(true).is_ok());
    assert_eq!(expect_err(check_streaming(false)).kind, ErrorKind::Unsupported);
    assert!(OpenAIProvider::new("k".to_string()).supports_streaming());
}

#[test]
fn vendor_request_keeps_max_tokens() {
    let mut r = request(vec![msg("assistant", "a")]);
    r.max_tokens = Some(70000);
    let p = OpenAIProvider::new("k".to_string());
    let w = p.build_request(&normalize(&r).unwrap());
    assert_eq!(w.max_tokens, Some(70000));
    assert_eq!(w.messages[0].role, OpenAiRole::Assistant);
    r.max_tokens = Some(300);
    assert_eq!(p.build_request(&normalize(&r).unwrap()).max_tokens, Some(300));
}

#[test]
fn response_without_choices_is_empty() {
    let r: LlmResponse = OpenAIProvider::response_from(vec![], None);
    assert_eq!(r.content, "");
    assert_eq!(r.tokens_used, None);
    let r = OpenAIProvider::response_from(vec![None, Some("second".to_string())], Some(3));
    assert_eq!(r.content, "");
    let r = OpenAIProvider::response_from(
        vec![Some("first".to_string()), Some("second".to_string())],
        Some(3),
    );
    assert_eq!(r.content, "first");
}

#[test]
fn unauthorized_error_text() {
    let e = UnAuthorizedError::new("/llm/models");
    assert_eq!(e.route(), "/llm/models");
    assert_eq!(e.message(), "Unauthorized access to route: /llm/models");
    assert_eq!(e.description(), "Unauthorized access attempted");
    assert_eq!(OpenAIProvider::new("k".to_string()).get_provider_name(), "openai");
}

#[test]
fn stream_ends_with_error_when_numbers_run_out() {
    let mut b = StreamBroker { next_seq: u64::MAX, state: StreamState::Open };
    match b.step(StreamEvent::Text("x".to_string())) {
        Some(Delivery::Terminal(e)) => assert_eq!(e.kind, ErrorKind::Unknown),
        _ => panic!("expected a terminal error"),
    }
    assert!(b.step(StreamEvent::End).is_none());
    let mut b = StreamBroker { next_seq: u64::MAX - 1, state: StreamState::Open };
    match b.step(StreamEvent::End) {
        Some(Delivery::Chunk(c)) => {
            assert_eq!(c.sequence_number, u64::MAX - 1);
            assert!(c.is_final);
            assert_eq!(c.text, "");
        }
        _ => panic!("expected the final chunk"),
    }
}
