use llm_gateway::error::{translate, ErrorKind, VendorFailure};
use llm_gateway::openai::{classify_error, OpenAiErrorInfo, OpenAiErrorSource};

fn info(source: OpenAiErrorSource) -> OpenAiErrorInfo {
    OpenAiErrorInfo {
        source,
        status: None,
        timed_out: false,
        connect_failed: false,
        code: None,
        error_type: None,
        message: "boom".to_string(),
    }
}

#[test]
fn http_errors_classify_by_timeout_status_and_connect() {
    let mut e = info(OpenAiErrorSource::Http);
    e.timed_out = true;
    e.status = Some(500);
    assert!(matches!(classify_error(e), VendorFailure::Timeout));
    let mut e = info(OpenAiErrorSource::Http);
    e.status = Some(401);
    assert!(matches!(classify_error(e), VendorFailure::Status(401)));
    let mut e = info(OpenAiErrorSource::Http);
    e.connect_failed = true;
    assert!(matches!(classify_error(e), VendorFailure::ConnectionReset));
    match classify_error(info(OpenAiErrorSource::Http)) {
        VendorFailure::Other(m) => assert_eq!(m, "boom"),
        _ => panic!("unexpected classification"),
    }
}

#[test]
fn api_errors_classify_by_code() {
    let mut e = info(OpenAiErrorSource::Api);
    e.code = Some("invalid_api_key".to_string());
    assert!(matches!(classify_error(e), VendorFailure::InvalidCredentials));
    let mut e = info(OpenAiErrorSource::Api);
    e.code = Some("rate_limit_exceeded".to_string());
    assert!(matches!(classify_error(e), VendorFailure::QuotaExceeded));
    let mut e = info(OpenAiErrorSource::Api);
    e.code = Some("insufficient_quota".to_string());
    assert!(matches!(classify_error(e), VendorFailure::QuotaExceeded));
    let mut e = info(OpenAiErrorSource::Api);
    e.code = Some("model_not_found".to_string());
    assert!(matches!(classify_error(e), VendorFailure::Other(_)));
}

#[test]
fn other_sources_classify_by_kind() {
    assert!(matches!(classify_error(info(OpenAiErrorSource::Stream)), VendorFailure::ConnectionReset));
    assert!(matches!(
        classify_error(info(OpenAiErrorSource::InvalidArgument)),
        VendorFailure::MalformedRequest
    ));
    assert!(matches!(classify_error(info(OpenAiErrorSource::Decode)), VendorFailure::Other(_)));
    assert!(matches!(classify_error(info(OpenAiErrorSource::File)), VendorFailure::Other(_)));
}

#[test]
fn api_errors_classify_by_type() {
    let mut e = info(OpenAiErrorSource::Api);
    e.error_type = Some("server_error".to_string());
    assert!(matches!(classify_error(e), VendorFailure::ServerError));
    let mut e = info(OpenAiErrorSource::Api);
    e.error_type = Some("invalid_request_error".to_string());
    assert!(matches!(classify_error(e), VendorFailure::MalformedRequest));
    let mut e = info(OpenAiErrorSource::Api);
    e.error_type = Some("insufficient_quota".to_string());
    assert!(matches!(classify_error(e), VendorFailure::QuotaExceeded));
    let mut e = info(OpenAiErrorSource::Api);
    e.code = Some("invalid_api_key".to_string());
    e.error_type = Some("invalid_request_error".to_string());
    assert!(matches!(classify_error(e), VendorFailure::InvalidCredentials));
}

#[test]
fn answered_errors_map_to_the_gateway_taxonomy() {
    let mut e = info(OpenAiErrorSource::Api);
    e.error_type = Some("server_error".to_string());
    let c = translate(classify_error(e));
    assert_eq!(c.kind, ErrorKind::ProviderUnavailable);
    assert!(c.retryable);
    assert_eq!(c.http_status(), 503);
    let mut e = info(OpenAiErrorSource::Api);
    e.error_type = Some("invalid_request_error".to_string());
    let c = translate(classify_error(e));
    assert_eq!(c.kind, ErrorKind::InvalidRequest);
    assert!(!c.retryable);
    assert_eq!(c.http_status(), 400);
}
