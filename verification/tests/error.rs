use llm_chat::error::{ErrorKind, Rejection, Setting};

#[test]
fn settings_go_by_the_names_of_their_variables() {
    assert_eq!(Setting::Provider.name(), "CURRENT_MODEL");
    assert_eq!(Setting::ApiKey.name(), "GEMINI_API_KEY");
    assert_eq!(Setting::CloudModel.name(), "GEMINI_MODEL");
    assert_eq!(Setting::LocalUrl.name(), "LOCAL_LLM_URL");
    assert_eq!(Setting::LocalModel.name(), "LOCAL_MODEL");
}

#[test]
fn configuration_message_names_the_setting() {
    assert_eq!(
        ErrorKind::Configuration(Setting::LocalUrl).message(),
        "Configuration Error: LOCAL_LLM_URL must be set in .env"
    );
    assert_eq!(
        ErrorKind::Configuration(Setting::ApiKey).message(),
        "Configuration Error: GEMINI_API_KEY must be set in .env"
    );
}

#[test]
fn transport_message_holds_the_cause() {
    assert_eq!(
        ErrorKind::Transport("connection refused".to_string()).message(),
        "Request failed: connection refused"
    );
    assert_eq!(ErrorKind::Transport(String::new()).message(), "Request failed: ");
}

#[test]
fn rejection_message_holds_the_body() {
    assert_eq!(
        ErrorKind::UpstreamRejected(Rejection::Body("{\"error\":\"quota\"}".to_string())).message(),
        "API Error: {\"error\":\"quota\"}"
    );
}

#[test]
fn rejection_message_holds_the_status_and_its_reason() {
    assert_eq!(
        ErrorKind::UpstreamRejected(Rejection::Status(503)).message(),
        "Local Server Error: 503 Service Unavailable"
    );
    assert_eq!(
        ErrorKind::UpstreamRejected(Rejection::Status(404)).message(),
        "Local Server Error: 404 Not Found"
    );
    assert_eq!(
        ErrorKind::UpstreamRejected(Rejection::Status(100)).message(),
        "Local Server Error: 100 Continue"
    );
}

#[test]
fn rejection_message_for_a_status_without_a_reason() {
    assert_eq!(
        ErrorKind::UpstreamRejected(Rejection::Status(799)).message(),
        "Local Server Error: 799 <unknown status code>"
    );
    assert_eq!(
        ErrorKind::UpstreamRejected(Rejection::Status(999)).message(),
        "Local Server Error: 999 <unknown status code>"
    );
}

#[test]
fn rejection_message_for_a_number_that_is_no_status() {
    assert_eq!(
        ErrorKind::UpstreamRejected(Rejection::Status(99)).message(),
        "Local Server Error: invalid status code"
    );
    assert_eq!(
        ErrorKind::UpstreamRejected(Rejection::Status(1000)).message(),
        "Local Server Error: invalid status code"
    );
    assert_eq!(
        ErrorKind::UpstreamRejected(Rejection::Status(0)).message(),
        "Local Server Error: invalid status code"
    );
}

#[test]
fn decode_message_holds_the_cause() {
    assert_eq!(
        ErrorKind::DecodeFailure("expected value at line 1 column 1".to_string()).message(),
        "Failed to parse JSON: expected value at line 1 column 1"
    );
}

#[test]
fn rejected_keeps_the_text_or_none_of_it() {
    assert_eq!(
        ErrorKind::rejected(Some("overloaded".to_string())),
        ErrorKind::UpstreamRejected(Rejection::Body("overloaded".to_string()))
    );
    assert_eq!(
        ErrorKind::rejected(None),
        ErrorKind::UpstreamRejected(Rejection::Body(String::new()))
    );
    assert_eq!(ErrorKind::rejected(None).message(), "API Error: ");
}
