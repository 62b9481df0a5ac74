use llm_chat::error::{ErrorKind, Rejection, Setting};
use llm_chat::json::Json;
use llm_chat::model_manager::{
    cloud_body_around, local_body_around, try_create_model, AfterStatus, Backend, BackendConfig,
    GeminiClient, LlmModule, LocalClient, Method, OutboundRequest, Upstream, DEFAULT_CLOUD_MODEL,
    DEFAULT_LOCAL_MODEL, JSON_CONTENT_TYPE, OUTBOUND_TIMEOUT_SECS, PLACEHOLDER,
};

fn settings(
    provider: Option<&str>,
    api_key: Option<&str>,
    cloud_model: Option<&str>,
    local_url: Option<&str>,
    local_model: Option<&str>,
) -> BackendConfig {
    BackendConfig {
        provider: provider.map(str::to_string),
        api_key: api_key.map(str::to_string),
        cloud_model: cloud_model.map(str::to_string),
        local_url: local_url.map(str::to_string),
        local_model: local_model.map(str::to_string),
    }
}

fn cloud() -> GeminiClient {
    GeminiClient::new("k-123".to_string())
}

fn local() -> LocalClient {
    LocalClient::new("http://localhost:11434/api/generate".to_string())
}

fn body_of(text: &str) -> Result<Vec<u8>, String> {
    Ok(text.as_bytes().to_vec())
}

fn replying(status: u16, body: &str) -> Upstream {
    Upstream { sent: Ok(status), text: Some(body.to_string()), body: body_of(body) }
}

#[test]
fn constants_have_their_documented_values() {
    assert_eq!(OUTBOUND_TIMEOUT_SECS, 30);
    assert_eq!(PLACEHOLDER, "no response text found");
    assert_eq!(DEFAULT_CLOUD_MODEL, "gemini-1.5-flash-latest");
    assert_eq!(DEFAULT_LOCAL_MODEL, "llama3");
    assert_eq!(JSON_CONTENT_TYPE, "application/json");
}

#[test]
fn new_clients_use_the_default_models() {
    assert_eq!(
        cloud(),
        GeminiClient { api_key: "k-123".to_string(), model: "gemini-1.5-flash-latest".to_string() }
    );
    assert_eq!(
        local(),
        LocalClient {
            url: "http://localhost:11434/api/generate".to_string(),
            model: "llama3".to_string()
        }
    );
}

#[test]
fn local_provider_selects_the_local_client() {
    let config = settings(Some("local"), Some("k"), Some("m"), Some("http://host/api"), None);
    assert_eq!(
        try_create_model(&config),
        Ok(Backend::Local(LocalClient {
            url: "http://host/api".to_string(),
            model: "llama3".to_string()
        }))
    );
}

#[test]
fn local_model_setting_replaces_the_default() {
    let config = settings(Some("local"), None, None, Some("http://host/api"), Some("mistral"));
    assert_eq!(
        try_create_model(&config),
        Ok(Backend::Local(LocalClient {
            url: "http://host/api".to_string(),
            model: "mistral".to_string()
        }))
    );
}

#[test]
fn local_provider_without_url_is_a_configuration_error() {
    let config = settings(Some("local"), Some("k"), None, None, Some("mistral"));
    assert_eq!(try_create_model(&config), Err(ErrorKind::Configuration(Setting::LocalUrl)));
}

#[test]
fn absent_provider_selects_the_cloud_client() {
    let config = settings(None, Some("k-123"), None, Some("http://host/api"), None);
    assert_eq!(try_create_model(&config), Ok(Backend::Cloud(cloud())));
}

#[test]
fn any_other_provider_selects_the_cloud_client() {
    for name in ["gemini", "Local", "LOCAL", "local ", " local", "", "locale", "loca"] {
        let config = settings(Some(name), Some("k-123"), None, Some("http://host/api"), None);
        assert_eq!(try_create_model(&config), Ok(Backend::Cloud(cloud())), "provider {name:?}");
    }
}

#[test]
fn cloud_model_setting_replaces_the_default() {
    let config = settings(Some("gemini"), Some("k"), Some("gemini-pro"), None, None);
    assert_eq!(
        try_create_model(&config),
        Ok(Backend::Cloud(GeminiClient { api_key: "k".to_string(), model: "gemini-pro".to_string() }))
    );
}

#[test]
fn cloud_provider_without_key_is_a_configuration_error() {
    let config = settings(None, None, Some("gemini-pro"), Some("http://host/api"), None);
    assert_eq!(try_create_model(&config), Err(ErrorKind::Configuration(Setting::ApiKey)));
    let config = settings(Some("gemini"), None, None, None, None);
    assert_eq!(try_create_model(&config), Err(ErrorKind::Configuration(Setting::ApiKey)));
}

#[test]
fn selection_follows_the_settings_of_each_call() {
    let mut config = settings(Some("local"), Some("k-123"), None, None, None);
    assert!(try_create_model(&config).is_err());
    config.local_url = Some("http://host/api".to_string());
    assert!(matches!(try_create_model(&config), Ok(Backend::Local(_))));
    config.provider = None;
    assert_eq!(try_create_model(&config), Ok(Backend::Cloud(cloud())));
}

#[test]
fn cloud_request_is_the_documented_post() {
    let request = cloud().request("hello");
    assert_eq!(
        request,
        OutboundRequest {
            method: Method::Post,
            url: "https://generativelanguage.googleapis.com/v1beta/models/gemini-1.5-flash-latest:generateContent?key=k-123".to_string(),
            content_type: "application/json",
            body: "{\"contents\":[{\"parts\":[{\"text\":\"hello\"}]}]}".to_string(),
        }
    );
}

#[test]
fn cloud_request_uses_the_model_it_was_given() {
    let client = GeminiClient { api_key: "abc".to_string(), model: "gemini-pro".to_string() };
    assert_eq!(
        client.request("x").url,
        "https://generativelanguage.googleapis.com/v1beta/models/gemini-pro:generateContent?key=abc"
    );
}

#[test]
fn local_request_is_the_documented_post() {
    let request = local().request("hello");
    assert_eq!(
        request,
        OutboundRequest {
            method: Method::Post,
            url: "http://localhost:11434/api/generate".to_string(),
            content_type: "application/json",
            body: "{\"model\":\"llama3\",\"prompt\":\"hello\",\"stream\":false}".to_string(),
        }
    );
}

#[test]
fn request_writes_the_prompt_as_a_json_string() {
    let prompt = "say \"hi\"\n\\ tab\t é \u{1}";
    let quoted = "\"say \\\"hi\\\"\\n\\\\ tab\\t é \\u0001\"";
    assert_eq!(
        cloud().request(prompt).body,
        format!("{{\"contents\":[{{\"parts\":[{{\"text\":{quoted}}}]}}]}}")
    );
    assert_eq!(
        local().request(prompt).body,
        format!("{{\"model\":\"llama3\",\"prompt\":{quoted},\"stream\":false}}")
    );
}

#[test]
fn request_bodies_are_what_serde_json_writes_for_the_documents() {
    let prompt = "line one\nline \"two\"";
    let mut part = serde_json::Map::new();
    part.insert("text".to_string(), serde_json::Value::String(prompt.to_string()));
    let mut content = serde_json::Map::new();
    content.insert(
        "parts".to_string(),
        serde_json::Value::Array(vec![serde_json::Value::Object(part)]),
    );
    let mut envelope = serde_json::Map::new();
    envelope.insert(
        "contents".to_string(),
        serde_json::Value::Array(vec![serde_json::Value::Object(content)]),
    );
    assert_eq!(
        cloud().request(prompt).body,
        serde_json::to_string(&serde_json::Value::Object(envelope)).unwrap()
    );

    let mut flat = serde_json::Map::new();
    flat.insert("model".to_string(), serde_json::Value::String("llama3".to_string()));
    flat.insert("prompt".to_string(), serde_json::Value::String(prompt.to_string()));
    flat.insert("stream".to_string(), serde_json::Value::Bool(false));
    assert_eq!(
        local().request(prompt).body,
        serde_json::to_string(&serde_json::Value::Object(flat)).unwrap()
    );
}

#[test]
fn local_request_writes_the_model_as_a_json_string() {
    let client = LocalClient { url: "http://h".to_string(), model: "my \"model\"".to_string() };
    assert_eq!(
        client.request("p").body,
        "{\"model\":\"my \\\"model\\\"\",\"prompt\":\"p\",\"stream\":false}"
    );
}

#[test]
fn empty_prompt_is_sent_as_it_is() {
    assert_eq!(cloud().request("").body, "{\"contents\":[{\"parts\":[{\"text\":\"\"}]}]}");
    assert_eq!(
        local().request("").body,
        "{\"model\":\"llama3\",\"prompt\":\"\",\"stream\":false}"
    );
}

#[test]
fn envelopes_go_around_what_they_are_given() {
    assert_eq!(cloud_body_around("\"x\""), "{\"contents\":[{\"parts\":[{\"text\":\"x\"}]}]}");
    assert_eq!(cloud_body_around(""), "{\"contents\":[{\"parts\":[{\"text\":}]}]}");
    assert_eq!(
        local_body_around("\"m\"", "\"p\""),
        "{\"model\":\"m\",\"prompt\":\"p\",\"stream\":false}"
    );
}

#[test]
fn success_status_has_the_body_read() {
    for code in [200, 201, 204, 299] {
        assert_eq!(cloud().on_status(code), AfterStatus::ReadBody);
        assert_eq!(local().on_status(code), AfterStatus::ReadBody);
    }
}

#[test]
fn cloud_refusal_has_the_error_text_read() {
    for code in [0, 100, 199, 300, 400, 404, 500, 503, 999, 1000, u16::MAX] {
        assert_eq!(cloud().on_status(code), AfterStatus::ReadErrorText);
    }
}

#[test]
fn local_refusal_fails_with_the_status_alone() {
    for code in [0, 100, 199, 300, 400, 404, 500, 503, 999, 1000, u16::MAX] {
        assert_eq!(
            local().on_status(code),
            AfterStatus::Fail(ErrorKind::UpstreamRejected(Rejection::Status(code)))
        );
    }
}

#[test]
fn backend_does_what_its_client_does() {
    let backend = Backend::Cloud(cloud());
    assert_eq!(backend.request("hello"), cloud().request("hello"));
    assert_eq!(backend.on_status(503), AfterStatus::ReadErrorText);
    let backend = Backend::Local(local());
    assert_eq!(backend.request("hello"), local().request("hello"));
    assert_eq!(
        backend.on_status(503),
        AfterStatus::Fail(ErrorKind::UpstreamRejected(Rejection::Status(503)))
    );
    assert_eq!(
        backend.on_body(&body_of("{\"response\":\"hi there\"}")),
        Ok("hi there".to_string())
    );
}

#[test]
fn cloud_reply_is_the_text_of_the_first_part_of_the_first_candidate() {
    let body = "{\"candidates\":[{\"content\":{\"parts\":[{\"text\":\"hi there\"},{\"text\":\"second\"}],\"role\":\"model\"},\"finishReason\":\"STOP\"},{\"content\":{\"parts\":[{\"text\":\"other\"}]}}],\"usageMetadata\":{\"totalTokenCount\":7}}";
    assert_eq!(cloud().on_body(&body_of(body)), Ok("hi there".to_string()));
}

#[test]
fn cloud_reply_may_be_empty() {
    let body = "{\"candidates\":[{\"content\":{\"parts\":[{\"text\":\"\"}]}}]}";
    assert_eq!(cloud().on_body(&body_of(body)), Ok(String::new()));
}

#[test]
fn cloud_reply_falls_back_where_the_path_breaks() {
    for body in [
        "{}",
        "null",
        "[]",
        "\"hi there\"",
        "42",
        "{\"candidates\":null}",
        "{\"candidates\":[]}",
        "{\"candidates\":{\"0\":{\"content\":{\"parts\":[{\"text\":\"x\"}]}}}}",
        "{\"candidates\":[[]]}",
        "{\"candidates\":[{}]}",
        "{\"candidates\":[{\"content\":\"x\"}]}",
        "{\"candidates\":[{\"content\":{}}]}",
        "{\"candidates\":[{\"content\":{\"parts\":{}}}]}",
        "{\"candidates\":[{\"content\":{\"parts\":[]}}]}",
        "{\"candidates\":[{\"content\":{\"parts\":[{}]}}]}",
        "{\"candidates\":[{\"content\":{\"parts\":[{\"text\":null}]}}]}",
        "{\"candidates\":[{\"content\":{\"parts\":[{\"text\":7}]}}]}",
        "{\"candidates\":[{\"content\":{\"parts\":[{\"text\":[\"x\"]}]}}]}",
        "{\"candidates\":[{\"content\":{\"parts\":[{\"Text\":\"x\"}]}}]}",
        "{\"response\":\"hi there\"}",
    ] {
        assert_eq!(cloud().on_body(&body_of(body)), Ok(PLACEHOLDER.to_string()), "body {body}");
    }
}

#[test]
fn local_reply_is_the_response_member() {
    let body = "{\"model\":\"llama3\",\"response\":\"hi there\",\"done\":true}";
    assert_eq!(local().on_body(&body_of(body)), Ok("hi there".to_string()));
}

#[test]
fn local_reply_falls_back_where_the_member_is_missing_or_no_string() {
    for body in [
        "{}",
        "null",
        "[]",
        "\"hi there\"",
        "{\"response\":null}",
        "{\"response\":7}",
        "{\"response\":[\"hi\"]}",
        "{\"response\":{\"text\":\"hi\"}}",
        "{\"Response\":\"hi\"}",
        "[{\"response\":\"hi\"}]",
        "{\"candidates\":[{\"content\":{\"parts\":[{\"text\":\"hi there\"}]}}]}",
    ] {
        assert_eq!(local().on_body(&body_of(body)), Ok(PLACEHOLDER.to_string()), "body {body}");
    }
}

#[test]
fn reply_text_reads_a_document_built_by_hand() {
    let part = Json::Object(vec![("text".to_string(), Json::Text("hi there".to_string()))]);
    let content = Json::Object(vec![("parts".to_string(), Json::Array(vec![part]))]);
    let candidate = Json::Object(vec![("content".to_string(), content)]);
    let doc = Json::Object(vec![("candidates".to_string(), Json::Array(vec![candidate]))]);
    assert_eq!(cloud().reply_text(&doc), "hi there");
    assert_eq!(local().reply_text(&doc), PLACEHOLDER);

    let doc = Json::Object(vec![("response".to_string(), Json::Text("hello".to_string()))]);
    assert_eq!(local().reply_text(&doc), "hello");
    assert_eq!(cloud().reply_text(&doc), PLACEHOLDER);
}

#[test]
fn malformed_body_is_a_decode_failure() {
    assert_eq!(
        cloud().on_body(&body_of("<html>busy</html>")),
        Err(ErrorKind::DecodeFailure("expected value at line 1 column 1".to_string()))
    );
    assert_eq!(
        local().on_body(&body_of("{\"response\":\"hi")),
        Err(ErrorKind::DecodeFailure("EOF while parsing a string at line 1 column 15".to_string()))
    );
    assert_eq!(
        local().on_body(&body_of("")),
        Err(ErrorKind::DecodeFailure("EOF while parsing a value at line 1 column 0".to_string()))
    );
}

#[test]
fn unreadable_body_is_a_decode_failure() {
    let body = Err("connection reset".to_string());
    assert_eq!(cloud().on_body(&body), Err(ErrorKind::DecodeFailure("connection reset".to_string())));
    assert_eq!(local().on_body(&body), Err(ErrorKind::DecodeFailure("connection reset".to_string())));
}

#[test]
fn on_parsed_keeps_the_parser_s_description() {
    let parsed: Result<Json, String> = Err("expected value".to_string());
    assert_eq!(
        cloud().on_parsed(&parsed),
        Err(ErrorKind::DecodeFailure("expected value".to_string()))
    );
    let parsed = Ok(Json::Null);
    assert_eq!(local().on_parsed(&parsed), Ok(PLACEHOLDER.to_string()));
}

#[test]
fn chat_sends_the_request_and_reads_the_answer() {
    let exchange = local().chat("hello", &replying(200, "{\"response\":\"hi there\"}"));
    assert_eq!(exchange.request, local().request("hello"));
    assert_eq!(exchange.outcome, Ok("hi there".to_string()));
}

#[test]
fn chat_fails_where_the_server_cannot_be_reached() {
    let upstream = Upstream {
        sent: Err("error sending request".to_string()),
        text: Some("ignored".to_string()),
        body: body_of("{\"response\":\"ignored\"}"),
    };
    let exchange = local().chat("hello", &upstream);
    assert_eq!(exchange.request, local().request("hello"));
    assert_eq!(exchange.outcome, Err(ErrorKind::Transport("error sending request".to_string())));
    let exchange = cloud().chat("hello", &upstream);
    assert_eq!(exchange.outcome, Err(ErrorKind::Transport("error sending request".to_string())));
}

#[test]
fn chat_reports_a_cloud_refusal_with_its_body() {
    let exchange = cloud().chat("hello", &replying(429, "{\"error\":\"quota\"}"));
    assert_eq!(
        exchange.outcome,
        Err(ErrorKind::UpstreamRejected(Rejection::Body("{\"error\":\"quota\"}".to_string())))
    );
}

#[test]
fn chat_reports_a_cloud_refusal_without_a_readable_body() {
    let upstream = Upstream { sent: Ok(500), text: None, body: Err("reset".to_string()) };
    assert_eq!(
        cloud().chat("hello", &upstream).outcome,
        Err(ErrorKind::UpstreamRejected(Rejection::Body(String::new())))
    );
}

#[test]
fn chat_reports_a_local_refusal_with_its_status() {
    let exchange = local().chat("hello", &replying(503, "{\"response\":\"ignored\"}"));
    assert_eq!(exchange.outcome, Err(ErrorKind::UpstreamRejected(Rejection::Status(503))));
}

#[test]
fn chat_does_not_read_a_refusal_as_an_answer() {
    let body = "{\"candidates\":[{\"content\":{\"parts\":[{\"text\":\"hi there\"}]}}]}";
    assert!(cloud().chat("hello", &replying(300, body)).outcome.is_err());
    assert!(cloud().chat("hello", &replying(199, body)).outcome.is_err());
    assert_eq!(cloud().chat("hello", &replying(299, body)).outcome, Ok("hi there".to_string()));
}
