//! What holds of the chat endpoint for every request, every configuration
//! and every answer of a backend's server.

use vstd::prelude::*;
use crate::error::{ErrorView, Setting};
use crate::handlers::{reply_to, request_sent, ReplyBodyView, ReplyView};
use crate::json::{json_parsed, Json};
use crate::model_manager::{
    cloud_text, local_text, BackendView, ConfigView, UpstreamView, PLACEHOLDER,
};
use crate::status::{status_digits, status_is_success, status_line, status_reason};

verus! {

/// Whether `part` occurs in `text`, as one run of characters.
pub open spec fn contains(text: Seq<char>, part: Seq<char>) -> bool {
    exists|at: int|
        0 <= at && at + part.len() <= text.len() && #[trigger] text.subrange(
            at,
            at + part.len(),
        ) == part
}

/// A text occurs in whatever is written around it.
pub proof fn lemma_contains_middle(before: Seq<char>, part: Seq<char>, after: Seq<char>)
    ensures
        contains(before + part + after, part),
{
    let text = before + part + after;
    let at = before.len() as int;
    assert(text.subrange(at, at + part.len()) =~= part);
}

/// A text occurs in whatever is written before it.
pub proof fn lemma_contains_end(before: Seq<char>, part: Seq<char>)
    ensures
        contains(before + part, part),
{
    lemma_contains_middle(before, part, Seq::empty());
    assert(before + part + Seq::empty() =~= before + part);
}

/// A text occurs in whatever is written before a text that starts with it.
pub proof fn lemma_contains_start_of_end(before: Seq<char>, part: Seq<char>, after: Seq<char>)
    ensures
        contains(before + (part + after), part),
{
    lemma_contains_middle(before, part, after);
    assert(before + part + after =~= before + (part + after));
}

/// The reply that carries a failure's line of text.
pub open spec fn failure(message: Seq<char>) -> ReplyView {
    ReplyView { status: 500, body: ReplyBodyView::Error(message) }
}

/// The reply that carries a backend's text.
pub open spec fn success(text: Seq<char>) -> ReplyView {
    ReplyView { status: 200, body: ReplyBodyView::Chat(text) }
}

/// Every reply is a 200 with a chat body or a 500 with an error body: no
/// kind of failure has a status of its own.
pub proof fn reply_is_200_or_500(config: ConfigView, upstream: UpstreamView)
    ensures
        ({
            let reply = reply_to(config, upstream);
            ||| reply.status == 200 && reply.body is Chat
            ||| reply.status == 500 && reply.body is Error
        }),
{
}

/// Whatever the prompt: where the cloud backend is selected and its server
/// answers with a success status and a body that parses to a document with
/// a string at `candidates[0].content.parts[0].text`, the prompt goes out and
/// the reply is 200 with that string.
pub proof fn cloud_envelope_gives_its_text(
    config: ConfigView,
    message: Seq<char>,
    upstream: UpstreamView,
    code: u16,
    bytes: Seq<u8>,
    doc: Json,
    text: Seq<char>,
)
    requires
        config.select() matches Ok(backend) && backend is Cloud,
        upstream.sent == Ok::<u16, Seq<char>>(code),
        status_is_success(code),
        upstream.body == Ok::<Seq<u8>, Seq<char>>(bytes),
        json_parsed(bytes) == Ok::<Json, Seq<char>>(doc),
        cloud_text(doc) == Some(text),
    ensures
        reply_to(config, upstream) == success(text),
        request_sent(config, message) == Some(config.select()->Ok_0.request(message)),
{
}

/// Whatever the prompt: where the local backend is selected and its server
/// answers with a success status and a body that parses to a document with
/// a string at `response`, the prompt goes out and the reply is 200 with that
/// string.
pub proof fn local_answer_gives_its_text(
    config: ConfigView,
    message: Seq<char>,
    upstream: UpstreamView,
    code: u16,
    bytes: Seq<u8>,
    doc: Json,
    text: Seq<char>,
)
    requires
        config.select() matches Ok(backend) && backend is Local,
        upstream.sent == Ok::<u16, Seq<char>>(code),
        status_is_success(code),
        upstream.body == Ok::<Seq<u8>, Seq<char>>(bytes),
        json_parsed(bytes) == Ok::<Json, Seq<char>>(doc),
        local_text(doc) == Some(text),
    ensures
        reply_to(config, upstream) == success(text),
        request_sent(config, message) == Some(config.select()->Ok_0.request(message)),
{
}

/// Whatever the prompt: where a backend's server answers with a success
/// status and a body that parses, but the document has no string where the
/// backend looks for the text, the reply is 200 with the placeholder, and no
/// error.
pub proof fn missing_text_gives_the_placeholder(
    config: ConfigView,
    message: Seq<char>,
    upstream: UpstreamView,
    code: u16,
    bytes: Seq<u8>,
    doc: Json,
)
    requires
        config.select() is Ok,
        upstream.sent == Ok::<u16, Seq<char>>(code),
        status_is_success(code),
        upstream.body == Ok::<Seq<u8>, Seq<char>>(bytes),
        json_parsed(bytes) == Ok::<Json, Seq<char>>(doc),
        config.select() matches Ok(backend) && backend is Cloud ==> cloud_text(doc) is None,
        config.select() matches Ok(backend) && backend is Local ==> local_text(doc) is None,
    ensures
        reply_to(config, upstream) == success(PLACEHOLDER@),
        request_sent(config, message) == Some(config.select()->Ok_0.request(message)),
{
}

/// Where a body that should hold the answer does not parse, the reply is a
/// 500 with the parser's description: a malformed body is a failure, a
/// well-formed one without the text is not.
pub proof fn malformed_body_is_a_failure(
    config: ConfigView,
    upstream: UpstreamView,
    code: u16,
    bytes: Seq<u8>,
    description: Seq<char>,
)
    requires
        config.select() is Ok,
        upstream.sent == Ok::<u16, Seq<char>>(code),
        status_is_success(code),
        upstream.body == Ok::<Seq<u8>, Seq<char>>(bytes),
        json_parsed(bytes) == Err::<Json, Seq<char>>(description),
    ensures
        reply_to(config, upstream) == failure("Failed to parse JSON: "@ + description),
        contains("Failed to parse JSON: "@ + description, description),
{
    lemma_contains_end("Failed to parse JSON: "@, description);
}

/// Where the provider setting reads `local` and the address of the local
/// server is absent, the reply is a 500 whose text names that setting, and
/// nothing is sent.
pub proof fn missing_local_url_is_reported(
    config: ConfigView,
    message: Seq<char>,
    upstream: UpstreamView,
)
    requires
        config.provider == Some("local"@),
        config.local_url is None,
    ensures
        reply_to(config, upstream) == failure(
            ErrorView::Configuration(Setting::LocalUrl).message(),
        ),
        contains(ErrorView::Configuration(Setting::LocalUrl).message(), "LOCAL_LLM_URL"@),
        request_sent(config, message) is None,
{
    lemma_contains_middle("Configuration Error: "@, "LOCAL_LLM_URL"@, " must be set in .env"@);
}

/// Where the provider setting reads anything but `local`, or is absent, and
/// the API key is absent, the reply is a 500 whose text names that setting,
/// and nothing is sent.
pub proof fn missing_api_key_is_reported(
    config: ConfigView,
    message: Seq<char>,
    upstream: UpstreamView,
)
    requires
        config.provider != Some("local"@),
        config.api_key is None,
    ensures
        reply_to(config, upstream) == failure(ErrorView::Configuration(Setting::ApiKey).message()),
        contains(ErrorView::Configuration(Setting::ApiKey).message(), "GEMINI_API_KEY"@),
        request_sent(config, message) is None,
{
    lemma_contains_middle("Configuration Error: "@, "GEMINI_API_KEY"@, " must be set in .env"@);
}

/// The body of a refusing response as the cloud backend reports it: empty
/// where it could not be read.
pub open spec fn refusal_text(upstream: UpstreamView) -> Seq<char> {
    match upstream.text {
        Some(text) => text,
        None => Seq::empty(),
    }
}

/// Where the cloud backend's server answers with a status outside the
/// success class, the reply is a 500 whose text holds the body of that
/// answer.
pub proof fn cloud_refusal_reports_the_body(config: ConfigView, upstream: UpstreamView, code: u16)
    requires
        config.select() matches Ok(backend) && backend is Cloud,
        upstream.sent == Ok::<u16, Seq<char>>(code),
        !status_is_success(code),
    ensures
        reply_to(config, upstream) == failure("API Error: "@ + refusal_text(upstream)),
        contains("API Error: "@ + refusal_text(upstream), refusal_text(upstream)),
{
    lemma_contains_end("API Error: "@, refusal_text(upstream));
}

/// The line for a status code holds the code's digits, where the code has
/// three of them.
pub proof fn lemma_status_line_holds_digits(before: Seq<char>, code: u16)
    requires
        100 <= code <= 999,
    ensures
        contains(before + status_line(code), status_digits(code)),
{
    let rest = seq![' '] + status_reason(code);
    assert(status_line(code) == status_digits(code) + rest) by {
        assert(status_digits(code) + seq![' '] + status_reason(code) =~= status_digits(code)
            + rest);
    }
    lemma_contains_start_of_end(before, status_digits(code), rest);
}

/// Where the local backend's server answers with a status outside the
/// success class, the reply is a 500 whose text holds the status, and for a
/// status code of three digits those digits.
pub proof fn local_refusal_reports_the_status(config: ConfigView, upstream: UpstreamView, code: u16)
    requires
        config.select() matches Ok(backend) && backend is Local,
        upstream.sent == Ok::<u16, Seq<char>>(code),
        !status_is_success(code),
    ensures
        reply_to(config, upstream) == failure("Local Server Error: "@ + status_line(code)),
        contains("Local Server Error: "@ + status_line(code), status_line(code)),
        100 <= code <= 999 ==> contains(
            "Local Server Error: "@ + status_line(code),
            status_digits(code),
        ),
{
    lemma_contains_end("Local Server Error: "@, status_line(code));
    if 100 <= code <= 999 {
        lemma_status_line_holds_digits("Local Server Error: "@, code);
    }
}

/// Where a backend is selected and its server cannot be reached, the reply
/// is a 500 whose text holds the transport's description of the failure.
pub proof fn transport_failure_is_reported(
    config: ConfigView,
    upstream: UpstreamView,
    cause: Seq<char>,
)
    requires
        config.select() is Ok,
        upstream.sent == Err::<u16, Seq<char>>(cause),
    ensures
        reply_to(config, upstream) == failure("Request failed: "@ + cause),
        contains("Request failed: "@ + cause, cause),
{
    lemma_contains_end("Request failed: "@, cause);
}

/// Selecting a backend fails only for want of a setting, and a chat never
/// does: the two kinds of failure do not mix.
pub proof fn failures_keep_to_their_stage(
    config: ConfigView,
    backend: BackendView,
    upstream: UpstreamView,
)
    ensures
        config.select() matches Err(error) ==> error is Configuration,
        backend.chat(upstream) matches Err(error) ==> !(error is Configuration),
{
}

/// Which backend answers depends on the provider setting and on nothing
/// else: `local` selects the local server, anything else the cloud.
pub proof fn provider_setting_decides(config: ConfigView)
    ensures
        config.select() matches Ok(backend) ==> (backend is Local <==> config.provider == Some(
            "local"@,
        )),
{
}

} // verus!
