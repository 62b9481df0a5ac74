//! The chat endpoint: what travels in and out, and the path from a request to
//! its one reply.

use vstd::prelude::*;
use crate::error::{ErrorKind, ErrorView};
use crate::json::{json_quoted, quote};
use crate::model_manager::{
    outcome_view, try_create_model, BackendConfig, ConfigView, LlmModule, OutboundRequest,
    RequestView, Upstream, UpstreamView,
};

verus! {

/// The body of a chat request. An empty message is a message like any other.
#[derive(Clone, Debug, PartialEq, Eq)]
pub struct ChatRequest {
    pub message: String,
}

impl View for ChatRequest {
    type V = Seq<char>;

    open spec fn view(&self) -> Seq<char> {
        self.message@
    }
}

/// The body of the reply to a chat that succeeded.
#[derive(Clone, Debug, PartialEq, Eq)]
pub struct ChatResponse {
    pub reply: String,
}

impl View for ChatResponse {
    type V = Seq<char>;

    open spec fn view(&self) -> Seq<char> {
        self.reply@
    }
}

/// The body of the reply to a chat that failed.
#[derive(Clone, Debug, PartialEq, Eq)]
pub struct ErrorResponse {
    pub error: String,
}

impl View for ErrorResponse {
    type V = Seq<char>;

    open spec fn view(&self) -> Seq<char> {
        self.error@
    }
}

/// The body of a reply.
#[derive(Clone, Debug, PartialEq, Eq)]
pub enum ReplyBody {
    Chat(ChatResponse),
    Error(ErrorResponse),
}

/// The mathematical value of a [`ReplyBody`].
pub enum ReplyBodyView {
    Chat(Seq<char>),
    Error(Seq<char>),
}

impl View for ReplyBody {
    type V = ReplyBodyView;

    open spec fn view(&self) -> ReplyBodyView {
        match self {
            ReplyBody::Chat(response) => ReplyBodyView::Chat(response@),
            ReplyBody::Error(response) => ReplyBodyView::Error(response@),
        }
    }
}

/// The body of a successful reply on the wire, around a text that is already
/// written as a JSON string.
pub open spec fn chat_envelope(quoted_reply: Seq<char>) -> Seq<char> {
    "{\"reply\":"@ + quoted_reply + "}"@
}

/// The body of a failed reply on the wire, around a text that is already
/// written as a JSON string.
pub open spec fn error_envelope(quoted_error: Seq<char>) -> Seq<char> {
    "{\"error\":"@ + quoted_error + "}"@
}

impl ReplyBodyView {
    /// The body on the wire: one JSON object with one member, `reply` or
    /// `error`.
    pub open spec fn json(self) -> Seq<char> {
        match self {
            ReplyBodyView::Chat(reply) => chat_envelope(json_quoted(reply)),
            ReplyBodyView::Error(error) => error_envelope(json_quoted(error)),
        }
    }
}

/// Writes the body of a successful reply around a text that is already
/// written as a JSON string.
pub fn chat_body_around(quoted_reply: &str) -> (body: String)
    ensures
        body@ == chat_envelope(quoted_reply@),
{
    let mut body = String::from_str("{\"reply\":");
    body.append(quoted_reply);
    body.append("}");
    body
}

/// Writes the body of a failed reply around a text that is already written
/// as a JSON string.
pub fn error_body_around(quoted_error: &str) -> (body: String)
    ensures
        body@ == error_envelope(quoted_error@),
{
    let mut body = String::from_str("{\"error\":");
    body.append(quoted_error);
    body.append("}");
    body
}

impl ReplyBody {
    /// The body as it goes over the wire.
    pub fn to_json(&self) -> (body: String)
        ensures
            body@ == self@.json(),
    {
        match self {
            ReplyBody::Chat(response) => {
                let quoted = quote(response.reply.as_str());
                chat_body_around(quoted.as_str())
            },
            ReplyBody::Error(response) => {
                let quoted = quote(response.error.as_str());
                error_body_around(quoted.as_str())
            },
        }
    }
}

/// The reply to a chat request: an HTTP status code and a JSON body.
#[derive(Clone, Debug, PartialEq, Eq)]
pub struct HttpReply {
    pub status: u16,
    pub body: ReplyBody,
}

/// The mathematical value of an [`HttpReply`].
pub struct ReplyView {
    pub status: u16,
    pub body: ReplyBodyView,
}

impl View for HttpReply {
    type V = ReplyView;

    open spec fn view(&self) -> ReplyView {
        ReplyView { status: self.status, body: self.body@ }
    }
}

/// The reply for an outcome: 200 with the text, or 500 with the line of
/// text that stands for the failure, whatever kind of failure it is.
pub open spec fn reply_for(outcome: Result<Seq<char>, ErrorView>) -> ReplyView {
    match outcome {
        Ok(text) => ReplyView { status: 200, body: ReplyBodyView::Chat(text) },
        Err(error) => ReplyView { status: 500, body: ReplyBodyView::Error(error.message()) },
    }
}

/// What the endpoint sends to the backend for a message, under these
/// settings: `None` where no backend can be selected.
pub open spec fn request_sent(config: ConfigView, message: Seq<char>) -> Option<RequestView> {
    match config.select() {
        Ok(backend) => Some(backend.request(message)),
        Err(_) => None,
    }
}

/// The endpoint's reply to a request, under these settings and with a server
/// that answers as `upstream` says.
pub open spec fn reply_to(config: ConfigView, upstream: UpstreamView) -> ReplyView {
    match config.select() {
        Ok(backend) => reply_for(backend.chat(upstream)),
        Err(error) => reply_for(Err(error)),
    }
}

/// Turns the outcome of a chat into the reply.
pub fn respond(outcome: Result<String, ErrorKind>) -> (reply: HttpReply)
    ensures
        reply@ == reply_for(outcome_view(outcome)),
{
    match outcome {
        Ok(text) => HttpReply { status: 200, body: ReplyBody::Chat(ChatResponse { reply: text }) },
        Err(error) => HttpReply {
            status: 500,
            body: ReplyBody::Error(ErrorResponse { error: error.message() }),
        },
    }
}

/// One request as the endpoint handled it.
#[derive(Debug, PartialEq, Eq)]
pub struct Handled {
    /// The reply.
    pub reply: HttpReply,
    /// The request that went out to the backend, if one did.
    pub sent: Option<OutboundRequest>,
}

/// The mathematical value of what went out.
pub open spec fn sent_view(sent: Option<OutboundRequest>) -> Option<RequestView> {
    match sent {
        Some(request) => Some(request@),
        None => None,
    }
}

/// Handles one chat request against a server that answers as `upstream`
/// says: selects the backend for the settings as they are now, has it chat,
/// and replies. Where no backend can be selected, nothing goes out.
pub fn chat_api_handler(config: &BackendConfig, payload: &ChatRequest, upstream: &Upstream) -> (handled:
    Handled)
    ensures
        handled.reply@ == reply_to(config@, upstream@),
        sent_view(handled.sent) == request_sent(config@, payload@),
{
    match try_create_model(config) {
        Err(error) => Handled { reply: respond(Err(error)), sent: None },
        Ok(model) => {
            let exchange = model.chat(payload.message.as_str(), upstream);
            Handled { reply: respond(exchange.outcome), sent: Some(exchange.request) }
        },
    }
}

} // verus!
