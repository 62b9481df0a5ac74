//! The backends: what each sends for a prompt, how each reads the answer,
//! and which one the configuration selects.

use vstd::prelude::*;
use crate::error::{text_view, ErrorKind, ErrorView, Rejection, RejectionView, Setting};
use crate::json::{found_view, json_parsed, json_quoted, parsed_view, quote, Json};
use crate::status::{is_success, status_is_success};

verus! {

/// The seconds after which a caller should give up on one request to a
/// backend's server.
pub const OUTBOUND_TIMEOUT_SECS: u64 = 30;

/// The text that stands in for a reply when a successful answer holds none.
pub const PLACEHOLDER: &'static str = "no response text found";

/// The cloud model used where the configuration names none.
pub const DEFAULT_CLOUD_MODEL: &'static str = "gemini-1.5-flash-latest";

/// The local model used where the configuration names none.
pub const DEFAULT_LOCAL_MODEL: &'static str = "llama3";

/// The address the cloud backend is asked at, for a model and an API key.
pub open spec fn cloud_url(model: Seq<char>, api_key: Seq<char>) -> Seq<char> {
    "https://generativelanguage.googleapis.com/v1beta/models/"@ + model
        + ":generateContent?key="@ + api_key
}

/// The cloud backend's envelope around a prompt that is already written as
/// a JSON string.
pub open spec fn cloud_envelope(quoted_prompt: Seq<char>) -> Seq<char> {
    "{\"contents\":[{\"parts\":[{\"text\":"@ + quoted_prompt + "}]}]}"@
}

/// The local server's envelope around a model and a prompt that are already
/// written as JSON strings; streaming is always switched off.
pub open spec fn local_envelope(quoted_model: Seq<char>, quoted_prompt: Seq<char>) -> Seq<char> {
    "{\"model\":"@ + quoted_model + ",\"prompt\":"@ + quoted_prompt + ",\"stream\":false}"@
}

/// The body the cloud backend is sent for a prompt.
pub open spec fn cloud_body(prompt: Seq<char>) -> Seq<char> {
    cloud_envelope(json_quoted(prompt))
}

/// The body the local server is sent for a model and a prompt.
pub open spec fn local_body(model: Seq<char>, prompt: Seq<char>) -> Seq<char> {
    local_envelope(json_quoted(model), json_quoted(prompt))
}

/// The member under `key` of the document found so far, if any.
pub open spec fn then_member(found: Option<Json>, key: Seq<char>) -> Option<Json> {
    match found {
        Some(doc) => doc.member(key),
        None => None,
    }
}

/// The element at `index` of the document found so far, if any.
pub open spec fn then_element(found: Option<Json>, index: int) -> Option<Json> {
    match found {
        Some(doc) => doc.element(index),
        None => None,
    }
}

/// The text of the document found so far, if it is a string.
pub open spec fn then_text(found: Option<Json>) -> Option<Seq<char>> {
    match found {
        Some(doc) => doc.text(),
        None => None,
    }
}

/// The text at `candidates[0].content.parts[0].text` of a cloud answer, where
/// every step of that path exists and the last is a string.
pub open spec fn cloud_text(doc: Json) -> Option<Seq<char>> {
    then_text(
        then_member(
            then_element(
                then_member(
                    then_member(then_element(doc.member("candidates"@), 0), "content"@),
                    "parts"@,
                ),
                0,
            ),
            "text"@,
        ),
    )
}

/// The text at `response` of a local answer, where it exists and is a string.
pub open spec fn local_text(doc: Json) -> Option<Seq<char>> {
    then_text(doc.member("response"@))
}

/// The text found, or the placeholder.
pub open spec fn or_placeholder(text: Option<Seq<char>>) -> Seq<char> {
    match text {
        Some(t) => t,
        None => PLACEHOLDER@,
    }
}

/// The HTTP method of a request to a backend.
#[derive(Clone, Copy, Debug, PartialEq, Eq, Structural)]
pub enum Method {
    Post,
}

/// The content type of every body sent to a backend.
pub const JSON_CONTENT_TYPE: &'static str = "application/json";

/// One HTTP request to a backend, ready to be sent.
#[derive(Clone, Debug, PartialEq, Eq)]
pub struct OutboundRequest {
    pub method: Method,
    pub url: String,
    pub content_type: &'static str,
    pub body: String,
}

/// The mathematical value of an [`OutboundRequest`].
pub struct RequestView {
    pub method: Method,
    pub url: Seq<char>,
    pub content_type: Seq<char>,
    pub body: Seq<char>,
}

impl View for OutboundRequest {
    type V = RequestView;

    open spec fn view(&self) -> RequestView {
        RequestView {
            method: self.method,
            url: self.url@,
            content_type: self.content_type@,
            body: self.body@,
        }
    }
}

/// What to do once the status of the response is known.
#[derive(Clone, Debug, PartialEq, Eq)]
pub enum AfterStatus {
    /// Read the body; it holds the answer.
    ReadBody,
    /// Read the body as text; it says why the backend refused.
    ReadErrorText,
    /// Read nothing more; the chat has failed.
    Fail(ErrorKind),
}

/// The mathematical value of an [`AfterStatus`].
pub enum AfterStatusView {
    ReadBody,
    ReadErrorText,
    Fail(ErrorView),
}

impl View for AfterStatus {
    type V = AfterStatusView;

    open spec fn view(&self) -> AfterStatusView {
        match self {
            AfterStatus::ReadBody => AfterStatusView::ReadBody,
            AfterStatus::ReadErrorText => AfterStatusView::ReadErrorText,
            AfterStatus::Fail(error) => AfterStatusView::Fail(error@),
        }
    }
}

/// How a backend's server answers one request: what each step of talking to
/// it would bring.
#[derive(Debug, PartialEq, Eq)]
pub struct Upstream {
    /// The status code of the response, or why no response came.
    pub sent: Result<u16, String>,
    /// The body of the response as text; `None` where it cannot be read.
    pub text: Option<String>,
    /// The body of the response, or why it cannot be read.
    pub body: Result<Vec<u8>, String>,
}

/// The mathematical value of an [`Upstream`].
pub struct UpstreamView {
    pub sent: Result<u16, Seq<char>>,
    pub text: Option<Seq<char>>,
    pub body: Result<Seq<u8>, Seq<char>>,
}

/// The mathematical value of a response body as read.
pub open spec fn body_view(body: Result<Vec<u8>, String>) -> Result<Seq<u8>, Seq<char>> {
    match body {
        Ok(bytes) => Ok(bytes@),
        Err(cause) => Err(cause@),
    }
}

impl View for Upstream {
    type V = UpstreamView;

    open spec fn view(&self) -> UpstreamView {
        UpstreamView {
            sent: match self.sent {
                Ok(code) => Ok(code),
                Err(cause) => Err(cause@),
            },
            text: text_view(self.text),
            body: body_view(self.body),
        }
    }
}

/// The mathematical value of a chat's outcome.
pub open spec fn outcome_view(outcome: Result<String, ErrorKind>) -> Result<Seq<char>, ErrorView> {
    match outcome {
        Ok(text) => Ok(text@),
        Err(error) => Err(error@),
    }
}

/// A backend as the contracts see it: the provider and its settings.
pub enum BackendView {
    Cloud { api_key: Seq<char>, model: Seq<char> },
    Local { url: Seq<char>, model: Seq<char> },
}

impl BackendView {
    /// The request this backend sends for a prompt: a POST of a JSON body,
    /// to the cloud API's address for the model and the key, or to the local
    /// server's address as it is configured.
    pub open spec fn request(self, prompt: Seq<char>) -> RequestView {
        match self {
            BackendView::Cloud { api_key, model } => RequestView {
                method: Method::Post,
                url: cloud_url(model, api_key),
                content_type: JSON_CONTENT_TYPE@,
                body: cloud_body(prompt),
            },
            BackendView::Local { url, model } => RequestView {
                method: Method::Post,
                url,
                content_type: JSON_CONTENT_TYPE@,
                body: local_body(model, prompt),
            },
        }
    }

    /// What follows a status code: a success has its body read; a refusal has
    /// its body read as text by the cloud backend, and ends the chat with
    /// the status alone for the local one.
    pub open spec fn after_status(self, code: u16) -> AfterStatusView {
        if status_is_success(code) {
            AfterStatusView::ReadBody
        } else {
            match self {
                BackendView::Cloud { .. } => AfterStatusView::ReadErrorText,
                BackendView::Local { .. } => AfterStatusView::Fail(
                    ErrorView::UpstreamRejected(RejectionView::Status(code)),
                ),
            }
        }
    }

    /// The reply in a successful answer's document: the text at the
    /// backend's path, or the placeholder where the path leads to no string.
    pub open spec fn reply_text(self, doc: Json) -> Seq<char> {
        match self {
            BackendView::Cloud { .. } => or_placeholder(cloud_text(doc)),
            BackendView::Local { .. } => or_placeholder(local_text(doc)),
        }
    }

    /// The outcome for a body as the parser read it.
    pub open spec fn reply_from_parse(self, parsed: Result<Json, Seq<char>>) -> Result<
        Seq<char>,
        ErrorView,
    > {
        match parsed {
            Ok(doc) => Ok(self.reply_text(doc)),
            Err(message) => Err(ErrorView::DecodeFailure(message)),
        }
    }

    /// The outcome for the body of a successful response.
    pub open spec fn reply(self, body: Result<Seq<u8>, Seq<char>>) -> Result<Seq<char>, ErrorView> {
        match body {
            Ok(bytes) => self.reply_from_parse(json_parsed(bytes)),
            Err(cause) => Err(ErrorView::DecodeFailure(cause)),
        }
    }

    /// The outcome of a chat with a server that answers as `upstream` says.
    pub open spec fn chat(self, upstream: UpstreamView) -> Result<Seq<char>, ErrorView> {
        match upstream.sent {
            Err(cause) => Err(ErrorView::Transport(cause)),
            Ok(code) => match self.after_status(code) {
                AfterStatusView::ReadBody => self.reply(upstream.body),
                AfterStatusView::ReadErrorText => Err(ErrorView::rejected(upstream.text)),
                AfterStatusView::Fail(error) => Err(error),
            },
        }
    }
}

/// What was sent for one chat, and what came of it.
#[derive(Debug, PartialEq, Eq)]
pub struct Exchange {
    pub request: OutboundRequest,
    pub outcome: Result<String, ErrorKind>,
}

/// What every backend can do: say what to send for a prompt, and turn each
/// step of the server's answer into the next step or into the outcome. Its
/// view says which provider it is and with which settings.
///
/// Sending and reading are the caller's part. A caller with a live server
/// sends what [`LlmModule::request`] gives; where sending fails, the chat has
/// failed with [`ErrorKind::Transport`] and the transport's description.
/// Otherwise it hands the status code to [`LlmModule::on_status`] and does as
/// told: it reads the body and hands it to [`LlmModule::on_body`], or reads
/// the body as text and hands it to [`ErrorKind::rejected`], or reads nothing
/// more. [`LlmModule::chat`] goes the same way with a server whose answers are
/// already known.
pub trait LlmModule: View<V = BackendView> + Send + Sync {
    /// The request to send for a prompt.
    fn request(&self, prompt: &str) -> (request: OutboundRequest)
        ensures
            request@ == self@.request(prompt@),
    ;

    /// What to do once the response's status code is known.
    fn on_status(&self, code: u16) -> (next: AfterStatus)
        ensures
            next@ == self@.after_status(code),
    ;

    /// The reply in the document of a successful answer.
    fn reply_text(&self, doc: &Json) -> (text: String)
        ensures
            text@ == self@.reply_text(doc@),
    ;

    /// The outcome for a body as the parser read it.
    fn on_parsed(&self, parsed: &Result<Json, String>) -> (outcome: Result<String, ErrorKind>)
        ensures
            outcome_view(outcome) == self@.reply_from_parse(parsed_view(*parsed)),
    {
        match parsed {
            Ok(doc) => Ok(self.reply_text(doc)),
            Err(message) => Err(ErrorKind::DecodeFailure(message.clone())),
        }
    }

    /// The outcome for the body of a successful response, as it was read.
    fn on_body(&self, body: &Result<Vec<u8>, String>) -> (outcome: Result<String, ErrorKind>)
        ensures
            outcome_view(outcome) == self@.reply(body_view(*body)),
    {
        match body {
            Ok(bytes) => {
                let parsed = Json::parse(bytes.as_slice());
                self.on_parsed(&parsed)
            },
            Err(cause) => Err(ErrorKind::DecodeFailure(cause.clone())),
        }
    }

    /// Runs one chat against a server that answers as `upstream` says.
    fn chat(&self, prompt: &str, upstream: &Upstream) -> (exchange: Exchange)
        ensures
            exchange.request@ == self@.request(prompt@),
            outcome_view(exchange.outcome) == self@.chat(upstream@),
    {
        let request = self.request(prompt);
        let outcome = match &upstream.sent {
            Err(cause) => Err(ErrorKind::Transport(cause.clone())),
            Ok(code) => match self.on_status(*code) {
                AfterStatus::ReadBody => self.on_body(&upstream.body),
                AfterStatus::ReadErrorText => Err(
                    ErrorKind::rejected(
                        match &upstream.text {
                            Some(text) => Some(text.clone()),
                            None => None,
                        },
                    ),
                ),
                AfterStatus::Fail(error) => Err(error),
            },
        };
        Exchange { request, outcome }
    }
}

/// The text of the document found so far, or the placeholder.
fn text_or_placeholder(found: Option<&Json>) -> (text: String)
    ensures
        text@ == or_placeholder(then_text(found_view(found))),
{
    let held = match found {
        Some(doc) => doc.as_str(),
        None => None,
    };
    match held {
        Some(t) => t.to_owned(),
        None => String::from_str(PLACEHOLDER),
    }
}

/// The member under `key` of the document found so far.
fn member_of<'a>(found: Option<&'a Json>, key: &str) -> (next: Option<&'a Json>)
    ensures
        found_view(next) == then_member(found_view(found), key@),
{
    match found {
        Some(doc) => doc.get(key),
        None => None,
    }
}

/// The element at `index` of the document found so far.
fn element_of<'a>(found: Option<&'a Json>, index: usize) -> (next: Option<&'a Json>)
    ensures
        found_view(next) == then_element(
            found_view(found),
            index as int,
        ),
{
    match found {
        Some(doc) => doc.at(index),
        None => None,
    }
}

/// Writes the cloud backend's envelope around a prompt that is already
/// written as a JSON string.
pub fn cloud_body_around(quoted_prompt: &str) -> (body: String)
    ensures
        body@ == cloud_envelope(quoted_prompt@),
{
    let mut body = String::from_str("{\"contents\":[{\"parts\":[{\"text\":");
    body.append(quoted_prompt);
    body.append("}]}]}");
    body
}

/// Writes the local server's envelope around a model and a prompt that are
/// already written as JSON strings.
pub fn local_body_around(quoted_model: &str, quoted_prompt: &str) -> (body: String)
    ensures
        body@ == local_envelope(quoted_model@, quoted_prompt@),
{
    let mut body = String::from_str("{\"model\":");
    body.append(quoted_model);
    body.append(",\"prompt\":");
    body.append(quoted_prompt);
    body.append(",\"stream\":false}");
    body
}

/// The client of the cloud API.
#[derive(Clone, Debug, PartialEq, Eq)]
pub struct GeminiClient {
    pub api_key: String,
    pub model: String,
}

impl GeminiClient {
    /// A client with this API key, for the default model.
    pub fn new(api_key: String) -> (client: Self)
        ensures
            client@ == (BackendView::Cloud {
                api_key: api_key@,
                model: DEFAULT_CLOUD_MODEL@,
            }),
    {
        GeminiClient { api_key, model: String::from_str(DEFAULT_CLOUD_MODEL) }
    }
}

impl View for GeminiClient {
    type V = BackendView;

    open spec fn view(&self) -> BackendView {
        BackendView::Cloud { api_key: self.api_key@, model: self.model@ }
    }
}

impl LlmModule for GeminiClient {
    fn request(&self, prompt: &str) -> (request: OutboundRequest) {
        let mut url = String::from_str("https://generativelanguage.googleapis.com/v1beta/models/");
        url.append(self.model.as_str());
        url.append(":generateContent?key=");
        url.append(self.api_key.as_str());
        let quoted = quote(prompt);
        OutboundRequest {
            method: Method::Post,
            url,
            content_type: JSON_CONTENT_TYPE,
            body: cloud_body_around(quoted.as_str()),
        }
    }

    fn on_status(&self, code: u16) -> (next: AfterStatus) {
        if is_success(code) {
            AfterStatus::ReadBody
        } else {
            AfterStatus::ReadErrorText
        }
    }

    fn reply_text(&self, doc: &Json) -> (text: String) {
        let candidate = element_of(doc.get("candidates"), 0);
        let parts = member_of(member_of(candidate, "content"), "parts");
        text_or_placeholder(member_of(element_of(parts, 0), "text"))
    }
}

/// The client of a local inference server.
#[derive(Clone, Debug, PartialEq, Eq)]
pub struct LocalClient {
    pub url: String,
    pub model: String,
}

impl LocalClient {
    /// A client of the server at this address, for the default model.
    pub fn new(url: String) -> (client: Self)
        ensures
            client@ == (BackendView::Local { url: url@, model: DEFAULT_LOCAL_MODEL@ }),
    {
        LocalClient { url, model: String::from_str(DEFAULT_LOCAL_MODEL) }
    }
}

impl View for LocalClient {
    type V = BackendView;

    open spec fn view(&self) -> BackendView {
        BackendView::Local { url: self.url@, model: self.model@ }
    }
}

impl LlmModule for LocalClient {
    fn request(&self, prompt: &str) -> (request: OutboundRequest) {
        let model = quote(self.model.as_str());
        let quoted = quote(prompt);
        OutboundRequest {
            method: Method::Post,
            url: self.url.clone(),
            content_type: JSON_CONTENT_TYPE,
            body: local_body_around(model.as_str(), quoted.as_str()),
        }
    }

    fn on_status(&self, code: u16) -> (next: AfterStatus) {
        if is_success(code) {
            AfterStatus::ReadBody
        } else {
            AfterStatus::Fail(ErrorKind::UpstreamRejected(Rejection::Status(code)))
        }
    }

    fn reply_text(&self, doc: &Json) -> (text: String) {
        text_or_placeholder(doc.get("response"))
    }
}

/// The backend that answers: exactly one of the two clients.
#[derive(Clone, Debug, PartialEq, Eq)]
pub enum Backend {
    Cloud(GeminiClient),
    Local(LocalClient),
}

impl View for Backend {
    type V = BackendView;

    open spec fn view(&self) -> BackendView {
        match self {
            Backend::Cloud(client) => client@,
            Backend::Local(client) => client@,
        }
    }
}

impl LlmModule for Backend {
    fn request(&self, prompt: &str) -> (request: OutboundRequest) {
        match self {
            Backend::Cloud(client) => client.request(prompt),
            Backend::Local(client) => client.request(prompt),
        }
    }

    fn on_status(&self, code: u16) -> (next: AfterStatus) {
        match self {
            Backend::Cloud(client) => client.on_status(code),
            Backend::Local(client) => client.on_status(code),
        }
    }

    fn reply_text(&self, doc: &Json) -> (text: String) {
        match self {
            Backend::Cloud(client) => client.reply_text(doc),
            Backend::Local(client) => client.reply_text(doc),
        }
    }
}

/// The settings a backend is selected and built from, each as it was found:
/// `None` stands for a setting that is absent.
#[derive(Clone, Debug, PartialEq, Eq)]
pub struct BackendConfig {
    /// [`Setting::Provider`].
    pub provider: Option<String>,
    /// [`Setting::ApiKey`].
    pub api_key: Option<String>,
    /// [`Setting::CloudModel`].
    pub cloud_model: Option<String>,
    /// [`Setting::LocalUrl`].
    pub local_url: Option<String>,
    /// [`Setting::LocalModel`].
    pub local_model: Option<String>,
}

/// The mathematical value of a [`BackendConfig`].
pub struct ConfigView {
    pub provider: Option<Seq<char>>,
    pub api_key: Option<Seq<char>>,
    pub cloud_model: Option<Seq<char>>,
    pub local_url: Option<Seq<char>>,
    pub local_model: Option<Seq<char>>,
}

impl View for BackendConfig {
    type V = ConfigView;

    open spec fn view(&self) -> ConfigView {
        ConfigView {
            provider: text_view(self.provider),
            api_key: text_view(self.api_key),
            cloud_model: text_view(self.cloud_model),
            local_url: text_view(self.local_url),
            local_model: text_view(self.local_model),
        }
    }
}

impl ConfigView {
    /// Whether the local backend is asked for: the provider setting is
    /// present and reads `local`.
    pub open spec fn wants_local(self) -> bool {
        self.provider == Some("local"@)
    }

    /// The backend these settings select, or the required setting that is
    /// absent. The provider `local` needs the server's address; any other
    /// provider, or none, means the cloud and needs the API key. A model
    /// setting replaces the backend's default model.
    pub open spec fn select(self) -> Result<BackendView, ErrorView> {
        if self.wants_local() {
            match self.local_url {
                Some(url) => Ok(
                    BackendView::Local {
                        url,
                        model: match self.local_model {
                            Some(model) => model,
                            None => DEFAULT_LOCAL_MODEL@,
                        },
                    },
                ),
                None => Err(ErrorView::Configuration(Setting::LocalUrl)),
            }
        } else {
            match self.api_key {
                Some(api_key) => Ok(
                    BackendView::Cloud {
                        api_key,
                        model: match self.cloud_model {
                            Some(model) => model,
                            None => DEFAULT_CLOUD_MODEL@,
                        },
                    },
                ),
                None => Err(ErrorView::Configuration(Setting::ApiKey)),
            }
        }
    }
}

/// The mathematical value of a selection's result.
pub open spec fn selection_view(selection: Result<Backend, ErrorKind>) -> Result<
    BackendView,
    ErrorView,
> {
    match selection {
        Ok(backend) => Ok(backend@),
        Err(error) => Err(error@),
    }
}

/// Selects and builds the backend for the settings as they are now.
pub fn try_create_model(config: &BackendConfig) -> (selection: Result<Backend, ErrorKind>)
    ensures
        selection_view(selection) == config@.select(),
{
    let wants_local = match &config.provider {
        Some(name) => {
            let local = String::from_str("local");
            *name == local
        },
        None => false,
    };
    if wants_local {
        match &config.local_url {
            Some(url) => {
                let mut client = LocalClient::new(url.clone());
                match &config.local_model {
                    Some(model) => {
                        client.model = model.clone();
                    },
                    None => {},
                }
                Ok(Backend::Local(client))
            },
            None => Err(ErrorKind::Configuration(Setting::LocalUrl)),
        }
    } else {
        match &config.api_key {
            Some(api_key) => {
                let mut client = GeminiClient::new(api_key.clone());
                match &config.cloud_model {
                    Some(model) => {
                        client.model = model.clone();
                    },
                    None => {},
                }
                Ok(Backend::Cloud(client))
            },
            None => Err(ErrorKind::Configuration(Setting::ApiKey)),
        }
    }
}

} // verus!
