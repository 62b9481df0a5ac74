//! Why a chat request can fail, and the one line of text each failure
//! becomes at the HTTP boundary.

use vstd::prelude::*;
use crate::status::{status_line, status_text};

verus! {

/// A value the configuration can hold, by the name of its environment
/// variable.
#[derive(Clone, Copy, Debug, PartialEq, Eq, Structural)]
pub enum Setting {
    /// Which backend answers: `local`, or anything else for the cloud.
    Provider,
    /// The cloud backend's API key.
    ApiKey,
    /// The cloud backend's model, where the default is not wanted.
    CloudModel,
    /// The address of the local server.
    LocalUrl,
    /// The local server's model, where the default is not wanted.
    LocalModel,
}

impl Setting {
    /// The name of the environment variable that holds this setting.
    pub open spec fn spec_name(self) -> Seq<char> {
        match self {
            Setting::Provider => "CURRENT_MODEL"@,
            Setting::ApiKey => "GEMINI_API_KEY"@,
            Setting::CloudModel => "GEMINI_MODEL"@,
            Setting::LocalUrl => "LOCAL_LLM_URL"@,
            Setting::LocalModel => "LOCAL_MODEL"@,
        }
    }

    /// The name of the environment variable that holds this setting.
    pub fn name(&self) -> (name: &'static str)
        ensures
            name@ == self.spec_name(),
    {
        match self {
            Setting::Provider => "CURRENT_MODEL",
            Setting::ApiKey => "GEMINI_API_KEY",
            Setting::CloudModel => "GEMINI_MODEL",
            Setting::LocalUrl => "LOCAL_LLM_URL",
            Setting::LocalModel => "LOCAL_MODEL",
        }
    }
}

/// What a backend's refusal carries.
#[derive(Clone, Debug, PartialEq, Eq)]
pub enum Rejection {
    /// The body of the refusing response, as text.
    Body(String),
    /// The status code of the refusing response, and nothing of its body.
    Status(u16),
}

/// The mathematical value of a [`Rejection`].
pub enum RejectionView {
    Body(Seq<char>),
    Status(u16),
}

impl View for Rejection {
    type V = RejectionView;

    open spec fn view(&self) -> RejectionView {
        match self {
            Rejection::Body(text) => RejectionView::Body(text@),
            Rejection::Status(code) => RejectionView::Status(*code),
        }
    }
}

/// Why a chat request failed.
#[derive(Clone, Debug, PartialEq, Eq)]
pub enum ErrorKind {
    /// A setting that the selected backend needs is absent.
    Configuration(Setting),
    /// The request did not reach the backend, or no response came back; with
    /// the transport's own description.
    Transport(String),
    /// The backend answered with a status outside the success class.
    UpstreamRejected(Rejection),
    /// The body of a successful response could not be read as JSON; with the
    /// reader's or the parser's own description.
    DecodeFailure(String),
}

/// The mathematical value of an [`ErrorKind`].
pub enum ErrorView {
    Configuration(Setting),
    Transport(Seq<char>),
    UpstreamRejected(RejectionView),
    DecodeFailure(Seq<char>),
}

/// The mathematical value of a text that may be absent.
pub open spec fn text_view(text: Option<String>) -> Option<Seq<char>> {
    match text {
        Some(t) => Some(t@),
        None => None,
    }
}

impl ErrorView {
    /// The refusal of a backend whose error body was read as text: it
    /// carries the text, and an empty text where the body could not be read.
    pub open spec fn rejected(text: Option<Seq<char>>) -> ErrorView {
        ErrorView::UpstreamRejected(
            RejectionView::Body(
                match text {
                    Some(t) => t,
                    None => Seq::empty(),
                },
            ),
        )
    }

    /// The line of text that stands for this failure at the HTTP boundary.
    pub open spec fn message(self) -> Seq<char> {
        match self {
            ErrorView::Configuration(setting) => "Configuration Error: "@ + setting.spec_name()
                + " must be set in .env"@,
            ErrorView::Transport(cause) => "Request failed: "@ + cause,
            ErrorView::UpstreamRejected(RejectionView::Body(text)) => "API Error: "@ + text,
            ErrorView::UpstreamRejected(RejectionView::Status(code)) => "Local Server Error: "@
                + status_line(code),
            ErrorView::DecodeFailure(cause) => "Failed to parse JSON: "@ + cause,
        }
    }
}

impl View for ErrorKind {
    type V = ErrorView;

    open spec fn view(&self) -> ErrorView {
        match self {
            ErrorKind::Configuration(setting) => ErrorView::Configuration(*setting),
            ErrorKind::Transport(cause) => ErrorView::Transport(cause@),
            ErrorKind::UpstreamRejected(rejection) => ErrorView::UpstreamRejected(rejection@),
            ErrorKind::DecodeFailure(cause) => ErrorView::DecodeFailure(cause@),
        }
    }
}

impl ErrorKind {
    /// The refusal of a backend whose error body was read as text; an
    /// unreadable body counts as an empty one.
    pub fn rejected(text: Option<String>) -> (error: ErrorKind)
        ensures
            error@ == ErrorView::rejected(text_view(text)),
    {
        match text {
            Some(t) => ErrorKind::UpstreamRejected(Rejection::Body(t)),
            None => ErrorKind::UpstreamRejected(Rejection::Body(String::new())),
        }
    }

    /// The line of text that stands for this failure at the HTTP boundary.
    pub fn message(&self) -> (message: String)
        ensures
            message@ == self@.message(),
    {
        match self {
            ErrorKind::Configuration(setting) => {
                let mut message = String::from_str("Configuration Error: ");
                message.append(setting.name());
                message.append(" must be set in .env");
                message
            },
            ErrorKind::Transport(cause) => {
                let mut message = String::from_str("Request failed: ");
                message.append(cause.as_str());
                message
            },
            ErrorKind::UpstreamRejected(Rejection::Body(text)) => {
                let mut message = String::from_str("API Error: ");
                message.append(text.as_str());
                message
            },
            ErrorKind::UpstreamRejected(Rejection::Status(code)) => {
                let line = status_text(*code);
                let mut message = String::from_str("Local Server Error: ");
                message.append(line.as_str());
                message
            },
            ErrorKind::DecodeFailure(cause) => {
                let mut message = String::from_str("Failed to parse JSON: ");
                message.append(cause.as_str());
                message
            },
        }
    }
}

} // verus!
