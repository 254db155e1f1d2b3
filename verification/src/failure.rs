//! The ways in which asking for a commit message can fail, and the text
//! shown for each.

use crate::provider::Provider;
use crate::text::{decimal, push_decimal};
use vstd::prelude::*;

verus! {

/// Why no commit message was produced.
#[derive(Debug, PartialEq, Eq)]
pub enum GenerateError {
    /// The configuration names no known provider.
    UnknownProvider,
    /// The request could not be sent or no response arrived.
    Transport { provider: Provider, detail: String },
    /// The service answered with a status outside 200..=299.
    Status { provider: Provider, code: u16, body: String },
    /// The response body is not a JSON document.
    Unparseable { provider: Provider },
    /// The response is JSON, but no string stands where the provider puts
    /// its reply.
    UnexpectedShape { provider: Provider },
}

/// A [`GenerateError`] as plain values.
pub enum GenerateErrorView {
    UnknownProvider,
    Transport { provider: Provider, detail: Seq<char> },
    Status { provider: Provider, code: u16, body: Seq<char> },
    Unparseable { provider: Provider },
    UnexpectedShape { provider: Provider },
}

impl View for GenerateError {
    type V = GenerateErrorView;

    open spec fn view(&self) -> GenerateErrorView {
        match self {
            GenerateError::UnknownProvider => GenerateErrorView::UnknownProvider,
            GenerateError::Transport { provider, detail } => GenerateErrorView::Transport {
                provider: *provider,
                detail: detail@,
            },
            GenerateError::Status { provider, code, body } => GenerateErrorView::Status {
                provider: *provider,
                code: *code,
                body: body@,
            },
            GenerateError::Unparseable { provider } => GenerateErrorView::Unparseable {
                provider: *provider,
            },
            GenerateError::UnexpectedShape { provider } => GenerateErrorView::UnexpectedShape {
                provider: *provider,
            },
        }
    }
}

/// How a message about a failed connection to `p` begins.
pub open spec fn connect_text(p: Provider) -> Seq<char> {
    match p {
        Provider::Ollama => "Failed to connect to local Ollama (is it running on port 11434?): "@,
        _ => "Failed to connect to "@ + p.spec_peer() + ": "@,
    }
}

impl GenerateErrorView {
    /// The text shown for this failure. Every message about a provider names
    /// it; the one about a status holds the status code and the body.
    pub open spec fn message(self) -> Seq<char> {
        match self {
            GenerateErrorView::UnknownProvider => "Unknown AI provider"@,
            GenerateErrorView::Transport { provider, detail } => connect_text(provider) + detail,
            GenerateErrorView::Status { provider, code, body } => {
                let head = provider.spec_name() + " API error: "@ + decimal(code as nat) + " "@
                    + body;
                match provider {
                    Provider::Ollama => head,
                    Provider::Custom => head + " Check your URL and API key."@,
                    _ => head + " Check your API key."@,
                }
            },
            GenerateErrorView::Unparseable { provider } => "Failed to parse "@
                + provider.spec_peer() + " response"@,
            GenerateErrorView::UnexpectedShape { provider } =>
                "Unexpected response structure from "@ + provider.spec_peer(),
        }
    }
}

impl GenerateError {
    /// The text shown for this failure.
    pub fn message(&self) -> (r: String)
        ensures
            r@ == self@.message(),
    {
        match self {
            GenerateError::UnknownProvider => String::from_str("Unknown AI provider"),
            GenerateError::Transport { provider, detail } => {
                let mut out = match provider {
                    Provider::Ollama => String::from_str(
                        "Failed to connect to local Ollama (is it running on port 11434?): ",
                    ),
                    _ => {
                        let mut head = String::from_str("Failed to connect to ");
                        head.append(provider.peer());
                        head.append(": ");
                        head
                    },
                };
                out.append(detail.as_str());
                out
            },
            GenerateError::Status { provider, code, body } => {
                let mut out = String::from_str(provider.name());
                out.append(" API error: ");
                push_decimal(&mut out, *code as u64);
                out.append(" ");
                out.append(body.as_str());
                match provider {
                    Provider::Ollama => {},
                    Provider::Custom => {
                        out.append(" Check your URL and API key.");
                    },
                    _ => {
                        out.append(" Check your API key.");
                    },
                }
                out
            },
            GenerateError::Unparseable { provider } => {
                let mut out = String::from_str("Failed to parse ");
                out.append(provider.peer());
                out.append(" response");
                out
            },
            GenerateError::UnexpectedShape { provider } => {
                let mut out = String::from_str("Unexpected response structure from ");
                out.append(provider.peer());
                out
            },
        }
    }
}

} // verus!
