//! What is sent to a provider: the prompt, the endpoint, the credentials and
//! the body of the one HTTP request that asks for a commit message.

use crate::failure::{GenerateError, GenerateErrorView};
use crate::provider::{provider_of, AiConfig, AiConfigView, Provider};
use crate::text::{ends_with, option_text};
use vstd::prelude::*;

verus! {

/// How long a provider may take to answer, in seconds.
pub const REQUEST_TIMEOUT_SECS: u64 = 45;

/// The instructions that precede the diff in every prompt.
pub open spec fn prompt_head() -> Seq<char> {
    "You are an expert developer. Generate a concise, conventional commit message for the following git diff. Return ONLY the commit message (in the format '<type>: <subject>') without any markdown ticks, extra explanations, or quotes.\n\nDiff:\n"@
}

/// The prompt that asks for a commit message for `diff`.
pub open spec fn prompt_for(diff: Seq<char>) -> Seq<char> {
    prompt_head() + diff
}

/// Builds the prompt that asks for a commit message for `diff`.
pub fn build_prompt(diff: &str) -> (r: String)
    ensures
        r@ == prompt_for(diff@),
{
    let mut out = String::from_str(
        "You are an expert developer. Generate a concise, conventional commit message for the following git diff. Return ONLY the commit message (in the format '<type>: <subject>') without any markdown ticks, extra explanations, or quotes.\n\nDiff:\n",
    );
    out.append(diff);
    out
}

/// The URL of the chat-completions endpoint below `base`: `base` itself where
/// it already names the endpoint, else `base` with the endpoint's path added
/// after exactly one slash.
pub open spec fn chat_endpoint(base: Seq<char>) -> Seq<char> {
    if "/chat/completions"@.is_suffix_of(base) {
        base
    } else if "/"@.is_suffix_of(base) {
        base + "chat/completions"@
    } else {
        base + "/chat/completions"@
    }
}

/// Completes a base URL to the URL of its chat-completions endpoint.
pub fn normalize_chat_url(base: &str) -> (r: String)
    ensures
        r@ == chat_endpoint(base@),
        "/chat/completions"@.is_suffix_of(r@),
{
    proof {
        chat_endpoint_ends_in_path(base@);
    }
    let mut out = String::from_str(base);
    if ends_with(base, "/chat/completions") {
    } else if ends_with(base, "/") {
        out.append("chat/completions");
    } else {
        out.append("/chat/completions");
    }
    out
}

/// Whatever the base, the completed URL ends in `/chat/completions`, and
/// completing it once more changes nothing.
pub proof fn chat_endpoint_ends_in_path(base: Seq<char>)
    ensures
        "/chat/completions"@.is_suffix_of(chat_endpoint(base)),
        chat_endpoint(chat_endpoint(base)) == chat_endpoint(base),
{
    reveal_strlit("/chat/completions");
    reveal_strlit("chat/completions");
    reveal_strlit("/");
    let path = "/chat/completions"@;
    let url = chat_endpoint(base);
    if path.is_suffix_of(base) {
    } else if "/"@.is_suffix_of(base) {
        let last = base.subrange(base.len() - 1, base.len() as int);
        assert(last[0] == '/');
        assert(url.subrange(url.len() - path.len(), url.len() as int) =~= path);
    } else {
        assert(url.subrange(url.len() - path.len(), url.len() as int) =~= path);
    }
}

/// One header of a request.
#[derive(Debug, PartialEq, Eq)]
pub struct Header {
    pub name: String,
    pub value: String,
}

/// A [`Header`] as plain values.
pub struct HeaderView {
    pub name: Seq<char>,
    pub value: Seq<char>,
}

impl View for Header {
    type V = HeaderView;

    open spec fn view(&self) -> HeaderView {
        HeaderView { name: self.name@, value: self.value@ }
    }
}

/// One message of a chat.
#[derive(Debug, PartialEq, Eq)]
pub struct ChatMessage {
    pub role: String,
    pub content: String,
}

/// A [`ChatMessage`] as plain values.
pub struct ChatMessageView {
    pub role: Seq<char>,
    pub content: Seq<char>,
}

impl View for ChatMessage {
    type V = ChatMessageView;

    open spec fn view(&self) -> ChatMessageView {
        ChatMessageView { role: self.role@, content: self.content@ }
    }
}

/// One part of a content: a piece of text.
#[derive(Debug, PartialEq, Eq)]
pub struct Part {
    pub text: String,
}

/// A [`Part`] as plain values.
pub struct PartView {
    pub text: Seq<char>,
}

impl View for Part {
    type V = PartView;

    open spec fn view(&self) -> PartView {
        PartView { text: self.text@ }
    }
}

/// One content: a list of parts.
#[derive(Debug, PartialEq, Eq)]
pub struct Content {
    pub parts: Vec<Part>,
}

/// A [`Content`] as plain values.
pub struct ContentView {
    pub parts: Seq<PartView>,
}

impl View for Content {
    type V = ContentView;

    open spec fn view(&self) -> ContentView {
        ContentView { parts: self.parts@.map_values(|p: Part| p@) }
    }
}

/// The body of a request. The embedding program sends it as a JSON object
/// whose members are the fields of the variant, under their names; a field
/// that is `None` is left out.
#[derive(Debug, PartialEq, Eq)]
pub enum RequestBody {
    /// A single completion (`/api/generate`).
    Generate { model: String, prompt: String, stream: bool },
    /// A chat completion.
    Chat { model: String, max_tokens: Option<u32>, messages: Vec<ChatMessage> },
    /// A content generation (`generateContent`).
    Contents { contents: Vec<Content> },
}

/// A [`RequestBody`] as plain values.
pub enum RequestBodyView {
    Generate { model: Seq<char>, prompt: Seq<char>, stream: bool },
    Chat { model: Seq<char>, max_tokens: Option<u32>, messages: Seq<ChatMessageView> },
    Contents { contents: Seq<ContentView> },
}

impl View for RequestBody {
    type V = RequestBodyView;

    open spec fn view(&self) -> RequestBodyView {
        match self {
            RequestBody::Generate { model, prompt, stream } => RequestBodyView::Generate {
                model: model@,
                prompt: prompt@,
                stream: *stream,
            },
            RequestBody::Chat { model, max_tokens, messages } => RequestBodyView::Chat {
                model: model@,
                max_tokens: *max_tokens,
                messages: messages@.map_values(|m: ChatMessage| m@),
            },
            RequestBody::Contents { contents } => RequestBodyView::Contents {
                contents: contents@.map_values(|c: Content| c@),
            },
        }
    }
}

/// One HTTP `POST` request to a provider.
#[derive(Debug, PartialEq, Eq)]
pub struct HttpRequest {
    pub provider: Provider,
    pub url: String,
    /// The token of an `Authorization: Bearer` header, where one is sent.
    pub bearer: Option<String>,
    /// Further headers, in the order in which they are set.
    pub headers: Vec<Header>,
    pub body: RequestBody,
    pub timeout_secs: u64,
}

/// An [`HttpRequest`] as plain values.
pub struct HttpRequestView {
    pub provider: Provider,
    pub url: Seq<char>,
    pub bearer: Option<Seq<char>>,
    pub headers: Seq<HeaderView>,
    pub body: RequestBodyView,
    pub timeout_secs: u64,
}

impl View for HttpRequest {
    type V = HttpRequestView;

    open spec fn view(&self) -> HttpRequestView {
        HttpRequestView {
            provider: self.provider,
            url: self.url@,
            bearer: option_text(self.bearer),
            headers: self.headers@.map_values(|h: Header| h@),
            body: self.body@,
            timeout_secs: self.timeout_secs,
        }
    }
}

/// The URL that a request to `p` goes to.
pub open spec fn endpoint(p: Provider, c: AiConfigView) -> Seq<char> {
    match p {
        Provider::Ollama => "http://localhost:11434/api/generate"@,
        Provider::OpenAi => "https://api.openai.com/v1/chat/completions"@,
        Provider::Gemini => "https://generativelanguage.googleapis.com/v1beta/models/"@ + c.model
            + ":generateContent?key="@ + c.key(),
        Provider::Anthropic => "https://api.anthropic.com/v1/messages"@,
        Provider::Custom => chat_endpoint(
            match c.custom_api_url {
                Some(base) => base,
                None => "https://api.openai.com/v1"@,
            },
        ),
    }
}

/// The bearer token of a request to `p`, for the providers that take one.
pub open spec fn bearer_of(p: Provider, c: AiConfigView) -> Option<Seq<char>> {
    match p {
        Provider::OpenAi | Provider::Custom => Some(c.key()),
        _ => None,
    }
}

/// The headers of a request to `p`, beyond the bearer token.
pub open spec fn headers_of(p: Provider, c: AiConfigView) -> Seq<HeaderView> {
    match p {
        Provider::Anthropic => seq![
            HeaderView { name: "x-api-key"@, value: c.key() },
            HeaderView { name: "anthropic-version"@, value: "2023-06-01"@ },
            HeaderView { name: "content-type"@, value: "application/json"@ },
        ],
        _ => Seq::empty(),
    }
}

/// The one chat message every chat request holds: the prompt, as the user.
pub open spec fn user_message(prompt: Seq<char>) -> ChatMessageView {
    ChatMessageView { role: "user"@, content: prompt }
}

/// The body of a request to `p` that carries `prompt`.
pub open spec fn body_of(p: Provider, c: AiConfigView, prompt: Seq<char>) -> RequestBodyView {
    match p {
        Provider::Ollama => RequestBodyView::Generate { model: c.model, prompt, stream: false },
        Provider::OpenAi | Provider::Custom => RequestBodyView::Chat {
            model: c.model,
            max_tokens: None,
            messages: seq![user_message(prompt)],
        },
        Provider::Anthropic => RequestBodyView::Chat {
            model: c.model,
            max_tokens: Some(1024u32),
            messages: seq![user_message(prompt)],
        },
        Provider::Gemini => RequestBodyView::Contents {
            contents: seq![ContentView { parts: seq![PartView { text: prompt }] }],
        },
    }
}

/// The request that asks `p` for a commit message for `diff`.
pub open spec fn planned_request(p: Provider, diff: Seq<char>, c: AiConfigView) -> HttpRequestView {
    HttpRequestView {
        provider: p,
        url: endpoint(p, c),
        bearer: bearer_of(p, c),
        headers: headers_of(p, c),
        body: body_of(p, c, prompt_for(diff)),
        timeout_secs: REQUEST_TIMEOUT_SECS,
    }
}

fn endpoint_url(p: Provider, config: &AiConfig) -> (r: String)
    ensures
        r@ == endpoint(p, config@),
{
    match p {
        Provider::Ollama => String::from_str("http://localhost:11434/api/generate"),
        Provider::OpenAi => String::from_str("https://api.openai.com/v1/chat/completions"),
        Provider::Gemini => {
            let mut url = String::from_str(
                "https://generativelanguage.googleapis.com/v1beta/models/",
            );
            url.append(config.model.as_str());
            url.append(":generateContent?key=");
            url.append(config.key().as_str());
            url
        },
        Provider::Anthropic => String::from_str("https://api.anthropic.com/v1/messages"),
        Provider::Custom => match &config.custom_api_url {
            Some(base) => normalize_chat_url(base.as_str()),
            None => normalize_chat_url("https://api.openai.com/v1"),
        },
    }
}

fn extra_headers(p: Provider, config: &AiConfig) -> (r: Vec<Header>)
    ensures
        r@.map_values(|h: Header| h@) == headers_of(p, config@),
{
    let mut headers: Vec<Header> = Vec::new();
    match p {
        Provider::Anthropic => {
            headers.push(Header { name: String::from_str("x-api-key"), value: config.key() });
            headers.push(
                Header {
                    name: String::from_str("anthropic-version"),
                    value: String::from_str("2023-06-01"),
                },
            );
            headers.push(
                Header {
                    name: String::from_str("content-type"),
                    value: String::from_str("application/json"),
                },
            );
        },
        _ => {},
    }
    assert(headers@.map_values(|h: Header| h@) =~= headers_of(p, config@));
    headers
}

fn chat_body(model: &String, max_tokens: Option<u32>, prompt: String) -> (r: RequestBody)
    ensures
        r@ == (RequestBodyView::Chat {
            model: model@,
            max_tokens,
            messages: seq![user_message(prompt@)],
        }),
{
    let mut messages: Vec<ChatMessage> = Vec::new();
    messages.push(ChatMessage { role: String::from_str("user"), content: prompt });
    assert(messages@.map_values(|m: ChatMessage| m@) =~= seq![user_message(prompt@)]);
    RequestBody::Chat { model: model.clone(), max_tokens, messages }
}

fn request_body(p: Provider, config: &AiConfig, prompt: String) -> (r: RequestBody)
    ensures
        r@ == body_of(p, config@, prompt@),
{
    match p {
        Provider::Ollama => RequestBody::Generate {
            model: config.model.clone(),
            prompt,
            stream: false,
        },
        Provider::OpenAi | Provider::Custom => chat_body(&config.model, None, prompt),
        Provider::Anthropic => chat_body(&config.model, Some(1024), prompt),
        Provider::Gemini => {
            let mut parts: Vec<Part> = Vec::new();
            parts.push(Part { text: prompt });
            assert(parts@.map_values(|p: Part| p@) =~= seq![PartView { text: prompt@ }]);
            let mut contents: Vec<Content> = Vec::new();
            contents.push(Content { parts });
            assert(contents@.map_values(|c: Content| c@) =~= seq![
                ContentView { parts: seq![PartView { text: prompt@ }] },
            ]);
            RequestBody::Contents { contents }
        },
    }
}

/// The request that asks `p` for a commit message for `diff`.
pub fn request_for(p: Provider, diff: &str, config: &AiConfig) -> (r: HttpRequest)
    ensures
        r@ == planned_request(p, diff@, config@),
{
    let bearer = match p {
        Provider::OpenAi | Provider::Custom => Some(config.key()),
        _ => None,
    };
    HttpRequest {
        provider: p,
        url: endpoint_url(p, config),
        bearer,
        headers: extra_headers(p, config),
        body: request_body(p, config, build_prompt(diff)),
        timeout_secs: REQUEST_TIMEOUT_SECS,
    }
}

/// Plans the request for a commit message for `diff`: the provider is the one
/// that the configuration's tag selects, and a tag that selects none is the
/// only failure.
pub fn plan_request(diff: &str, config: &AiConfig) -> (r: Result<HttpRequest, GenerateError>)
    ensures
        match r {
            Ok(request) => provider_of(config@.provider) == Some(request.provider) && request@
                == planned_request(request.provider, diff@, config@),
            Err(e) => provider_of(config@.provider) is None && e@
                == GenerateErrorView::UnknownProvider,
        },
{
    match Provider::from_tag(config.provider.as_str()) {
        Some(p) => Ok(request_for(p, diff, config)),
        None => Err(GenerateError::UnknownProvider),
    }
}

} // verus!
