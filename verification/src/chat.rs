//! One exchange with a chat-completion provider: what is sent, and what the
//! reply means.

use crate::config::{AiConfig, AiConfigView};
use vstd::prelude::*;
use vstd::string::StringExecFns;

verus! {

/// Who speaks in a message.
#[derive(Clone, Copy, Debug, PartialEq, Eq, Structural)]
pub enum Role {
    System,
    User,
    Assistant,
}

/// The name of a role on the wire.
pub open spec fn role_name(role: Role) -> Seq<char> {
    match role {
        Role::System => "system"@,
        Role::User => "user"@,
        Role::Assistant => "assistant"@,
    }
}

impl Role {
    /// The name of the role on the wire.
    pub fn as_str(&self) -> (name: &'static str)
        ensures
            name@ == role_name(*self),
    {
        match self {
            Role::System => "system",
            Role::User => "user",
            Role::Assistant => "assistant",
        }
    }
}

pub struct ChatMessageView {
    pub role: Role,
    pub content: Seq<char>,
}

/// One message of the context of an exchange.
#[derive(Clone, Debug, PartialEq, Eq)]
pub struct ChatMessage {
    pub role: Role,
    pub content: String,
}

impl View for ChatMessage {
    type V = ChatMessageView;

    open spec fn view(&self) -> ChatMessageView {
        ChatMessageView { role: self.role, content: self.content@ }
    }
}

/// The views of a list of messages, in order.
pub open spec fn message_views(messages: Seq<ChatMessage>) -> Seq<ChatMessageView> {
    messages.map_values(|m: ChatMessage| m@)
}

/// The sampling temperature of every request, in tenths.
pub const TEMPERATURE_TENTHS: u32 = 7;

pub struct ChatRequestView {
    pub model: Seq<char>,
    pub messages: Seq<ChatMessageView>,
    pub temperature_tenths: nat,
}

/// The body of a request.
#[derive(Clone, Debug, PartialEq, Eq)]
pub struct ChatRequest {
    pub model: String,
    pub messages: Vec<ChatMessage>,
    pub temperature_tenths: u32,
}

impl View for ChatRequest {
    type V = ChatRequestView;

    open spec fn view(&self) -> ChatRequestView {
        ChatRequestView {
            model: self.model@,
            messages: message_views(self.messages@),
            temperature_tenths: self.temperature_tenths as nat,
        }
    }
}

pub struct HttpCallView {
    pub url: Seq<char>,
    pub authorization: Seq<char>,
    pub content_type: Seq<char>,
    pub body: ChatRequestView,
}

/// A request as it goes out: a `POST` to `url` with these two headers and
/// this body.
#[derive(Clone, Debug, PartialEq, Eq)]
pub struct HttpCall {
    pub url: String,
    pub authorization: String,
    pub content_type: String,
    pub body: ChatRequest,
}

impl View for HttpCall {
    type V = HttpCallView;

    open spec fn view(&self) -> HttpCallView {
        HttpCallView {
            url: self.url@,
            authorization: self.authorization@,
            content_type: self.content_type@,
            body: self.body@,
        }
    }
}

/// The request that asks the provider of `config` to continue `messages`.
pub open spec fn call_for(config: AiConfigView, messages: Seq<ChatMessageView>) -> HttpCallView {
    HttpCallView {
        url: config.base_url,
        authorization: "Bearer "@ + config.api_key,
        content_type: "application/json"@,
        body: ChatRequestView {
            model: config.model,
            messages,
            temperature_tenths: TEMPERATURE_TENTHS as nat,
        },
    }
}

/// Builds the request that asks the provider of `config` to continue
/// `messages`.
pub fn prepare_call(config: &AiConfig, messages: Vec<ChatMessage>) -> (call: HttpCall)
    ensures
        call@ == call_for(config@, message_views(messages@)),
{
    let mut authorization = "Bearer ".to_owned();
    authorization.append(config.api_key.as_str());
    HttpCall {
        url: config.base_url.clone(),
        authorization,
        content_type: "application/json".to_owned(),
        body: ChatRequest {
            model: config.model.clone(),
            messages,
            temperature_tenths: TEMPERATURE_TENTHS,
        },
    }
}

/// The text of one choice of a reply.
#[derive(Clone, Debug, PartialEq, Eq)]
pub struct MessageContent {
    pub content: String,
}

/// One choice of a reply.
#[derive(Clone, Debug, PartialEq, Eq)]
pub struct ChatChoice {
    pub message: MessageContent,
}

/// The body of a successful reply.
#[derive(Clone, Debug, PartialEq, Eq)]
pub struct ChatResponse {
    pub choices: Vec<ChatChoice>,
}

impl View for ChatResponse {
    type V = Seq<Seq<char>>;

    /// The texts of the choices, in order.
    open spec fn view(&self) -> Seq<Seq<char>> {
        self.choices@.map_values(|c: ChatChoice| c.message.content@)
    }
}

pub enum ApiErrorView {
    Transport(Seq<char>),
    HttpStatus { code: u16, body: Seq<char> },
    MalformedResponse,
    EmptyChoices,
}

/// Why an exchange gave no text.
#[derive(Clone, Debug, PartialEq, Eq)]
pub enum ApiError {
    /// The request could not be sent or no reply came back.
    Transport(String),
    /// The reply had a status outside 200 to 299; `body` is what came with it.
    HttpStatus { code: u16, body: String },
    /// The reply was a success whose body is not a reply of the expected shape.
    MalformedResponse,
    /// The reply was well formed and held no choice.
    EmptyChoices,
}

impl View for ApiError {
    type V = ApiErrorView;

    open spec fn view(&self) -> ApiErrorView {
        match self {
            ApiError::Transport(reason) => ApiErrorView::Transport(reason@),
            ApiError::HttpStatus { code, body } => ApiErrorView::HttpStatus {
                code: *code,
                body: body@,
            },
            ApiError::MalformedResponse => ApiErrorView::MalformedResponse,
            ApiError::EmptyChoices => ApiErrorView::EmptyChoices,
        }
    }
}

pub enum HttpOutcomeView {
    Unsent(Seq<char>),
    Response { status: u16, body: Seq<char>, parsed: Option<Seq<Seq<char>>> },
}

/// What the operator is told of `error`, which came from the provider
/// called `provider_name`.
pub open spec fn api_error_text(error: ApiErrorView, provider_name: Seq<char>) -> Seq<char> {
    match error {
        ApiErrorView::Transport(reason) => "Failed to send request to "@ + provider_name,
        ApiErrorView::HttpStatus { code, body } => "API Error from "@ + provider_name + ": "@ + body,
        ApiErrorView::MalformedResponse => "Failed to parse response from "@ + provider_name,
        ApiErrorView::EmptyChoices => "No choices returned from "@ + provider_name,
    }
}

impl ApiError {
    /// What the operator is told of the error, which came from the provider
    /// called `provider_name`.
    pub fn message(&self, provider_name: &str) -> (text: String)
        ensures
            text@ == api_error_text(self@, provider_name@),
    {
        match self {
            ApiError::Transport(reason) => {
                let mut text = "Failed to send request to ".to_owned();
                text.append(provider_name);
                text
            },
            ApiError::HttpStatus { code, body } => {
                let mut text = "API Error from ".to_owned();
                text.append(provider_name);
                text.append(": ");
                text.append(body.as_str());
                text
            },
            ApiError::MalformedResponse => {
                let mut text = "Failed to parse response from ".to_owned();
                text.append(provider_name);
                text
            },
            ApiError::EmptyChoices => {
                let mut text = "No choices returned from ".to_owned();
                text.append(provider_name);
                text
            },
        }
    }
}

/// How the sending of a request ended.
#[derive(Clone, Debug, PartialEq, Eq)]
pub enum HttpOutcome {
    /// No reply: the reason, in words.
    Unsent(String),
    /// A reply: its status, its body as text, and the body read as a
    /// `ChatResponse` where it is one.
    Response { status: u16, body: String, parsed: Option<ChatResponse> },
}

impl View for HttpOutcome {
    type V = HttpOutcomeView;

    open spec fn view(&self) -> HttpOutcomeView {
        match self {
            HttpOutcome::Unsent(reason) => HttpOutcomeView::Unsent(reason@),
            HttpOutcome::Response { status, body, parsed } => HttpOutcomeView::Response {
                status: *status,
                body: body@,
                parsed: match parsed {
                    Some(response) => Some(response@),
                    None => None,
                },
            },
        }
    }
}

/// The statuses that count as success.
pub open spec fn is_success(status: u16) -> bool {
    200 <= status <= 299
}

/// What an exchange gives: the text of the first choice of a successful,
/// well-formed reply, and otherwise the reason why there is none.
pub open spec fn completion(outcome: HttpOutcomeView) -> Result<Seq<char>, ApiErrorView> {
    match outcome {
        HttpOutcomeView::Unsent(reason) => Err(ApiErrorView::Transport(reason)),
        HttpOutcomeView::Response { status, body, parsed } => {
            if !is_success(status) {
                Err(ApiErrorView::HttpStatus { code: status, body })
            } else {
                match parsed {
                    None => Err(ApiErrorView::MalformedResponse),
                    Some(choices) => {
                        if choices.len() == 0 {
                            Err(ApiErrorView::EmptyChoices)
                        } else {
                            Ok(choices[0])
                        }
                    },
                }
            }
        },
    }
}

/// The view of the result of an exchange.
pub open spec fn completion_view(result: Result<String, ApiError>) -> Result<
    Seq<char>,
    ApiErrorView,
> {
    match result {
        Ok(text) => Ok(text@),
        Err(error) => Err(error@),
    }
}

/// Reads the outcome of a request: the text of the first choice, or the
/// error that stands for what went wrong.
pub fn read_reply(outcome: HttpOutcome) -> (result: Result<String, ApiError>)
    ensures
        completion_view(result) == completion(outcome@),
{
    match outcome {
        HttpOutcome::Unsent(reason) => Err(ApiError::Transport(reason)),
        HttpOutcome::Response { status, body, parsed } => {
            if status < 200 || status > 299 {
                return Err(ApiError::HttpStatus { code: status, body });
            }
            match parsed {
                None => Err(ApiError::MalformedResponse),
                Some(response) => {
                    let mut choices = response.choices;
                    if choices.len() == 0 {
                        Err(ApiError::EmptyChoices)
                    } else {
                        let first = choices.swap_remove(0);
                        Ok(first.message.content)
                    }
                },
            }
        },
    }
}

/// A reply with a status outside 200 to 299 gives an error with that status
/// and the body of the reply, word for word, whatever the body is.
pub proof fn lemma_status_error_keeps_body(status: u16, body: Seq<char>, parsed: Option<
    Seq<Seq<char>>,
>)
    requires
        !(200 <= status <= 299),
    ensures
        completion(HttpOutcomeView::Response { status, body, parsed }) == Err::<
            Seq<char>,
            ApiErrorView,
        >(ApiErrorView::HttpStatus { code: status, body }),
{
}

/// A successful reply without a choice gives `EmptyChoices`, and a
/// successful reply whose body is no reply of the expected shape gives
/// `MalformedResponse`: the two are told apart.
pub proof fn lemma_empty_is_not_malformed(status: u16, body: Seq<char>)
    requires
        is_success(status),
    ensures
        completion(HttpOutcomeView::Response { status, body, parsed: Some(Seq::empty()) }) == Err::<
            Seq<char>,
            ApiErrorView,
        >(ApiErrorView::EmptyChoices),
        completion(HttpOutcomeView::Response { status, body, parsed: None }) == Err::<
            Seq<char>,
            ApiErrorView,
        >(ApiErrorView::MalformedResponse),
{
}

} // verus!
