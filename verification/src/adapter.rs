//! The provider adapter: one request shape and one response shape for every
//! backend. Only the endpoint, the authorization header and the default model
//! vary with the backend.

use crate::history::{turn_views, Turn, TurnView};
use crate::provider::ProviderKind;
use crate::text::{decimal, decimal_text};
use vstd::prelude::*;
use vstd::string::*;

verus! {

/// Why a submission produced no reply.
#[derive(Debug)]
pub enum ChatError {
    /// The backend wants a credential and none is configured.
    MissingCredential,
    /// The transport failed before a response arrived.
    Transport(String),
    /// A response arrived with a status outside 200..=299.
    Status(u16),
    /// The response body was not JSON of the expected shape.
    MalformedBody(String),
    /// The response held an empty list of choices.
    NoChoices,
}

/// An error with its texts as sequences of characters.
pub enum ChatErrorView {
    MissingCredential,
    Transport(Seq<char>),
    Status(u16),
    MalformedBody(Seq<char>),
    NoChoices,
}

impl View for ChatError {
    type V = ChatErrorView;

    open spec fn view(&self) -> ChatErrorView {
        match self {
            ChatError::MissingCredential => ChatErrorView::MissingCredential,
            ChatError::Transport(m) => ChatErrorView::Transport(m@),
            ChatError::Status(code) => ChatErrorView::Status(*code),
            ChatError::MalformedBody(m) => ChatErrorView::MalformedBody(m@),
            ChatError::NoChoices => ChatErrorView::NoChoices,
        }
    }
}

impl ChatErrorView {
    /// The error as a line of text for the user.
    pub open spec fn text(self) -> Seq<char> {
        match self {
            ChatErrorView::MissingCredential => "no credential is configured for this provider"@,
            ChatErrorView::Transport(m) => m,
            ChatErrorView::Status(code) => "the provider answered with status "@ + decimal_text(
                code as nat,
            ),
            ChatErrorView::MalformedBody(m) => m,
            ChatErrorView::NoChoices => "the response holds no choices"@,
        }
    }
}

impl ChatError {
    /// The error as a line of text for the user.
    pub fn message(&self) -> (r: String)
        ensures
            r@ == self@.text(),
    {
        match self {
            ChatError::MissingCredential => String::from_str(
                "no credential is configured for this provider",
            ),
            ChatError::Transport(m) => m.clone(),
            ChatError::Status(code) => {
                let digits = decimal(*code);
                String::from_str("the provider answered with status ").concat(digits.as_str())
            },
            ChatError::MalformedBody(m) => m.clone(),
            ChatError::NoChoices => String::from_str("the response holds no choices"),
        }
    }
}

/// One HTTP exchange, ready to be sent: a POST of `{model, messages}` to `url`.
#[derive(Debug)]
pub struct OutboundRequest {
    pub url: String,
    /// The value of the `Authorization` header, where one is sent.
    pub authorization: Option<String>,
    pub model: String,
    pub messages: Vec<Turn>,
}

/// A request as a mathematical value.
pub struct RequestView {
    pub url: Seq<char>,
    pub authorization: Option<Seq<char>>,
    pub model: Seq<char>,
    pub messages: Seq<TurnView>,
}

/// An optional text by its characters.
pub open spec fn text_of(value: Option<String>) -> Option<Seq<char>> {
    match value {
        Some(s) => Some(s@),
        None => None,
    }
}

impl View for OutboundRequest {
    type V = RequestView;

    open spec fn view(&self) -> RequestView {
        RequestView {
            url: self.url@,
            authorization: text_of(self.authorization),
            model: self.model@,
            messages: turn_views(self.messages@),
        }
    }
}

/// Whether a request to `provider` cannot be built for want of a credential.
pub open spec fn lacks_credential(provider: ProviderKind, credential: Option<Seq<char>>) -> bool {
    provider.needs_credential() && credential is None
}

/// The authorization header that goes to `provider`: a bearer token where the
/// backend wants one, nothing where it does not.
pub open spec fn authorization_for(provider: ProviderKind, credential: Option<Seq<char>>) -> Option<
    Seq<char>,
> {
    match credential {
        Some(key) if provider.needs_credential() => Some("Bearer "@ + key),
        _ => None,
    }
}

/// The request that sends `messages` to `provider` under `model`.
pub open spec fn request_for(
    provider: ProviderKind,
    credential: Option<Seq<char>>,
    model: Seq<char>,
    messages: Seq<TurnView>,
) -> RequestView {
    RequestView {
        url: provider.endpoint(),
        authorization: authorization_for(provider, credential),
        model,
        messages,
    }
}

/// Builds the request for one submission. It fails only where the backend
/// wants a credential and there is none.
pub fn prepare_request(
    provider: ProviderKind,
    credential: &Option<String>,
    model: &str,
    messages: Vec<Turn>,
) -> (r: Result<OutboundRequest, ChatError>)
    ensures
        match r {
            Ok(request) => !lacks_credential(provider, text_of(*credential)) && request@
                == request_for(provider, text_of(*credential), model@, turn_views(messages@)),
            Err(e) => lacks_credential(provider, text_of(*credential)) && e@
                == ChatErrorView::MissingCredential,
        },
{
    let authorization = if provider.requires_auth() {
        match credential {
            Some(key) => Some(String::from_str("Bearer ").concat(key.as_str())),
            None => {
                return Err(ChatError::MissingCredential);
            },
        }
    } else {
        None
    };
    Ok(
        OutboundRequest {
            url: String::from_str(provider.endpoint_url()),
            authorization,
            model: String::from_str(model),
            messages,
        },
    )
}

/// The message inside one choice of a response.
#[derive(Debug)]
pub struct ReplyMessage {
    pub role: String,
    pub content: String,
}

/// A response body: the candidate replies, in the order the backend gave.
#[derive(Debug)]
pub struct ChatResponse {
    pub choices: Vec<ReplyMessage>,
}

/// What came of sending one request.
#[derive(Debug)]
pub enum Exchange {
    /// The transport failed; the text says how.
    Failed(String),
    /// A response arrived. `body` is what its JSON held, or the reason why it
    /// could not be read as a response.
    Responded { status: u16, body: Result<ChatResponse, String> },
}

/// Whether an HTTP status reports success.
pub open spec fn is_success(status: u16) -> bool {
    200 <= status <= 299
}

/// The reply that an exchange carries, or the error it stands for. The reply
/// is the content of the first choice; the other choices are not looked at.
pub open spec fn outcome(exchange: Exchange) -> Result<Seq<char>, ChatErrorView> {
    match exchange {
        Exchange::Failed(m) => Err(ChatErrorView::Transport(m@)),
        Exchange::Responded { status, body } => if !is_success(status) {
            Err(ChatErrorView::Status(status))
        } else {
            match body {
                Err(m) => Err(ChatErrorView::MalformedBody(m@)),
                Ok(response) => if response.choices@.len() == 0 {
                    Err(ChatErrorView::NoChoices)
                } else {
                    Ok(response.choices@[0].content@)
                },
            }
        },
    }
}

/// The view of an exec result, for comparison with `outcome`.
pub open spec fn result_view(r: Result<String, ChatError>) -> Result<Seq<char>, ChatErrorView> {
    match r {
        Ok(s) => Ok(s@),
        Err(e) => Err(e@),
    }
}

/// The content of the first choice, or an error where there is no choice.
pub fn extract_reply(response: &ChatResponse) -> (r: Result<String, ChatError>)
    ensures
        match r {
            Ok(text) => response.choices@.len() > 0 && text@ == response.choices@[0].content@,
            Err(e) => response.choices@.len() == 0 && e@ == ChatErrorView::NoChoices,
        },
{
    if response.choices.len() == 0 {
        Err(ChatError::NoChoices)
    } else {
        Ok(response.choices[0].content.clone())
    }
}

/// Reads the reply out of an exchange, or says why there is none.
pub fn read_exchange(exchange: Exchange) -> (r: Result<String, ChatError>)
    ensures
        result_view(r) == outcome(exchange),
{
    match exchange {
        Exchange::Failed(m) => Err(ChatError::Transport(m)),
        Exchange::Responded { status, body } => {
            if status < 200 || status > 299 {
                Err(ChatError::Status(status))
            } else {
                match body {
                    Err(m) => Err(ChatError::MalformedBody(m)),
                    Ok(response) => extract_reply(&response),
                }
            }
        },
    }
}

/// An exchange with no choices never yields a reply.
pub proof fn lemma_empty_choices_is_an_error(status: u16, response: ChatResponse)
    requires
        response.choices@.len() == 0,
    ensures
        outcome(Exchange::Responded { status, body: Ok(response) }) is Err,
        is_success(status) ==> outcome(Exchange::Responded { status, body: Ok(response) }) == Err::<
            Seq<char>,
            ChatErrorView,
        >(ChatErrorView::NoChoices),
{
}

} // verus!
