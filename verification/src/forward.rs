//! The question forwarder: the one request by which a message is put to the
//! external answering service. The library says what is sent; sending it,
//! and reading the credential from the process configuration, is the
//! caller's part. What comes back is read here again: the body of a reply
//! with a success status is the answer, as it comes; any other reply is a
//! failure.

use vstd::prelude::*;

verus! {

/// One turn of a chat.
#[derive(Debug)]
pub struct ChatMessage {
    pub role: String,
    pub content: String,
}

/// A chat turn as a mathematical value.
pub struct ChatMessageView {
    pub role: Seq<char>,
    pub content: Seq<char>,
}

impl View for ChatMessage {
    type V = ChatMessageView;

    open spec fn view(&self) -> ChatMessageView {
        ChatMessageView { role: self.role@, content: self.content@ }
    }
}

impl DeepView for ChatMessage {
    type V = ChatMessageView;

    open spec fn deep_view(&self) -> ChatMessageView {
        self@
    }
}

/// The body of a forwarding request.
#[derive(Debug)]
pub struct ChatRequest {
    pub model: String,
    pub messages: Vec<ChatMessage>,
}

/// A request body as a mathematical value.
pub struct ChatRequestView {
    pub model: Seq<char>,
    pub messages: Seq<ChatMessageView>,
}

impl View for ChatRequest {
    type V = ChatRequestView;

    open spec fn view(&self) -> ChatRequestView {
        ChatRequestView { model: self.model@, messages: self.messages.deep_view() }
    }
}

/// One header of a forwarding request.
#[derive(Debug)]
pub struct Header {
    pub name: String,
    pub value: String,
}

/// A header as a mathematical value.
pub struct HeaderView {
    pub name: Seq<char>,
    pub value: Seq<char>,
}

impl View for Header {
    type V = HeaderView;

    open spec fn view(&self) -> HeaderView {
        HeaderView { name: self.name@, value: self.value@ }
    }
}

impl DeepView for Header {
    type V = HeaderView;

    open spec fn deep_view(&self) -> HeaderView {
        self@
    }
}

/// A forwarding request: a POST of `body`, as JSON, to `url` under
/// `headers`.
#[derive(Debug)]
pub struct ForwardRequest {
    pub url: String,
    pub headers: Vec<Header>,
    pub body: ChatRequest,
}

/// A forwarding request as a mathematical value.
pub struct ForwardRequestView {
    pub url: Seq<char>,
    pub headers: Seq<HeaderView>,
    pub body: ChatRequestView,
}

impl View for ForwardRequest {
    type V = ForwardRequestView;

    open spec fn view(&self) -> ForwardRequestView {
        ForwardRequestView {
            url: self.url@,
            headers: self.headers.deep_view(),
            body: self.body@,
        }
    }
}

/// The value of the authorization header for a credential.
pub open spec fn bearer(credential: Seq<char>) -> Seq<char> {
    "Bearer "@ + credential
}

/// The body that puts `message` to the service: the fixed model, the fixed
/// system instruction, and the message as the user's turn.
pub open spec fn chat_request_for(message: Seq<char>) -> ChatRequestView {
    ChatRequestView {
        model: "llama-3.1-sonar-small-128k-online"@,
        messages: seq![
            ChatMessageView { role: "system"@, content: "Be precise and concise."@ },
            ChatMessageView { role: "user"@, content: message },
        ],
    }
}

/// The request that forwards `message` under `credential`.
pub open spec fn forward_request_for(
    message: Seq<char>,
    credential: Seq<char>,
) -> ForwardRequestView {
    ForwardRequestView {
        url: "https://api.perplexity.ai/chat/completions"@,
        headers: seq![
            HeaderView { name: "accept"@, value: "application/json"@ },
            HeaderView { name: "content-type"@, value: "application/json"@ },
            HeaderView { name: "Authorization"@, value: bearer(credential) },
        ],
        body: chat_request_for(message),
    }
}

/// Whether an HTTP status reports success: 200 up to 299.
pub open spec fn is_success_status(status: u16) -> bool {
    200 <= status < 300
}

/// Reads a reply of the service: the answer under a success status, a
/// failure with the body as its text under any other. The body is handed on
/// untouched either way.
pub fn reply_outcome(status: u16, body: String) -> (outcome: Result<String, String>)
    ensures
        is_success_status(status) ==> outcome == Ok::<String, String>(body),
        !is_success_status(status) ==> outcome == Err::<String, String>(body),
{
    if 200 <= status && status < 300 {
        Ok(body)
    } else {
        Err(body)
    }
}

/// Builds the body that puts `message` to the service.
pub fn chat_request(message: &str) -> (body: ChatRequest)
    ensures
        body@ == chat_request_for(message@),
{
    let mut messages: Vec<ChatMessage> = Vec::new();
    messages.push(
        ChatMessage { role: "system".to_owned(), content: "Be precise and concise.".to_owned() },
    );
    messages.push(ChatMessage { role: "user".to_owned(), content: message.to_owned() });
    let body = ChatRequest { model: "llama-3.1-sonar-small-128k-online".to_owned(), messages };
    assert(body@.messages =~= chat_request_for(message@).messages);
    body
}

/// Builds the request that forwards `message` under `credential`. The
/// message goes out as it is, also where it is empty.
pub fn forward_request(message: &str, credential: &str) -> (request: ForwardRequest)
    ensures
        request@ == forward_request_for(message@, credential@),
{
    let mut headers: Vec<Header> = Vec::new();
    headers.push(Header { name: "accept".to_owned(), value: "application/json".to_owned() });
    headers.push(Header { name: "content-type".to_owned(), value: "application/json".to_owned() });
    headers.push(
        Header { name: "Authorization".to_owned(), value: "Bearer ".to_owned().concat(credential) },
    );
    let request = ForwardRequest {
        url: "https://api.perplexity.ai/chat/completions".to_owned(),
        headers,
        body: chat_request(message),
    };
    assert(request@.headers =~= forward_request_for(message@, credential@).headers);
    request
}

} // verus!
