//! The exchange with the chat-completion provider: the request that is built
//! from a diff, and what is taken from the reply.

use vstd::prelude::*;

verus! {

/// One entry of the conversation that is sent to the provider.
#[derive(Debug, PartialEq, Eq)]
pub struct Message {
    pub role: String,
    pub content: String,
}

/// What a [`Message`] stands for in contracts.
pub struct MessageView {
    pub role: Seq<char>,
    pub content: Seq<char>,
}

impl View for Message {
    type V = MessageView;

    open spec fn view(&self) -> MessageView {
        MessageView { role: self.role@, content: self.content@ }
    }
}

/// The body of a chat-completion request.
#[derive(Debug, PartialEq, Eq)]
pub struct ChatRequest {
    pub model: String,
    pub messages: Vec<Message>,
    pub stream: bool,
}

/// What a [`ChatRequest`] stands for in contracts.
pub struct ChatRequestView {
    pub model: Seq<char>,
    pub messages: Seq<MessageView>,
    pub stream: bool,
}

impl View for ChatRequest {
    type V = ChatRequestView;

    open spec fn view(&self) -> ChatRequestView {
        ChatRequestView {
            model: self.model@,
            messages: self.messages@.map_values(|m: Message| m@),
            stream: self.stream,
        }
    }
}

/// Everything that one call of the provider needs: where it goes, the two
/// headers, and the body.
#[derive(Debug, PartialEq, Eq)]
pub struct ApiCall {
    pub url: String,
    pub authorization: String,
    pub content_type: String,
    pub body: ChatRequest,
}

/// What a [`ApiCall`] stands for in contracts.
pub struct ApiCallView {
    pub url: Seq<char>,
    pub authorization: Seq<char>,
    pub content_type: Seq<char>,
    pub body: ChatRequestView,
}

impl View for ApiCall {
    type V = ApiCallView;

    open spec fn view(&self) -> ApiCallView {
        ApiCallView {
            url: self.url@,
            authorization: self.authorization@,
            content_type: self.content_type@,
            body: self.body@,
        }
    }
}

/// The message of one candidate.
#[derive(Debug, PartialEq, Eq)]
pub struct MessageResponse {
    pub role: String,
    pub content: String,
}

/// What a [`MessageResponse`] stands for in contracts.
pub struct MessageResponseView {
    pub role: Seq<char>,
    pub content: Seq<char>,
}

impl View for MessageResponse {
    type V = MessageResponseView;

    open spec fn view(&self) -> MessageResponseView {
        MessageResponseView { role: self.role@, content: self.content@ }
    }
}

/// One candidate of a reply. The log-probability payload, where the
/// provider sent one, is kept as its JSON text.
#[derive(Debug, PartialEq, Eq)]
pub struct Choice {
    pub index: u32,
    pub message: MessageResponse,
    pub logprobs: Option<String>,
    pub finish_reason: String,
}

/// What a [`Choice`] stands for in contracts.
pub struct ChoiceView {
    pub index: u32,
    pub message: MessageResponseView,
    pub logprobs: Option<Seq<char>>,
    pub finish_reason: Seq<char>,
}

impl View for Choice {
    type V = ChoiceView;

    open spec fn view(&self) -> ChoiceView {
        ChoiceView {
            index: self.index,
            message: self.message@,
            logprobs: match self.logprobs {
                Some(text) => Some(text@),
                None => None,
            },
            finish_reason: self.finish_reason@,
        }
    }
}

/// The token counts of a reply.
#[derive(Debug, Clone, Copy, PartialEq, Eq)]
pub struct Usage {
    pub prompt_tokens: u32,
    pub completion_tokens: u32,
    pub total_tokens: u32,
    pub prompt_cache_hit_tokens: u32,
    pub prompt_cache_miss_tokens: u32,
}

/// A reply of the provider, in the shape it is expected to have.
#[derive(Debug, PartialEq, Eq)]
pub struct ChatResponse {
    pub id: String,
    pub object: String,
    pub created: u64,
    pub model: String,
    pub choices: Vec<Choice>,
    pub usage: Usage,
    pub system_fingerprint: String,
}

/// What a [`ChatResponse`] stands for in contracts.
pub struct ChatResponseView {
    pub id: Seq<char>,
    pub object: Seq<char>,
    pub created: u64,
    pub model: Seq<char>,
    pub choices: Seq<ChoiceView>,
    pub usage: Usage,
    pub system_fingerprint: Seq<char>,
}

impl View for ChatResponse {
    type V = ChatResponseView;

    open spec fn view(&self) -> ChatResponseView {
        ChatResponseView {
            id: self.id@,
            object: self.object@,
            created: self.created,
            model: self.model@,
            choices: self.choices@.map_values(|c: Choice| c@),
            usage: self.usage,
            system_fingerprint: self.system_fingerprint@,
        }
    }
}

/// Why no commit message came out of the exchange.
#[derive(Debug, PartialEq, Eq)]
pub enum GenerateError {
    /// The exchange itself failed, or the reply did not have the expected
    /// shape; the text is the underlying description.
    Transport(String),
    /// The reply was well-formed and held no candidate.
    NoResponse,
}

/// What a [`GenerateError`] stands for in contracts.
pub enum GenerateErrorView {
    Transport(Seq<char>),
    NoResponse,
}

impl View for GenerateError {
    type V = GenerateErrorView;

    open spec fn view(&self) -> GenerateErrorView {
        match self {
            GenerateError::Transport(why) => GenerateErrorView::Transport(why@),
            GenerateError::NoResponse => GenerateErrorView::NoResponse,
        }
    }
}

/// What came back from the provider: a reply, or the description of the
/// failure to obtain one.
pub open spec fn reply_view(reply: Result<ChatResponse, String>) -> Result<
    ChatResponseView,
    Seq<char>,
> {
    match reply {
        Ok(response) => Ok(response@),
        Err(why) => Err(why@),
    }
}

/// The view of the outcome of message generation.
pub open spec fn generated_view(r: Result<String, GenerateError>) -> Result<
    Seq<char>,
    GenerateErrorView,
> {
    match r {
        Ok(message) => Ok(message@),
        Err(e) => Err(e@),
    }
}

/// The address of the provider's chat-completion endpoint.
pub open spec fn endpoint() -> Seq<char> {
    "https://api.deepseek.com/chat/completions"@
}

/// The model that every request names.
pub open spec fn model_name() -> Seq<char> {
    "deepseek-chat"@
}

/// The instruction that opens every conversation.
pub open spec fn system_prompt() -> Seq<char> {
    "You are a helpful assistant to great a short git commit message"@
}

/// The content type of every request.
pub open spec fn json_content_type() -> Seq<char> {
    "application/json"@
}

/// The authorization header for a credential.
pub open spec fn bearer(key: Seq<char>) -> Seq<char> {
    "Bearer "@ + key
}

/// The text of the error for a reply without candidates.
pub open spec fn no_response_text() -> Seq<char> {
    "No response from DeepSeek"@
}

/// The request for a diff: the fixed model, no streaming, and two messages,
/// the system instruction and then the diff itself as the user's message.
pub open spec fn request_for(diff: Seq<char>) -> ChatRequestView {
    ChatRequestView {
        model: model_name(),
        messages: seq![
            MessageView { role: "system"@, content: system_prompt() },
            MessageView { role: "user"@, content: diff },
        ],
        stream: false,
    }
}

/// The call that asks the provider for a message on a diff.
pub open spec fn call_for(key: Seq<char>, diff: Seq<char>) -> ApiCallView {
    ApiCallView {
        url: endpoint(),
        authorization: bearer(key),
        content_type: json_content_type(),
        body: request_for(diff),
    }
}

/// What is taken from a reply: the content of its first candidate.
pub open spec fn first_content(response: ChatResponseView) -> Result<Seq<char>, GenerateErrorView> {
    if response.choices.len() > 0 {
        Ok(response.choices[0].message.content)
    } else {
        Err(GenerateErrorView::NoResponse)
    }
}

/// The outcome of message generation for what came back from the provider.
pub open spec fn generation_result(reply: Result<ChatResponseView, Seq<char>>) -> Result<
    Seq<char>,
    GenerateErrorView,
> {
    match reply {
        Ok(response) => first_content(response),
        Err(why) => Err(GenerateErrorView::Transport(why)),
    }
}

/// The text by which an error is reported.
pub open spec fn error_text(e: GenerateErrorView) -> Seq<char> {
    match e {
        GenerateErrorView::Transport(why) => why,
        GenerateErrorView::NoResponse => no_response_text(),
    }
}

impl GenerateError {
    /// The text by which the error is reported.
    pub fn describe(&self) -> (text: String)
        ensures
            text@ == error_text(self@),
    {
        match self {
            GenerateError::Transport(why) => why.clone(),
            GenerateError::NoResponse => String::from_str("No response from DeepSeek"),
        }
    }
}

/// Builds the request body for a diff. The diff goes in whole and unchanged.
pub fn build_request(diff: &str) -> (request: ChatRequest)
    ensures
        request@ == request_for(diff@),
        request@.messages.len() == 2,
        request@.messages[0] == (MessageView { role: "system"@, content: system_prompt() }),
        request@.messages[1] == (MessageView { role: "user"@, content: diff@ }),
{
    let mut messages: Vec<Message> = Vec::new();
    messages.push(
        Message {
            role: String::from_str("system"),
            content: String::from_str(
                "You are a helpful assistant to great a short git commit message",
            ),
        },
    );
    messages.push(Message { role: String::from_str("user"), content: String::from_str(diff) });
    let request = ChatRequest { model: String::from_str("deepseek-chat"), messages, stream: false };
    proof {
        assert(request@.messages =~= request_for(diff@).messages);
    }
    request
}

/// Builds the call for a diff, authorised by `key`.
pub fn api_call(key: &str, diff: &str) -> (call: ApiCall)
    ensures
        call@ == call_for(key@, diff@),
{
    ApiCall {
        url: String::from_str("https://api.deepseek.com/chat/completions"),
        authorization: String::from_str("Bearer ").concat(key),
        content_type: String::from_str("application/json"),
        body: build_request(diff),
    }
}

/// Takes the commit message out of a reply: the content of the first
/// candidate as it came, whatever the later candidates hold. A reply
/// without candidates is an error.
pub fn extract_message(response: &ChatResponse) -> (message: Result<String, GenerateError>)
    ensures
        generated_view(message) == first_content(response@),
        response.choices.len() == 0 <==> message is Err,
        message is Ok ==> message->Ok_0@ == response.choices[0].message.content@,
{
    if response.choices.len() > 0 {
        Ok(response.choices[0].message.content.clone())
    } else {
        Err(GenerateError::NoResponse)
    }
}

/// Turns what came back from the provider into a commit message or the
/// reason why there is none.
pub fn generate_commit_message(reply: &Result<ChatResponse, String>) -> (message: Result<
    String,
    GenerateError,
>)
    ensures
        generated_view(message) == generation_result(reply_view(*reply)),
{
    match reply {
        Ok(response) => extract_message(response),
        Err(why) => Err(GenerateError::Transport(why.clone())),
    }
}

} // verus!
