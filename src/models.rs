//! The request sent to the service and the answers it returns.
use vstd::prelude::*;

verus! {

/// One message of the conversation: who speaks (`"user"`, ...) and what is said.
#[derive(Debug, Clone, PartialEq, Eq)]
pub struct Message {
    pub role: String,
    pub content: String,
}

/// The body of one completion request. Fractional parameters are in
/// thousandths, as in `GptConfig`.
#[derive(Debug, Clone, PartialEq, Eq)]
pub struct GptRequest {
    pub messages: Vec<Message>,
    pub temperature: i32,
    pub max_tokens: u32,
    pub top_p: i32,
    pub frequency_penalty: i32,
    pub presence_penalty: i32,
    /// Left out of the request body entirely when `None`.
    pub stop: Option<Vec<String>>,
    pub stream: bool,
}

/// An answer, complete or one increment of a stream.
#[derive(Debug, Clone, PartialEq, Eq)]
pub struct GptResponse {
    pub id: Option<String>,
    pub choices: Vec<Choice>,
}

/// One candidate answer: a complete `message`, or a `delta` when streaming.
#[derive(Debug, Clone, PartialEq, Eq)]
pub struct Choice {
    pub message: Option<ResponseMessage>,
    pub delta: Option<Delta>,
    pub finish_reason: Option<String>,
    pub index: i32,
}

/// A complete message of a non-streaming answer.
#[derive(Debug, Clone, PartialEq, Eq)]
pub struct ResponseMessage {
    pub content: String,
    pub role: Option<String>,
}

/// An increment of a streaming answer.
#[derive(Debug, Clone, PartialEq, Eq)]
pub struct Delta {
    pub content: Option<String>,
    pub role: Option<String>,
}

} // verus!
