//! The chat-completion exchange: message shapes, errors, and how a reply
//! is judged.

use vstd::prelude::*;
use vstd::string::*;
use vstd::utf8::*;

use crate::text::{decimal, decimal_string};

verus! {

/// A chat message in the OpenAI format.
#[derive(Debug, Clone)]
pub struct ChatMessage {
    pub role: String,
    pub content: String,
}

/// Token usage information, for cost tracking.
#[derive(Debug, Clone, Copy)]
pub struct UsageInfo {
    pub prompt_tokens: u32,
    pub completion_tokens: u32,
    pub total_tokens: u32,
}

/// Result of an API call.
#[derive(Debug)]
pub struct ApiResult {
    /// The assistant's response text.
    pub content: String,
    /// Token usage, if the API reported it.
    pub usage: Option<UsageInfo>,
}

/// Error from the API layer.
#[derive(Debug)]
pub enum ApiError {
    /// No API key configured.
    NoApiKey,
    /// HTTP request failed.
    RequestFailed(String),
    /// API returned an error status.
    ApiStatus { status: u16, body: String },
    /// Response couldn't be parsed.
    ParseError(String),
    /// No choices in the response.
    EmptyResponse,
    /// Request timed out.
    Timeout,
}

/// How many leading bytes of a text a cut at `max` bytes keeps.
pub open spec fn byte_prefix_len(s: Seq<char>, max: usize) -> int {
    if encode_utf8(s).len() <= max { encode_utf8(s).len() as int } else { max as int }
}

/// The text cut to at most `max` bytes, as `&s[..s.len().min(max)]`.
pub fn byte_prefix(s: &str, max: usize) -> (r: &str)
    requires
        encode_utf8(s@).len() <= usize::MAX,
        is_char_boundary(encode_utf8(s@), byte_prefix_len(s@, max)),
    ensures
        encode_utf8(r@) =~= encode_utf8(s@).subrange(0, byte_prefix_len(s@, max)),
{
    broadcast use vstd::utf8::group_utf8_lib;
    let n = s.len();
    let k = if n <= max { n } else { max };
    let (head, _tail) = s.split_at(k);
    head
}

/// The system and user messages of a request, in order.
pub fn request_messages(system_message: &str, user_message: &str) -> (r: Vec<ChatMessage>)
    ensures
        r@.len() == 2,
        r@[0].role@ == "system"@ && r@[0].content@ == system_message@,
        r@[1].role@ == "user"@ && r@[1].content@ == user_message@,
{
    let mut v: Vec<ChatMessage> = Vec::new();
    v.push(ChatMessage { role: "system".to_owned(), content: system_message.to_owned() });
    v.push(ChatMessage { role: "user".to_owned(), content: user_message.to_owned() });
    v
}

/// A reply with a status other than 200 is an API error carrying the
/// status and body; a 200 reply passes its body on for parsing.
pub fn check_status(status: u16, body: String) -> (r: Result<String, ApiError>)
    ensures
        status == 200 ==> (r matches Ok(b) && b@ == body@),
        status != 200 ==> (r matches Err(ApiError::ApiStatus { status: s, body: b })
            && s == status && b@ == body@),
{
    if status != 200 {
        Err(ApiError::ApiStatus { status, body })
    } else {
        Ok(body)
    }
}

/// The assistant's reply is the first choice's content; no choice at all
/// is an empty response.
pub fn take_first_choice(choices: Vec<ChatMessage>, usage: Option<UsageInfo>) -> (r: Result<ApiResult, ApiError>)
    ensures
        choices@.len() == 0 ==> r matches Err(ApiError::EmptyResponse),
        choices@.len() > 0 ==> (r matches Ok(a) && a.content@ == choices@[0].content@
            && a.usage == usage),
{
    let mut choices = choices;
    if choices.len() == 0 {
        Err(ApiError::EmptyResponse)
    } else {
        let first = choices.swap_remove(0);
        Ok(ApiResult { content: first.content, usage })
    }
}

/// The error for a reply that did not parse: the parser's message and the
/// start of the body (up to 500 bytes).
pub fn parse_failure(parser_message: &str, body: &str) -> (r: ApiError)
    requires
        encode_utf8(body@).len() <= usize::MAX,
        is_char_boundary(encode_utf8(body@), byte_prefix_len(body@, 500)),
    ensures
        r matches ApiError::ParseError(m) && exists|p: Seq<char>|
            encode_utf8(p) == encode_utf8(body@).subrange(0, byte_prefix_len(body@, 500))
            && m@ == parser_message@ + "\n  Response preview: "@ + p,
{
    let preview = byte_prefix(body, 500);
    let mut m = parser_message.to_owned();
    m.append("\n  Response preview: ");
    m.append(preview);
    ApiError::ParseError(m)
}

impl ApiError {
    /// The error as a message for the player's log.
    pub fn describe(&self) -> (r: String)
        requires
            self matches ApiError::ApiStatus { body, .. } ==> encode_utf8(body@).len() <= usize::MAX
                && is_char_boundary(encode_utf8(body@), byte_prefix_len(body@, 200)),
        ensures
            match self {
                ApiError::NoApiKey => r@ == "No API key configured"@,
                ApiError::RequestFailed(e) => r@ == "Request failed: "@ + e@,
                ApiError::ApiStatus { status, body } => exists|p: Seq<char>|
                    encode_utf8(p) == encode_utf8(body@).subrange(0, byte_prefix_len(body@, 200))
                    && r@ == "API error ("@ + decimal(*status as nat) + "): "@ + p,
                ApiError::ParseError(e) => r@ == "Response parse error: "@ + e@,
                ApiError::EmptyResponse => r@ == "API returned no choices"@,
                ApiError::Timeout => r@ == "Request timed out"@,
            },
    {
        match self {
            ApiError::NoApiKey => "No API key configured".to_owned(),
            ApiError::RequestFailed(e) => {
                let mut r = "Request failed: ".to_owned();
                r.append(e.as_str());
                r
            },
            ApiError::ApiStatus { status, body } => {
                let mut r = "API error (".to_owned();
                let s = decimal_string(*status as u64);
                r.append(s.as_str());
                r.append("): ");
                r.append(byte_prefix(body.as_str(), 200));
                r
            },
            ApiError::ParseError(e) => {
                let mut r = "Response parse error: ".to_owned();
                r.append(e.as_str());
                r
            },
            ApiError::EmptyResponse => "API returned no choices".to_owned(),
            ApiError::Timeout => "Request timed out".to_owned(),
        }
    }
}

} // verus!
