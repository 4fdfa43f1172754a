//! The advice service: what to ask it, and how to read its answer.

use vstd::prelude::*;
use vstd::string::*;
use crate::json::JsonValue;

verus! {

/// Where a request for advice is posted.
pub const API_URL: &'static str = "https://api.deepseek.com/v1/chat/completions";

/// The model that is asked.
pub const MODEL: &'static str = "deepseek-chat";

/// The role under which the prompt is sent.
pub const ROLE: &'static str = "user";

/// The sampling temperature, in hundredths.
pub const TEMPERATURE_PERCENT: u32 = 50;

/// What the prompt says before the reminder's message.
pub const PROMPT_PREFIX: &'static str = "Please generate brief advice for this reminder: ";

/// What the authorization header says before the key.
pub const AUTH_SCHEME: &'static str = "Bearer ";

/// One chat-completion request, ready to be posted as JSON.
#[derive(Debug, PartialEq, Eq)]
pub struct AdviceRequest {
    pub url: String,
    pub authorization: String,
    pub model: String,
    pub role: String,
    pub prompt: String,
    pub temperature_percent: u32,
}

/// A request in plain values.
pub struct AdviceRequestView {
    pub url: Seq<char>,
    pub authorization: Seq<char>,
    pub model: Seq<char>,
    pub role: Seq<char>,
    pub prompt: Seq<char>,
    pub temperature_percent: int,
}

impl View for AdviceRequest {
    type V = AdviceRequestView;

    open spec fn view(&self) -> AdviceRequestView {
        AdviceRequestView {
            url: self.url@,
            authorization: self.authorization@,
            model: self.model@,
            role: self.role@,
            prompt: self.prompt@,
            temperature_percent: self.temperature_percent as int,
        }
    }
}

/// The request that asks for advice on `message` with the key `api_key`:
/// the key goes into the authorization header, the message into the prompt.
pub open spec fn request_for(api_key: Seq<char>, message: Seq<char>) -> AdviceRequestView {
    AdviceRequestView {
        url: API_URL@,
        authorization: AUTH_SCHEME@ + api_key,
        model: MODEL@,
        role: ROLE@,
        prompt: PROMPT_PREFIX@ + message,
        temperature_percent: TEMPERATURE_PERCENT as int,
    }
}

/// Why no advice was obtained.
#[derive(Debug, Clone, Copy, PartialEq, Eq, Structural)]
pub enum AdviceError {
    /// The request could not be sent, or no answer came.
    Transport,
    /// The answer is not JSON.
    InvalidJson,
    /// The answer holds no text at `choices[0].message.content`.
    MissingContent,
}

impl AdviceError {
    /// The sentence shown to the operator.
    pub fn message(&self) -> (text: String)
        ensures
            *self == AdviceError::Transport ==> text@
                == "Failed to send request to Deepseek API"@,
            *self == AdviceError::InvalidJson ==> text@ == "Failed to parse API response as JSON"@,
            *self == AdviceError::MissingContent ==> text@
                == "Malformed API response: missing content field"@,
    {
        match self {
            AdviceError::Transport => String::from_str("Failed to send request to Deepseek API"),
            AdviceError::InvalidJson => String::from_str("Failed to parse API response as JSON"),
            AdviceError::MissingContent => String::from_str(
                "Malformed API response: missing content field",
            ),
        }
    }
}

/// Makes the request that asks for advice on `message` with the key
/// `api_key`.
pub fn advice_request(api_key: &str, message: &str) -> (request: AdviceRequest)
    ensures
        request@ == request_for(api_key@, message@),
{
    AdviceRequest {
        url: String::from_str(API_URL),
        authorization: String::from_str(AUTH_SCHEME).concat(api_key),
        model: String::from_str(MODEL),
        role: String::from_str(ROLE),
        prompt: String::from_str(PROMPT_PREFIX).concat(message),
        temperature_percent: TEMPERATURE_PERCENT,
    }
}

/// The advice that an answer holds: the text at
/// `choices[0].message.content`, if a text is there.
pub open spec fn advice_in(response: JsonValue) -> Option<Seq<char>> {
    response.member("choices"@).element(0).member("message"@).member("content"@).text()
}

/// Reads the advice out of the service's answer.
pub fn get_simple_advice(response: &JsonValue) -> (result: Result<String, AdviceError>)
    ensures
        match advice_in(*response) {
            Some(advice) => result matches Ok(text) && text@ == advice,
            None => result == Err::<String, AdviceError>(AdviceError::MissingContent),
        },
{
    let choices = match response.get("choices") {
        Some(v) => v,
        None => { return Err(AdviceError::MissingContent); },
    };
    let first = match choices.at(0) {
        Some(v) => v,
        None => { return Err(AdviceError::MissingContent); },
    };
    let message = match first.get("message") {
        Some(v) => v,
        None => { return Err(AdviceError::MissingContent); },
    };
    let content = match message.get("content") {
        Some(v) => v,
        None => { return Err(AdviceError::MissingContent); },
    };
    match content.as_str() {
        Some(text) => Ok(String::from_str(text)),
        None => Err(AdviceError::MissingContent),
    }
}

} // verus!
