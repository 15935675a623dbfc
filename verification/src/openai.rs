//! Request and response shapes for the message-generation service, and
//! the construction of a request body from a change report.

use vstd::prelude::*;
use vstd::string::StringExecFns;

verus! {

/// A request to the message-generation service.
pub struct OpenAIRequest {
    pub model: String,
    pub messages: Vec<Message>,
    pub max_tokens: usize,
}

/// One chat message of a request.
pub struct Message {
    pub role: String,
    pub content: String,
}

/// A response of the message-generation service.
pub struct OpenAIResponse {
    pub choices: Vec<Choice>,
}

/// One candidate answer within a response.
pub struct Choice {
    pub message: MessageResponse,
}

/// The message carried by one candidate answer.
pub struct MessageResponse {
    pub content: String,
}

/// The fixed instruction text that precedes the change report in every
/// request.
pub open spec fn instructions_text() -> Seq<char> {
    r#"
    You are an AI that generates concise commit messages in the Conventional Commits format.
    Analyze the provided `git diff` and summarize the changes into a single commit message.
    Follow the Conventional Commits format with one of these prefixes: feat, fix, style, refactor, test, chore, or docs.
    Keep the message concise and relevant.

    Examples:
    1. feat: add user authentication feature
    2. fix: resolve crash on startup
    3. style: update button styling for consistency
    4. docs: add documentation for API endpoints

    Git diff:
    "#@
}

/// The instruction preamble, as a string slice.
pub fn instructions() -> (r: &'static str)
    ensures
        r@ == instructions_text(),
{
    r#"
    You are an AI that generates concise commit messages in the Conventional Commits format.
    Analyze the provided `git diff` and summarize the changes into a single commit message.
    Follow the Conventional Commits format with one of these prefixes: feat, fix, style, refactor, test, chore, or docs.
    Keep the message concise and relevant.

    Examples:
    1. feat: add user authentication feature
    2. fix: resolve crash on startup
    3. style: update button styling for consistency
    4. docs: add documentation for API endpoints

    Git diff:
    "#
}

/// Builds the request body that asks the service to describe a change
/// report: one user message holding the instruction preamble, a blank
/// line, and the report.
pub fn create_request_body(diff: &str) -> (r: OpenAIRequest)
    ensures
        r.model@ == "gpt-3.5-turbo"@,
        r.max_tokens == 150,
        r.messages@.len() == 1,
        r.messages@[0].role@ == "user"@,
        r.messages@[0].content@ == instructions_text() + "\n\n"@ + diff@,
{
    let content = String::from_str(instructions()).concat("\n\n").concat(diff);
    let mut messages: Vec<Message> = Vec::new();
    messages.push(Message { role: String::from_str("user"), content });
    OpenAIRequest { model: String::from_str("gpt-3.5-turbo"), messages, max_tokens: 150 }
}

/// The content of the first candidate answer of a response, when the
/// service returned at least one.
pub fn first_choice_content(resp: &OpenAIResponse) -> (r: Option<String>)
    ensures
        resp.choices@.len() == 0 ==> r is None,
        resp.choices@.len() > 0 ==> (r matches Some(c) && c@ == resp.choices@[0].message.content@),
{
    if resp.choices.len() == 0 {
        None
    } else {
        Some(resp.choices[0].message.content.clone())
    }
}

} // verus!
