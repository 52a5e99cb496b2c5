//! The text generation service: what is sent to it and what is made of its
//! answer. Sending and receiving is left to the caller.

use vstd::prelude::*;
use vstd::string::*;
use crate::json::{text_member, unsigned_member};
use crate::json::{json_document, json_quoted, quote, read_document, JsonValue};
use crate::text::join;

verus! {

/// What the generation came to. The five times are in nanoseconds.
#[derive(Debug, Clone, PartialEq, Eq)]
pub struct GenerationResult {
    pub content: String,
    pub search_duration: u64,
    pub total_duration: u64,
    pub load_duration: u64,
    pub prompt_eval_duration: u64,
    pub eval_duration: u64,
}

/// A generation result as a mathematical value.
pub struct Generation {
    pub content: Seq<char>,
    pub search_duration: u64,
    pub total_duration: u64,
    pub load_duration: u64,
    pub prompt_eval_duration: u64,
    pub eval_duration: u64,
}

impl View for GenerationResult {
    type V = Generation;

    open spec fn view(&self) -> Generation {
        Generation {
            content: self.content@,
            search_duration: self.search_duration,
            total_duration: self.total_duration,
            load_duration: self.load_duration,
            prompt_eval_duration: self.prompt_eval_duration,
            eval_duration: self.eval_duration,
        }
    }
}

/// The result of a generation that failed with the given text.
pub open spec fn failed(content: Seq<char>) -> Generation {
    Generation {
        content: content,
        search_duration: 0,
        total_duration: 0,
        load_duration: 0,
        prompt_eval_duration: 0,
        eval_duration: 0,
    }
}

/// The text that reports at which step the generation failed, and why.
pub open spec fn failure_text(step: Seq<char>, reason: Seq<char>) -> Seq<char> {
    "Error generating response: "@ + step + " ("@ + reason + ")"@
}

/// A number that an answer may leave out, which then counts as zero.
pub open spec fn or_zero(number: Option<u64>) -> u64 {
    match number {
        Some(n) => n,
        None => 0,
    }
}

/// The text of a generated answer: the `content` of its `message`, or a
/// report that quotes the payload where there is none.
pub open spec fn answer_content(payload: Seq<char>, document: JsonValue) -> Seq<char> {
    let content = match document.member("message"@) {
        Some(message) => text_member(message, "content"@),
        None => None,
    };
    match content {
        Some(text) => text,
        None => "Error generating response: fail to find [message][content]\nRaw JSON:\n```"@
            + payload + "```"@,
    }
}

/// What a document of the generation service comes to.
pub open spec fn answer(
    payload: Seq<char>,
    document: JsonValue,
    search_duration: u64,
) -> Generation {
    Generation {
        content: answer_content(payload, document),
        search_duration: search_duration,
        total_duration: or_zero(unsigned_member(document, "total_duration"@)),
        load_duration: or_zero(unsigned_member(document, "load_duration"@)),
        prompt_eval_duration: or_zero(unsigned_member(document, "prompt_eval_duration"@)),
        eval_duration: or_zero(unsigned_member(document, "eval_duration"@)),
    }
}

/// What a payload of the generation service comes to.
pub open spec fn generated(payload: Seq<char>, search_duration: u64) -> Generation {
    match json_document(payload) {
        Ok(document) => answer(payload, document, search_duration),
        Err(message) => failed(failure_text("Failed to parse JSON"@, message)),
    }
}

/// One message of a request, as JSON.
pub open spec fn message_json(role: Seq<char>, content: Seq<char>) -> Seq<char> {
    "{\"content\":"@ + json_quoted(content) + ",\"role\":\""@ + role + "\"}"@
}

/// A system message that is left out where it has nothing to say, together
/// with the comma that parts it from the next message.
pub open spec fn optional_message(content: Seq<char>) -> Seq<char> {
    if content.len() > 0 {
        message_json("system"@, content) + ","@
    } else {
        Seq::empty()
    }
}

/// The body of a request to the generation service: the news and the search
/// results of the day, each only where there are any, then the system prompt,
/// then the prompt of the user; the model; and no streaming.
pub open spec fn request_json(
    model: Seq<char>,
    news_prompt: Seq<char>,
    date_prompt: Seq<char>,
    system_prompt: Seq<char>,
    user_prompt: Seq<char>,
) -> Seq<char> {
    "{\"messages\":["@ + optional_message(news_prompt) + optional_message(date_prompt)
        + message_json("system"@, system_prompt) + ","@ + message_json("user"@, user_prompt)
        + "],\"model\":"@ + json_quoted(model) + ",\"stream\":false}"@
}

fn append_message(body: &mut String, role: &str, content: &str)
    ensures
        final(body)@ == old(body)@ + message_json(role@, content@),
{
    let quoted = quote(content);
    body.append("{\"content\":");
    body.append(quoted.as_str());
    body.append(",\"role\":\"");
    body.append(role);
    body.append("\"}");
}

fn append_optional_message(body: &mut String, content: &str)
    ensures
        final(body)@ == old(body)@ + optional_message(content@),
{
    if !content.is_empty() {
        append_message(body, "system", content);
        body.append(",");
    }
}

/// The address of the chat endpoint of the generation service.
pub fn chat_url(base_url: &str) -> (r: String)
    ensures
        r@ == base_url@ + "/api/chat"@,
{
    join(base_url, "/api/chat")
}

/// Writes the body of a request to the generation service.
pub fn chat_request(
    model: &str,
    news_prompt: &str,
    date_prompt: &str,
    system_prompt: &str,
    user_prompt: &str,
) -> (r: String)
    ensures
        r@ == request_json(model@, news_prompt@, date_prompt@, system_prompt@, user_prompt@),
{
    let mut body = String::from_str("{\"messages\":[");
    append_optional_message(&mut body, news_prompt);
    append_optional_message(&mut body, date_prompt);
    append_message(&mut body, "system", system_prompt);
    body.append(",");
    append_message(&mut body, "user", user_prompt);
    body.append("],\"model\":");
    let quoted = quote(model);
    body.append(quoted.as_str());
    body.append(",\"stream\":false}");
    body
}

fn duration_of(document: &JsonValue, key: &str) -> (r: u64)
    ensures
        r == or_zero(unsigned_member(*document, key@)),
{
    match document.get(key) {
        Some(value) => match value.as_u64() {
            Some(n) => n,
            None => 0,
        },
        None => 0,
    }
}

impl GenerationResult {
    /// The result of a generation that failed: the text says why, and no
    /// time was spent.
    pub fn error(e: String) -> (r: GenerationResult)
        ensures
            r@ == failed(e@),
    {
        GenerationResult {
            content: e,
            search_duration: 0,
            total_duration: 0,
            load_duration: 0,
            prompt_eval_duration: 0,
            eval_duration: 0,
        }
    }

    /// The result of a generation that failed at the given step: making the
    /// client, sending the request or receiving the answer.
    pub fn failure(step: &str, reason: &str) -> (r: GenerationResult)
        ensures
            r@ == failed(failure_text(step@, reason@)),
    {
        let mut text = join("Error generating response: ", step);
        text.append(" (");
        text.append(reason);
        text.append(")");
        GenerationResult::error(text)
    }

    /// Reads the document that the generation service sent. `payload` is the
    /// text the document was read from, which is quoted where the document
    /// holds no answer.
    pub fn from_document(payload: &str, document: &JsonValue, search_duration: u64) -> (r:
        GenerationResult)
        ensures
            r@ == answer(payload@, *document, search_duration),
    {
        let found = match document.get("message") {
            Some(message) => match message.get("content") {
                Some(content) => content.as_str(),
                None => None,
            },
            None => None,
        };
        let content = match found {
            Some(text) => String::from_str(text),
            None => {
                let mut report = join(
                    "Error generating response: fail to find [message][content]\nRaw JSON:\n```",
                    payload,
                );
                report.append("```");
                report
            },
        };
        GenerationResult {
            content,
            search_duration,
            total_duration: duration_of(document, "total_duration"),
            load_duration: duration_of(document, "load_duration"),
            prompt_eval_duration: duration_of(document, "prompt_eval_duration"),
            eval_duration: duration_of(document, "eval_duration"),
        }
    }

    /// Reads the payload that the generation service sent. A payload that
    /// cannot be read, or holds no answer, gives a result that says so.
    pub fn from_response(payload: &str, search_duration: u64) -> (r: GenerationResult)
        ensures
            r@ == generated(payload@, search_duration),
    {
        match read_document(payload) {
            Ok(document) => GenerationResult::from_document(payload, &document, search_duration),
            Err(message) => GenerationResult::failure("Failed to parse JSON", message.as_str()),
        }
    }
}

} // verus!
