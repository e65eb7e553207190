//! The backend side of a turn: interpreting a remote completion response and
//! the deterministic stand-in backend used when no credential is configured.
use crate::config::opt_view;
use crate::events::{delta_text, AgentEvent};
use crate::models::{Message, Role};
use crate::text::{push_str, split_words, views, words};
use vstd::prelude::*;

verus! {

/// The error type of JSON parsing.
#[verifier::external_type_specification]
#[verifier::external_body]
pub struct ExJsonError(serde_json::Error);

/// Why a backend could not produce a response.
#[derive(Debug, PartialEq, Eq)]
pub enum BackendError {
    /// The request could not be sent; carries the transport's description.
    Transport(String),
    /// The endpoint answered with a non-success status; carries it and the body.
    Status(u16, String),
    /// The response body is not a JSON document.
    Malformed,
    /// The response holds no text at `choices[0].message.content`.
    MissingContent,
}

/// The human-readable description of a backend error.
pub open spec fn describe_spec(e: BackendError) -> Seq<char> {
    match e {
        BackendError::Transport(d) => "Failed to send request to OpenRouter: "@ + d@,
        BackendError::Status(_, b) => "OpenRouter API error: "@ + b@,
        BackendError::Malformed => "Failed to parse OpenRouter response"@,
        BackendError::MissingContent => "No content in response"@,
    }
}

impl BackendError {
    /// The human-readable description of this error.
    pub fn describe(&self) -> (r: String)
        ensures
            r@ == describe_spec(*self),
    {
        match self {
            BackendError::Transport(d) => {
                let mut r = "Failed to send request to OpenRouter: ".to_owned();
                push_str(&mut r, d.as_str());
                r
            },
            BackendError::Status(_, b) => {
                let mut r = "OpenRouter API error: ".to_owned();
                push_str(&mut r, b.as_str());
                r
            },
            BackendError::Malformed => "Failed to parse OpenRouter response".to_owned(),
            BackendError::MissingContent => "No content in response".to_owned(),
        }
    }
}

/// The texts of the `MessageDelta` events of `es`, in order.
pub open spec fn delta_texts(es: Seq<AgentEvent>) -> Seq<Seq<char>>
    decreases es.len(),
{
    if es.len() == 0 {
        seq![]
    } else {
        match delta_text(es.last()) {
            Some(t) => delta_texts(es.drop_last()).push(t),
            None => delta_texts(es.drop_last()),
        }
    }
}

/// The fragments a chat turn displays for a backend's result: the text of each
/// `MessageDelta` in order, or, when the backend failed, one fragment that
/// describes the failure.
pub fn turn_fragments(result: Result<Vec<AgentEvent>, BackendError>) -> (r: Vec<String>)
    ensures
        result matches Ok(es) ==> views(r@) == delta_texts(es@),
        result matches Err(e) ==> views(r@) == seq!["Error: "@ + describe_spec(e)],
{
    match result {
        Ok(es) => {
            let mut out: Vec<String> = Vec::new();
            let mut i: usize = 0;
            while i < es.len()
                invariant
                    i <= es@.len(),
                    views(out@) == delta_texts(es@.subrange(0, i as int)),
                decreases es@.len() - i,
            {
                let ghost before = views(out@);
                assert(es@.subrange(0, i + 1).drop_last() =~= es@.subrange(0, i as int));
                match &es[i] {
                    AgentEvent::MessageDelta(t) => {
                        out.push(t.clone());
                        assert(views(out@) =~= before.push(t@));
                    },
                    _ => {},
                }
                i = i + 1;
            }
            assert(es@.subrange(0, es@.len() as int) =~= es@);
            out
        },
        Err(e) => {
            let mut text = "Error: ".to_owned();
            let d = e.describe();
            push_str(&mut text, d.as_str());
            let out = vec![text];
            assert(views(out@) =~= seq!["Error: "@ + describe_spec(e)]);
            out
        },
    }
}

/// Whether `serde_json` accepts the text as one JSON document.
pub uninterp spec fn is_json_text(s: Seq<char>) -> bool;

/// The text at `choices[0].message.content` of the JSON document `body`, when
/// `choices` is an array whose first element holds that string.
pub uninterp spec fn reply_content_of(body: Seq<char>) -> Option<Seq<char>>;

/// Relies on `serde_json::from_str` and `serde_json::Value`'s indexing and
/// `as_str`: parses `body` as one JSON document, then reads the string at
/// `["choices"][0]["message"]["content"]` (indexing a missing key, a non-array
/// or a non-object gives `Null`, never a panic). Both depend on the text alone.
#[verifier::external_body]
fn parse_reply(body: &str) -> (r: Result<Option<String>, serde_json::Error>)
    ensures
        r is Ok == is_json_text(body@),
        r matches Ok(c) ==> opt_view(c) == reply_content_of(body@),
{
    let json: serde_json::Value = serde_json::from_str(body)?;
    Ok(json["choices"][0]["message"]["content"].as_str().map(|s| s.to_owned()))
}

/// A status code in the success range.
pub open spec fn is_success(status: u16) -> bool {
    200 <= status && status < 300
}

/// The events of a completion whose reply text is `content`, if there is one.
pub fn events_from_content(content: Option<String>) -> (r: Result<Vec<AgentEvent>, BackendError>)
    ensures
        content is None ==> r == Err::<Vec<AgentEvent>, BackendError>(BackendError::MissingContent),
        content is Some ==> r is Ok && r->Ok_0@.len() == 1 && delta_text(r->Ok_0@[0]) == Some(
            content->Some_0@,
        ),
{
    match content {
        Some(text) => Ok(vec![AgentEvent::MessageDelta(text)]),
        None => Err(BackendError::MissingContent),
    }
}

/// The events of a completion response body: one `MessageDelta` with the
/// text at `choices[0].message.content`.
pub fn parse_response(body: &str) -> (r: Result<Vec<AgentEvent>, BackendError>)
    ensures
        !is_json_text(body@) ==> r == Err::<Vec<AgentEvent>, BackendError>(BackendError::Malformed),
        is_json_text(body@) && reply_content_of(body@) is None ==> r == Err::<
            Vec<AgentEvent>,
            BackendError,
        >(BackendError::MissingContent),
        is_json_text(body@) && reply_content_of(body@) is Some ==> r is Ok && r->Ok_0@.len() == 1
            && delta_text(r->Ok_0@[0]) == reply_content_of(body@),
{
    match parse_reply(body) {
        Ok(content) => events_from_content(content),
        Err(_) => Err(BackendError::Malformed),
    }
}

/// The events of a completion endpoint's answer with `status` and `body`: the
/// status error for a non-success status, else those of the body.
pub fn interpret_response(status: u16, body: &str) -> (r: Result<Vec<AgentEvent>, BackendError>)
    ensures
        !is_success(status) ==> (r matches Err(BackendError::Status(c, b)) && c == status && b@
            == body@),
        is_success(status) && !is_json_text(body@) ==> r == Err::<
            Vec<AgentEvent>,
            BackendError,
        >(BackendError::Malformed),
        is_success(status) && is_json_text(body@) && reply_content_of(body@) is None ==> r
            == Err::<Vec<AgentEvent>, BackendError>(BackendError::MissingContent),
        is_success(status) && is_json_text(body@) && reply_content_of(body@) is Some ==> r is Ok
            && r->Ok_0@.len() == 1 && delta_text(r->Ok_0@[0]) == reply_content_of(body@),
{
    if !(200 <= status && status < 300) {
        return Err(BackendError::Status(status, body.to_owned()));
    }
    parse_response(body)
}

/// The content of the latest User turn of `ms`, or nothing when there is none.
pub open spec fn latest_user(ms: Seq<Message>) -> Seq<char>
    decreases ms.len(),
{
    if ms.len() == 0 {
        seq![]
    } else if ms.last().role == Role::User {
        ms.last().content@
    } else {
        latest_user(ms.drop_last())
    }
}

/// The content of the latest User turn of `messages`: what the stand-in
/// backend echoes. Empty when there is no User turn.
pub fn latest_user_content(messages: &[Message]) -> (r: String)
    ensures
        r@ == latest_user(messages@),
{
    let mut i: usize = messages.len();
    assert(messages@.subrange(0, i as int) =~= messages@);
    while i > 0
        invariant
            i <= messages@.len(),
            latest_user(messages@) == latest_user(messages@.subrange(0, i as int)),
        decreases i,
    {
        let ghost pre = messages@.subrange(0, i as int);
        assert(pre.drop_last() =~= messages@.subrange(0, i - 1));
        if messages[i - 1].role == Role::User {
            return messages[i - 1].content.clone();
        }
        i = i - 1;
    }
    String::new()
}

/// The reply text of the stand-in backend for `input`.
pub open spec fn stand_in_reply(input: Seq<char>) -> Seq<char> {
    "(mock) I heard: "@ + input
}

/// The reply of the stand-in backend: its fixed prefix followed by `input`.
pub fn stand_in_text(input: &str) -> (r: String)
    ensures
        r@ == stand_in_reply(input@),
{
    let mut r = "(mock) I heard: ".to_owned();
    push_str(&mut r, input);
    r
}

/// The events of the stand-in backend for `input`: one `MessageDelta` per
/// whitespace-separated word of its reply, then `Done`.
pub fn stand_in_events(input: &str) -> (r: Vec<AgentEvent>)
    ensures
        r@.len() == words(stand_in_reply(input@)).len() + 1,
        forall|i: int|
            0 <= i < r@.len() - 1 ==> delta_text(#[trigger] r@[i]) == Some(
                words(stand_in_reply(input@))[i],
            ),
        r@.last() is Done,
{
    let reply = stand_in_text(input);
    let ws = split_words(reply.as_str());
    let ghost all = views(ws@);
    let mut out: Vec<AgentEvent> = Vec::new();
    let mut i: usize = 0;
    let n = ws.len();
    while i < n
        invariant
            i <= n == ws@.len(),
            all == words(stand_in_reply(input@)),
            all.len() == n,
            out@.len() == i,
            forall|j: int| i <= j < n ==> ws@[j]@ == all[j],
            forall|j: int| 0 <= j < i ==> delta_text(#[trigger] out@[j]) == Some(all[j]),
        decreases n - i,
    {
        let w = ws[i].clone();
        out.push(AgentEvent::MessageDelta(w));
        i = i + 1;
    }
    out.push(AgentEvent::Done);
    out
}

/// The base address of the hosted completion API.
pub open spec fn default_base_url() -> Seq<char> {
    "https://openrouter.ai/api/v1"@
}

/// Settings of the remote completion backend.
#[derive(Debug)]
pub struct OpenRouterProvider {
    pub api_key: String,
    pub model: String,
    pub base_url: String,
}

impl OpenRouterProvider {
    /// A remote backend using `model`, authorized by `api_key`, at the hosted
    /// API's base address.
    pub fn new(api_key: String, model: String) -> (r: OpenRouterProvider)
        ensures
            r.api_key@ == api_key@,
            r.model@ == model@,
            r.base_url@ == default_base_url(),
    {
        OpenRouterProvider { api_key, model, base_url: "https://openrouter.ai/api/v1".to_owned() }
    }

    /// The address of the chat completion endpoint.
    pub fn endpoint(&self) -> (r: String)
        ensures
            r@ == self.base_url@ + "/chat/completions"@,
    {
        let mut r = self.base_url.clone();
        push_str(&mut r, "/chat/completions");
        r
    }

    /// The value of the `Authorization` header: the key as a bearer credential.
    pub fn authorization(&self) -> (r: String)
        ensures
            r@ == "Bearer "@ + self.api_key@,
    {
        let mut r = "Bearer ".to_owned();
        push_str(&mut r, self.api_key.as_str());
        r
    }
}

} // verus!
