//! Request builders: what is sent to each provider for one question.
use vstd::prelude::*;
use crate::json::{json_quoted, quote};
use crate::provider::{Credentials, ProviderId};

verus! {

/// One outbound call: an HTTP POST, or an external command.
#[derive(Debug, PartialEq, Eq)]
pub enum Request {
    Http { url: String, headers: Vec<String>, body: String },
    Command { program: String, args: Vec<String> },
}

/// A request as plain text.
pub enum RequestView {
    Http { url: Seq<char>, headers: Seq<Seq<char>>, body: Seq<char> },
    Command { program: Seq<char>, args: Seq<Seq<char>> },
}

pub open spec fn texts(v: Seq<String>) -> Seq<Seq<char>> {
    v.map_values(|s: String| s@)
}

impl View for Request {
    type V = RequestView;

    open spec fn view(&self) -> RequestView {
        match self {
            Request::Http { url, headers, body } => RequestView::Http {
                url: url@,
                headers: texts(headers@),
                body: body@,
            },
            Request::Command { program, args } => RequestView::Command {
                program: program@,
                args: texts(args@),
            },
        }
    }
}

/// The generative-text request: the key goes in the query, the question in
/// one text part of one content entry.
pub open spec fn generative_request(question: Seq<char>, key: Seq<char>) -> RequestView {
    RequestView::Http {
        url: "https://generativelanguage.googleapis.com/v1beta/models/gemini-2.0-flash-exp:generateContent?key="@
            + key,
        headers: seq!["Content-Type: application/json"@],
        body: "{\"contents\": [{\"parts\": [{\"text\": "@ + json_quoted(question) + "}]}]}"@,
    }
}

/// The completion request: the key goes in a bearer header, the question is
/// the prompt, beside a fixed model and an output bound of 150 tokens.
pub open spec fn completion_request(question: Seq<char>, key: Seq<char>) -> RequestView {
    RequestView::Http {
        url: "https://api.openai.com/v1/completions"@,
        headers: seq!["Authorization: Bearer "@ + key, "Content-Type: application/json"@],
        body: "{\"model\": \"gpt-4\", \"prompt\": "@ + json_quoted(question)
            + ", \"max_tokens\": 150}"@,
    }
}

/// The assistant call: the mode and the question as two arguments.
pub open spec fn assistant_request(question: Seq<char>, mode: Seq<char>) -> RequestView {
    RequestView::Command { program: "gh"@, args: seq!["copilot"@, mode, question] }
}

pub open spec fn request_for(
    provider: ProviderId,
    question: Seq<char>,
    generative_key: Seq<char>,
    completion_key: Seq<char>,
    mode: Seq<char>,
) -> RequestView {
    match provider {
        ProviderId::GenerativeText => generative_request(question, generative_key),
        ProviderId::CompletionText => completion_request(question, completion_key),
        ProviderId::InteractiveAssistant => assistant_request(question, mode),
    }
}

pub fn build_generative(question: &str, key: &str) -> (r: Request)
    ensures
        r@ == generative_request(question@, key@),
{
    let url = String::from_str(
        "https://generativelanguage.googleapis.com/v1beta/models/gemini-2.0-flash-exp:generateContent?key=",
    ).concat(key);
    let mut headers: Vec<String> = Vec::new();
    headers.push(String::from_str("Content-Type: application/json"));
    let body = String::from_str("{\"contents\": [{\"parts\": [{\"text\": ").concat(
        quote(question).as_str(),
    ).concat("}]}]}");
    let r = Request::Http { url, headers, body };
    assert(texts(headers@) =~= seq!["Content-Type: application/json"@]);
    r
}

pub fn build_completion(question: &str, key: &str) -> (r: Request)
    ensures
        r@ == completion_request(question@, key@),
{
    let url = String::from_str("https://api.openai.com/v1/completions");
    let mut headers: Vec<String> = Vec::new();
    headers.push(String::from_str("Authorization: Bearer ").concat(key));
    headers.push(String::from_str("Content-Type: application/json"));
    let body = String::from_str("{\"model\": \"gpt-4\", \"prompt\": ").concat(
        quote(question).as_str(),
    ).concat(", \"max_tokens\": 150}");
    assert(texts(headers@) =~= seq![
        "Authorization: Bearer "@ + key@,
        "Content-Type: application/json"@,
    ]);
    Request::Http { url, headers, body }
}

pub fn build_assistant(question: &str, mode: &str) -> (r: Request)
    ensures
        r@ == assistant_request(question@, mode@),
{
    let mut args: Vec<String> = Vec::new();
    args.push(String::from_str("copilot"));
    args.push(String::from_str(mode));
    args.push(String::from_str(question));
    assert(texts(args@) =~= seq!["copilot"@, mode@, question@]);
    Request::Command { program: String::from_str("gh"), args }
}

/// Builds the request for `provider`. The mode is read only for the
/// assistant, which requires one.
pub fn build_request(
    provider: ProviderId,
    question: &str,
    credentials: &Credentials,
    mode: Option<&str>,
) -> (r: Request)
    requires
        provider == ProviderId::InteractiveAssistant ==> mode is Some,
    ensures
        r@ == request_for(
            provider,
            question@,
            credentials.generative@,
            credentials.completion@,
            match mode {
                Some(m) => m@,
                None => Seq::empty(),
            },
        ),
{
    match provider {
        ProviderId::GenerativeText => build_generative(question, credentials.generative.as_str()),
        ProviderId::CompletionText => build_completion(question, credentials.completion.as_str()),
        ProviderId::InteractiveAssistant => match mode {
            Some(m) => build_assistant(question, m),
            None => build_assistant(question, ""),
        },
    }
}

} // verus!
