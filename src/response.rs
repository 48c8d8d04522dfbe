//! Response parsers: from a provider's raw reply to its answer text, or to
//! the reason why no answer could be read from it.
use vstd::prelude::*;
use crate::json::{json_nodes, json_parse, json_strings, parse_document};

verus! {

/// Why a reply that arrived carried no answer.
#[derive(Debug, PartialEq, Eq)]
pub enum ParseError {
    /// The reply was read, reported no error, but had no string at the answer's place.
    TextNotFound,
    /// The provider reported an error in its reply; the detail is its description.
    ProviderQuotaOrError(String),
    /// The reply is not a JSON document.
    MalformedPayload,
}

/// What a parser's result says, over plain text.
pub enum Parsed {
    Text(Seq<char>),
    TextNotFound,
    Reported(Seq<char>),
    Malformed,
}

pub open spec fn parsed_of(r: Result<String, ParseError>) -> Parsed {
    match r {
        Ok(t) => Parsed::Text(t@),
        Err(ParseError::TextNotFound) => Parsed::TextNotFound,
        Err(ParseError::ProviderQuotaOrError(d)) => Parsed::Reported(d@),
        Err(ParseError::MalformedPayload) => Parsed::Malformed,
    }
}

/// Where the generative-text provider's answer stands: first candidate,
/// first content part, its text.
pub open spec fn generative_path() -> Seq<char> {
    "/candidate/0/content/parts/0/text"@
}

/// Where the completion provider's answer stands: first choice, its text.
pub open spec fn completion_path() -> Seq<char> {
    "/choices/0/text"@
}

/// Where the completion provider reports an error.
pub open spec fn error_path() -> Seq<char> {
    "/error"@
}

/// Where the completion provider describes the error it reports.
pub open spec fn error_message_path() -> Seq<char> {
    "/error/message"@
}

/// The detail given for a reported error that carries no description.
pub open spec fn unspecified_error() -> Seq<char> {
    "the provider reported an error"@
}

/// The string at `path` of a document, or `TextNotFound`.
pub open spec fn text_or_not_found(v: serde_json::Value, path: Seq<char>) -> Parsed {
    if json_strings(v).contains_key(path) {
        Parsed::Text(json_strings(v)[path])
    } else {
        Parsed::TextNotFound
    }
}

pub open spec fn generative_outcome(v: serde_json::Value) -> Parsed {
    text_or_not_found(v, generative_path())
}

pub open spec fn completion_outcome(v: serde_json::Value) -> Parsed {
    if json_nodes(v).contains(error_path()) {
        if json_strings(v).contains_key(error_message_path()) {
            Parsed::Reported(json_strings(v)[error_message_path()])
        } else {
            Parsed::Reported(unspecified_error())
        }
    } else {
        text_or_not_found(v, completion_path())
    }
}

/// The text at `pointer` in `v`, when a string stands there.
pub fn text_at(v: &serde_json::Value, pointer: &str) -> (r: Option<String>)
    ensures
        r is Some <==> json_strings(*v).contains_key(pointer@),
        r matches Some(t) ==> t@ == json_strings(*v)[pointer@],
{
    match v.pointer(pointer) {
        Some(w) => match w.as_str() {
            Some(s) => Some(String::from_str(s)),
            None => None,
        },
        None => None,
    }
}

/// Reads the generative-text provider's answer from a parsed reply.
pub fn generative_answer(v: &serde_json::Value) -> (r: Result<String, ParseError>)
    ensures
        parsed_of(r) == generative_outcome(*v),
        json_strings(*v).contains_key(generative_path()) ==> (r matches Ok(t) && t@
            == json_strings(*v)[generative_path()]),
        !json_strings(*v).contains_key(generative_path()) ==> r matches Err(
            ParseError::TextNotFound,
        ),
{
    match text_at(v, "/candidate/0/content/parts/0/text") {
        Some(t) => Ok(t),
        None => Err(ParseError::TextNotFound),
    }
}

/// Reads the completion provider's answer from a parsed reply. A reported
/// error wins over an answer that stands beside it.
pub fn completion_answer(v: &serde_json::Value) -> (r: Result<String, ParseError>)
    ensures
        parsed_of(r) == completion_outcome(*v),
        json_nodes(*v).contains(error_path()) ==> r matches Err(
            ParseError::ProviderQuotaOrError(_),
        ),
        !json_nodes(*v).contains(error_path()) && json_strings(*v).contains_key(completion_path())
            ==> (r matches Ok(t) && t@ == json_strings(*v)[completion_path()]),
        !json_nodes(*v).contains(error_path()) && !json_strings(*v).contains_key(
            completion_path(),
        ) ==> r matches Err(ParseError::TextNotFound),
{
    if v.pointer("/error").is_some() {
        match text_at(v, "/error/message") {
            Some(d) => Err(ParseError::ProviderQuotaOrError(d)),
            None => Err(ParseError::ProviderQuotaOrError(
                String::from_str("the provider reported an error"),
            )),
        }
    } else {
        match text_at(v, "/choices/0/text") {
            Some(t) => Ok(t),
            None => Err(ParseError::TextNotFound),
        }
    }
}

/// What the generative-text parser gives for a raw reply.
pub open spec fn generative_reply(raw: Seq<char>) -> Parsed {
    match json_parse(raw) {
        Some(v) => generative_outcome(v),
        None => Parsed::Malformed,
    }
}

/// What the completion parser gives for a raw reply.
pub open spec fn completion_reply(raw: Seq<char>) -> Parsed {
    match json_parse(raw) {
        Some(v) => completion_outcome(v),
        None => Parsed::Malformed,
    }
}

/// Parses the generative-text provider's raw reply.
pub fn parse_generative(raw: &str) -> (r: Result<String, ParseError>)
    ensures
        parsed_of(r) == generative_reply(raw@),
{
    match parse_document(raw) {
        Ok(v) => generative_answer(&v),
        Err(_) => Err(ParseError::MalformedPayload),
    }
}

/// Parses the completion provider's raw reply.
pub fn parse_completion(raw: &str) -> (r: Result<String, ParseError>)
    ensures
        parsed_of(r) == completion_reply(raw@),
{
    match parse_document(raw) {
        Ok(v) => completion_answer(&v),
        Err(_) => Err(ParseError::MalformedPayload),
    }
}

} // verus!
