//! The dispatcher's decisions: from what the transport brought back to the
//! one result that a dispatch returns.
use vstd::prelude::*;
use crate::json::{json_nodes, json_parse, json_strings};
use crate::provider::ProviderId;
use crate::response::{
    completion_path,
    completion_reply,
    error_path,
    generative_path,
    generative_reply,
    parse_completion,
    parse_generative,
    parsed_of,
    ParseError,
    Parsed,
};

verus! {

/// What an outbound call brought back: whether it succeeded, and its
/// standard output and error streams as text.
#[derive(Debug, PartialEq, Eq)]
pub struct RawResponse {
    pub success: bool,
    pub stdout: String,
    pub stderr: String,
}

/// The class of a failed dispatch.
#[derive(Clone, Copy, Debug, PartialEq, Eq, Structural)]
pub enum ErrorKind {
    /// The call failed, or ended without success.
    TransportError,
    /// The provider's reply reports an error.
    ProviderQuotaOrError,
    /// The reply holds no answer where one is expected.
    TextNotFound,
    /// The reply is not a JSON document.
    MalformedPayload,
}

/// The one result of a dispatch.
#[derive(Debug, PartialEq, Eq)]
pub enum DispatchResult {
    Answer(String),
    Failure(ErrorKind, String),
}

/// A dispatch result as plain text.
pub enum DispatchView {
    Answer(Seq<char>),
    Failure(ErrorKind, Seq<char>),
}

impl View for DispatchResult {
    type V = DispatchView;

    open spec fn view(&self) -> DispatchView {
        match self {
            DispatchResult::Answer(t) => DispatchView::Answer(t@),
            DispatchResult::Failure(k, d) => DispatchView::Failure(*k, d@),
        }
    }
}

pub open spec fn not_found_detail() -> Seq<char> {
    "Text not found in response"@
}

pub open spec fn malformed_detail() -> Seq<char> {
    "the response is not valid JSON"@
}

/// The dispatch result for what a parser gave.
pub open spec fn result_of_parsed(p: Parsed) -> DispatchView {
    match p {
        Parsed::Text(t) => DispatchView::Answer(t),
        Parsed::TextNotFound => DispatchView::Failure(ErrorKind::TextNotFound, not_found_detail()),
        Parsed::Reported(d) => DispatchView::Failure(ErrorKind::ProviderQuotaOrError, d),
        Parsed::Malformed => DispatchView::Failure(ErrorKind::MalformedPayload, malformed_detail()),
    }
}

/// What the transport brought back, as plain text: the call's failure
/// detail, or its status and its two streams.
pub open spec fn transport_view(outcome: Result<RawResponse, String>) -> Result<
    (bool, Seq<char>, Seq<char>),
    Seq<char>,
> {
    match outcome {
        Ok(raw) => Ok((raw.success, raw.stdout@, raw.stderr@)),
        Err(d) => Err(d@),
    }
}

/// The result of a dispatch to `provider` whose call brought back `outcome`.
/// A failed call, or one without success, is a transport error with the
/// captured error text and is never parsed.
pub open spec fn dispatch_outcome(
    provider: ProviderId,
    outcome: Result<(bool, Seq<char>, Seq<char>), Seq<char>>,
) -> DispatchView {
    match outcome {
        Err(d) => DispatchView::Failure(ErrorKind::TransportError, d),
        Ok((success, stdout, stderr)) => if !success {
            DispatchView::Failure(ErrorKind::TransportError, stderr)
        } else {
            match provider {
                ProviderId::GenerativeText => result_of_parsed(generative_reply(stdout)),
                ProviderId::CompletionText => result_of_parsed(completion_reply(stdout)),
                ProviderId::InteractiveAssistant => DispatchView::Answer(stdout),
            }
        },
    }
}

/// Turns a parser's result into a dispatch result.
pub fn from_parsed(r: Result<String, ParseError>) -> (d: DispatchResult)
    ensures
        d@ == result_of_parsed(parsed_of(r)),
{
    match r {
        Ok(t) => DispatchResult::Answer(t),
        Err(ParseError::TextNotFound) => DispatchResult::Failure(
            ErrorKind::TextNotFound,
            String::from_str("Text not found in response"),
        ),
        Err(ParseError::ProviderQuotaOrError(d)) => DispatchResult::Failure(
            ErrorKind::ProviderQuotaOrError,
            d,
        ),
        Err(ParseError::MalformedPayload) => DispatchResult::Failure(
            ErrorKind::MalformedPayload,
            String::from_str("the response is not valid JSON"),
        ),
    }
}

/// Finishes a dispatch to `provider` once its call has brought back
/// `outcome`: the call's failure detail, or what it returned.
pub fn complete(provider: ProviderId, outcome: Result<RawResponse, String>) -> (r: DispatchResult)
    ensures
        r@ == dispatch_outcome(provider, transport_view(outcome)),
        outcome matches Err(d) ==> r@ == DispatchView::Failure(ErrorKind::TransportError, d@),
        outcome matches Ok(raw) ==> !raw.success ==> r@ == DispatchView::Failure(
            ErrorKind::TransportError,
            raw.stderr@,
        ),
        provider == ProviderId::InteractiveAssistant ==> (outcome matches Ok(raw) ==> raw.success
            ==> r@ == DispatchView::Answer(raw.stdout@)),
{
    match outcome {
        Err(d) => DispatchResult::Failure(ErrorKind::TransportError, d),
        Ok(raw) => {
            if !raw.success {
                DispatchResult::Failure(ErrorKind::TransportError, raw.stderr)
            } else {
                match provider {
                    ProviderId::GenerativeText => from_parsed(parse_generative(raw.stdout.as_str())),
                    ProviderId::CompletionText => from_parsed(parse_completion(raw.stdout.as_str())),
                    ProviderId::InteractiveAssistant => DispatchResult::Answer(raw.stdout),
                }
            }
        },
    }
}

impl DispatchResult {
    /// The line shown to a person: "Success: " before an answer, "Error: "
    /// before a failure's detail.
    pub fn render(&self) -> (s: String)
        ensures
            s@ == match self@ {
                DispatchView::Answer(t) => "Success: "@ + t,
                DispatchView::Failure(_, d) => "Error: "@ + d,
            },
    {
        match self {
            DispatchResult::Answer(t) => String::from_str("Success: ").concat(t.as_str()),
            DispatchResult::Failure(_, d) => String::from_str("Error: ").concat(d.as_str()),
        }
    }
}

/// A successful call whose reply holds the expected answer field yields that
/// field's text unchanged, for each provider; the assistant's answer is its
/// standard output as it came.
pub proof fn lemma_answer_field_returned(
    provider: ProviderId,
    stdout: Seq<char>,
    stderr: Seq<char>,
)
    requires
        provider == ProviderId::GenerativeText ==> (json_parse(stdout) matches Some(v)
            && json_strings(v).contains_key(generative_path())),
        provider == ProviderId::CompletionText ==> (json_parse(stdout) matches Some(v)
            && !json_nodes(v).contains(error_path()) && json_strings(v).contains_key(
            completion_path(),
        )),
    ensures
        dispatch_outcome(provider, Ok((true, stdout, stderr))) == DispatchView::Answer(
            match provider {
                ProviderId::GenerativeText => json_strings(json_parse(stdout).unwrap())[generative_path()],
                ProviderId::CompletionText => json_strings(json_parse(stdout).unwrap())[completion_path()],
                ProviderId::InteractiveAssistant => stdout,
            },
        ),
{
}

/// A completion reply that reports an error is classified as such, whether
/// or not an answer stands beside it.
pub proof fn lemma_reported_error_wins(stdout: Seq<char>, stderr: Seq<char>)
    requires
        json_parse(stdout) matches Some(v) && json_nodes(v).contains(error_path()),
    ensures
        dispatch_outcome(ProviderId::CompletionText, Ok((true, stdout, stderr))) matches DispatchView::Failure(
            k,
            _,
        ) && k == ErrorKind::ProviderQuotaOrError,
{
}

/// A parsed reply without the expected answer field, and for the completion
/// provider without a reported error, is classified as `TextNotFound`.
pub proof fn lemma_missing_field_not_found(
    provider: ProviderId,
    stdout: Seq<char>,
    stderr: Seq<char>,
)
    requires
        provider == ProviderId::GenerativeText || provider == ProviderId::CompletionText,
        provider == ProviderId::GenerativeText ==> (json_parse(stdout) matches Some(v)
            && !json_strings(v).contains_key(generative_path())),
        provider == ProviderId::CompletionText ==> (json_parse(stdout) matches Some(v)
            && !json_nodes(v).contains(error_path()) && !json_strings(v).contains_key(
            completion_path(),
        )),
    ensures
        dispatch_outcome(provider, Ok((true, stdout, stderr))) == DispatchView::Failure(
            ErrorKind::TextNotFound,
            not_found_detail(),
        ),
{
}

/// For the assistant, the exit status alone decides: without success the
/// result is a failure carrying the error stream, with success an answer
/// carrying the output stream, whatever either holds.
pub proof fn lemma_assistant_status_decides(success: bool, stdout: Seq<char>, stderr: Seq<char>)
    ensures
        dispatch_outcome(ProviderId::InteractiveAssistant, Ok((success, stdout, stderr))) == if success {
            DispatchView::Answer(stdout)
        } else {
            DispatchView::Failure(ErrorKind::TransportError, stderr)
        },
{
}

/// Two dispatches to one provider whose calls bring back the same thing give
/// the same result, so in particular the same classification.
pub proof fn lemma_dispatch_deterministic(
    provider: ProviderId,
    first: Result<RawResponse, String>,
    second: Result<RawResponse, String>,
)
    requires
        transport_view(first) == transport_view(second),
    ensures
        dispatch_outcome(provider, transport_view(first)) == dispatch_outcome(
            provider,
            transport_view(second),
        ),
{
}

/// A call that fails outright is a transport failure carrying its detail,
/// and no reply is parsed.
pub proof fn lemma_transport_failure(provider: ProviderId, detail: Seq<char>)
    ensures
        dispatch_outcome(provider, Err(detail)) == DispatchView::Failure(
            ErrorKind::TransportError,
            detail,
        ),
{
}

} // verus!
