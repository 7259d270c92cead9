//! The steps of one parse request, from the moment it comes in to the
//! response, with the metrics that each step records.
//!
//! A request is received and its address validated; it is then either
//! rejected or handed to the parser. Waiting for the parser is the
//! caller's part: it reports how the wait ended, and the request is
//! completed with that.
use vstd::prelude::*;
use vstd::string::*;
use crate::metrics::{
    lemma_outcome_keeps_consistent, Method, MetricsRegistry, MetricsView, Outcome,
};
use crate::validator::{
    rejection_message, rejection_of, trim, trimmed, validate_address, MAX_ADDRESS_LENGTH,
};

verus! {

/// The view of a text that may be absent.
pub open spec fn text_of(text: Option<String>) -> Option<Seq<char>> {
    match text {
        Some(s) => Some(s@),
        None => None,
    }
}

/// An address in its parts, each of which may be absent.
#[derive(Clone, Debug)]
pub struct ParsedAddress {
    pub prefecture: Option<String>,
    pub city: Option<String>,
    pub town: Option<String>,
    pub rest: Option<String>,
}

/// An address in its parts, as a mathematical value.
pub ghost struct ParsedAddressView {
    pub prefecture: Option<Seq<char>>,
    pub city: Option<Seq<char>>,
    pub town: Option<Seq<char>>,
    pub rest: Option<Seq<char>>,
}

impl View for ParsedAddress {
    type V = ParsedAddressView;

    open spec fn view(&self) -> ParsedAddressView {
        ParsedAddressView {
            prefecture: text_of(self.prefecture),
            city: text_of(self.city),
            town: text_of(self.town),
            rest: text_of(self.rest),
        }
    }
}

impl ParsedAddress {
    /// An address of which the parser gave all four parts.
    pub fn new(prefecture: String, city: String, town: String, rest: String) -> (address: Self)
        ensures
            address@ == (ParsedAddressView {
                prefecture: Some(prefecture@),
                city: Some(city@),
                town: Some(town@),
                rest: Some(rest@),
            }),
    {
        ParsedAddress {
            prefecture: Some(prefecture),
            city: Some(city),
            town: Some(town),
            rest: Some(rest),
        }
    }
}

/// What a parse request is answered with.
#[derive(Clone, Debug)]
pub struct ParseResponse {
    pub success: bool,
    pub result: Option<ParsedAddress>,
    pub error: Option<String>,
    pub processing_time_ms: Option<u64>,
}

/// A response as a mathematical value.
pub ghost struct ParseResponseView {
    pub success: bool,
    pub result: Option<ParsedAddressView>,
    pub error: Option<Seq<char>>,
    pub processing_time_ms: Option<u64>,
}

impl View for ParseResponse {
    type V = ParseResponseView;

    open spec fn view(&self) -> ParseResponseView {
        ParseResponseView {
            success: self.success,
            result: match self.result {
                Some(address) => Some(address@),
                None => None,
            },
            error: text_of(self.error),
            processing_time_ms: self.processing_time_ms,
        }
    }
}

/// The response that carries a parsed address.
pub open spec fn success_response(address: ParsedAddressView, total_ms: u64) -> ParseResponseView {
    ParseResponseView {
        success: true,
        result: Some(address),
        error: None,
        processing_time_ms: Some(total_ms),
    }
}

/// The response that carries an error message.
pub open spec fn failure_response(message: Seq<char>, total_ms: u64) -> ParseResponseView {
    ParseResponseView {
        success: false,
        result: None,
        error: Some(message),
        processing_time_ms: Some(total_ms),
    }
}

impl ParseResponse {
    /// The response to a request that gave no result: it says why, and how
    /// long the request took.
    pub fn failure(message: String, total_ms: u64) -> (response: Self)
        ensures
            response@ == failure_response(message@, total_ms),
    {
        ParseResponse {
            success: false,
            result: None,
            error: Some(message),
            processing_time_ms: Some(total_ms),
        }
    }

    /// The response to a request whose address was parsed.
    pub fn success(address: ParsedAddress, total_ms: u64) -> (response: Self)
        ensures
            response@ == success_response(address@, total_ms),
    {
        ParseResponse {
            success: true,
            result: Some(address),
            error: None,
            processing_time_ms: Some(total_ms),
        }
    }
}

/// How the wait for the parser ended, with the milliseconds it took.
#[derive(Clone, Debug)]
pub enum Invocation {
    /// The parser answered with an address.
    Success(ParsedAddress, u64),
    /// The deadline passed first.
    Timeout(u64),
    /// The parser answered that it could not parse the address, and why.
    ParseFailure(String, u64),
}

/// Turns the end of the race between the parser and the deadline into an
/// [`Invocation`]. `answer` is `None` where the deadline passed first; the
/// time that then counts as elapsed is the deadline itself.
pub fn settle_invocation(
    answer: Option<Result<ParsedAddress, String>>,
    elapsed_ms: u64,
    deadline_ms: u64,
) -> (invocation: Invocation)
    ensures
        match answer {
            Some(Ok(address)) => invocation matches Invocation::Success(parsed, elapsed)
                && parsed@ == address@ && elapsed == elapsed_ms,
            Some(Err(message)) => invocation matches Invocation::ParseFailure(reason, elapsed)
                && reason@ == message@ && elapsed == elapsed_ms,
            None => invocation matches Invocation::Timeout(elapsed) && elapsed == deadline_ms,
        },
{
    match answer {
        Some(Ok(address)) => Invocation::Success(address, elapsed_ms),
        Some(Err(message)) => Invocation::ParseFailure(message, elapsed_ms),
        None => Invocation::Timeout(deadline_ms),
    }
}

/// What becomes of a request once it is received.
#[derive(Clone, Debug)]
pub enum Admission {
    /// The request is turned down, with this message.
    Rejected(String),
    /// The trimmed address goes to the parser.
    Invoking(String),
}

/// The message for a request that names no address.
pub open spec fn missing_address_message() -> Seq<char> {
    "Missing 'address' parameter"@
}

/// The message for a request that ran into the deadline.
pub open spec fn timeout_message() -> Seq<char> {
    "Request timeout"@
}

/// Whether a request with this address goes to the parser: the address is
/// there and, once trimmed, breaks no rule.
pub open spec fn is_admitted(address: Option<Seq<char>>) -> bool {
    address matches Some(text) && rejection_of(trimmed(text), MAX_ADDRESS_LENGTH as nat) is None
}

/// The message that a request with this address is turned down with.
pub open spec fn rejection_text(address: Option<Seq<char>>) -> Seq<char> {
    match address {
        None => missing_address_message(),
        Some(text) => match rejection_of(trimmed(text), MAX_ADDRESS_LENGTH as nat) {
            Some(reason) => rejection_message(reason, MAX_ADDRESS_LENGTH as nat),
            None => Seq::empty(),
        },
    }
}

/// The registry after a request has been received: the request is counted,
/// and a validation error where it is turned down.
pub open spec fn after_receive(
    metrics: MetricsView,
    method: Method,
    address: Option<Seq<char>>,
) -> MetricsView {
    if is_admitted(address) {
        metrics.with_request(method)
    } else {
        metrics.with_request(method).with_outcome(Outcome::ValidationError)
    }
}

/// The outcome that the registry records for the end of a wait.
pub open spec fn outcome_of(invocation: Invocation) -> Outcome {
    match invocation {
        Invocation::Success(_, elapsed_ms) => Outcome::Success(elapsed_ms),
        Invocation::Timeout(_) => Outcome::Timeout,
        Invocation::ParseFailure(_, _) => Outcome::ParseFailure,
    }
}

/// The response to a request whose wait ended in `invocation`.
pub open spec fn response_to(invocation: Invocation, total_ms: u64) -> ParseResponseView {
    match invocation {
        Invocation::Success(address, _) => success_response(address@, total_ms),
        Invocation::Timeout(_) => failure_response(timeout_message(), total_ms),
        Invocation::ParseFailure(message, _) => failure_response(message@, total_ms),
    }
}

/// Receives a request: counts it, and validates the trimmed address. A
/// request without an address, or with one that breaks a rule, is counted
/// as a validation error and rejected with the reason; any other goes to
/// the parser.
pub fn receive_request(registry: &mut MetricsRegistry, method: Method, address: Option<&str>) -> (admission:
    Admission)
    ensures
        final(registry)@ == after_receive(
            old(registry)@,
            method,
            match address {
                Some(text) => Some(text@),
                None => None,
            },
        ),
        match address {
            Some(text) => if rejection_of(trimmed(text@), MAX_ADDRESS_LENGTH as nat) is None {
                admission matches Admission::Invoking(kept) && kept@ == trimmed(text@)
            } else {
                admission matches Admission::Rejected(message) && message@ == rejection_text(
                    Some(text@),
                )
            },
            None => admission matches Admission::Rejected(message) && message@
                == missing_address_message(),
        },
        old(registry)@.consistent() && old(registry)@.total_requests < u64::MAX
            ==> final(registry)@.consistent(),
{
    registry.record_request(method);
    match address {
        None => {
            registry.record_outcome(Outcome::ValidationError);
            Admission::Rejected(String::from_str("Missing 'address' parameter"))
        },
        Some(text) => {
            let kept = trim(text);
            match validate_address(kept) {
                Err(message) => {
                    registry.record_outcome(Outcome::ValidationError);
                    Admission::Rejected(message)
                },
                Ok(()) => Admission::Invoking(String::from_str(kept)),
            }
        },
    }
}

/// Completes a request whose wait for the parser has ended: records the
/// outcome, and builds the response. `total_ms` is the time that the whole
/// request took.
pub fn complete_request(registry: &mut MetricsRegistry, invocation: Invocation, total_ms: u64) -> (response:
    ParseResponse)
    ensures
        final(registry)@ == old(registry)@.with_outcome(outcome_of(invocation)),
        response@ == response_to(invocation, total_ms),
        old(registry)@.consistent() && old(registry)@.in_flight() > 0
            ==> final(registry)@.consistent(),
{
    match invocation {
        Invocation::Success(address, elapsed_ms) => {
            registry.record_outcome(Outcome::Success(elapsed_ms));
            ParseResponse::success(address, total_ms)
        },
        Invocation::Timeout(_) => {
            registry.record_outcome(Outcome::Timeout);
            ParseResponse::failure(String::from_str("Request timeout"), total_ms)
        },
        Invocation::ParseFailure(message, _) => {
            registry.record_outcome(Outcome::ParseFailure);
            ParseResponse::failure(message, total_ms)
        },
    }
}

/// A request that is received, and completed where it went to the parser,
/// keeps a consistent registry consistent and is counted once, whatever
/// its address and however the wait ends.
pub proof fn lemma_request_keeps_registry_consistent(
    metrics: MetricsView,
    method: Method,
    address: Option<Seq<char>>,
    invocation: Invocation,
)
    requires
        metrics.consistent(),
        metrics.total_requests < u64::MAX,
    ensures
        after_receive(metrics, method, address).consistent(),
        after_receive(metrics, method, address).total_requests == metrics.total_requests + 1,
        is_admitted(address) ==> after_receive(metrics, method, address).with_outcome(
            outcome_of(invocation),
        ).consistent(),
        is_admitted(address) ==> after_receive(metrics, method, address).with_outcome(
            outcome_of(invocation),
        ).total_requests == metrics.total_requests + 1,
{
    lemma_outcome_keeps_consistent(metrics.with_request(method), outcome_of(invocation));
}

/// A request that runs into the deadline is answered with the time-out
/// message, and raises the counter of time-outs by exactly one.
pub proof fn lemma_timeout_is_counted_once(metrics: MetricsView, elapsed_ms: u64, total_ms: u64)
    requires
        metrics.timeout_errors < u64::MAX,
    ensures
        metrics.with_outcome(outcome_of(Invocation::Timeout(elapsed_ms))).timeout_errors
            == metrics.timeout_errors + 1,
        response_to(Invocation::Timeout(elapsed_ms), total_ms) == failure_response(
            timeout_message(),
            total_ms,
        ),
{
}

} // verus!
