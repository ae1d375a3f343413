//! The exclusion check of an address at the circulation service: the
//! request's address, and what becomes of each answer.

use crate::address::{full_text, Address};
use crate::cooldown::{decimal_string, decimal_text};
use crate::retry::{AttemptOutcome, RetryError, RetryExecutor, RetryStep};
use vstd::prelude::*;
use vstd::string::*;

verus! {

/// The service's answer to a well-formed request.
#[derive(Clone, Copy, Debug, PartialEq, Eq, Structural)]
pub struct CirculationSuccessResponse {
    pub is_excluded: bool,
}

/// The service's well-formed refusal.
#[derive(Clone, Debug, PartialEq, Eq)]
pub struct IntmaxErrorResponse {
    pub code: String,
    pub message: String,
}

/// A decoded answer of the service.
#[derive(Clone, Debug, PartialEq, Eq)]
pub enum CirculationResponse {
    Success(CirculationSuccessResponse),
    Error(IntmaxErrorResponse),
}

/// Why an exclusion check failed.
#[derive(Clone, Debug, PartialEq, Eq)]
pub enum IntmaxError {
    /// The service could not be reached.
    NetworkError(String),
    /// The service answered with a body that is neither of the two known forms.
    SerializeError(String),
    /// The service refused the request.
    ServerError(IntmaxErrorResponse),
}

/// How one request ended.
#[derive(Clone, Debug, PartialEq, Eq)]
pub enum FetchOutcome {
    /// No answer came: timeout, refused connection and the like; the transport's words.
    TransportFailed { reason: String },
    /// An answer came whose body could not be decoded; its status and the decoder's words.
    Malformed { status: u16, reason: String },
    /// An answer came and was decoded; its status and body.
    Body { status: u16, body: CirculationResponse },
}

/// Whether an HTTP status reports success.
pub open spec fn is_success_status(status: u16) -> bool {
    200 <= status < 300
}

/// What to do after a request.
#[derive(Debug)]
pub enum CirculationStep {
    Finished(Result<CirculationSuccessResponse, IntmaxError>),
    /// Wait `delay_ms`, request again and report to `next`.
    RetryAfter { delay_ms: u64, next: RetryExecutor },
}

/// The address at which the service answers for `address`.
pub open spec fn exclusion_url_text(server_url: Seq<char>, address: Seq<u8>) -> Seq<char> {
    server_url + "/addresses/"@ + full_text(address) + "/exclusion"@
}

/// Builds the address at which the service answers for `address`.
pub fn exclusion_url(server_url: &str, address: &Address) -> (res: String)
    ensures
        res@ == exclusion_url_text(server_url@, address@),
{
    let mut url = String::from_str(server_url);
    url.append("/addresses/");
    let shown = address.to_full_string();
    url.append(shown.as_str());
    url.append("/exclusion");
    url
}

/// The answer that `outcome` carries, if it is a good one: a decoded
/// answer under a status of success.
pub open spec fn answer_of(outcome: FetchOutcome) -> Option<CirculationSuccessResponse> {
    match outcome {
        FetchOutcome::Body { status, body: CirculationResponse::Success(answer) } => if is_success_status(
            status,
        ) {
            Some(answer)
        } else {
            None
        },
        _ => None,
    }
}

/// Whether `outcome` is worth another request. A decoded refusal is not,
/// whatever its status; without one, a missing answer, an undecodable body
/// and a status other than success are.
pub open spec fn retryable(outcome: FetchOutcome) -> bool {
    answer_of(outcome) is None && !(outcome matches FetchOutcome::Body {
        body: CirculationResponse::Error(_),
        ..
    })
}

/// A status as it is named in an error: the word `status` and the number in decimal.
pub open spec fn status_text(status: u16) -> Seq<char> {
    "status "@ + decimal_text(status as nat)
}

/// Whether `error` says that the service could not be reached, and why.
pub open spec fn is_network_error(error: IntmaxError, detail: Seq<char>) -> bool {
    error matches IntmaxError::NetworkError(text) && text@
        == "failed to request circulation server: "@ + detail
}

/// Whether `error` is the error that stands for `outcome`, which carries no
/// good answer. It holds what the outcome itself holds: the transport's
/// words, the status, the decoder's words, or the service's refusal.
pub open spec fn error_of(outcome: FetchOutcome, error: IntmaxError) -> bool {
    match outcome {
        FetchOutcome::TransportFailed { reason } => is_network_error(error, reason@),
        FetchOutcome::Malformed { status, reason } => if is_success_status(status) {
            error matches IntmaxError::SerializeError(text) && text@ == "failed to parse response: "@
                + reason@
        } else {
            is_network_error(error, status_text(status) + ": "@ + reason@)
        },
        FetchOutcome::Body { body: CirculationResponse::Error(body), .. } => error
            == IntmaxError::ServerError(body),
        FetchOutcome::Body { status, body: CirculationResponse::Success(_) } => !is_success_status(
            status,
        ) && is_network_error(error, status_text(status)),
    }
}

fn network_error(detail: &str) -> (res: IntmaxError)
    ensures
        is_network_error(res, detail@),
{
    let mut text = String::from_str("failed to request circulation server: ");
    text.append(detail);
    IntmaxError::NetworkError(text)
}

fn status_string(status: u16) -> (res: String)
    ensures
        res@ == status_text(status),
{
    let mut text = String::from_str("status ");
    let number = decimal_string(status as u64);
    text.append(number.as_str());
    text
}

/// Classifies a request's outcome for the retry executor.
pub fn classify_fetch(outcome: FetchOutcome) -> (res: AttemptOutcome<
    CirculationSuccessResponse,
    IntmaxError,
>)
    ensures
        match answer_of(outcome) {
            Some(answer) => res == AttemptOutcome::<
                CirculationSuccessResponse,
                IntmaxError,
            >::Success(answer),
            None => if retryable(outcome) {
                res matches AttemptOutcome::Retryable(error) && error_of(outcome, error)
            } else {
                res matches AttemptOutcome::Terminal(error) && error_of(outcome, error)
            },
        },
{
    match outcome {
        FetchOutcome::TransportFailed { reason } => AttemptOutcome::Retryable(
            network_error(reason.as_str()),
        ),
        FetchOutcome::Malformed { status, reason } => {
            if 200 <= status && status < 300 {
                let mut text = String::from_str("failed to parse response: ");
                text.append(reason.as_str());
                AttemptOutcome::Retryable(IntmaxError::SerializeError(text))
            } else {
                let mut detail = status_string(status);
                detail.append(": ");
                detail.append(reason.as_str());
                AttemptOutcome::Retryable(network_error(detail.as_str()))
            }
        },
        FetchOutcome::Body { status, body: CirculationResponse::Success(answer) } => {
            if 200 <= status && status < 300 {
                AttemptOutcome::Success(answer)
            } else {
                let detail = status_string(status);
                AttemptOutcome::Retryable(network_error(detail.as_str()))
            }
        },
        FetchOutcome::Body { body: CirculationResponse::Error(body), .. } => AttemptOutcome::Terminal(
            IntmaxError::ServerError(body),
        ),
    }
}

/// One step of the exclusion check: takes the outcome of the request just
/// made and either ends with the answer or an error, or asks for another
/// request after a delay.
///
/// A good answer and a decoded refusal end the check at once. Any other
/// outcome is retried while the policy allows another attempt; after the
/// last one the check ends with the error of that last outcome, which
/// holds the outcome's own words.
pub fn get_circulation(executor: RetryExecutor, outcome: FetchOutcome) -> (res: CirculationStep)
    requires
        executor.wf(),
    ensures
        match answer_of(outcome) {
            Some(answer) => res == CirculationStep::Finished(Ok(answer)),
            None => if retryable(outcome) && executor.failures + 1 < executor.policy.max_attempts {
                res == (CirculationStep::RetryAfter {
                    delay_ms: executor.policy.backoff.delay_after((executor.failures + 1) as nat) as u64,
                    next: RetryExecutor {
                        policy: executor.policy,
                        failures: (executor.failures + 1) as u32,
                    },
                })
            } else {
                res matches CirculationStep::Finished(Err(error)) && error_of(outcome, error)
            },
        },
        res matches CirculationStep::RetryAfter { next, .. } ==> next.wf(),
{
    match executor.on_outcome(classify_fetch(outcome)) {
        RetryStep::Done(answer) => CirculationStep::Finished(Ok(answer)),
        RetryStep::RetryAfter { delay_ms, next } => CirculationStep::RetryAfter { delay_ms, next },
        RetryStep::GiveUp(RetryError::PersistentFailure(error)) => CirculationStep::Finished(
            Err(error),
        ),
        RetryStep::GiveUp(RetryError::RemoteRejection(error)) => CirculationStep::Finished(Err(error)),
    }
}

} // verus!
