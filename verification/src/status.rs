//! HTTP status codes as plain numbers, and the classes the balancer tells
//! apart.
use vstd::prelude::*;

verus! {

pub const OK: u16 = 200;

pub const BAD_REQUEST: u16 = 400;

pub const PAYLOAD_TOO_LARGE: u16 = 413;

pub const INTERNAL_SERVER_ERROR: u16 = 500;

pub const BAD_GATEWAY: u16 = 502;

pub const SERVICE_UNAVAILABLE: u16 = 503;

pub const GATEWAY_TIMEOUT: u16 = 504;

/// A status of the class 2xx.
pub open spec fn success(code: u16) -> bool {
    200 <= code < 300
}

/// A status of the class 5xx.
pub open spec fn server_error(code: u16) -> bool {
    500 <= code < 600
}

pub fn is_success(code: u16) -> (b: bool)
    ensures
        b == success(code),
{
    200 <= code && code < 300
}

pub fn is_server_error(code: u16) -> (b: bool)
    ensures
        b == server_error(code),
{
    500 <= code && code < 600
}

/// How one forwarding attempt ended. `R` is whatever the caller keeps of an
/// upstream response besides its status.
pub enum Outcome<R> {
    /// The upstream answered.
    Response { status: u16, payload: R },
    /// The connection could not be made or broke.
    TransportError,
    /// The deadline of the attempt passed.
    Timeout,
    /// The attempt could not be made at all on the balancer's side.
    Internal,
}

/// What the dispatcher does with an outcome.
pub enum Classification {
    /// Hand the upstream's response to the client.
    Relay,
    /// Try another candidate while the budget lasts; else fail with the status.
    Retryable(u16),
    /// Fail with the status at once.
    Terminal(u16),
}

/// A transport error is retryable and surfaces as 502, a timeout is retryable
/// and surfaces as 504, a 5xx response is retryable and surfaces with its own
/// status, an internal failure is terminal with 500, and every other response
/// is relayed.
pub open spec fn classification<R>(outcome: Outcome<R>) -> Classification {
    match outcome {
        Outcome::Response { status, payload } => if server_error(status) {
            Classification::Retryable(status)
        } else {
            Classification::Relay
        },
        Outcome::TransportError => Classification::Retryable(BAD_GATEWAY),
        Outcome::Timeout => Classification::Retryable(GATEWAY_TIMEOUT),
        Outcome::Internal => Classification::Terminal(INTERNAL_SERVER_ERROR),
    }
}

pub fn classify<R>(outcome: &Outcome<R>) -> (c: Classification)
    ensures
        c == classification(*outcome),
{
    match outcome {
        Outcome::Response { status, payload: _ } => {
            if is_server_error(*status) {
                Classification::Retryable(*status)
            } else {
                Classification::Relay
            }
        },
        Outcome::TransportError => Classification::Retryable(BAD_GATEWAY),
        Outcome::Timeout => Classification::Retryable(GATEWAY_TIMEOUT),
        Outcome::Internal => Classification::Terminal(INTERNAL_SERVER_ERROR),
    }
}

/// A 5xx response is retried and every other response is relayed, a 4xx
/// among them; an upstream that does not answer in time surfaces as 504, not
/// as 502.
pub proof fn lemma_classification<R>(status: u16, payload: R)
    ensures
        server_error(status) ==> classification(Outcome::Response { status, payload })
            == Classification::Retryable(status),
        !server_error(status) ==> classification(Outcome::Response { status, payload })
            == Classification::Relay,
        400 <= status < 500 ==> classification(Outcome::Response { status, payload })
            == Classification::Relay,
        classification(Outcome::<R>::Timeout) == Classification::Retryable(GATEWAY_TIMEOUT),
        classification(Outcome::<R>::TransportError) == Classification::Retryable(BAD_GATEWAY),
        classification(Outcome::<R>::Internal) == Classification::Terminal(INTERNAL_SERVER_ERROR),
{
}

} // verus!
