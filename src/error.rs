use vstd::prelude::*;
use vstd::string::*;
use vstd::std_specs::convert::FromSpec;
use std::convert::Infallible;
use crate::challenge::RateLimitChallenge;
use crate::text::{decimal, decimal_string, LogSafeDisplay};

verus! {

/// Why a connection went away.
#[derive(Debug, PartialEq, Eq)]
pub enum DisconnectedError {
    /// The same credentials were used to connect elsewhere.
    ConnectedElsewhere,
    /// The server disconnected us for another reason.
    ConnectionInvalidated,
    /// The transport failed; `log_safe` describes how.
    Transport { log_safe: String },
    /// The connection was closed without a stated reason.
    Closed,
}

/// The log text of a disconnection.
pub open spec fn disconnected_text(e: DisconnectedError) -> Seq<char> {
    match e {
        DisconnectedError::ConnectedElsewhere =>
            "the server explicitly disconnected us because we connected elsewhere with the same credentials"@,
        DisconnectedError::ConnectionInvalidated =>
            "the server explicitly disconnected us for some reason other than that we connected elsewhere"@,
        DisconnectedError::Transport { log_safe } => "transport error: "@ + log_safe@,
        DisconnectedError::Closed => "the connection was closed"@,
    }
}

impl LogSafeDisplay for DisconnectedError {
    open spec fn log_text(&self) -> Seq<char> {
        disconnected_text(*self)
    }

    fn to_log_string(&self) -> (r: String) {
        match self {
            DisconnectedError::ConnectedElsewhere => String::from_str(
                "the server explicitly disconnected us because we connected elsewhere with the same credentials",
            ),
            DisconnectedError::ConnectionInvalidated => String::from_str(
                "the server explicitly disconnected us for some reason other than that we connected elsewhere",
            ),
            DisconnectedError::Transport { log_safe } => String::from_str(
                "transport error: ",
            ).concat(log_safe.as_str()),
            DisconnectedError::Closed => String::from_str("the connection was closed"),
        }
    }
}

/// The server asked us to back off before retrying.
#[derive(Clone, Copy, Debug, PartialEq, Eq, Structural)]
pub struct RetryLater {
    /// How long to wait before retrying, in seconds.
    pub retry_after_seconds: u32,
}

/// The log text of a back-off request.
pub open spec fn retry_later_text(r: RetryLater) -> Seq<char> {
    "retry after "@ + decimal(r.retry_after_seconds as nat) + "s"@
}

impl LogSafeDisplay for RetryLater {
    open spec fn log_text(&self) -> Seq<char> {
        retry_later_text(*self)
    }

    fn to_log_string(&self) -> (r: String) {
        let n = decimal_string(self.retry_after_seconds);
        String::from_str("retry after ").concat(n.as_str()).concat("s")
    }
}

/// Everything that can make a request fail. `E` is the error of the sub-protocol that made
/// the request; `D` says why the connection went away.
#[derive(Debug, PartialEq, Eq)]
pub enum RequestError<E, D = DisconnectedError> {
    /// No response came within the deadline.
    Timeout,
    /// The connection went away.
    Disconnected(D),
    /// The server asked us to back off.
    RetryLater(RetryLater),
    /// The server demands that a challenge be solved before a retry.
    Challenge(RateLimitChallenge),
    /// The server failed; a retry with backoff may succeed.
    ServerSideError,
    /// A response came, but it broke the protocol's contract: a bug or a missing case on
    /// either side. `log_safe` must hold nothing that cannot be logged.
    Unexpected { log_safe: String },
    /// An error of the sub-protocol.
    Other(E),
}

/// The log text of a request error.
pub open spec fn request_error_text<E: LogSafeDisplay, D: LogSafeDisplay>(
    e: RequestError<E, D>,
) -> Seq<char> {
    match e {
        RequestError::Timeout => "the request timed out"@,
        RequestError::Disconnected(d) => d.log_text(),
        RequestError::RetryLater(r) => retry_later_text(r),
        RequestError::Challenge(c) => c.log_text(),
        RequestError::ServerSideError => "server-side error, retryable with backoff"@,
        RequestError::Unexpected { log_safe } => log_safe@,
        RequestError::Other(o) => o.log_text(),
    }
}

impl<E: LogSafeDisplay, D: LogSafeDisplay> LogSafeDisplay for RequestError<E, D> {
    open spec fn log_text(&self) -> Seq<char> {
        request_error_text(*self)
    }

    fn to_log_string(&self) -> (r: String) {
        match self {
            RequestError::Timeout => String::from_str("the request timed out"),
            RequestError::Disconnected(d) => d.to_log_string(),
            RequestError::RetryLater(r) => r.to_log_string(),
            RequestError::Challenge(c) => c.to_log_string(),
            RequestError::ServerSideError => String::from_str(
                "server-side error, retryable with backoff",
            ),
            RequestError::Unexpected { log_safe } => log_safe.clone(),
            RequestError::Other(o) => o.to_log_string(),
        }
    }
}

impl<E> From<DisconnectedError> for RequestError<E> {
    fn from(value: DisconnectedError) -> (r: Self)
        ensures
            r == RequestError::<E>::Disconnected(value),
    {
        RequestError::Disconnected(value)
    }
}

impl<E> vstd::std_specs::convert::FromSpecImpl<DisconnectedError> for RequestError<E> {
    open spec fn obeys_from_spec() -> bool {
        true
    }

    open spec fn from_spec(v: DisconnectedError) -> Self {
        RequestError::Disconnected(v)
    }
}

impl<E, D> From<RetryLater> for RequestError<E, D> {
    fn from(value: RetryLater) -> (r: Self)
        ensures
            r == RequestError::<E, D>::RetryLater(value),
    {
        RequestError::RetryLater(value)
    }
}

impl<E, D> vstd::std_specs::convert::FromSpecImpl<RetryLater> for RequestError<E, D> {
    open spec fn obeys_from_spec() -> bool {
        true
    }

    open spec fn from_spec(v: RetryLater) -> Self {
        RequestError::RetryLater(v)
    }
}

impl<E, D> From<RateLimitChallenge> for RequestError<E, D> {
    fn from(value: RateLimitChallenge) -> (r: Self)
        ensures
            r == RequestError::<E, D>::Challenge(value),
    {
        RequestError::Challenge(value)
    }
}

impl<E, D> vstd::std_specs::convert::FromSpecImpl<RateLimitChallenge> for RequestError<E, D> {
    open spec fn obeys_from_spec() -> bool {
        true
    }

    open spec fn from_spec(v: RateLimitChallenge) -> Self {
        RequestError::Challenge(v)
    }
}

impl<E, D> From<Infallible> for RequestError<E, D> {
    /// `Infallible` has no values, so this is never called; the body only has to have
    /// the right type.
    fn from(_value: Infallible) -> (r: Self) {
        RequestError::Timeout
    }
}

impl<E, D> vstd::std_specs::convert::FromSpecImpl<Infallible> for RequestError<E, D> {
    open spec fn obeys_from_spec() -> bool {
        false
    }

    open spec fn from_spec(v: Infallible) -> Self {
        arbitrary()
    }
}

/// A disconnection turned into a request error lands in the `Disconnected` variant, holds
/// the disconnection unchanged, and is logged with the disconnection's own text.
pub proof fn lemma_disconnected_into_request_error<E: LogSafeDisplay>(d: DisconnectedError)
    ensures
        <RequestError<E> as FromSpec<DisconnectedError>>::from_spec(d)
            == RequestError::<E>::Disconnected(d),
        <RequestError<E> as FromSpec<DisconnectedError>>::from_spec(d).log_text()
            == d.log_text(),
{
}

/// An `Unexpected` error is logged as its payload and nothing else.
pub proof fn lemma_unexpected_logs_payload<E: LogSafeDisplay, D: LogSafeDisplay>(
    log_safe: String,
)
    ensures
        (RequestError::<E, D>::Unexpected { log_safe }).log_text() == log_safe@,
{
}

} // verus!
