//! Media errors, their stable codes, retry classes and redacted messages.
use vstd::prelude::*;

verus! {

/// Stable error codes of the media API.
#[derive(Clone, Copy, Debug, PartialEq, Eq, Structural)]
pub enum ErrorCode {
    Validation,
    Forbidden,
    NotFound,
    Conflict,
    Timeout,
    Unavailable,
    UnknownOutcome,
    Internal,
}

#[derive(Clone, Debug, PartialEq, Eq)]
pub struct UpstreamError {
    pub service: String,
    pub operation: String,
    pub status: Option<u16>,
    pub retryable: bool,
}

#[derive(Clone, Debug, PartialEq, Eq)]
pub struct TransportError {
    pub service: String,
    pub operation: String,
    pub timeout: bool,
    pub retryable: bool,
    pub unknown_outcome: bool,
}

#[derive(Clone, Debug, PartialEq, Eq)]
pub struct SerializationError {
    pub service: String,
    pub operation: String,
}

#[derive(Debug, PartialEq, Eq)]
pub enum MediaError {
    Config(String),
    Validation(String),
    Upstream(UpstreamError),
    Transport(TransportError),
    Serialization(SerializationError),
    Conflict,
    Internal,
}

pub open spec fn code_of(e: MediaError) -> ErrorCode {
    match e {
        MediaError::Config(_) | MediaError::Serialization(_) | MediaError::Internal => ErrorCode::Internal,
        MediaError::Validation(_) => ErrorCode::Validation,
        MediaError::Upstream(u) => match u.status {
            Some(s) => if s == 401 || s == 403 {
                ErrorCode::Forbidden
            } else if s == 404 {
                ErrorCode::NotFound
            } else if s == 409 {
                ErrorCode::Conflict
            } else if s == 408 {
                ErrorCode::Timeout
            } else {
                ErrorCode::Unavailable
            },
            None => ErrorCode::Unavailable,
        },
        MediaError::Conflict => ErrorCode::Conflict,
        MediaError::Transport(t) => if t.unknown_outcome {
            ErrorCode::UnknownOutcome
        } else if t.timeout {
            ErrorCode::Timeout
        } else {
            ErrorCode::Unavailable
        },
    }
}

pub open spec fn retryable_of(e: MediaError) -> bool {
    match e {
        MediaError::Upstream(u) => u.retryable,
        MediaError::Transport(t) => t.retryable,
        _ => false,
    }
}

pub open spec fn public_message_of(e: MediaError) -> Seq<char> {
    match e {
        MediaError::Config(_) => "media service configuration is invalid"@,
        MediaError::Validation(m) => m@,
        MediaError::Conflict => "media records conflict"@,
        MediaError::Internal => "media backend returned invalid normalized data"@,
        MediaError::Upstream(u) => match u.status {
            Some(s) => if s == 401 || s == 403 {
                u.service@ + " rejected the request"@
            } else if s == 404 {
                u.service@ + " resource was not found"@
            } else {
                u.service@ + " is unavailable"@
            },
            None => u.service@ + " is unavailable"@,
        },
        MediaError::Transport(t) => if t.unknown_outcome {
            t.service@ + " operation outcome is unknown"@
        } else if t.timeout {
            t.service@ + " did not respond in time"@
        } else {
            t.service@ + " is unavailable"@
        },
        MediaError::Serialization(s) => s.service@ + " returned an invalid response"@,
    }
}

pub open spec fn display_of(e: MediaError) -> Seq<char> {
    match e {
        MediaError::Config(_) => "media configuration is invalid"@,
        MediaError::Validation(m) => "media request validation failed: "@ + m@,
        MediaError::Upstream(u) => u.service@ + " upstream request failed"@,
        MediaError::Transport(t) => t.service@ + " transport failed"@,
        MediaError::Serialization(s) => s.service@ + " response could not be decoded"@,
        MediaError::Conflict => "media records conflict"@,
        MediaError::Internal => "media normalized data is invalid"@,
    }
}

/// Whether an upstream answer may be retried: never for a mutation; for a
/// read, when there is no status, a server error, a timeout or rate limiting.
pub open spec fn upstream_retryable(status: Option<u16>, mutating: bool) -> bool {
    !mutating && match status {
        None => true,
        Some(s) => s >= 500 || s == 408 || s == 429,
    }
}

fn concat(a: &String, b: &str) -> (r: String)
    ensures
        r@ == a@ + b@,
{
    let mut s = a.clone();
    s.append(b);
    s
}

impl MediaError {
    pub fn error_code(&self) -> (r: ErrorCode)
        ensures
            r == code_of(*self),
    {
        match self {
            MediaError::Config(_) | MediaError::Serialization(_) | MediaError::Internal => ErrorCode::Internal,
            MediaError::Validation(_) => ErrorCode::Validation,
            MediaError::Upstream(error) => match error.status {
                Some(s) => {
                    if s == 401 || s == 403 {
                        ErrorCode::Forbidden
                    } else if s == 404 {
                        ErrorCode::NotFound
                    } else if s == 409 {
                        ErrorCode::Conflict
                    } else if s == 408 {
                        ErrorCode::Timeout
                    } else {
                        ErrorCode::Unavailable
                    }
                },
                None => ErrorCode::Unavailable,
            },
            MediaError::Conflict => ErrorCode::Conflict,
            MediaError::Transport(error) => {
                if error.unknown_outcome {
                    ErrorCode::UnknownOutcome
                } else if error.timeout {
                    ErrorCode::Timeout
                } else {
                    ErrorCode::Unavailable
                }
            },
        }
    }

    pub fn retryable(&self) -> (r: bool)
        ensures
            r == retryable_of(*self),
    {
        match self {
            MediaError::Upstream(error) => error.retryable,
            MediaError::Transport(error) => error.retryable,
            _ => false,
        }
    }

    /// The message shown to API callers; it never carries upstream bodies.
    pub fn public_message(&self) -> (r: String)
        ensures
            r@ == public_message_of(*self),
    {
        match self {
            MediaError::Config(_) => "media service configuration is invalid".to_owned(),
            MediaError::Validation(message) => message.clone(),
            MediaError::Conflict => "media records conflict".to_owned(),
            MediaError::Internal => "media backend returned invalid normalized data".to_owned(),
            MediaError::Upstream(error) => match error.status {
                Some(s) => {
                    if s == 401 || s == 403 {
                        concat(&error.service, " rejected the request")
                    } else if s == 404 {
                        concat(&error.service, " resource was not found")
                    } else {
                        concat(&error.service, " is unavailable")
                    }
                },
                None => concat(&error.service, " is unavailable"),
            },
            MediaError::Transport(error) => {
                if error.unknown_outcome {
                    concat(&error.service, " operation outcome is unknown")
                } else if error.timeout {
                    concat(&error.service, " did not respond in time")
                } else {
                    concat(&error.service, " is unavailable")
                }
            },
            MediaError::Serialization(error) => concat(&error.service, " returned an invalid response"),
        }
    }

    /// The error's display text.
    pub fn display_message(&self) -> (r: String)
        ensures
            r@ == display_of(*self),
    {
        match self {
            MediaError::Config(_) => "media configuration is invalid".to_owned(),
            MediaError::Validation(m) => {
                let mut s = "media request validation failed: ".to_owned();
                s.append(m.as_str());
                s
            },
            MediaError::Upstream(u) => concat(&u.service, " upstream request failed"),
            MediaError::Transport(t) => concat(&t.service, " transport failed"),
            MediaError::Serialization(s) => concat(&s.service, " response could not be decoded"),
            MediaError::Conflict => "media records conflict".to_owned(),
            MediaError::Internal => "media normalized data is invalid".to_owned(),
        }
    }

    /// An upstream failure. Mutations are never retryable.
    pub fn upstream(service: &str, operation: &str, status: Option<u16>, mutating: bool) -> (r: Self)
        ensures
            r == MediaError::Upstream(
                UpstreamError {
                    service: r->Upstream_0.service,
                    operation: r->Upstream_0.operation,
                    status,
                    retryable: upstream_retryable(status, mutating),
                },
            ),
            r->Upstream_0.service@ == service@,
            r->Upstream_0.operation@ == operation@,
    {
        let retryable = !mutating && match status {
            None => true,
            Some(s) => s >= 500 || s == 408 || s == 429,
        };
        MediaError::Upstream(
            UpstreamError { service: service.to_owned(), operation: operation.to_owned(), status, retryable },
        )
    }

    /// A transport failure described by whether it timed out and whether the
    /// connection failed. A timed-out mutation has an unknown outcome; only
    /// reads are retryable.
    pub fn transport(service: &str, operation: &str, timed_out: bool, connect_failed: bool, mutating: bool) -> (r:
        Self)
        ensures
            r is Transport,
            r->Transport_0.service@ == service@,
            r->Transport_0.operation@ == operation@,
            r->Transport_0.timeout == timed_out,
            r->Transport_0.retryable == (!mutating && (timed_out || connect_failed)),
            r->Transport_0.unknown_outcome == (mutating && timed_out),
    {
        MediaError::Transport(
            TransportError {
                service: service.to_owned(),
                operation: operation.to_owned(),
                timeout: timed_out,
                retryable: !mutating && (timed_out || connect_failed),
                unknown_outcome: mutating && timed_out,
            },
        )
    }

    pub fn serialization(service: &str, operation: &str) -> (r: Self)
        ensures
            r is Serialization,
            r->Serialization_0.service@ == service@,
            r->Serialization_0.operation@ == operation@,
    {
        MediaError::Serialization(SerializationError { service: service.to_owned(), operation: operation.to_owned() })
    }
}

/// A failed mutation is never offered for retry, and a mutation whose
/// transport timed out is reported with an unknown outcome.
pub proof fn law_mutations_are_never_retryable(
    status: Option<u16>,
    timed_out: bool,
    connect_failed: bool,
)
    ensures
        !upstream_retryable(status, true),
        ({
            let t = TransportError {
                service: arbitrary(),
                operation: arbitrary(),
                timeout: timed_out,
                retryable: !true && (timed_out || connect_failed),
                unknown_outcome: true && timed_out,
            };
            &&& !retryable_of(MediaError::Transport(t))
            &&& (timed_out ==> code_of(MediaError::Transport(t)) == ErrorCode::UnknownOutcome)
        }),
{
}

/// Reads that were rate limited or timed out upstream may be retried.
pub proof fn law_read_rate_limit_and_timeout_are_retryable()
    ensures
        upstream_retryable(Some(429), false),
        upstream_retryable(Some(408), false),
        upstream_retryable(None, false),
        !upstream_retryable(Some(404), false),
{
}

/// The class of an upstream status that a public message tells apart:
/// rejected (401 or 403), not found (404), or anything else, no status
/// included.
pub open spec fn status_class(status: Option<u16>) -> int {
    match status {
        Some(s) => if s == 401 || s == 403 {
            0
        } else if s == 404 {
            1
        } else {
            2
        },
        None => 2,
    }
}

/// Two errors that differ at most in what a public message must not reveal:
/// the operation, the retry class, the text of a configuration error and the
/// exact upstream status within its class.
pub open spec fn same_public_facts(e1: MediaError, e2: MediaError) -> bool {
    match (e1, e2) {
        (MediaError::Config(_), MediaError::Config(_)) => true,
        (MediaError::Validation(m1), MediaError::Validation(m2)) => m1@ == m2@,
        (MediaError::Upstream(a), MediaError::Upstream(b)) => a.service@ == b.service@
            && status_class(a.status) == status_class(b.status),
        (MediaError::Transport(a), MediaError::Transport(b)) => a.service@ == b.service@ && a.timeout
            == b.timeout && a.unknown_outcome == b.unknown_outcome,
        (MediaError::Serialization(a), MediaError::Serialization(b)) => a.service@ == b.service@,
        (MediaError::Conflict, MediaError::Conflict) => true,
        (MediaError::Internal, MediaError::Internal) => true,
        _ => false,
    }
}

/// The public message of an error reveals only its kind, its service and,
/// for an upstream answer, whether the request was rejected, the resource was
/// not found, or the service is unavailable: two errors that agree on these
/// get the same message, whatever their operations, retry classes,
/// configuration texts or exact statuses.
pub proof fn law_public_message_reveals_only_public_facts(e1: MediaError, e2: MediaError)
    requires
        same_public_facts(e1, e2),
    ensures
        public_message_of(e1) == public_message_of(e2),
{
}

} // verus!
