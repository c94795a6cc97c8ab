//! Failures that the core reports to its callers.
//!
//! Every failure has a kind and a human-readable reason. None is retried or
//! swallowed here; what to do about one is the caller's decision.

use vstd::prelude::*;
use vstd::string::StringExecFns;
use crate::models::task::InvalidTransition;

verus! {

/// What went wrong, without the reason.
#[derive(Debug, Clone, Copy, PartialEq, Eq, Structural)]
pub enum ErrorKind {
    NotFound,
    BadRequest,
    Unauthorized,
    Forbidden,
    /// A concurrent change won the race for the same entity.
    Conflict,
    RateLimited,
    /// Terminal for the submission; different content must be sent.
    ContentRejected,
    /// Not a failure of the request: the content waits for a manual look.
    ContentFlagged,
    /// The requested edge is not in the lifecycle graph. Permanent.
    InvalidTransition,
    /// The payment collaborator failed; nothing was changed locally.
    PaymentError,
    TrustLevelInsufficient,
    Database,
    Internal,
}

#[derive(Debug, Clone, PartialEq, Eq)]
pub enum AppError {
    NotFound(String),
    BadRequest(String),
    Unauthorized(String),
    Forbidden(String),
    Conflict(String),
    RateLimited(String),
    ContentRejected(String),
    ContentFlagged(String),
    InvalidTransition(String),
    PaymentError(String),
    TrustLevelInsufficient(String),
    Database(String),
    Internal(String),
}

pub type AppResult<T> = Result<T, AppError>;

/// A failure as a mathematical value: its kind and its reason.
pub struct Failure {
    pub kind: ErrorKind,
    pub reason: Seq<char>,
}

impl View for AppError {
    type V = Failure;

    open spec fn view(&self) -> Failure {
        match self {
            AppError::NotFound(m) => Failure { kind: ErrorKind::NotFound, reason: m@ },
            AppError::BadRequest(m) => Failure { kind: ErrorKind::BadRequest, reason: m@ },
            AppError::Unauthorized(m) => Failure { kind: ErrorKind::Unauthorized, reason: m@ },
            AppError::Forbidden(m) => Failure { kind: ErrorKind::Forbidden, reason: m@ },
            AppError::Conflict(m) => Failure { kind: ErrorKind::Conflict, reason: m@ },
            AppError::RateLimited(m) => Failure { kind: ErrorKind::RateLimited, reason: m@ },
            AppError::ContentRejected(m) => Failure { kind: ErrorKind::ContentRejected, reason: m@ },
            AppError::ContentFlagged(m) => Failure { kind: ErrorKind::ContentFlagged, reason: m@ },
            AppError::InvalidTransition(m) => Failure {
                kind: ErrorKind::InvalidTransition,
                reason: m@,
            },
            AppError::PaymentError(m) => Failure { kind: ErrorKind::PaymentError, reason: m@ },
            AppError::TrustLevelInsufficient(m) => Failure {
                kind: ErrorKind::TrustLevelInsufficient,
                reason: m@,
            },
            AppError::Database(m) => Failure { kind: ErrorKind::Database, reason: m@ },
            AppError::Internal(m) => Failure { kind: ErrorKind::Internal, reason: m@ },
        }
    }
}

impl ErrorKind {
    /// The HTTP status that a failure of this kind is answered with.
    pub open spec fn status(self) -> int {
        match self {
            ErrorKind::NotFound => 404,
            ErrorKind::BadRequest => 400,
            ErrorKind::Unauthorized => 401,
            ErrorKind::Forbidden => 403,
            ErrorKind::Conflict => 409,
            ErrorKind::RateLimited => 429,
            ErrorKind::ContentRejected => 422,
            ErrorKind::ContentFlagged => 202,
            ErrorKind::InvalidTransition => 409,
            ErrorKind::PaymentError => 400,
            ErrorKind::TrustLevelInsufficient => 403,
            ErrorKind::Database => 500,
            ErrorKind::Internal => 500,
        }
    }

    /// Whether the reason is kept from the caller, who is told no more than
    /// that the server failed.
    pub open spec fn hides_reason(self) -> bool {
        self is Database || self is Internal
    }

    pub fn status_code(&self) -> (code: u16)
        ensures
            code == self.status(),
    {
        match self {
            ErrorKind::NotFound => 404,
            ErrorKind::BadRequest => 400,
            ErrorKind::Unauthorized => 401,
            ErrorKind::Forbidden => 403,
            ErrorKind::Conflict => 409,
            ErrorKind::RateLimited => 429,
            ErrorKind::ContentRejected => 422,
            ErrorKind::ContentFlagged => 202,
            ErrorKind::InvalidTransition => 409,
            ErrorKind::PaymentError => 400,
            ErrorKind::TrustLevelInsufficient => 403,
            ErrorKind::Database => 500,
            ErrorKind::Internal => 500,
        }
    }
}

impl Failure {
    /// The message that the caller gets to see.
    pub open spec fn public_message(self) -> Seq<char> {
        if self.kind.hides_reason() {
            "Internal server error"@
        } else {
            self.reason
        }
    }
}

impl AppError {
    pub fn kind(&self) -> (k: ErrorKind)
        ensures
            k == self@.kind,
    {
        match self {
            AppError::NotFound(_) => ErrorKind::NotFound,
            AppError::BadRequest(_) => ErrorKind::BadRequest,
            AppError::Unauthorized(_) => ErrorKind::Unauthorized,
            AppError::Forbidden(_) => ErrorKind::Forbidden,
            AppError::Conflict(_) => ErrorKind::Conflict,
            AppError::RateLimited(_) => ErrorKind::RateLimited,
            AppError::ContentRejected(_) => ErrorKind::ContentRejected,
            AppError::ContentFlagged(_) => ErrorKind::ContentFlagged,
            AppError::InvalidTransition(_) => ErrorKind::InvalidTransition,
            AppError::PaymentError(_) => ErrorKind::PaymentError,
            AppError::TrustLevelInsufficient(_) => ErrorKind::TrustLevelInsufficient,
            AppError::Database(_) => ErrorKind::Database,
            AppError::Internal(_) => ErrorKind::Internal,
        }
    }

    /// The reason as it was recorded, whether or not the caller may see it.
    pub fn reason(&self) -> (m: &str)
        ensures
            m@ == self@.reason,
    {
        match self {
            AppError::NotFound(m) => m.as_str(),
            AppError::BadRequest(m) => m.as_str(),
            AppError::Unauthorized(m) => m.as_str(),
            AppError::Forbidden(m) => m.as_str(),
            AppError::Conflict(m) => m.as_str(),
            AppError::RateLimited(m) => m.as_str(),
            AppError::ContentRejected(m) => m.as_str(),
            AppError::ContentFlagged(m) => m.as_str(),
            AppError::InvalidTransition(m) => m.as_str(),
            AppError::PaymentError(m) => m.as_str(),
            AppError::TrustLevelInsufficient(m) => m.as_str(),
            AppError::Database(m) => m.as_str(),
            AppError::Internal(m) => m.as_str(),
        }
    }

    /// The HTTP status that this failure is answered with.
    pub fn status_code(&self) -> (code: u16)
        ensures
            code == self@.kind.status(),
    {
        self.kind().status_code()
    }

    /// The message for the response body. The reasons of database and
    /// internal failures stay in the log.
    pub fn public_message(&self) -> (m: String)
        ensures
            m@ == self@.public_message(),
    {
        match self {
            AppError::Database(_) | AppError::Internal(_) => String::from_str(
                "Internal server error",
            ),
            _ => String::from_str(self.reason()),
        }
    }

    /// The failure that reports a refused status change.
    pub fn invalid_transition(refused: &InvalidTransition) -> (e: AppError)
        ensures
            e@ == (Failure { kind: ErrorKind::InvalidTransition, reason: refused.message_text() }),
    {
        AppError::InvalidTransition(refused.message())
    }
}

/// Builds a failure of a kind from a reason.
pub fn failure(kind: ErrorKind, reason: &str) -> (e: AppError)
    ensures
        e@ == (Failure { kind, reason: reason@ }),
{
    let m = String::from_str(reason);
    match kind {
        ErrorKind::NotFound => AppError::NotFound(m),
        ErrorKind::BadRequest => AppError::BadRequest(m),
        ErrorKind::Unauthorized => AppError::Unauthorized(m),
        ErrorKind::Forbidden => AppError::Forbidden(m),
        ErrorKind::Conflict => AppError::Conflict(m),
        ErrorKind::RateLimited => AppError::RateLimited(m),
        ErrorKind::ContentRejected => AppError::ContentRejected(m),
        ErrorKind::ContentFlagged => AppError::ContentFlagged(m),
        ErrorKind::InvalidTransition => AppError::InvalidTransition(m),
        ErrorKind::PaymentError => AppError::PaymentError(m),
        ErrorKind::TrustLevelInsufficient => AppError::TrustLevelInsufficient(m),
        ErrorKind::Database => AppError::Database(m),
        ErrorKind::Internal => AppError::Internal(m),
    }
}

/// Only failures of the server answer with a 5xx status, and exactly those
/// keep their reason from the caller.
pub proof fn lemma_hidden_reasons_are_server_failures(kind: ErrorKind)
    ensures
        kind.hides_reason() <==> kind.status() >= 500,
        200 <= kind.status() < 600,
{
}

} // verus!
