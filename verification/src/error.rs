//! The error taxonomy and the error that crosses the service boundary.
//!
//! Every error belongs to one kind, and the kind alone picks the HTTP
//! status, so that no component depends on the HTTP layer.

use vstd::prelude::*;
use vstd::std_specs::convert::FromSpecImpl;
use crate::auth::AuthError;
use crate::auth::AuthErrorView;
use crate::payment::PaymentError;
use crate::payment::PaymentErrorView;
use crate::subscription::SubscriptionError;
use crate::subscription::SubscriptionErrorView;
use crate::text::joined;
use crate::user::UserError;
use crate::user::UserErrorView;

verus! {

/// The kinds of failure that the boundary tells apart.
#[derive(Debug, Clone, Copy, PartialEq, Eq, Structural)]
pub enum ErrorKind {
    /// A user, product, price or session is missing.
    NotFound,
    /// The request contradicts what is already there.
    Conflict,
    /// The input is structurally bad, a malformed webhook payload included.
    InvalidInput,
    /// The input is well-formed but cannot be acted on.
    Unprocessable,
    /// A bad webhook signature, or missing or bad credentials.
    Unauthorized,
    /// The caller is known and not allowed.
    Forbidden,
    /// The payment provider or the network failed.
    UpstreamUnavailable,
    /// The store failed.
    StorageUnavailable,
    /// Something that should not happen did.
    InternalInvariantViolation,
}

impl ErrorKind {
    /// The HTTP status that answers a failure of this kind.
    pub open spec fn spec_status(self) -> u16 {
        match self {
            ErrorKind::NotFound => 404,
            ErrorKind::Conflict => 409,
            ErrorKind::InvalidInput => 400,
            ErrorKind::Unprocessable => 422,
            ErrorKind::Unauthorized => 401,
            ErrorKind::Forbidden => 403,
            ErrorKind::UpstreamUnavailable => 502,
            ErrorKind::StorageUnavailable => 503,
            ErrorKind::InternalInvariantViolation => 500,
        }
    }

    /// Whether trying again later may succeed: true of provider, network
    /// and store failures only.
    pub open spec fn spec_retryable(self) -> bool {
        self == ErrorKind::UpstreamUnavailable || self == ErrorKind::StorageUnavailable
    }

    /// The HTTP status that answers a failure of this kind.
    pub fn status(self) -> (code: u16)
        ensures
            code == self.spec_status(),
    {
        match self {
            ErrorKind::NotFound => 404,
            ErrorKind::Conflict => 409,
            ErrorKind::InvalidInput => 400,
            ErrorKind::Unprocessable => 422,
            ErrorKind::Unauthorized => 401,
            ErrorKind::Forbidden => 403,
            ErrorKind::UpstreamUnavailable => 502,
            ErrorKind::StorageUnavailable => 503,
            ErrorKind::InternalInvariantViolation => 500,
        }
    }

    /// Whether trying again later may succeed.
    pub fn retryable(self) -> (retry: bool)
        ensures
            retry == self.spec_retryable(),
            retry == (self.spec_status() == 502 || self.spec_status() == 503),
    {
        match self {
            ErrorKind::UpstreamUnavailable => true,
            ErrorKind::StorageUnavailable => true,
            _ => false,
        }
    }
}

/// The error that every component's failure is wrapped in at the boundary.
#[derive(Debug, PartialEq, Eq)]
pub enum ApiError {
    InternalServerError,
    ValidationError(String),
    UnprocessableEntity,
    NetworkError(String),
    AccessDenied,
    NotFound(String),
    Conflict(String),
    ServiceUnavailable,
    DatabaseConnectivityError,
    UserError(UserError),
    SubscriptionError(SubscriptionError),
    /// The payment provider failed; the text is its own account of it.
    StripeError(String),
    /// An identifier that the provider's client does not take.
    ParseIdError(String),
    PaymentError(PaymentError),
    AuthError(AuthError),
}

/// An `ApiError` with its texts as sequences of characters.
pub enum ApiErrorView {
    InternalServerError,
    ValidationError(Seq<char>),
    UnprocessableEntity,
    NetworkError(Seq<char>),
    AccessDenied,
    NotFound(Seq<char>),
    Conflict(Seq<char>),
    ServiceUnavailable,
    DatabaseConnectivityError,
    UserError(UserErrorView),
    SubscriptionError(SubscriptionErrorView),
    StripeError(Seq<char>),
    ParseIdError(Seq<char>),
    PaymentError(PaymentErrorView),
    AuthError(AuthErrorView),
}

impl View for ApiError {
    type V = ApiErrorView;

    open spec fn view(&self) -> ApiErrorView {
        match self {
            ApiError::InternalServerError => ApiErrorView::InternalServerError,
            ApiError::ValidationError(detail) => ApiErrorView::ValidationError(detail@),
            ApiError::UnprocessableEntity => ApiErrorView::UnprocessableEntity,
            ApiError::NetworkError(detail) => ApiErrorView::NetworkError(detail@),
            ApiError::AccessDenied => ApiErrorView::AccessDenied,
            ApiError::NotFound(what) => ApiErrorView::NotFound(what@),
            ApiError::Conflict(what) => ApiErrorView::Conflict(what@),
            ApiError::ServiceUnavailable => ApiErrorView::ServiceUnavailable,
            ApiError::DatabaseConnectivityError => ApiErrorView::DatabaseConnectivityError,
            ApiError::UserError(inner) => ApiErrorView::UserError(inner@),
            ApiError::SubscriptionError(inner) => ApiErrorView::SubscriptionError(inner@),
            ApiError::StripeError(detail) => ApiErrorView::StripeError(detail@),
            ApiError::ParseIdError(detail) => ApiErrorView::ParseIdError(detail@),
            ApiError::PaymentError(inner) => ApiErrorView::PaymentError(inner@),
            ApiError::AuthError(inner) => ApiErrorView::AuthError(inner@),
        }
    }
}

impl ApiErrorView {
    /// The kind that the error belongs to. A wrapped component error keeps
    /// the kind it has on its own, except that a sign-in failure is judged
    /// by whether the caller or the identity provider is at fault.
    pub open spec fn kind(self) -> ErrorKind {
        match self {
            ApiErrorView::InternalServerError => ErrorKind::InternalInvariantViolation,
            ApiErrorView::ValidationError(_) => ErrorKind::InvalidInput,
            ApiErrorView::UnprocessableEntity => ErrorKind::Unprocessable,
            ApiErrorView::NetworkError(_) => ErrorKind::UpstreamUnavailable,
            ApiErrorView::AccessDenied => ErrorKind::Forbidden,
            ApiErrorView::NotFound(_) => ErrorKind::NotFound,
            ApiErrorView::Conflict(_) => ErrorKind::Conflict,
            ApiErrorView::ServiceUnavailable => ErrorKind::StorageUnavailable,
            ApiErrorView::DatabaseConnectivityError => ErrorKind::StorageUnavailable,
            ApiErrorView::UserError(inner) => inner.kind(),
            ApiErrorView::SubscriptionError(inner) => inner.kind(),
            ApiErrorView::StripeError(_) => ErrorKind::UpstreamUnavailable,
            ApiErrorView::ParseIdError(_) => ErrorKind::InternalInvariantViolation,
            ApiErrorView::PaymentError(inner) => inner.kind(),
            ApiErrorView::AuthError(inner) => inner.boundary_kind(),
        }
    }

    /// The text that describes the error to a caller.
    pub open spec fn text(self) -> Seq<char> {
        match self {
            ApiErrorView::InternalServerError => "Internal Server Error"@,
            ApiErrorView::ValidationError(detail) => "Validation Error: "@ + detail,
            ApiErrorView::UnprocessableEntity => "Unprocessable Entity"@,
            ApiErrorView::NetworkError(detail) => "Network Error: "@ + detail,
            ApiErrorView::AccessDenied => "Access Denied"@,
            ApiErrorView::NotFound(what) => "Resource Not Found: "@ + what,
            ApiErrorView::Conflict(what) => "Conflict: "@ + what,
            ApiErrorView::ServiceUnavailable => "Service Unavailable"@,
            ApiErrorView::DatabaseConnectivityError => "Database Connectivity Error"@,
            ApiErrorView::UserError(inner) => inner.text(),
            ApiErrorView::SubscriptionError(inner) => inner.text(),
            ApiErrorView::StripeError(detail) => "Stripe error: "@ + detail,
            ApiErrorView::ParseIdError(_) => "Stripe Id parse error"@,
            ApiErrorView::PaymentError(inner) => inner.text(),
            ApiErrorView::AuthError(inner) => inner.text(),
        }
    }
}

impl ApiError {
    /// The kind that the error belongs to.
    pub fn kind(&self) -> (kind: ErrorKind)
        ensures
            kind == self@.kind(),
    {
        match self {
            ApiError::InternalServerError => ErrorKind::InternalInvariantViolation,
            ApiError::ValidationError(_) => ErrorKind::InvalidInput,
            ApiError::UnprocessableEntity => ErrorKind::Unprocessable,
            ApiError::NetworkError(_) => ErrorKind::UpstreamUnavailable,
            ApiError::AccessDenied => ErrorKind::Forbidden,
            ApiError::NotFound(_) => ErrorKind::NotFound,
            ApiError::Conflict(_) => ErrorKind::Conflict,
            ApiError::ServiceUnavailable => ErrorKind::StorageUnavailable,
            ApiError::DatabaseConnectivityError => ErrorKind::StorageUnavailable,
            ApiError::UserError(inner) => inner.kind(),
            ApiError::SubscriptionError(inner) => inner.kind(),
            ApiError::StripeError(_) => ErrorKind::UpstreamUnavailable,
            ApiError::ParseIdError(_) => ErrorKind::InternalInvariantViolation,
            ApiError::PaymentError(inner) => inner.kind(),
            ApiError::AuthError(inner) => inner.boundary_kind(),
        }
    }

    /// The HTTP status that answers the error.
    pub fn status_code(&self) -> (code: u16)
        ensures
            code == self@.kind().spec_status(),
    {
        self.kind().status()
    }

    /// Whether the caller should have the request delivered again: true of
    /// provider, network and store failures, false of everything that a
    /// second delivery would meet again.
    pub fn is_retryable(&self) -> (retry: bool)
        ensures
            retry == self@.kind().spec_retryable(),
    {
        self.kind().retryable()
    }

    /// The text that describes the error to a caller.
    pub fn to_string(&self) -> (text: String)
        ensures
            text@ == self@.text(),
    {
        match self {
            ApiError::InternalServerError => String::from_str("Internal Server Error"),
            ApiError::ValidationError(detail) => joined("Validation Error: ", detail.as_str()),
            ApiError::UnprocessableEntity => String::from_str("Unprocessable Entity"),
            ApiError::NetworkError(detail) => joined("Network Error: ", detail.as_str()),
            ApiError::AccessDenied => String::from_str("Access Denied"),
            ApiError::NotFound(what) => joined("Resource Not Found: ", what.as_str()),
            ApiError::Conflict(what) => joined("Conflict: ", what.as_str()),
            ApiError::ServiceUnavailable => String::from_str("Service Unavailable"),
            ApiError::DatabaseConnectivityError => String::from_str("Database Connectivity Error"),
            ApiError::UserError(inner) => inner.to_string(),
            ApiError::SubscriptionError(inner) => inner.to_string(),
            ApiError::StripeError(detail) => joined("Stripe error: ", detail.as_str()),
            ApiError::ParseIdError(_) => String::from_str("Stripe Id parse error"),
            ApiError::PaymentError(inner) => inner.to_string(),
            ApiError::AuthError(inner) => inner.to_string(),
        }
    }
}

impl From<UserError> for ApiError {
    fn from(error: UserError) -> (wrapped: ApiError) {
        ApiError::UserError(error)
    }
}

impl FromSpecImpl<UserError> for ApiError {
    open spec fn obeys_from_spec() -> bool {
        true
    }

    open spec fn from_spec(error: UserError) -> ApiError {
        ApiError::UserError(error)
    }
}

impl From<SubscriptionError> for ApiError {
    fn from(error: SubscriptionError) -> (wrapped: ApiError) {
        ApiError::SubscriptionError(error)
    }
}

impl FromSpecImpl<SubscriptionError> for ApiError {
    open spec fn obeys_from_spec() -> bool {
        true
    }

    open spec fn from_spec(error: SubscriptionError) -> ApiError {
        ApiError::SubscriptionError(error)
    }
}

impl From<PaymentError> for ApiError {
    fn from(error: PaymentError) -> (wrapped: ApiError) {
        ApiError::PaymentError(error)
    }
}

impl FromSpecImpl<PaymentError> for ApiError {
    open spec fn obeys_from_spec() -> bool {
        true
    }

    open spec fn from_spec(error: PaymentError) -> ApiError {
        ApiError::PaymentError(error)
    }
}

impl From<AuthError> for ApiError {
    fn from(error: AuthError) -> (wrapped: ApiError) {
        ApiError::AuthError(error)
    }
}

impl FromSpecImpl<AuthError> for ApiError {
    open spec fn obeys_from_spec() -> bool {
        true
    }

    open spec fn from_spec(error: AuthError) -> ApiError {
        ApiError::AuthError(error)
    }
}

/// The HTTP status for success.
pub const OK_STATUS: u16 = 200;

/// The HTTP status that answers an outcome: success is 200, whatever it
/// carries, and a failure has the status of its kind.
pub fn http_status<T>(outcome: &Result<T, ApiError>) -> (code: u16)
    ensures
        code == match outcome {
            Ok(_) => OK_STATUS,
            Err(error) => error@.kind().spec_status(),
        },
{
    match outcome {
        Ok(_) => OK_STATUS,
        Err(error) => error.status_code(),
    }
}

} // verus!
