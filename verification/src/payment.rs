//! Payments as the ledger records them.

use vstd::prelude::*;
use vstd::std_specs::convert::TryFromSpecImpl;
use crate::clock::Timestamp;
use crate::error::ErrorKind;
use crate::text::joined;
use crate::text::same_text;

verus! {

/// Where a payment stands with the provider.
#[derive(Debug, Clone, Copy, PartialEq, Eq, Structural)]
pub enum PaymentStatus {
    Pending,
    Successful,
    Failed,
    Denied,
}

/// What can go wrong while recording or reading a payment.
#[derive(Debug, PartialEq, Eq)]
pub enum PaymentError {
    /// The store failed; the text is the store's own account of it.
    DatabaseError(String),
    /// A checkout session lacks a payment intent, a line item with a
    /// product, or a customer.
    ItemNotFound,
    /// No payment, or no active price for a product, was found.
    PaymentNotFound,
    /// The provider opened a checkout session without a URL.
    CreateCheckoutError,
    /// A status name that is none of the four.
    InvalidPaymentStatus(String),
    /// The user's active subscription is already for this product.
    AllreadyHaveProduct,
    /// A webhook delivery whose signature does not match its body.
    InvalidSignature,
}

/// A `PaymentError` with its texts as sequences of characters.
pub enum PaymentErrorView {
    DatabaseError(Seq<char>),
    ItemNotFound,
    PaymentNotFound,
    CreateCheckoutError,
    InvalidPaymentStatus(Seq<char>),
    AllreadyHaveProduct,
    InvalidSignature,
}

impl View for PaymentError {
    type V = PaymentErrorView;

    open spec fn view(&self) -> PaymentErrorView {
        match self {
            PaymentError::DatabaseError(detail) => PaymentErrorView::DatabaseError(detail@),
            PaymentError::ItemNotFound => PaymentErrorView::ItemNotFound,
            PaymentError::PaymentNotFound => PaymentErrorView::PaymentNotFound,
            PaymentError::CreateCheckoutError => PaymentErrorView::CreateCheckoutError,
            PaymentError::InvalidPaymentStatus(name) => PaymentErrorView::InvalidPaymentStatus(
                name@,
            ),
            PaymentError::AllreadyHaveProduct => PaymentErrorView::AllreadyHaveProduct,
            PaymentError::InvalidSignature => PaymentErrorView::InvalidSignature,
        }
    }
}

impl PaymentErrorView {
    /// The kind that the error belongs to.
    pub open spec fn kind(self) -> ErrorKind {
        match self {
            PaymentErrorView::DatabaseError(_) => ErrorKind::StorageUnavailable,
            PaymentErrorView::ItemNotFound => ErrorKind::InvalidInput,
            PaymentErrorView::PaymentNotFound => ErrorKind::NotFound,
            PaymentErrorView::CreateCheckoutError => ErrorKind::InternalInvariantViolation,
            PaymentErrorView::InvalidPaymentStatus(_) => ErrorKind::InvalidInput,
            PaymentErrorView::AllreadyHaveProduct => ErrorKind::Conflict,
            PaymentErrorView::InvalidSignature => ErrorKind::Unauthorized,
        }
    }

    /// The text that describes the error to a caller.
    pub open spec fn text(self) -> Seq<char> {
        match self {
            PaymentErrorView::DatabaseError(detail) => "Database error: "@ + detail,
            PaymentErrorView::ItemNotFound =>
                "Item in payment not found - likely due to missing line item or product information."@,
            PaymentErrorView::PaymentNotFound => "Payment not found"@,
            PaymentErrorView::CreateCheckoutError => "Couldn't create checkout"@,
            PaymentErrorView::InvalidPaymentStatus(name) => "Invalid payment status: "@ + name,
            PaymentErrorView::AllreadyHaveProduct => "Allready have this product"@,
            PaymentErrorView::InvalidSignature => "Invalid webhook signature"@,
        }
    }

    /// The text that answers the error over HTTP: the store's own account
    /// of a failure is not passed on.
    pub open spec fn public_text(self) -> Seq<char> {
        match self {
            PaymentErrorView::DatabaseError(_) => "Database error occurred"@,
            other => other.text(),
        }
    }
}

impl PaymentError {
    /// The kind that the error belongs to.
    pub fn kind(&self) -> (kind: ErrorKind)
        ensures
            kind == self@.kind(),
    {
        match self {
            PaymentError::DatabaseError(_) => ErrorKind::StorageUnavailable,
            PaymentError::ItemNotFound => ErrorKind::InvalidInput,
            PaymentError::PaymentNotFound => ErrorKind::NotFound,
            PaymentError::CreateCheckoutError => ErrorKind::InternalInvariantViolation,
            PaymentError::InvalidPaymentStatus(_) => ErrorKind::InvalidInput,
            PaymentError::AllreadyHaveProduct => ErrorKind::Conflict,
            PaymentError::InvalidSignature => ErrorKind::Unauthorized,
        }
    }

    /// The HTTP status that answers the error.
    pub fn status_code(&self) -> (code: u16)
        ensures
            code == self@.kind().spec_status(),
    {
        self.kind().status()
    }

    /// The text that describes the error to a caller.
    pub fn to_string(&self) -> (text: String)
        ensures
            text@ == self@.text(),
    {
        match self {
            PaymentError::DatabaseError(detail) => joined("Database error: ", detail.as_str()),
            PaymentError::ItemNotFound => String::from_str(
                "Item in payment not found - likely due to missing line item or product information.",
            ),
            PaymentError::PaymentNotFound => String::from_str("Payment not found"),
            PaymentError::CreateCheckoutError => String::from_str("Couldn't create checkout"),
            PaymentError::InvalidPaymentStatus(name) => joined(
                "Invalid payment status: ",
                name.as_str(),
            ),
            PaymentError::AllreadyHaveProduct => String::from_str("Allready have this product"),
            PaymentError::InvalidSignature => String::from_str("Invalid webhook signature"),
        }
    }

    /// The text that answers the error over HTTP.
    pub fn error_response(&self) -> (text: String)
        ensures
            text@ == self@.public_text(),
    {
        match self {
            PaymentError::DatabaseError(_) => String::from_str("Database error occurred"),
            _ => self.to_string(),
        }
    }
}

/// The status that a lower-case name stands for, if it is one of the four.
pub open spec fn status_named(name: Seq<char>) -> Option<PaymentStatus> {
    if name == "pending"@ {
        Some(PaymentStatus::Pending)
    } else if name == "successful"@ {
        Some(PaymentStatus::Successful)
    } else if name == "failed"@ {
        Some(PaymentStatus::Failed)
    } else if name == "denied"@ {
        Some(PaymentStatus::Denied)
    } else {
        None
    }
}

/// The lower-case name of a status.
pub open spec fn status_name(status: PaymentStatus) -> Seq<char> {
    match status {
        PaymentStatus::Pending => "pending"@,
        PaymentStatus::Successful => "successful"@,
        PaymentStatus::Failed => "failed"@,
        PaymentStatus::Denied => "denied"@,
    }
}

impl TryFrom<String> for PaymentStatus {
    type Error = PaymentError;

    /// Reads a status from its lower-case name; any other text comes back
    /// inside the error.
    fn try_from(s: String) -> (parsed: Result<PaymentStatus, PaymentError>) {
        if same_text(s.as_str(), "pending") {
            Ok(PaymentStatus::Pending)
        } else if same_text(s.as_str(), "successful") {
            Ok(PaymentStatus::Successful)
        } else if same_text(s.as_str(), "failed") {
            Ok(PaymentStatus::Failed)
        } else if same_text(s.as_str(), "denied") {
            Ok(PaymentStatus::Denied)
        } else {
            Err(PaymentError::InvalidPaymentStatus(s))
        }
    }
}

impl TryFromSpecImpl<String> for PaymentStatus {
    open spec fn obeys_try_from_spec() -> bool {
        true
    }

    open spec fn try_from_spec(s: String) -> Result<PaymentStatus, PaymentError> {
        match status_named(s@) {
            Some(status) => Ok(status),
            None => Err(PaymentError::InvalidPaymentStatus(s)),
        }
    }
}

impl PaymentStatus {
    /// The lower-case name of the status, as the store spells it.
    pub fn to_string(&self) -> (name: String)
        ensures
            name@ == status_name(*self),
    {
        match self {
            PaymentStatus::Pending => String::from_str("pending"),
            PaymentStatus::Successful => String::from_str("successful"),
            PaymentStatus::Failed => String::from_str("failed"),
            PaymentStatus::Denied => String::from_str("denied"),
        }
    }

    /// The lower-case name of the status, giving the status up.
    pub fn into(self) -> (name: String)
        ensures
            name@ == status_name(self),
    {
        self.to_string()
    }

    /// Reads a stored status leniently: a name that is none of the four
    /// counts as `Denied`.
    pub fn from_stored(name: &str) -> (status: PaymentStatus)
        ensures
            status == match status_named(name@) {
                Some(known) => known,
                None => PaymentStatus::Denied,
            },
    {
        if same_text(name, "pending") {
            PaymentStatus::Pending
        } else if same_text(name, "successful") {
            PaymentStatus::Successful
        } else if same_text(name, "failed") {
            PaymentStatus::Failed
        } else {
            PaymentStatus::Denied
        }
    }
}

/// One completed payment: the provider's identifier for it, the user who
/// paid, the product bought, when, and where it stands.
#[derive(Debug, PartialEq, Eq)]
pub struct Payment {
    pub stripe_payment_id: String,
    pub user_id: i32,
    pub stripe_product_id: String,
    pub payment_date: Timestamp,
    pub payment_status: PaymentStatus,
}

/// A `Payment` with its identifiers as sequences of characters.
pub struct PaymentView {
    pub stripe_payment_id: Seq<char>,
    pub user_id: int,
    pub stripe_product_id: Seq<char>,
    pub payment_date: Timestamp,
    pub payment_status: PaymentStatus,
}

impl View for Payment {
    type V = PaymentView;

    open spec fn view(&self) -> PaymentView {
        PaymentView {
            stripe_payment_id: self.stripe_payment_id@,
            user_id: self.user_id as int,
            stripe_product_id: self.stripe_product_id@,
            payment_date: self.payment_date,
            payment_status: self.payment_status,
        }
    }
}

impl Clone for Payment {
    fn clone(&self) -> (copy: Payment)
        ensures
            copy@ == self@,
    {
        Payment {
            stripe_payment_id: self.stripe_payment_id.clone(),
            user_id: self.user_id,
            stripe_product_id: self.stripe_product_id.clone(),
            payment_date: self.payment_date,
            payment_status: self.payment_status,
        }
    }
}

impl Payment {
    /// A pending payment made at the given time.
    pub fn dated(
        user_id: i32,
        stripe_payment_id: &str,
        stripe_product_id: &str,
        payment_date: Timestamp,
    ) -> (payment: Payment)
        ensures
            payment@ == (PaymentView {
                stripe_payment_id: stripe_payment_id@,
                user_id: user_id as int,
                stripe_product_id: stripe_product_id@,
                payment_date,
                payment_status: PaymentStatus::Pending,
            }),
    {
        Payment {
            stripe_payment_id: String::from_str(stripe_payment_id),
            user_id,
            stripe_product_id: String::from_str(stripe_product_id),
            payment_date,
            payment_status: PaymentStatus::Pending,
        }
    }

    /// A pending payment made now: the date is whatever the clock says, and
    /// never before the epoch.
    pub fn new(user_id: i32, stripe_payment_id: &str, stripe_product_id: &str) -> (payment: Payment)
        ensures
            payment@ == (PaymentView {
                stripe_payment_id: stripe_payment_id@,
                user_id: user_id as int,
                stripe_product_id: stripe_product_id@,
                payment_date: payment.payment_date,
                payment_status: PaymentStatus::Pending,
            }),
            payment.payment_date.micros >= 0,
    {
        Payment::dated(user_id, stripe_payment_id, stripe_product_id, Timestamp::now())
    }

    /// The same payment with another status.
    pub fn with_status(self, status: PaymentStatus) -> (payment: Payment)
        ensures
            payment@ == (PaymentView { payment_status: status, ..self@ }),
    {
        let mut payment = self;
        payment.payment_status = status;
        payment
    }

    /// Where the payment stands.
    pub fn get_payment_status(&self) -> (status: PaymentStatus)
        ensures
            status == self.payment_status,
    {
        self.payment_status
    }
}

/// Where the user's payment stands, given the payment that the store found
/// for them: without one, there is nothing to report.
pub fn payment_status(found: Option<Payment>) -> (status: Result<PaymentStatus, PaymentError>)
    ensures
        match found {
            Some(payment) => status == Ok::<PaymentStatus, PaymentError>(payment.payment_status),
            None => status is Err && status.unwrap_err()@ == PaymentErrorView::PaymentNotFound,
        },
{
    match found {
        Some(payment) => Ok(payment.get_payment_status()),
        None => Err(PaymentError::PaymentNotFound),
    }
}

/// The body of a request to record a payment.
#[derive(Debug, PartialEq, Eq)]
pub struct CreatePaymentRequest {
    pub stripe_payment_id: String,
}

/// The body of a request to overwrite a payment's status.
#[derive(Debug, PartialEq, Eq)]
pub struct UpdatePaymentStatusRequest {
    pub stripe_payment_id: String,
    pub new_status: PaymentStatus,
}

} // verus!
