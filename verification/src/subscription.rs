//! Subscriptions: which product a user holds, and since which payment.

use vstd::prelude::*;
use crate::clock::Timestamp;
use crate::error::ErrorKind;
use crate::payment::Payment;
use crate::payment::PaymentView;
use crate::search::first_index;
use crate::text::joined;

verus! {

/// What can go wrong while reading or writing a subscription.
#[derive(Debug, PartialEq, Eq)]
pub enum SubscriptionError {
    /// The store failed; the text is the store's own account of it.
    DatabaseError(String),
    SubscriptionNotFound,
}

/// A `SubscriptionError` with its text as a sequence of characters.
pub enum SubscriptionErrorView {
    DatabaseError(Seq<char>),
    SubscriptionNotFound,
}

impl View for SubscriptionError {
    type V = SubscriptionErrorView;

    open spec fn view(&self) -> SubscriptionErrorView {
        match self {
            SubscriptionError::DatabaseError(detail) => SubscriptionErrorView::DatabaseError(
                detail@,
            ),
            SubscriptionError::SubscriptionNotFound => SubscriptionErrorView::SubscriptionNotFound,
        }
    }
}

impl SubscriptionErrorView {
    /// The kind that the error belongs to.
    pub open spec fn kind(self) -> ErrorKind {
        match self {
            SubscriptionErrorView::DatabaseError(_) => ErrorKind::StorageUnavailable,
            SubscriptionErrorView::SubscriptionNotFound => ErrorKind::NotFound,
        }
    }

    /// The text that describes the error to a caller.
    pub open spec fn text(self) -> Seq<char> {
        match self {
            SubscriptionErrorView::DatabaseError(detail) => "Database error: "@ + detail,
            SubscriptionErrorView::SubscriptionNotFound => "Subscription not found"@,
        }
    }

    /// The text that answers the error over HTTP: the store's own account
    /// of a failure is not passed on.
    pub open spec fn public_text(self) -> Seq<char> {
        match self {
            SubscriptionErrorView::DatabaseError(_) => "Database error occurred"@,
            SubscriptionErrorView::SubscriptionNotFound => "Subscription not found"@,
        }
    }
}

impl SubscriptionError {
    /// The kind that the error belongs to.
    pub fn kind(&self) -> (kind: ErrorKind)
        ensures
            kind == self@.kind(),
    {
        match self {
            SubscriptionError::DatabaseError(_) => ErrorKind::StorageUnavailable,
            SubscriptionError::SubscriptionNotFound => ErrorKind::NotFound,
        }
    }

    /// The HTTP status that answers the error.
    pub fn status_code(&self) -> (code: u16)
        ensures
            code == self@.kind().spec_status(),
    {
        self.kind().status()
    }

    /// The text that describes the error to a caller.
    pub fn to_string(&self) -> (text: String)
        ensures
            text@ == self@.text(),
    {
        match self {
            SubscriptionError::DatabaseError(detail) => joined("Database error: ", detail.as_str()),
            SubscriptionError::SubscriptionNotFound => String::from_str("Subscription not found"),
        }
    }

    /// The text that answers the error over HTTP.
    pub fn error_response(&self) -> (text: String)
        ensures
            text@ == self@.public_text(),
    {
        match self {
            SubscriptionError::DatabaseError(_) => String::from_str("Database error occurred"),
            SubscriptionError::SubscriptionNotFound => String::from_str("Subscription not found"),
        }
    }
}

/// One row of a user's subscription history: the product, the payment that
/// activated it, when, and whether it still confers the product.
#[derive(Debug, PartialEq, Eq)]
pub struct UserSubscription {
    pub user_id: i32,
    pub stripe_product_id: String,
    pub stripe_payment_id: String,
    pub subscription_date: Timestamp,
    pub is_active: bool,
}

/// A `UserSubscription` with its identifiers as sequences of characters.
pub struct UserSubscriptionView {
    pub user_id: int,
    pub stripe_product_id: Seq<char>,
    pub stripe_payment_id: Seq<char>,
    pub subscription_date: Timestamp,
    pub is_active: bool,
}

impl View for UserSubscription {
    type V = UserSubscriptionView;

    open spec fn view(&self) -> UserSubscriptionView {
        UserSubscriptionView {
            user_id: self.user_id as int,
            stripe_product_id: self.stripe_product_id@,
            stripe_payment_id: self.stripe_payment_id@,
            subscription_date: self.subscription_date,
            is_active: self.is_active,
        }
    }
}

impl Clone for UserSubscription {
    fn clone(&self) -> (copy: UserSubscription)
        ensures
            copy@ == self@,
    {
        UserSubscription {
            user_id: self.user_id,
            stripe_product_id: self.stripe_product_id.clone(),
            stripe_payment_id: self.stripe_payment_id.clone(),
            subscription_date: self.subscription_date,
            is_active: self.is_active,
        }
    }
}

/// The row that a payment activates: same user, product, payment and date,
/// and active.
pub open spec fn activated_by(payment: PaymentView) -> UserSubscriptionView {
    UserSubscriptionView {
        user_id: payment.user_id,
        stripe_product_id: payment.stripe_product_id,
        stripe_payment_id: payment.stripe_payment_id,
        subscription_date: payment.payment_date,
        is_active: true,
    }
}

/// The same row, no longer active.
pub open spec fn deactivated(row: UserSubscriptionView) -> UserSubscriptionView {
    UserSubscriptionView { is_active: false, ..row }
}

/// The active rows of the given user.
pub open spec fn active_for(user_id: int) -> spec_fn(UserSubscriptionView) -> bool {
    |row: UserSubscriptionView| row.user_id == user_id && row.is_active
}

/// What a newly recorded payment does to the subscription history: where
/// the payer has an active row, that row becomes inactive and nothing else
/// happens; where they have none, the payment activates a new row.
pub open spec fn after_payment(
    rows: Seq<UserSubscriptionView>,
    payment: PaymentView,
) -> Seq<UserSubscriptionView> {
    match first_index(rows, active_for(payment.user_id)) {
        Some(i) => rows.update(i, deactivated(rows[i])),
        None => rows.push(activated_by(payment)),
    }
}

impl UserSubscription {
    /// A new, active row.
    pub fn new(
        user_id: i32,
        stripe_product_id: String,
        stripe_payment_id: String,
        subscription_date: Timestamp,
    ) -> (row: UserSubscription)
        ensures
            row@ == (UserSubscriptionView {
                user_id: user_id as int,
                stripe_product_id: stripe_product_id@,
                stripe_payment_id: stripe_payment_id@,
                subscription_date,
                is_active: true,
            }),
    {
        UserSubscription {
            user_id,
            stripe_product_id,
            stripe_payment_id,
            subscription_date,
            is_active: true,
        }
    }

    /// The row that the payment activates.
    pub fn for_payment(payment: &Payment) -> (row: UserSubscription)
        ensures
            row@ == activated_by(payment@),
    {
        UserSubscription::new(
            payment.user_id,
            payment.stripe_product_id.clone(),
            payment.stripe_payment_id.clone(),
            payment.payment_date,
        )
    }

    /// The same row, no longer active.
    pub fn deactivate(self) -> (row: UserSubscription)
        ensures
            row@ == deactivated(self@),
    {
        let mut row = self;
        row.is_active = false;
        row
    }
}

} // verus!
