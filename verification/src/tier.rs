//! Pricing tiers, and subscriptions to them.

use vstd::prelude::*;
use crate::clock::Timestamp;
use crate::error::ErrorKind;
use crate::text::joined;

verus! {

/// What can go wrong while reading a tier.
#[derive(Debug, PartialEq, Eq)]
pub enum TierError {
    /// The store failed; the text is the store's own account of it.
    DatabaseError(String),
    NotFound,
    InvalidTierData(String),
}

/// A `TierError` with its texts as sequences of characters.
pub enum TierErrorView {
    DatabaseError(Seq<char>),
    NotFound,
    InvalidTierData(Seq<char>),
}

impl View for TierError {
    type V = TierErrorView;

    open spec fn view(&self) -> TierErrorView {
        match self {
            TierError::DatabaseError(detail) => TierErrorView::DatabaseError(detail@),
            TierError::NotFound => TierErrorView::NotFound,
            TierError::InvalidTierData(detail) => TierErrorView::InvalidTierData(detail@),
        }
    }
}

impl TierErrorView {
    /// The kind that the error belongs to.
    pub open spec fn kind(self) -> ErrorKind {
        match self {
            TierErrorView::DatabaseError(_) => ErrorKind::StorageUnavailable,
            TierErrorView::NotFound => ErrorKind::NotFound,
            TierErrorView::InvalidTierData(_) => ErrorKind::InvalidInput,
        }
    }

    /// The text that describes the error to a caller.
    pub open spec fn text(self) -> Seq<char> {
        match self {
            TierErrorView::DatabaseError(detail) => "Database error: "@ + detail,
            TierErrorView::NotFound => "Tier not found"@,
            TierErrorView::InvalidTierData(detail) => "Invalid tier data: "@ + detail,
        }
    }

    /// The text that answers the error over HTTP: the store's own account
    /// of a failure is not passed on.
    pub open spec fn public_text(self) -> Seq<char> {
        match self {
            TierErrorView::DatabaseError(_) => "Database error occurred"@,
            other => other.text(),
        }
    }
}

impl TierError {
    /// The kind that the error belongs to.
    pub fn kind(&self) -> (kind: ErrorKind)
        ensures
            kind == self@.kind(),
    {
        match self {
            TierError::DatabaseError(_) => ErrorKind::StorageUnavailable,
            TierError::NotFound => ErrorKind::NotFound,
            TierError::InvalidTierData(_) => ErrorKind::InvalidInput,
        }
    }

    /// The HTTP status that answers the error.
    pub fn status_code(&self) -> (code: u16)
        ensures
            code == self@.kind().spec_status(),
    {
        self.kind().status()
    }

    /// The text that describes the error to a caller.
    pub fn to_string(&self) -> (text: String)
        ensures
            text@ == self@.text(),
    {
        match self {
            TierError::DatabaseError(detail) => joined("Database error: ", detail.as_str()),
            TierError::NotFound => String::from_str("Tier not found"),
            TierError::InvalidTierData(detail) => joined("Invalid tier data: ", detail.as_str()),
        }
    }

    /// The text that answers the error over HTTP.
    pub fn error_response(&self) -> (text: String)
        ensures
            text@ == self@.public_text(),
    {
        match self {
            TierError::DatabaseError(_) => String::from_str("Database error occurred"),
            _ => self.to_string(),
        }
    }
}

/// A pricing tier: a store-assigned identifier and a price in minor units.
#[derive(Debug, PartialEq, Eq)]
pub struct Tier {
    pub id: i32,
    pub price: i64,
}

impl Tier {
    /// A tier that has not been stored yet: its identifier is zero until the
    /// store assigns one.
    pub fn new(price: i64) -> (tier: Tier)
        ensures
            tier.id == 0,
            tier.price == price,
    {
        Tier { id: 0, price }
    }
}

/// A user's subscription to a tier: since when, until when if it has an
/// end, and whether it still holds.
#[derive(Debug, PartialEq, Eq)]
pub struct Subscription {
    pub id: i32,
    pub user_id: i32,
    pub tier_id: i32,
    pub start_date: Timestamp,
    pub end_date: Option<Timestamp>,
    pub active: bool,
}

impl Subscription {
    /// A subscription that starts at the given time: active, without an
    /// end, and not stored yet (identifier zero).
    pub fn starting(user_id: i32, tier_id: i32, start_date: Timestamp) -> (subscription: Subscription)
        ensures
            subscription == (Subscription {
                id: 0,
                user_id,
                tier_id,
                start_date,
                end_date: None,
                active: true,
            }),
    {
        Subscription { id: 0, user_id, tier_id, start_date, end_date: None, active: true }
    }

    /// A subscription that starts now: whenever the clock says, and never
    /// before the epoch.
    pub fn new(user_id: i32, tier_id: i32) -> (subscription: Subscription)
        ensures
            subscription == (Subscription {
                id: 0,
                user_id,
                tier_id,
                start_date: subscription.start_date,
                end_date: None,
                active: true,
            }),
            subscription.start_date.micros >= 0,
    {
        Subscription::starting(user_id, tier_id, Timestamp::now())
    }

    /// The same subscription, ending at the given time.
    pub fn with_end_date(self, end_date: Timestamp) -> (subscription: Subscription)
        ensures
            subscription == (Subscription { end_date: Some(end_date), ..self }),
    {
        let mut subscription = self;
        subscription.end_date = Some(end_date);
        subscription
    }
}

} // verus!
