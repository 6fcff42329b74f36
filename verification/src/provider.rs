//! What the payment provider hands over, reduced to what the engine reads.

use vstd::prelude::*;
use crate::text::copy_opt_text;
use crate::text::opt_text;
use crate::views::opt_view;
use crate::views::views;

verus! {

/// A price of the provider's catalogue: its identifier and, where the
/// provider expanded it, the identifier of the product it prices.
#[derive(Debug, PartialEq, Eq)]
pub struct Price {
    pub id: String,
    pub product: Option<String>,
}

/// A `Price` with its identifiers as sequences of characters.
pub struct PriceView {
    pub id: Seq<char>,
    pub product: Option<Seq<char>>,
}

impl View for Price {
    type V = PriceView;

    open spec fn view(&self) -> PriceView {
        PriceView { id: self.id@, product: opt_text(self.product) }
    }
}

impl Clone for Price {
    fn clone(&self) -> (copy: Price)
        ensures
            copy@ == self@,
    {
        Price { id: self.id.clone(), product: copy_opt_text(&self.product) }
    }
}

/// One line of a checkout session: what was bought, if the provider says.
#[derive(Debug, PartialEq, Eq)]
pub struct LineItem {
    pub price: Option<Price>,
}

/// A `LineItem` over the view of its price.
pub struct LineItemView {
    pub price: Option<PriceView>,
}

impl View for LineItem {
    type V = LineItemView;

    open spec fn view(&self) -> LineItemView {
        LineItemView { price: opt_view(self.price) }
    }
}

/// A checkout session as the provider returns it: the hosted page, the
/// payment intent that settles it, what is being bought, and by whom.
#[derive(Debug, PartialEq, Eq)]
pub struct CheckoutSession {
    pub id: String,
    pub url: Option<String>,
    pub payment_intent: Option<String>,
    pub line_items: Vec<LineItem>,
    pub customer: Option<String>,
}

/// A `CheckoutSession` with its texts as sequences of characters.
pub struct CheckoutSessionView {
    pub id: Seq<char>,
    pub url: Option<Seq<char>>,
    pub payment_intent: Option<Seq<char>>,
    pub line_items: Seq<LineItemView>,
    pub customer: Option<Seq<char>>,
}

impl View for CheckoutSession {
    type V = CheckoutSessionView;

    open spec fn view(&self) -> CheckoutSessionView {
        CheckoutSessionView {
            id: self.id@,
            url: opt_text(self.url),
            payment_intent: opt_text(self.payment_intent),
            line_items: views(self.line_items@),
            customer: opt_text(self.customer),
        }
    }
}

/// A webhook event whose signature has been verified: the provider's name
/// for what happened and, where the event carries a checkout session, that
/// session's identifier.
#[derive(Debug, PartialEq, Eq)]
pub struct WebhookEvent {
    pub event_type: String,
    pub checkout_session_id: Option<String>,
}

/// A `WebhookEvent` with its texts as sequences of characters.
pub struct WebhookEventView {
    pub event_type: Seq<char>,
    pub checkout_session_id: Option<Seq<char>>,
}

impl View for WebhookEvent {
    type V = WebhookEventView;

    open spec fn view(&self) -> WebhookEventView {
        WebhookEventView {
            event_type: self.event_type@,
            checkout_session_id: opt_text(self.checkout_session_id),
        }
    }
}

/// Why a webhook delivery is not taken.
#[derive(Debug, PartialEq, Eq)]
pub enum Rejection {
    /// The delivery cannot be trusted: its signature header is unusable, the
    /// signature does not match the body, or it was signed too long ago.
    Untrusted(String),
    /// The delivery is authentic, and its body is no event that can be read.
    Unreadable(String),
}

/// A `Rejection` with its text as a sequence of characters.
pub enum RejectionView {
    Untrusted(Seq<char>),
    Unreadable(Seq<char>),
}

impl View for Rejection {
    type V = RejectionView;

    open spec fn view(&self) -> RejectionView {
        match self {
            Rejection::Untrusted(reason) => RejectionView::Untrusted(reason@),
            Rejection::Unreadable(reason) => RejectionView::Unreadable(reason@),
        }
    }
}

/// How a checkout session takes its money.
#[derive(Debug, Clone, Copy, PartialEq, Eq, Structural)]
pub enum CheckoutMode {
    /// One payment, once.
    Payment,
}

} // verus!
