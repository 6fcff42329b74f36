//! The webhook processor: from one delivery of a provider event to the
//! ledger entry and the subscription change that it calls for.
//!
//! Deliveries come at least once, so the same event may come again. The
//! ledger entry is made at most once, and only the delivery that makes it
//! touches the subscriptions.

use vstd::prelude::*;
use vstd::utf8::decode_utf8;
use vstd::utf8::encode_utf8;
use vstd::utf8::encode_utf8_decode_utf8;
use vstd::utf8::encode_utf8_valid_utf8;
use vstd::utf8::valid_utf8;
use crate::clock::Timestamp;
use crate::error::ApiError;
use crate::error::ApiErrorView;
use crate::payment::Payment;
use crate::payment::PaymentError;
use crate::payment::PaymentErrorView;
use crate::payment::PaymentStatus;
use crate::payment::PaymentView;
use crate::protocol::ProviderRequest;
use crate::protocol::ProviderRequestView;
use crate::protocol::ProviderResponse;
use crate::protocol::ProviderResponseView;
use crate::protocol::Recorded;
use crate::protocol::Request;
use crate::protocol::RequestView;
use crate::protocol::Response;
use crate::protocol::ResponseView;
use crate::protocol::Step;
use crate::protocol::StepView;
use crate::protocol::StorageRequest;
use crate::protocol::StorageRequestView;
use crate::protocol::StorageResponse;
use crate::protocol::StorageResponseView;
use crate::provider::CheckoutSession;
use crate::provider::CheckoutSessionView;
use crate::provider::Rejection;
use crate::provider::RejectionView;
use crate::provider::WebhookEvent;
use crate::provider::WebhookEventView;
use crate::subscription::activated_by;
use crate::subscription::deactivated;
use crate::subscription::SubscriptionError;
use crate::subscription::SubscriptionErrorView;
use crate::subscription::UserSubscription;
use crate::text::opt_str;
use crate::text::same_text;
use crate::text::text_of;
use crate::user::UserError;
use crate::user::UserErrorView;
use crate::views::views;
use stripe_webhook::EventObject;
use stripe_webhook::Webhook;
use stripe_webhook::WebhookError;

verus! {

/// What a completed checkout session says was bought: the payment intent
/// that settled it, the product, and the customer who paid.
#[derive(Debug, PartialEq, Eq)]
pub struct Purchase {
    pub payment_intent: String,
    pub product_id: String,
    pub customer_id: String,
}

/// A `Purchase` with its identifiers as sequences of characters.
pub struct PurchaseView {
    pub payment_intent: Seq<char>,
    pub product_id: Seq<char>,
    pub customer_id: Seq<char>,
}

impl View for Purchase {
    type V = PurchaseView;

    open spec fn view(&self) -> PurchaseView {
        PurchaseView {
            payment_intent: self.payment_intent@,
            product_id: self.product_id@,
            customer_id: self.customer_id@,
        }
    }
}

/// The purchase that a session records, if it is complete: it names a
/// payment intent, its first line item has a price whose product is known,
/// and it names a customer.
pub open spec fn purchase_in(session: CheckoutSessionView) -> Option<PurchaseView> {
    if session.payment_intent is Some && session.line_items.len() > 0
        && session.line_items[0].price is Some
        && session.line_items[0].price.unwrap().product is Some && session.customer is Some {
        Some(
            PurchaseView {
                payment_intent: session.payment_intent.unwrap(),
                product_id: session.line_items[0].price.unwrap().product.unwrap(),
                customer_id: session.customer.unwrap(),
            },
        )
    } else {
        None
    }
}

/// Reads the purchase out of a session; a session that lacks any part of it
/// is malformed.
pub fn purchase_of(session: &CheckoutSession) -> (purchase: Result<Purchase, PaymentError>)
    ensures
        match purchase_in(session@) {
            Some(found) => purchase is Ok && purchase.unwrap()@ == found,
            None => purchase is Err && purchase.unwrap_err()@ == PaymentErrorView::ItemNotFound,
        },
{
    let payment_intent = match &session.payment_intent {
        Some(id) => id.clone(),
        None => { return Err(PaymentError::ItemNotFound); },
    };
    if session.line_items.len() == 0 {
        return Err(PaymentError::ItemNotFound);
    }
    let product_id = match &session.line_items[0].price {
        Some(price) => match &price.product {
            Some(id) => id.clone(),
            None => { return Err(PaymentError::ItemNotFound); },
        },
        None => { return Err(PaymentError::ItemNotFound); },
    };
    let customer_id = match &session.customer {
        Some(id) => id.clone(),
        None => { return Err(PaymentError::ItemNotFound); },
    };
    Ok(Purchase { payment_intent, product_id, customer_id })
}

/// The byte that parts the items of a signature header.
pub const COMMA: u8 = 44;

/// The byte that parts an item's name from its value.
pub const EQUALS: u8 = 61;

/// The name of the item that holds the time of signing.
pub const LETTER_T: u8 = 116;

/// The most bytes that a time of signing may take: enough for every time
/// that matters, and too few to be out of range.
pub const LONGEST_TIME: usize = 18;

/// The greatest distance from the epoch, in seconds, of a time at which a
/// delivery is verified.
pub const FARTHEST_SECOND: i64 = 10_000_000_000_000;

/// Whether an item of the header starts at `at` and holds a time of
/// signing.
pub open spec fn time_at(header: Seq<u8>, at: int) -> bool {
    &&& 0 <= at
    &&& at + 1 < header.len()
    &&& (at == 0 || header[at - 1] == COMMA)
    &&& header[at] == LETTER_T
    &&& header[at + 1] == EQUALS
}

/// Whether an item of the header ends just before `at`: there the header
/// ends, or the next item is parted off.
pub open spec fn ends_at(header: Seq<u8>, at: int) -> bool {
    0 <= at <= header.len() && (at == header.len() || header[at] == COMMA)
}

/// Whether the item whose value starts at `from` ends within `most` bytes.
pub open spec fn ends_within(header: Seq<u8>, from: int, most: int) -> bool {
    exists|end: int| from <= end <= from + most && #[trigger] ends_at(header, end)
}

/// Whether every time of signing in the header is short.
pub open spec fn times_are_short(header: Seq<u8>) -> bool {
    forall|at: int| #[trigger]
        time_at(header, at) ==> ends_within(header, at + 2, LONGEST_TIME as int)
}

/// Whether the item whose value starts at `from` ends within `most` bytes.
fn value_ends_within(header: &[u8], from: usize, most: usize) -> (ends: bool)
    requires
        from <= header.len(),
        most < usize::MAX,
    ensures
        ends == ends_within(header@, from as int, most as int),
{
    let mut taken: usize = 0;
    while taken <= most
        invariant
            taken <= most + 1,
            most < usize::MAX,
            from + taken <= header.len(),
            forall|earlier: int| from <= earlier < from + taken ==> !ends_at(header@, earlier),
        decreases most + 1 - taken,
    {
        if from + taken == header.len() || header[from + taken] == COMMA {
            assert(ends_at(header@, from + taken));
            return true;
        }
        taken += 1;
    }
    false
}

/// Whether every time of signing in the header is short.
pub fn header_times_are_short(header: &[u8]) -> (short: bool)
    ensures
        short == times_are_short(header@),
{
    let length = header.len();
    if length < 2 {
        return true;
    }
    let mut at: usize = 0;
    while at < length - 1
        invariant
            length == header.len(),
            length >= 2,
            at <= length - 1,
            forall|earlier: int|
                0 <= earlier < at && #[trigger] time_at(header@, earlier) ==> ends_within(
                    header@,
                    earlier + 2,
                    LONGEST_TIME as int,
                ),
        decreases length - at,
    {
        if (at == 0 || header[at - 1] == COMMA) && header[at] == LETTER_T && header[at + 1]
            == EQUALS {
            if !value_ends_within(header, at + 2, LONGEST_TIME) {
                assert(time_at(header@, at as int));
                return false;
            }
        }
        at += 1;
    }
    true
}

/// What verifying a delivery at a time finds: the event that the body
/// holds, or why the delivery is not taken.
pub uninterp spec fn verified_event(
    payload: Seq<char>,
    signature: Seq<char>,
    secret: Seq<char>,
    now_seconds: int,
) -> Result<WebhookEventView, RejectionView>;

/// Verifies a delivery's signature over its raw body, and reads the event.
///
/// Trusted: calls `stripe_webhook::Webhook::construct_event_with_timestamp`,
/// which recomputes the signature over the time of signing and the body
/// under the secret, compares it with the header's, refuses a signature
/// made more than five minutes from `now_seconds`, and parses the body. The
/// event's type is taken as text, and the session's identifier where the
/// event is a completed checkout; a body that does not parse is unreadable,
/// every other refusal untrusted. The outcome depends on the four arguments
/// alone, so it has a name; nothing is said of which deliveries verify. The
/// function subtracts the time of signing from `now_seconds`, which the
/// two bounds keep in range.
#[verifier::external_body]
fn construct_event(payload: &str, signature: &str, secret: &str, now_seconds: i64) -> (verified:
    Result<WebhookEvent, Rejection>)
    requires
        times_are_short(encode_utf8(signature@)),
        -FARTHEST_SECOND <= now_seconds <= FARTHEST_SECOND,
    ensures
        verified_view(verified) == verified_event(
            payload@,
            signature@,
            secret@,
            now_seconds as int,
        ),
{
    match Webhook::construct_event_with_timestamp(payload, signature, secret, now_seconds) {
        Ok(event) => Ok(
            WebhookEvent {
                event_type: event.type_.as_str().to_string(),
                checkout_session_id: match event.data.object {
                    EventObject::CheckoutSessionCompleted(session) => Some(session.id.to_string()),
                    _ => None,
                },
            },
        ),
        Err(WebhookError::BadParse(reason)) => Err(Rejection::Unreadable(reason)),
        Err(other) => Err(Rejection::Untrusted(other.to_string())),
    }
}

/// The provider's name for the one event that drives reconciliation.
pub open spec fn completed_checkout() -> Seq<char> {
    "checkout.session.completed"@
}

/// The fields of a session that the provider is asked to expand, so that
/// the purchase can be read from its answer alone.
pub open spec fn expansions() -> Seq<Seq<char>> {
    seq!["line_items"@, "line_items.data.price.product"@, "payment_intent"@]
}

/// The session that an event asks to reconcile, if any: the event is a
/// completed checkout and carries its session.
pub open spec fn session_to_reconcile(event: WebhookEventView) -> Option<Seq<char>> {
    if event.event_type == completed_checkout() {
        event.checkout_session_id
    } else {
        None
    }
}

/// Which answer a delivery is waiting for.
#[derive(Debug, PartialEq, Eq)]
pub enum WebhookFlow {
    /// Asked the provider for the full session.
    FetchingSession,
    /// Asked the store for the user behind the customer.
    FindingUser { payment_intent: String, product_id: String },
    /// Asked the store to record the payment.
    Recording { payment: Payment },
    /// Asked the store for the payer's active subscription.
    ReadingSubscription { payment: Payment },
    /// Asked the store to write the payer's subscription.
    Writing { user_id: i32 },
}

/// A `WebhookFlow` over the views of what it carries.
pub enum WebhookFlowView {
    FetchingSession,
    FindingUser { payment_intent: Seq<char>, product_id: Seq<char> },
    Recording { payment: PaymentView },
    ReadingSubscription { payment: PaymentView },
    Writing { user_id: int },
}

impl View for WebhookFlow {
    type V = WebhookFlowView;

    open spec fn view(&self) -> WebhookFlowView {
        match self {
            WebhookFlow::FetchingSession => WebhookFlowView::FetchingSession,
            WebhookFlow::FindingUser { payment_intent, product_id } => WebhookFlowView::FindingUser {
                payment_intent: payment_intent@,
                product_id: product_id@,
            },
            WebhookFlow::Recording { payment } => WebhookFlowView::Recording { payment: payment@ },
            WebhookFlow::ReadingSubscription {
                payment,
            } => WebhookFlowView::ReadingSubscription { payment: payment@ },
            WebhookFlow::Writing { user_id } => WebhookFlowView::Writing {
                user_id: *user_id as int,
            },
        }
    }
}

impl WebhookFlowView {
    /// Whether the pending question is for the provider; if not, it is for
    /// the store.
    pub open spec fn asks_provider(self) -> bool {
        self is FetchingSession
    }

    /// The user whose ledger entry and subscriptions the pending question
    /// reads or writes. From the first such question to the end of the
    /// delivery is one unit of work: whoever drives the flow must keep
    /// other deliveries for the same user out while it lasts, keep its
    /// writes if the delivery succeeds, and undo them if it fails.
    pub open spec fn serialized_on(self) -> Option<int> {
        match self {
            WebhookFlowView::FetchingSession => None,
            WebhookFlowView::FindingUser { .. } => None,
            WebhookFlowView::Recording { payment } => Some(payment.user_id),
            WebhookFlowView::ReadingSubscription { payment } => Some(payment.user_id),
            WebhookFlowView::Writing { user_id } => Some(user_id),
        }
    }
}

/// What the verification of a delivery found, over views.
pub open spec fn verified_view(verified: Result<WebhookEvent, Rejection>) -> Result<
    WebhookEventView,
    RejectionView,
> {
    match verified {
        Ok(event) => Ok(event@),
        Err(rejection) => Err(rejection@),
    }
}

/// How a delivery starts, given what its verification found. One that
/// cannot be trusted is rejected as unauthorized, and one whose body cannot
/// be read as bad input, with nothing asked of anyone. A verified event
/// that is no completed checkout is accepted and ignored. A completed
/// checkout has its session fetched from the provider in full.
pub open spec fn begins(verified: Result<WebhookEventView, RejectionView>) -> StepView<
    WebhookFlowView,
    (),
> {
    match verified {
        Err(RejectionView::Untrusted(_)) => StepView::Done(
            Err(ApiErrorView::PaymentError(PaymentErrorView::InvalidSignature)),
        ),
        Err(RejectionView::Unreadable(reason)) => StepView::Done(
            Err(ApiErrorView::ValidationError(reason)),
        ),
        Ok(event) => match session_to_reconcile(event) {
            None => StepView::Done(Ok(())),
            Some(session_id) => StepView::Ask(
                WebhookFlowView::FetchingSession,
                RequestView::Provider(
                    ProviderRequestView::RetrieveCheckoutSession {
                        session_id,
                        expand: expansions(),
                    },
                ),
            ),
        },
    }
}

/// How handling a delivery starts at a time. A body that is no text, a
/// delivery without a signature header, and a header with an overlong time
/// of signing are rejected as they stand: none can be authentic. Any other
/// delivery starts as the verification of its signature over the body, at
/// that time, says.
pub open spec fn starts(
    payload: Seq<u8>,
    signature: Option<Seq<char>>,
    secret: Seq<char>,
    now: Timestamp,
) -> StepView<WebhookFlowView, ()> {
    if valid_utf8(payload) && signature is Some && times_are_short(
        encode_utf8(signature.unwrap()),
    ) {
        begins(
            verified_event(
                decode_utf8(payload),
                signature.unwrap(),
                secret,
                now.spec_seconds(),
            ),
        )
    } else {
        StepView::Done(Err(ApiErrorView::PaymentError(PaymentErrorView::InvalidSignature)))
    }
}

/// The ledger entry for a purchase by the given user at the given time: a
/// successful payment.
pub open spec fn payment_for(
    user_id: int,
    payment_intent: Seq<char>,
    product_id: Seq<char>,
    paid_at: Timestamp,
) -> PaymentView {
    PaymentView {
        stripe_payment_id: payment_intent,
        user_id,
        stripe_product_id: product_id,
        payment_date: paid_at,
        payment_status: PaymentStatus::Successful,
    }
}

/// How a delivery goes on, `now` being the time at which the answer came.
///
/// 1. The session must hold a whole purchase, else the event is malformed;
///    the customer is then mapped back to a user.
/// 2. No such user ends the delivery in failure; otherwise the payment is
///    recorded as successful, dated `now`, under its payment intent.
/// 3. A payment that was there already ends the delivery in success with
///    nothing more done: it is a duplicate. A new one has the payer's
///    active subscription read.
/// 4. The payer's active subscription is made inactive, and that is all;
///    without one, the payment activates a new row.
/// 5. The stored row ends the delivery in success.
///
/// A failure of the store or the provider ends it with that failure, and an
/// answer that does not fit the question, or a row that is not the payer's
/// active one, with an internal error.
pub open spec fn advances(state: WebhookFlowView, response: ResponseView, now: Timestamp) -> StepView<
    WebhookFlowView,
    (),
> {
    match state {
        WebhookFlowView::FetchingSession => match response {
            ResponseView::Provider(ProviderResponseView::CheckoutSession(session)) => {
                match purchase_in(session) {
                    None => StepView::Done(
                        Err(ApiErrorView::PaymentError(PaymentErrorView::ItemNotFound)),
                    ),
                    Some(purchase) => StepView::Ask(
                        WebhookFlowView::FindingUser {
                            payment_intent: purchase.payment_intent,
                            product_id: purchase.product_id,
                        },
                        RequestView::Storage(
                            StorageRequestView::FindUserByCustomerId {
                                customer_id: purchase.customer_id,
                            },
                        ),
                    ),
                }
            },
            ResponseView::Provider(ProviderResponseView::InvalidId(reason)) => StepView::Done(
                Err(ApiErrorView::ParseIdError(reason)),
            ),
            ResponseView::Provider(ProviderResponseView::Rejected { reason, .. }) => StepView::Done(
                Err(ApiErrorView::StripeError(reason)),
            ),
            ResponseView::Provider(ProviderResponseView::Failed(reason)) => StepView::Done(
                Err(ApiErrorView::StripeError(reason)),
            ),
            _ => StepView::Done(Err(ApiErrorView::InternalServerError)),
        },
        WebhookFlowView::FindingUser { payment_intent, product_id } => match response {
            ResponseView::Storage(StorageResponseView::User(Some(user))) => {
                let payment = payment_for(user.id, payment_intent, product_id, now);
                StepView::Ask(
                    WebhookFlowView::Recording { payment },
                    RequestView::Storage(StorageRequestView::RecordPayment { payment }),
                )
            },
            ResponseView::Storage(StorageResponseView::User(None)) => StepView::Done(
                Err(ApiErrorView::UserError(UserErrorView::UserNotFound)),
            ),
            ResponseView::Storage(StorageResponseView::Failed(reason)) => StepView::Done(
                Err(ApiErrorView::UserError(UserErrorView::DatabaseError(reason))),
            ),
            _ => StepView::Done(Err(ApiErrorView::InternalServerError)),
        },
        WebhookFlowView::Recording { payment } => match response {
            ResponseView::Storage(
                StorageResponseView::PaymentRecorded(Recorded::AlreadyExists),
            ) => StepView::Done(Ok(())),
            ResponseView::Storage(
                StorageResponseView::PaymentRecorded(Recorded::Created),
            ) => StepView::Ask(
                WebhookFlowView::ReadingSubscription { payment },
                RequestView::Storage(
                    StorageRequestView::FindActiveSubscription { user_id: payment.user_id },
                ),
            ),
            ResponseView::Storage(StorageResponseView::Failed(reason)) => StepView::Done(
                Err(ApiErrorView::PaymentError(PaymentErrorView::DatabaseError(reason))),
            ),
            _ => StepView::Done(Err(ApiErrorView::InternalServerError)),
        },
        WebhookFlowView::ReadingSubscription { payment } => match response {
            ResponseView::Storage(StorageResponseView::Subscription(Some(active))) => {
                if active.user_id == payment.user_id && active.is_active {
                    StepView::Ask(
                        WebhookFlowView::Writing { user_id: payment.user_id },
                        RequestView::Storage(
                            StorageRequestView::UpdateSubscription {
                                subscription: deactivated(active),
                            },
                        ),
                    )
                } else {
                    StepView::Done(Err(ApiErrorView::InternalServerError))
                }
            },
            ResponseView::Storage(StorageResponseView::Subscription(None)) => StepView::Ask(
                WebhookFlowView::Writing { user_id: payment.user_id },
                RequestView::Storage(
                    StorageRequestView::CreateSubscription { subscription: activated_by(payment) },
                ),
            ),
            ResponseView::Storage(StorageResponseView::Failed(reason)) => StepView::Done(
                Err(ApiErrorView::SubscriptionError(SubscriptionErrorView::DatabaseError(reason))),
            ),
            _ => StepView::Done(Err(ApiErrorView::InternalServerError)),
        },
        WebhookFlowView::Writing { .. } => match response {
            ResponseView::Storage(StorageResponseView::SubscriptionStored(_)) => StepView::Done(
                Ok(()),
            ),
            ResponseView::Storage(StorageResponseView::Failed(reason)) => StepView::Done(
                Err(ApiErrorView::SubscriptionError(SubscriptionErrorView::DatabaseError(reason))),
            ),
            _ => StepView::Done(Err(ApiErrorView::InternalServerError)),
        },
    }
}

/// The request for the full session.
pub fn fetch_session(session_id: String) -> (request: Request)
    ensures
        request@ == RequestView::Provider(
            ProviderRequestView::RetrieveCheckoutSession {
                session_id: session_id@,
                expand: expansions(),
            },
        ),
{
    let mut expand: Vec<String> = Vec::new();
    expand.push(String::from_str("line_items"));
    expand.push(String::from_str("line_items.data.price.product"));
    expand.push(String::from_str("payment_intent"));
    assert(views(expand@) =~= expansions());
    Request::Provider(ProviderRequest::RetrieveCheckoutSession { session_id, expand })
}

impl WebhookFlow {
    /// Starts handling a delivery that came at `now`, given its raw body as
    /// it came and its signature header, if it has one that is text: the
    /// signature is verified over the body, and the event is read.
    pub fn handle_webhook_at(
        payload: &[u8],
        signature: Option<&str>,
        secret: &str,
        now: Timestamp,
    ) -> (step: Step<WebhookFlow, ()>)
        ensures
            step@ == starts(payload@, opt_str(signature), secret@, now),
    {
        let body = match text_of(payload) {
            Some(text) => text,
            None => {
                return Step::Done(Err(ApiError::PaymentError(PaymentError::InvalidSignature)));
            },
        };
        let header = match signature {
            Some(text) => text,
            None => {
                return Step::Done(Err(ApiError::PaymentError(PaymentError::InvalidSignature)));
            },
        };
        proof {
            encode_utf8_valid_utf8(body@);
            encode_utf8_decode_utf8(body@);
        }
        if header_times_are_short(header.as_bytes()) {
            WebhookFlow::begin(construct_event(body, header, secret, now.seconds()))
        } else {
            Step::Done(Err(ApiError::PaymentError(PaymentError::InvalidSignature)))
        }
    }

    /// Starts handling a delivery that comes now: whenever the clock says,
    /// and never before the epoch.
    pub fn handle_webhook(payload: &[u8], signature: Option<&str>, secret: &str) -> (step: Step<
        WebhookFlow,
        (),
    >)
        ensures
            exists|now: Timestamp|
                now.micros >= 0 && step@ == #[trigger] starts(
                    payload@,
                    opt_str(signature),
                    secret@,
                    now,
                ),
    {
        WebhookFlow::handle_webhook_at(payload, signature, secret, Timestamp::now())
    }

    /// Starts handling a delivery, given what verifying its signature
    /// against the raw body found: the event, or why the delivery is not
    /// taken.
    pub fn begin(verified: Result<WebhookEvent, Rejection>) -> (step: Step<WebhookFlow, ()>)
        ensures
            step@ == begins(verified_view(verified)),
    {
        match verified {
            Err(Rejection::Untrusted(_)) => Step::Done(
                Err(ApiError::PaymentError(PaymentError::InvalidSignature)),
            ),
            Err(Rejection::Unreadable(reason)) => Step::Done(
                Err(ApiError::ValidationError(reason)),
            ),
            Ok(event) => {
                if same_text(event.event_type.as_str(), "checkout.session.completed") {
                    match event.checkout_session_id {
                        Some(session_id) => Step::Ask(
                            WebhookFlow::FetchingSession,
                            fetch_session(session_id),
                        ),
                        None => Step::Done(Ok(())),
                    }
                } else {
                    Step::Done(Ok(()))
                }
            },
        }
    }

    /// The user on whom the pending question must be serialized, if any.
    pub fn serialized_on(&self) -> (user: Option<i32>)
        ensures
            self@.serialized_on() == match user {
                Some(user_id) => Some(user_id as int),
                None => None,
            },
    {
        match self {
            WebhookFlow::FetchingSession => None,
            WebhookFlow::FindingUser { .. } => None,
            WebhookFlow::Recording { payment } => Some(payment.user_id),
            WebhookFlow::ReadingSubscription { payment } => Some(payment.user_id),
            WebhookFlow::Writing { user_id } => Some(*user_id),
        }
    }

    /// Takes the answer to the question last put, which came at `now`, and
    /// says what comes next.
    pub fn advance(self, response: Response, now: Timestamp) -> (step: Step<WebhookFlow, ()>)
        ensures
            step@ == advances(self@, response@, now),
    {
        match self {
            WebhookFlow::FetchingSession => match response {
                Response::Provider(ProviderResponse::CheckoutSession(session)) => {
                    match purchase_of(&session) {
                        Err(error) => Step::Done(Err(ApiError::PaymentError(error))),
                        Ok(purchase) => Step::Ask(
                            WebhookFlow::FindingUser {
                                payment_intent: purchase.payment_intent,
                                product_id: purchase.product_id,
                            },
                            Request::Storage(
                                StorageRequest::FindUserByCustomerId {
                                    customer_id: purchase.customer_id,
                                },
                            ),
                        ),
                    }
                },
                Response::Provider(ProviderResponse::InvalidId(reason)) => Step::Done(
                    Err(ApiError::ParseIdError(reason)),
                ),
                Response::Provider(ProviderResponse::Rejected { reason, .. }) => Step::Done(
                    Err(ApiError::StripeError(reason)),
                ),
                Response::Provider(ProviderResponse::Failed(reason)) => Step::Done(
                    Err(ApiError::StripeError(reason)),
                ),
                _ => Step::Done(Err(ApiError::InternalServerError)),
            },
            WebhookFlow::FindingUser { payment_intent, product_id } => match response {
                Response::Storage(StorageResponse::User(Some(user))) => {
                    let payment = Payment::dated(
                        user.id,
                        payment_intent.as_str(),
                        product_id.as_str(),
                        now,
                    ).with_status(PaymentStatus::Successful);
                    let request = Request::Storage(
                        StorageRequest::RecordPayment { payment: payment.clone() },
                    );
                    Step::Ask(WebhookFlow::Recording { payment }, request)
                },
                Response::Storage(StorageResponse::User(None)) => Step::Done(
                    Err(ApiError::UserError(UserError::UserNotFound)),
                ),
                Response::Storage(StorageResponse::Failed(reason)) => Step::Done(
                    Err(ApiError::UserError(UserError::DatabaseError(reason))),
                ),
                _ => Step::Done(Err(ApiError::InternalServerError)),
            },
            WebhookFlow::Recording { payment } => match response {
                Response::Storage(
                    StorageResponse::PaymentRecorded(Recorded::AlreadyExists),
                ) => Step::Done(Ok(())),
                Response::Storage(StorageResponse::PaymentRecorded(Recorded::Created)) => {
                    let user_id = payment.user_id;
                    Step::Ask(
                        WebhookFlow::ReadingSubscription { payment },
                        Request::Storage(StorageRequest::FindActiveSubscription { user_id }),
                    )
                },
                Response::Storage(StorageResponse::Failed(reason)) => Step::Done(
                    Err(ApiError::PaymentError(PaymentError::DatabaseError(reason))),
                ),
                _ => Step::Done(Err(ApiError::InternalServerError)),
            },
            WebhookFlow::ReadingSubscription { payment } => match response {
                Response::Storage(StorageResponse::Subscription(Some(active))) => {
                    if active.user_id == payment.user_id && active.is_active {
                        Step::Ask(
                            WebhookFlow::Writing { user_id: payment.user_id },
                            Request::Storage(
                                StorageRequest::UpdateSubscription {
                                    subscription: active.deactivate(),
                                },
                            ),
                        )
                    } else {
                        Step::Done(Err(ApiError::InternalServerError))
                    }
                },
                Response::Storage(StorageResponse::Subscription(None)) => Step::Ask(
                    WebhookFlow::Writing { user_id: payment.user_id },
                    Request::Storage(
                        StorageRequest::CreateSubscription {
                            subscription: UserSubscription::for_payment(&payment),
                        },
                    ),
                ),
                Response::Storage(StorageResponse::Failed(reason)) => Step::Done(
                    Err(ApiError::SubscriptionError(SubscriptionError::DatabaseError(reason))),
                ),
                _ => Step::Done(Err(ApiError::InternalServerError)),
            },
            WebhookFlow::Writing { .. } => match response {
                Response::Storage(StorageResponse::SubscriptionStored(_)) => Step::Done(Ok(())),
                Response::Storage(StorageResponse::Failed(reason)) => Step::Done(
                    Err(ApiError::SubscriptionError(SubscriptionError::DatabaseError(reason))),
                ),
                _ => Step::Done(Err(ApiError::InternalServerError)),
            },
        }
    }
}

} // verus!
