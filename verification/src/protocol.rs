//! The questions that the engine puts to its collaborators, and their
//! answers.
//!
//! The engine itself never waits on the store or on the payment provider.
//! Each of its flows hands out one request at a time; whoever drives the
//! flow performs the request and hands the response back.

use vstd::prelude::*;
use crate::error::ApiError;
use crate::error::ApiErrorView;
use crate::payment::Payment;
use crate::payment::PaymentStatus;
use crate::payment::PaymentView;
use crate::provider::CheckoutMode;
use crate::provider::CheckoutSession;
use crate::provider::CheckoutSessionView;
use crate::provider::Price;
use crate::provider::PriceView;
use crate::subscription::UserSubscription;
use crate::subscription::UserSubscriptionView;
use crate::user::User;
use crate::user::UserView;
use crate::views::opt_view;
use crate::views::views;

verus! {

/// A question to the store.
#[derive(Debug, PartialEq, Eq)]
pub enum StorageRequest {
    FindUserById { user_id: i32 },
    FindUserByCustomerId { customer_id: String },
    FindUserByEmail { email: String },
    /// Store a new user; the store assigns the identifier.
    CreateUser { user: User },
    /// Overwrite the user with the same identifier.
    UpdateUser { user: User },
    /// The user's one active subscription, if any.
    FindActiveSubscription { user_id: i32 },
    CreateSubscription { subscription: UserSubscription },
    /// Overwrite the row that the same payment activated.
    UpdateSubscription { subscription: UserSubscription },
    /// Record the payment unless one with its identifier is there already.
    RecordPayment { payment: Payment },
    UpdatePaymentStatus { stripe_payment_id: String, status: PaymentStatus },
    /// The user's earliest recorded payment, if any.
    FindPaymentByUser { user_id: i32 },
}

/// A `StorageRequest` over the views of what it carries.
pub enum StorageRequestView {
    FindUserById { user_id: int },
    FindUserByCustomerId { customer_id: Seq<char> },
    FindUserByEmail { email: Seq<char> },
    CreateUser { user: UserView },
    UpdateUser { user: UserView },
    FindActiveSubscription { user_id: int },
    CreateSubscription { subscription: UserSubscriptionView },
    UpdateSubscription { subscription: UserSubscriptionView },
    RecordPayment { payment: PaymentView },
    UpdatePaymentStatus { stripe_payment_id: Seq<char>, status: PaymentStatus },
    FindPaymentByUser { user_id: int },
}

impl View for StorageRequest {
    type V = StorageRequestView;

    open spec fn view(&self) -> StorageRequestView {
        match self {
            StorageRequest::FindUserById { user_id } => StorageRequestView::FindUserById {
                user_id: *user_id as int,
            },
            StorageRequest::FindUserByCustomerId {
                customer_id,
            } => StorageRequestView::FindUserByCustomerId { customer_id: customer_id@ },
            StorageRequest::FindUserByEmail { email } => StorageRequestView::FindUserByEmail {
                email: email@,
            },
            StorageRequest::CreateUser { user } => StorageRequestView::CreateUser { user: user@ },
            StorageRequest::UpdateUser { user } => StorageRequestView::UpdateUser { user: user@ },
            StorageRequest::FindActiveSubscription {
                user_id,
            } => StorageRequestView::FindActiveSubscription { user_id: *user_id as int },
            StorageRequest::CreateSubscription {
                subscription,
            } => StorageRequestView::CreateSubscription { subscription: subscription@ },
            StorageRequest::UpdateSubscription {
                subscription,
            } => StorageRequestView::UpdateSubscription { subscription: subscription@ },
            StorageRequest::RecordPayment { payment } => StorageRequestView::RecordPayment {
                payment: payment@,
            },
            StorageRequest::UpdatePaymentStatus {
                stripe_payment_id,
                status,
            } => StorageRequestView::UpdatePaymentStatus {
                stripe_payment_id: stripe_payment_id@,
                status: *status,
            },
            StorageRequest::FindPaymentByUser {
                user_id,
            } => StorageRequestView::FindPaymentByUser { user_id: *user_id as int },
        }
    }
}

/// Whether a payment was new to the ledger.
#[derive(Debug, Clone, Copy, PartialEq, Eq, Structural)]
pub enum Recorded {
    Created,
    AlreadyExists,
}

/// The store's answer.
#[derive(Debug, PartialEq, Eq)]
pub enum StorageResponse {
    /// Answers the three user look-ups.
    User(Option<User>),
    /// Answers `CreateUser` and `UpdateUser` with the row as stored.
    UserStored(User),
    /// Answers `FindActiveSubscription`.
    Subscription(Option<UserSubscription>),
    /// Answers `CreateSubscription` and `UpdateSubscription` with the row as
    /// stored.
    SubscriptionStored(UserSubscription),
    /// Answers `RecordPayment`.
    PaymentRecorded(Recorded),
    /// Answers `UpdatePaymentStatus`.
    PaymentUpdated,
    /// Answers `FindPaymentByUser`.
    Payment(Option<Payment>),
    /// The store could not do what was asked; the text says why.
    Failed(String),
}

/// A `StorageResponse` over the views of what it carries.
pub enum StorageResponseView {
    User(Option<UserView>),
    UserStored(UserView),
    Subscription(Option<UserSubscriptionView>),
    SubscriptionStored(UserSubscriptionView),
    PaymentRecorded(Recorded),
    PaymentUpdated,
    Payment(Option<PaymentView>),
    Failed(Seq<char>),
}

impl View for StorageResponse {
    type V = StorageResponseView;

    open spec fn view(&self) -> StorageResponseView {
        match self {
            StorageResponse::User(user) => StorageResponseView::User(opt_view(*user)),
            StorageResponse::UserStored(user) => StorageResponseView::UserStored(user@),
            StorageResponse::Subscription(row) => StorageResponseView::Subscription(
                opt_view(*row),
            ),
            StorageResponse::SubscriptionStored(row) => StorageResponseView::SubscriptionStored(
                row@,
            ),
            StorageResponse::PaymentRecorded(recorded) => StorageResponseView::PaymentRecorded(
                *recorded,
            ),
            StorageResponse::PaymentUpdated => StorageResponseView::PaymentUpdated,
            StorageResponse::Payment(payment) => StorageResponseView::Payment(opt_view(*payment)),
            StorageResponse::Failed(reason) => StorageResponseView::Failed(reason@),
        }
    }
}

/// Labels as pairs of sequences of characters, in order.
pub open spec fn labels(pairs: Seq<(String, String)>) -> Seq<(Seq<char>, Seq<char>)> {
    Seq::new(pairs.len(), |i: int| (pairs[i].0@, pairs[i].1@))
}

/// A question to the payment provider.
#[derive(Debug, PartialEq, Eq)]
pub enum ProviderRequest {
    RetrieveCustomer { customer_id: String },
    /// Open a customer with the given name, email and labels.
    CreateCustomer { name: String, email: String, metadata: Vec<(String, String)> },
    /// The active prices of a product in one currency.
    ListActivePrices { product_id: String, currency: String },
    CreateCheckoutSession {
        customer_id: String,
        price_id: String,
        quantity: u64,
        mode: CheckoutMode,
        success_url: String,
        cancel_url: String,
    },
    /// The full session, with the named fields expanded.
    RetrieveCheckoutSession { session_id: String, expand: Vec<String> },
}

/// A `ProviderRequest` with its texts as sequences of characters.
pub enum ProviderRequestView {
    RetrieveCustomer { customer_id: Seq<char> },
    CreateCustomer { name: Seq<char>, email: Seq<char>, metadata: Seq<(Seq<char>, Seq<char>)> },
    ListActivePrices { product_id: Seq<char>, currency: Seq<char> },
    CreateCheckoutSession {
        customer_id: Seq<char>,
        price_id: Seq<char>,
        quantity: int,
        mode: CheckoutMode,
        success_url: Seq<char>,
        cancel_url: Seq<char>,
    },
    RetrieveCheckoutSession { session_id: Seq<char>, expand: Seq<Seq<char>> },
}

impl View for ProviderRequest {
    type V = ProviderRequestView;

    open spec fn view(&self) -> ProviderRequestView {
        match self {
            ProviderRequest::RetrieveCustomer {
                customer_id,
            } => ProviderRequestView::RetrieveCustomer { customer_id: customer_id@ },
            ProviderRequest::CreateCustomer {
                name,
                email,
                metadata,
            } => ProviderRequestView::CreateCustomer {
                name: name@,
                email: email@,
                metadata: labels(metadata@),
            },
            ProviderRequest::ListActivePrices {
                product_id,
                currency,
            } => ProviderRequestView::ListActivePrices {
                product_id: product_id@,
                currency: currency@,
            },
            ProviderRequest::CreateCheckoutSession {
                customer_id,
                price_id,
                quantity,
                mode,
                success_url,
                cancel_url,
            } => ProviderRequestView::CreateCheckoutSession {
                customer_id: customer_id@,
                price_id: price_id@,
                quantity: *quantity as int,
                mode: *mode,
                success_url: success_url@,
                cancel_url: cancel_url@,
            },
            ProviderRequest::RetrieveCheckoutSession {
                session_id,
                expand,
            } => ProviderRequestView::RetrieveCheckoutSession {
                session_id: session_id@,
                expand: views(expand@),
            },
        }
    }
}

/// The payment provider's answer.
#[derive(Debug, PartialEq, Eq)]
pub enum ProviderResponse {
    /// Answers `RetrieveCustomer` and `CreateCustomer`; the provider keeps
    /// a deleted customer that is asked for as deleted.
    Customer { id: String, deleted: bool },
    /// Answers `ListActivePrices`, in the provider's order.
    Prices(Vec<Price>),
    /// Answers the two checkout-session requests.
    CheckoutSession(CheckoutSession),
    /// An identifier in the request is not one that the provider's client
    /// takes; the text says which.
    InvalidId(String),
    /// The provider refused the request with an HTTP status; the text says
    /// why.
    Rejected { status: u16, reason: String },
    /// The provider did not answer, or not readably; the text says how.
    Failed(String),
}

/// A `ProviderResponse` over the views of what it carries.
pub enum ProviderResponseView {
    Customer { id: Seq<char>, deleted: bool },
    Prices(Seq<PriceView>),
    CheckoutSession(CheckoutSessionView),
    InvalidId(Seq<char>),
    Rejected { status: u16, reason: Seq<char> },
    Failed(Seq<char>),
}

impl View for ProviderResponse {
    type V = ProviderResponseView;

    open spec fn view(&self) -> ProviderResponseView {
        match self {
            ProviderResponse::Customer { id, deleted } => ProviderResponseView::Customer {
                id: id@,
                deleted: *deleted,
            },
            ProviderResponse::Prices(prices) => ProviderResponseView::Prices(views(prices@)),
            ProviderResponse::CheckoutSession(session) => ProviderResponseView::CheckoutSession(
                session@,
            ),
            ProviderResponse::InvalidId(reason) => ProviderResponseView::InvalidId(reason@),
            ProviderResponse::Rejected { status, reason } => ProviderResponseView::Rejected {
                status: *status,
                reason: reason@,
            },
            ProviderResponse::Failed(reason) => ProviderResponseView::Failed(reason@),
        }
    }
}

/// A question to either collaborator.
#[derive(Debug, PartialEq, Eq)]
pub enum Request {
    Storage(StorageRequest),
    Provider(ProviderRequest),
}

/// A `Request` over the views of what it carries.
pub enum RequestView {
    Storage(StorageRequestView),
    Provider(ProviderRequestView),
}

impl View for Request {
    type V = RequestView;

    open spec fn view(&self) -> RequestView {
        match self {
            Request::Storage(request) => RequestView::Storage(request@),
            Request::Provider(request) => RequestView::Provider(request@),
        }
    }
}

/// An answer from either collaborator.
#[derive(Debug, PartialEq, Eq)]
pub enum Response {
    Storage(StorageResponse),
    Provider(ProviderResponse),
}

/// A `Response` over the views of what it carries.
pub enum ResponseView {
    Storage(StorageResponseView),
    Provider(ProviderResponseView),
}

impl View for Response {
    type V = ResponseView;

    open spec fn view(&self) -> ResponseView {
        match self {
            Response::Storage(response) => ResponseView::Storage(response@),
            Response::Provider(response) => ResponseView::Provider(response@),
        }
    }
}

/// What a flow does next: put one more question, keeping the state in which
/// it waits for the answer, or end with its result.
#[derive(Debug, PartialEq, Eq)]
pub enum Step<S, T> {
    Ask(S, Request),
    Done(Result<T, ApiError>),
}

/// A `Step` over the views of what it carries.
pub enum StepView<S, T> {
    Ask(S, RequestView),
    Done(Result<T, ApiErrorView>),
}

impl<S: View, T: View> View for Step<S, T> {
    type V = StepView<S::V, T::V>;

    open spec fn view(&self) -> StepView<S::V, T::V> {
        match self {
            Step::Ask(state, request) => StepView::Ask(state@, request@),
            Step::Done(Ok(value)) => StepView::Done(Ok(value@)),
            Step::Done(Err(error)) => StepView::Done(Err(error@)),
        }
    }
}

} // verus!
