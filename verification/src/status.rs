//! Overwriting the status of the payment behind a checkout session.

use vstd::prelude::*;
use crate::error::ApiError;
use crate::error::ApiErrorView;
use crate::payment::PaymentError;
use crate::payment::PaymentErrorView;
use crate::payment::PaymentStatus;
use crate::protocol::ProviderRequestView;
use crate::protocol::ProviderResponse;
use crate::protocol::ProviderResponseView;
use crate::protocol::Request;
use crate::protocol::RequestView;
use crate::protocol::Response;
use crate::protocol::ResponseView;
use crate::protocol::Step;
use crate::protocol::StepView;
use crate::protocol::StorageRequest;
use crate::protocol::StorageRequestView;
use crate::protocol::StorageResponse;
use crate::protocol::StorageResponseView;
use crate::webhook::expansions;
use crate::webhook::fetch_session;

verus! {

/// Which answer a status update is waiting for.
#[derive(Debug, PartialEq, Eq)]
pub enum StatusFlow {
    /// Asked the provider for the full session.
    FetchingSession { status: PaymentStatus },
    /// Asked the store to overwrite the status.
    Updating,
}

impl View for StatusFlow {
    type V = StatusFlow;

    open spec fn view(&self) -> StatusFlow {
        *self
    }
}

/// How a status update starts: by fetching the session in full.
pub open spec fn begins(session_id: Seq<char>, status: PaymentStatus) -> StepView<StatusFlow, ()> {
    StepView::Ask(
        StatusFlow::FetchingSession { status },
        RequestView::Provider(
            ProviderRequestView::RetrieveCheckoutSession { session_id, expand: expansions() },
        ),
    )
}

/// How a status update goes on. A session without a payment intent ends it
/// in failure; otherwise the payment under that intent gets the status,
/// whatever status it had, and the store's word ends it in success.
///
/// A failure of the store or the provider ends it with that failure, and an
/// answer that does not fit the question with an internal error.
pub open spec fn advances(state: StatusFlow, response: ResponseView) -> StepView<StatusFlow, ()> {
    match state {
        StatusFlow::FetchingSession { status } => match response {
            ResponseView::Provider(ProviderResponseView::CheckoutSession(session)) => {
                match session.payment_intent {
                    None => StepView::Done(
                        Err(ApiErrorView::PaymentError(PaymentErrorView::ItemNotFound)),
                    ),
                    Some(stripe_payment_id) => StepView::Ask(
                        StatusFlow::Updating,
                        RequestView::Storage(
                            StorageRequestView::UpdatePaymentStatus { stripe_payment_id, status },
                        ),
                    ),
                }
            },
            ResponseView::Provider(ProviderResponseView::InvalidId(reason)) => StepView::Done(
                Err(ApiErrorView::ParseIdError(reason)),
            ),
            ResponseView::Provider(ProviderResponseView::Rejected { reason, .. }) => StepView::Done(
                Err(ApiErrorView::StripeError(reason)),
            ),
            ResponseView::Provider(ProviderResponseView::Failed(reason)) => StepView::Done(
                Err(ApiErrorView::StripeError(reason)),
            ),
            _ => StepView::Done(Err(ApiErrorView::InternalServerError)),
        },
        StatusFlow::Updating => match response {
            ResponseView::Storage(StorageResponseView::PaymentUpdated) => StepView::Done(Ok(())),
            ResponseView::Storage(StorageResponseView::Failed(reason)) => StepView::Done(
                Err(ApiErrorView::PaymentError(PaymentErrorView::DatabaseError(reason))),
            ),
            _ => StepView::Done(Err(ApiErrorView::InternalServerError)),
        },
    }
}

impl StatusFlow {
    /// Starts giving the payment behind the session the status.
    pub fn update_payment_status(checkout_session_id: &str, status: PaymentStatus) -> (step: Step<
        StatusFlow,
        (),
    >)
        ensures
            step@ == begins(checkout_session_id@, status),
    {
        Step::Ask(
            StatusFlow::FetchingSession { status },
            fetch_session(String::from_str(checkout_session_id)),
        )
    }

    /// Takes the answer to the question last put, and says what comes next.
    pub fn advance(self, response: Response) -> (step: Step<StatusFlow, ()>)
        ensures
            step@ == advances(self@, response@),
    {
        match self {
            StatusFlow::FetchingSession { status } => match response {
                Response::Provider(ProviderResponse::CheckoutSession(session)) => {
                    match session.payment_intent {
                        None => Step::Done(Err(ApiError::PaymentError(PaymentError::ItemNotFound))),
                        Some(stripe_payment_id) => Step::Ask(
                            StatusFlow::Updating,
                            Request::Storage(
                                StorageRequest::UpdatePaymentStatus { stripe_payment_id, status },
                            ),
                        ),
                    }
                },
                Response::Provider(ProviderResponse::InvalidId(reason)) => Step::Done(
                    Err(ApiError::ParseIdError(reason)),
                ),
                Response::Provider(ProviderResponse::Rejected { reason, .. }) => Step::Done(
                    Err(ApiError::StripeError(reason)),
                ),
                Response::Provider(ProviderResponse::Failed(reason)) => Step::Done(
                    Err(ApiError::StripeError(reason)),
                ),
                _ => Step::Done(Err(ApiError::InternalServerError)),
            },
            StatusFlow::Updating => match response {
                Response::Storage(StorageResponse::PaymentUpdated) => Step::Done(Ok(())),
                Response::Storage(StorageResponse::Failed(reason)) => Step::Done(
                    Err(ApiError::PaymentError(PaymentError::DatabaseError(reason))),
                ),
                _ => Step::Done(Err(ApiError::InternalServerError)),
            },
        }
    }
}

} // verus!
