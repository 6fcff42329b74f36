//! The checkout orchestrator: from a user and a product to the URL of a
//! provider-hosted checkout page.
//!
//! Nothing is written locally on the way, except that a user who has no
//! customer at the provider yet gets one.

use vstd::prelude::*;
use crate::config::Config;
use crate::customer::CustomerFlow;
use crate::customer::CustomerFlowView;
use crate::error::ApiError;
use crate::error::ApiErrorView;
use crate::payment::PaymentError;
use crate::payment::PaymentErrorView;
use crate::protocol::ProviderRequest;
use crate::protocol::ProviderRequestView;
use crate::protocol::ProviderResponse;
use crate::protocol::ProviderResponseView;
use crate::protocol::Request;
use crate::protocol::RequestView;
use crate::protocol::Response;
use crate::protocol::ResponseView;
use crate::protocol::Step;
use crate::protocol::StepView;
use crate::protocol::StorageRequest;
use crate::protocol::StorageRequestView;
use crate::protocol::StorageResponse;
use crate::protocol::StorageResponseView;
use crate::provider::CheckoutMode;
use crate::subscription::SubscriptionError;
use crate::subscription::SubscriptionErrorView;
use crate::user::UserError;
use crate::user::UserErrorView;

verus! {

/// What a checkout needs to know of the deployment: where the provider sends
/// the buyer afterwards, and the currency in which prices are looked up.
#[derive(Debug, PartialEq, Eq)]
pub struct CheckoutSettings {
    pub success_url: String,
    pub cancel_url: String,
    pub currency: String,
}

/// A `CheckoutSettings` with its texts as sequences of characters.
pub struct CheckoutSettingsView {
    pub success_url: Seq<char>,
    pub cancel_url: Seq<char>,
    pub currency: Seq<char>,
}

impl View for CheckoutSettings {
    type V = CheckoutSettingsView;

    open spec fn view(&self) -> CheckoutSettingsView {
        CheckoutSettingsView {
            success_url: self.success_url@,
            cancel_url: self.cancel_url@,
            currency: self.currency@,
        }
    }
}

impl Clone for CheckoutSettings {
    fn clone(&self) -> (copy: CheckoutSettings)
        ensures
            copy@ == self@,
    {
        CheckoutSettings {
            success_url: self.success_url.clone(),
            cancel_url: self.cancel_url.clone(),
            currency: self.currency.clone(),
        }
    }
}

impl CheckoutSettings {
    /// The settings that the deployment's configuration gives: its two
    /// redirect targets, and prices in US dollars.
    pub fn from_config(config: &Config) -> (settings: CheckoutSettings)
        ensures
            settings@ == (CheckoutSettingsView {
                success_url: config.stripe_checkout_success_url@,
                cancel_url: config.stripe_checkout_cancel_url@,
                currency: "usd"@,
            }),
    {
        CheckoutSettings {
            success_url: config.stripe_checkout_success_url.clone(),
            cancel_url: config.stripe_checkout_cancel_url.clone(),
            currency: String::from_str("usd"),
        }
    }
}

/// Which answer a checkout is waiting for.
#[derive(Debug, PartialEq, Eq)]
pub enum CheckoutStage {
    /// Asked the store for the user's active subscription.
    CheckingSubscription { user_id: i32 },
    /// Asked the store for the user.
    LoadingUser,
    /// Resolving the user's customer at the provider.
    ResolvingCustomer { customer: CustomerFlow },
    /// Asked the provider for the product's active prices.
    Pricing { customer_id: String },
    /// Asked the provider to open the session.
    Opening,
}

/// A `CheckoutStage` over the views of what it carries.
pub enum CheckoutStageView {
    CheckingSubscription { user_id: int },
    LoadingUser,
    ResolvingCustomer { customer: CustomerFlowView },
    Pricing { customer_id: Seq<char> },
    Opening,
}

impl View for CheckoutStage {
    type V = CheckoutStageView;

    open spec fn view(&self) -> CheckoutStageView {
        match self {
            CheckoutStage::CheckingSubscription {
                user_id,
            } => CheckoutStageView::CheckingSubscription { user_id: *user_id as int },
            CheckoutStage::LoadingUser => CheckoutStageView::LoadingUser,
            CheckoutStage::ResolvingCustomer {
                customer,
            } => CheckoutStageView::ResolvingCustomer { customer: customer@ },
            CheckoutStage::Pricing { customer_id } => CheckoutStageView::Pricing {
                customer_id: customer_id@,
            },
            CheckoutStage::Opening => CheckoutStageView::Opening,
        }
    }
}

/// A checkout under way: what is being bought, under which settings, and
/// which answer is awaited.
#[derive(Debug, PartialEq, Eq)]
pub struct CheckoutFlow {
    pub settings: CheckoutSettings,
    pub product_id: String,
    pub stage: CheckoutStage,
}

/// A `CheckoutFlow` over the views of what it carries.
pub struct CheckoutFlowView {
    pub settings: CheckoutSettingsView,
    pub product_id: Seq<char>,
    pub stage: CheckoutStageView,
}

impl View for CheckoutFlow {
    type V = CheckoutFlowView;

    open spec fn view(&self) -> CheckoutFlowView {
        CheckoutFlowView {
            settings: self.settings@,
            product_id: self.product_id@,
            stage: self.stage@,
        }
    }
}

impl CheckoutFlowView {
    /// Whether the pending question is for the provider; if not, it is for
    /// the store.
    pub open spec fn asks_provider(self) -> bool {
        match self.stage {
            CheckoutStageView::CheckingSubscription { .. } => false,
            CheckoutStageView::LoadingUser => false,
            CheckoutStageView::ResolvingCustomer { customer } => customer.asks_provider(),
            CheckoutStageView::Pricing { .. } => true,
            CheckoutStageView::Opening => true,
        }
    }
}

/// How a checkout starts: by asking for the user's active subscription.
pub open spec fn begins(
    settings: CheckoutSettingsView,
    user_id: int,
    product_id: Seq<char>,
) -> StepView<CheckoutFlowView, Seq<char>> {
    StepView::Ask(
        CheckoutFlowView {
            settings,
            product_id,
            stage: CheckoutStageView::CheckingSubscription { user_id },
        },
        RequestView::Storage(StorageRequestView::FindActiveSubscription { user_id }),
    )
}

/// The request that opens the session: one-time payment, one unit of the
/// price, for the customer, with the configured redirect targets.
pub open spec fn opening_of(
    settings: CheckoutSettingsView,
    customer_id: Seq<char>,
    price_id: Seq<char>,
) -> RequestView {
    RequestView::Provider(
        ProviderRequestView::CreateCheckoutSession {
            customer_id,
            price_id,
            quantity: 1,
            mode: CheckoutMode::Payment,
            success_url: settings.success_url,
            cancel_url: settings.cancel_url,
        },
    )
}

/// The same checkout at another stage.
pub open spec fn at_stage(flow: CheckoutFlowView, stage: CheckoutStageView) -> CheckoutFlowView {
    CheckoutFlowView { stage, ..flow }
}

/// What a step of the customer resolver means for the checkout around it:
/// its question is passed on, its failure ends the checkout, and its
/// customer has the product priced.
pub open spec fn after_customer(
    settings: CheckoutSettingsView,
    product_id: Seq<char>,
    step: StepView<CustomerFlowView, Seq<char>>,
) -> StepView<CheckoutFlowView, Seq<char>> {
    match step {
        StepView::Ask(customer, request) => StepView::Ask(
            CheckoutFlowView {
                settings,
                product_id,
                stage: CheckoutStageView::ResolvingCustomer { customer },
            },
            request,
        ),
        StepView::Done(Err(error)) => StepView::Done(Err(error)),
        StepView::Done(Ok(customer_id)) => StepView::Ask(
            CheckoutFlowView {
                settings,
                product_id,
                stage: CheckoutStageView::Pricing { customer_id },
            },
            RequestView::Provider(
                ProviderRequestView::ListActivePrices { product_id, currency: settings.currency },
            ),
        ),
    }
}

/// How a checkout goes on.
///
/// 1. A user whose active subscription is for the product asked for is
///    refused; otherwise the user is loaded.
/// 2. A user who does not exist ends it; otherwise their customer is
///    resolved.
/// 3. With the customer, the product's active prices are listed.
/// 4. No price ends it; otherwise the session is opened on the last price
///    listed.
/// 5. A session without a URL ends it in failure; otherwise the URL is the
///    result.
///
/// A failure of the store or the provider ends it with that failure, and an
/// answer that does not fit the question with an internal error.
pub open spec fn advances(flow: CheckoutFlowView, response: ResponseView) -> StepView<
    CheckoutFlowView,
    Seq<char>,
> {
    match flow.stage {
        CheckoutStageView::CheckingSubscription { user_id } => match response {
            ResponseView::Storage(StorageResponseView::Subscription(active)) => {
                if active is Some && active.unwrap().stripe_product_id == flow.product_id {
                    StepView::Done(
                        Err(ApiErrorView::PaymentError(PaymentErrorView::AllreadyHaveProduct)),
                    )
                } else {
                    StepView::Ask(
                        at_stage(flow, CheckoutStageView::LoadingUser),
                        RequestView::Storage(StorageRequestView::FindUserById { user_id }),
                    )
                }
            },
            ResponseView::Storage(StorageResponseView::Failed(reason)) => StepView::Done(
                Err(ApiErrorView::SubscriptionError(SubscriptionErrorView::DatabaseError(reason))),
            ),
            _ => StepView::Done(Err(ApiErrorView::InternalServerError)),
        },
        CheckoutStageView::LoadingUser => match response {
            ResponseView::Storage(StorageResponseView::User(Some(user))) => after_customer(
                flow.settings,
                flow.product_id,
                crate::customer::begins(user),
            ),
            ResponseView::Storage(StorageResponseView::User(None)) => StepView::Done(
                Err(ApiErrorView::UserError(UserErrorView::UserNotFound)),
            ),
            ResponseView::Storage(StorageResponseView::Failed(reason)) => StepView::Done(
                Err(ApiErrorView::UserError(UserErrorView::DatabaseError(reason))),
            ),
            _ => StepView::Done(Err(ApiErrorView::InternalServerError)),
        },
        CheckoutStageView::ResolvingCustomer { customer } => after_customer(
            flow.settings,
            flow.product_id,
            crate::customer::advances(customer, response),
        ),
        CheckoutStageView::Pricing { customer_id } => match response {
            ResponseView::Provider(ProviderResponseView::Prices(prices)) => {
                if prices.len() == 0 {
                    StepView::Done(
                        Err(ApiErrorView::PaymentError(PaymentErrorView::PaymentNotFound)),
                    )
                } else {
                    StepView::Ask(
                        at_stage(flow, CheckoutStageView::Opening),
                        opening_of(flow.settings, customer_id, prices.last().id),
                    )
                }
            },
            ResponseView::Provider(ProviderResponseView::InvalidId(reason)) => StepView::Done(
                Err(ApiErrorView::ParseIdError(reason)),
            ),
            ResponseView::Provider(ProviderResponseView::Rejected { reason, .. }) => StepView::Done(
                Err(ApiErrorView::StripeError(reason)),
            ),
            ResponseView::Provider(ProviderResponseView::Failed(reason)) => StepView::Done(
                Err(ApiErrorView::StripeError(reason)),
            ),
            _ => StepView::Done(Err(ApiErrorView::InternalServerError)),
        },
        CheckoutStageView::Opening => match response {
            ResponseView::Provider(ProviderResponseView::CheckoutSession(session)) => {
                match session.url {
                    Some(url) => StepView::Done(Ok(url)),
                    None => StepView::Done(
                        Err(ApiErrorView::PaymentError(PaymentErrorView::CreateCheckoutError)),
                    ),
                }
            },
            ResponseView::Provider(ProviderResponseView::InvalidId(reason)) => StepView::Done(
                Err(ApiErrorView::ParseIdError(reason)),
            ),
            ResponseView::Provider(ProviderResponseView::Rejected { reason, .. }) => StepView::Done(
                Err(ApiErrorView::StripeError(reason)),
            ),
            ResponseView::Provider(ProviderResponseView::Failed(reason)) => StepView::Done(
                Err(ApiErrorView::StripeError(reason)),
            ),
            _ => StepView::Done(Err(ApiErrorView::InternalServerError)),
        },
    }
}

impl CheckoutFlow {
    /// Starts a checkout of the product for the user.
    pub fn create_checkout(settings: CheckoutSettings, user_id: i32, product_id: &str) -> (step: Step<
        CheckoutFlow,
        String,
    >)
        ensures
            step@ == begins(settings@, user_id as int, product_id@),
    {
        Step::Ask(
            CheckoutFlow {
                settings,
                product_id: String::from_str(product_id),
                stage: CheckoutStage::CheckingSubscription { user_id },
            },
            Request::Storage(StorageRequest::FindActiveSubscription { user_id }),
        )
    }

    /// Carries a step of the customer resolver over to the checkout.
    fn follow_customer(
        settings: CheckoutSettings,
        product_id: String,
        step: Step<CustomerFlow, String>,
    ) -> (next: Step<CheckoutFlow, String>)
        ensures
            next@ == after_customer(settings@, product_id@, step@),
    {
        match step {
            Step::Ask(customer, request) => Step::Ask(
                CheckoutFlow {
                    settings,
                    product_id,
                    stage: CheckoutStage::ResolvingCustomer { customer },
                },
                request,
            ),
            Step::Done(Err(error)) => Step::Done(Err(error)),
            Step::Done(Ok(customer_id)) => {
                let request = Request::Provider(
                    ProviderRequest::ListActivePrices {
                        product_id: product_id.clone(),
                        currency: settings.currency.clone(),
                    },
                );
                Step::Ask(
                    CheckoutFlow {
                        settings,
                        product_id,
                        stage: CheckoutStage::Pricing { customer_id },
                    },
                    request,
                )
            },
        }
    }

    /// Takes the answer to the question last put, and says what comes next.
    pub fn advance(self, response: Response) -> (step: Step<CheckoutFlow, String>)
        ensures
            step@ == advances(self@, response@),
    {
        let CheckoutFlow { settings, product_id, stage } = self;
        match stage {
            CheckoutStage::CheckingSubscription { user_id } => match response {
                Response::Storage(StorageResponse::Subscription(active)) => {
                    let owned = match &active {
                        Some(row) => row.stripe_product_id == product_id,
                        None => false,
                    };
                    if owned {
                        Step::Done(Err(ApiError::PaymentError(PaymentError::AllreadyHaveProduct)))
                    } else {
                        Step::Ask(
                            CheckoutFlow { settings, product_id, stage: CheckoutStage::LoadingUser },
                            Request::Storage(StorageRequest::FindUserById { user_id }),
                        )
                    }
                },
                Response::Storage(StorageResponse::Failed(reason)) => Step::Done(
                    Err(ApiError::SubscriptionError(SubscriptionError::DatabaseError(reason))),
                ),
                _ => Step::Done(Err(ApiError::InternalServerError)),
            },
            CheckoutStage::LoadingUser => match response {
                Response::Storage(StorageResponse::User(Some(user))) => {
                    CheckoutFlow::follow_customer(settings, product_id, CustomerFlow::get_customer(user))
                },
                Response::Storage(StorageResponse::User(None)) => Step::Done(
                    Err(ApiError::UserError(UserError::UserNotFound)),
                ),
                Response::Storage(StorageResponse::Failed(reason)) => Step::Done(
                    Err(ApiError::UserError(UserError::DatabaseError(reason))),
                ),
                _ => Step::Done(Err(ApiError::InternalServerError)),
            },
            CheckoutStage::ResolvingCustomer { customer } => {
                CheckoutFlow::follow_customer(settings, product_id, customer.advance(response))
            },
            CheckoutStage::Pricing { customer_id } => match response {
                Response::Provider(ProviderResponse::Prices(prices)) => {
                    let mut prices = prices;
                    match prices.pop() {
                        None => Step::Done(
                            Err(ApiError::PaymentError(PaymentError::PaymentNotFound)),
                        ),
                        Some(price) => {
                            let request = Request::Provider(
                                ProviderRequest::CreateCheckoutSession {
                                    customer_id,
                                    price_id: price.id,
                                    quantity: 1,
                                    mode: CheckoutMode::Payment,
                                    success_url: settings.success_url.clone(),
                                    cancel_url: settings.cancel_url.clone(),
                                },
                            );
                            Step::Ask(
                                CheckoutFlow { settings, product_id, stage: CheckoutStage::Opening },
                                request,
                            )
                        },
                    }
                },
                Response::Provider(ProviderResponse::InvalidId(reason)) => Step::Done(
                    Err(ApiError::ParseIdError(reason)),
                ),
                Response::Provider(ProviderResponse::Rejected { reason, .. }) => Step::Done(
                    Err(ApiError::StripeError(reason)),
                ),
                Response::Provider(ProviderResponse::Failed(reason)) => Step::Done(
                    Err(ApiError::StripeError(reason)),
                ),
                _ => Step::Done(Err(ApiError::InternalServerError)),
            },
            CheckoutStage::Opening => match response {
                Response::Provider(ProviderResponse::CheckoutSession(session)) => {
                    match session.url {
                        Some(url) => Step::Done(Ok(url)),
                        None => Step::Done(
                            Err(ApiError::PaymentError(PaymentError::CreateCheckoutError)),
                        ),
                    }
                },
                Response::Provider(ProviderResponse::InvalidId(reason)) => Step::Done(
                    Err(ApiError::ParseIdError(reason)),
                ),
                Response::Provider(ProviderResponse::Rejected { reason, .. }) => Step::Done(
                    Err(ApiError::StripeError(reason)),
                ),
                Response::Provider(ProviderResponse::Failed(reason)) => Step::Done(
                    Err(ApiError::StripeError(reason)),
                ),
                _ => Step::Done(Err(ApiError::InternalServerError)),
            },
        }
    }
}

} // verus!
