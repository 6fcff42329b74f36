//! The customer resolver: from a user to the provider's customer for them,
//! opening one on first use.

use vstd::prelude::*;
use crate::error::ApiError;
use crate::error::ApiErrorView;
use crate::protocol::ProviderRequest;
use crate::protocol::ProviderRequestView;
use crate::protocol::ProviderResponse;
use crate::protocol::ProviderResponseView;
use crate::protocol::Request;
use crate::protocol::RequestView;
use crate::protocol::Response;
use crate::protocol::ResponseView;
use crate::protocol::Step;
use crate::protocol::StepView;
use crate::protocol::StorageRequest;
use crate::protocol::StorageRequestView;
use crate::protocol::StorageResponse;
use crate::protocol::StorageResponseView;
use crate::user::User;
use crate::user::UserError;
use crate::user::UserErrorView;
use crate::user::UserView;

verus! {

/// Where a resolution stands: which answer it is waiting for.
#[derive(Debug, PartialEq, Eq)]
pub enum CustomerFlow {
    /// Asked the provider for the customer that the user already names.
    Retrieving { user: User },
    /// Asked the provider to open a customer for the user.
    Creating { user: User },
    /// Asked the store to remember the new customer on the user.
    Saving { customer_id: String },
}

/// A `CustomerFlow` over the views of what it carries.
pub enum CustomerFlowView {
    Retrieving { user: UserView },
    Creating { user: UserView },
    Saving { customer_id: Seq<char> },
}

impl View for CustomerFlow {
    type V = CustomerFlowView;

    open spec fn view(&self) -> CustomerFlowView {
        match self {
            CustomerFlow::Retrieving { user } => CustomerFlowView::Retrieving { user: user@ },
            CustomerFlow::Creating { user } => CustomerFlowView::Creating { user: user@ },
            CustomerFlow::Saving { customer_id } => CustomerFlowView::Saving {
                customer_id: customer_id@,
            },
        }
    }
}

impl CustomerFlowView {
    /// Whether the pending question is for the provider; if not, it is for
    /// the store.
    pub open spec fn asks_provider(self) -> bool {
        !(self is Saving)
    }
}

/// The labels that mark a customer as opened by this service.
pub open spec fn customer_labels() -> Seq<(Seq<char>, Seq<char>)> {
    seq![("async-stripe"@, "true"@)]
}

/// The question that opens a customer for the user: their name and email,
/// and the service's labels.
pub open spec fn opening_for(user: UserView) -> ProviderRequestView {
    ProviderRequestView::CreateCustomer {
        name: user.name,
        email: user.email,
        metadata: customer_labels(),
    }
}

/// The request that opens a customer for the user.
pub open spec fn creation_of(user: UserView) -> RequestView {
    RequestView::Provider(opening_for(user))
}

/// The request that remembers the customer on the user: the whole user is
/// written back, changed in the customer identifier alone.
pub open spec fn saving_of(user: UserView, customer_id: Seq<char>) -> RequestView {
    RequestView::Storage(
        StorageRequestView::UpdateUser {
            user: UserView { stripe_customer_id: Some(customer_id), ..user },
        },
    )
}

/// How a resolution starts: a user who names a customer has that customer
/// fetched, any other has one opened.
pub open spec fn begins(user: UserView) -> StepView<CustomerFlowView, Seq<char>> {
    match user.stripe_customer_id {
        Some(customer_id) => StepView::Ask(
            CustomerFlowView::Retrieving { user },
            RequestView::Provider(ProviderRequestView::RetrieveCustomer { customer_id }),
        ),
        None => StepView::Ask(CustomerFlowView::Creating { user }, creation_of(user)),
    }
}

/// The HTTP status with which the provider says that what was asked for is
/// not there.
pub const NOT_THERE: u16 = 404;

/// Whether the provider's answer says that the customer asked for no longer
/// exists: it is not there, or it is kept as deleted.
pub open spec fn gone(response: ResponseView) -> bool {
    match response {
        ResponseView::Provider(ProviderResponseView::Customer { deleted, .. }) => deleted,
        ResponseView::Provider(ProviderResponseView::Rejected { status, .. }) => status
            == NOT_THERE,
        _ => false,
    }
}

/// How a resolution goes on.
///
/// While retrieving: the customer found ends it with that customer; a
/// customer that no longer exists upstream has a new one opened; a rejected
/// identifier and any other failure of the provider end it with their
/// errors.
/// While creating: the new customer is written onto the user at once; a
/// failure of the provider ends it. While saving: the stored user ends it
/// with the new customer; a failure of the store ends it with a storage
/// error. Any answer that does not fit the question ends it with an
/// internal error.
pub open spec fn advances(state: CustomerFlowView, response: ResponseView) -> StepView<
    CustomerFlowView,
    Seq<char>,
> {
    match state {
        CustomerFlowView::Retrieving { user } => if gone(response) {
            StepView::Ask(CustomerFlowView::Creating { user }, creation_of(user))
        } else {
            match response {
                ResponseView::Provider(
                    ProviderResponseView::Customer { id, .. },
                ) => StepView::Done(Ok(id)),
                ResponseView::Provider(ProviderResponseView::InvalidId(reason)) => StepView::Done(
                    Err(ApiErrorView::ParseIdError(reason)),
                ),
                ResponseView::Provider(
                    ProviderResponseView::Rejected { reason, .. },
                ) => StepView::Done(Err(ApiErrorView::StripeError(reason))),
                ResponseView::Provider(ProviderResponseView::Failed(reason)) => StepView::Done(
                    Err(ApiErrorView::StripeError(reason)),
                ),
                _ => StepView::Done(Err(ApiErrorView::InternalServerError)),
            }
        },
        CustomerFlowView::Creating { user } => match response {
            ResponseView::Provider(ProviderResponseView::Customer { id, .. }) => StepView::Ask(
                CustomerFlowView::Saving { customer_id: id },
                saving_of(user, id),
            ),
            ResponseView::Provider(ProviderResponseView::Rejected { reason, .. }) => StepView::Done(
                Err(ApiErrorView::StripeError(reason)),
            ),
            ResponseView::Provider(ProviderResponseView::Failed(reason)) => StepView::Done(
                Err(ApiErrorView::StripeError(reason)),
            ),
            _ => StepView::Done(Err(ApiErrorView::InternalServerError)),
        },
        CustomerFlowView::Saving { customer_id } => match response {
            ResponseView::Storage(StorageResponseView::UserStored(_)) => StepView::Done(
                Ok(customer_id),
            ),
            ResponseView::Storage(StorageResponseView::Failed(reason)) => StepView::Done(
                Err(ApiErrorView::UserError(UserErrorView::DatabaseError(reason))),
            ),
            _ => StepView::Done(Err(ApiErrorView::InternalServerError)),
        },
    }
}

/// The request that opens a customer for the user.
fn create_customer(user: &User) -> (request: Request)
    ensures
        request@ == creation_of(user@),
{
    let mut metadata: Vec<(String, String)> = Vec::new();
    metadata.push((String::from_str("async-stripe"), String::from_str("true")));
    assert(crate::protocol::labels(metadata@) =~= customer_labels());
    Request::Provider(
        ProviderRequest::CreateCustomer {
            name: user.name.clone(),
            email: user.email.clone(),
            metadata,
        },
    )
}

impl CustomerFlow {
    /// Starts resolving the user's customer.
    pub fn get_customer(user: User) -> (step: Step<CustomerFlow, String>)
        ensures
            step@ == begins(user@),
    {
        match &user.stripe_customer_id {
            Some(customer_id) => {
                let request = Request::Provider(
                    ProviderRequest::RetrieveCustomer { customer_id: customer_id.clone() },
                );
                Step::Ask(CustomerFlow::Retrieving { user }, request)
            },
            None => {
                let request = create_customer(&user);
                Step::Ask(CustomerFlow::Creating { user }, request)
            },
        }
    }

    /// Takes the answer to the question last put, and says what comes next.
    pub fn advance(self, response: Response) -> (step: Step<CustomerFlow, String>)
        ensures
            step@ == advances(self@, response@),
    {
        match self {
            CustomerFlow::Retrieving { user } => match response {
                Response::Provider(ProviderResponse::Customer { id, deleted }) => {
                    if deleted {
                        let request = create_customer(&user);
                        Step::Ask(CustomerFlow::Creating { user }, request)
                    } else {
                        Step::Done(Ok(id))
                    }
                },
                Response::Provider(ProviderResponse::Rejected { status, reason }) => {
                    if status == NOT_THERE {
                        let request = create_customer(&user);
                        Step::Ask(CustomerFlow::Creating { user }, request)
                    } else {
                        Step::Done(Err(ApiError::StripeError(reason)))
                    }
                },
                Response::Provider(ProviderResponse::InvalidId(reason)) => Step::Done(
                    Err(ApiError::ParseIdError(reason)),
                ),
                Response::Provider(ProviderResponse::Failed(reason)) => Step::Done(
                    Err(ApiError::StripeError(reason)),
                ),
                _ => Step::Done(Err(ApiError::InternalServerError)),
            },
            CustomerFlow::Creating { user } => match response {
                Response::Provider(ProviderResponse::Rejected { reason, .. }) => Step::Done(
                    Err(ApiError::StripeError(reason)),
                ),
                Response::Provider(ProviderResponse::Customer { id, .. }) => {
                    let updated = user.with_customer(id.clone());
                    Step::Ask(
                        CustomerFlow::Saving { customer_id: id },
                        Request::Storage(StorageRequest::UpdateUser { user: updated }),
                    )
                },
                Response::Provider(ProviderResponse::Failed(reason)) => Step::Done(
                    Err(ApiError::StripeError(reason)),
                ),
                _ => Step::Done(Err(ApiError::InternalServerError)),
            },
            CustomerFlow::Saving { customer_id } => match response {
                Response::Storage(StorageResponse::UserStored(_)) => Step::Done(Ok(customer_id)),
                Response::Storage(StorageResponse::Failed(reason)) => Step::Done(
                    Err(ApiError::UserError(UserError::DatabaseError(reason))),
                ),
                _ => Step::Done(Err(ApiError::InternalServerError)),
            },
        }
    }
}

} // verus!
