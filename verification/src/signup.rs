//! Signing a user up at their first sign-in, and in at every later one.

use vstd::prelude::*;
use crate::auth::OAuthData;
use crate::auth::OAuthDataView;
use crate::clock::Timestamp;
use crate::error::ApiError;
use crate::error::ApiErrorView;
use crate::protocol::Request;
use crate::protocol::RequestView;
use crate::protocol::Response;
use crate::protocol::ResponseView;
use crate::protocol::Step;
use crate::protocol::StepView;
use crate::protocol::StorageRequest;
use crate::protocol::StorageRequestView;
use crate::protocol::StorageResponse;
use crate::protocol::StorageResponseView;
use crate::user::signed_up;
use crate::user::User;
use crate::user::UserError;
use crate::user::UserErrorView;
use crate::user::UserView;

verus! {

/// Which answer a sign-in is waiting for.
#[derive(Debug, PartialEq, Eq)]
pub enum SignUpFlow {
    /// Asked the store for the user with the email.
    FindingUser { oauth_data: OAuthData },
    /// Asked the store to write the user.
    Storing,
}

/// A `SignUpFlow` over the views of what it carries.
pub enum SignUpFlowView {
    FindingUser { oauth_data: OAuthDataView },
    Storing,
}

impl View for SignUpFlow {
    type V = SignUpFlowView;

    open spec fn view(&self) -> SignUpFlowView {
        match self {
            SignUpFlow::FindingUser { oauth_data } => SignUpFlowView::FindingUser {
                oauth_data: oauth_data@,
            },
            SignUpFlow::Storing => SignUpFlowView::Storing,
        }
    }
}

/// How a sign-in starts: by asking for the user with the email.
pub open spec fn begins(oauth_data: OAuthDataView) -> StepView<SignUpFlowView, UserView> {
    StepView::Ask(
        SignUpFlowView::FindingUser { oauth_data },
        RequestView::Storage(StorageRequestView::FindUserByEmail { email: oauth_data.email }),
    )
}

/// How a sign-in goes on, `now` being the time at which the answer came.
///
/// A user who is there and comes with the refresh token that is stored is
/// the result as they are. One who comes with another has it written, and
/// nothing else changed. Where there is no user with the email, one is
/// created, as of `now`. The store's row is the result of either write.
///
/// A failure of the store ends it with that failure, and an answer that
/// does not fit the question with an internal error.
pub open spec fn advances(state: SignUpFlowView, response: ResponseView, now: Timestamp) -> StepView<
    SignUpFlowView,
    UserView,
> {
    match state {
        SignUpFlowView::FindingUser { oauth_data } => match response {
            ResponseView::Storage(StorageResponseView::User(Some(user))) => {
                if user.oauth_refresh_token != oauth_data.refresh_token {
                    StepView::Ask(
                        SignUpFlowView::Storing,
                        RequestView::Storage(
                            StorageRequestView::UpdateUser {
                                user: UserView {
                                    oauth_refresh_token: oauth_data.refresh_token,
                                    ..user
                                },
                            },
                        ),
                    )
                } else {
                    StepView::Done(Ok(user))
                }
            },
            ResponseView::Storage(StorageResponseView::User(None)) => StepView::Ask(
                SignUpFlowView::Storing,
                RequestView::Storage(
                    StorageRequestView::CreateUser { user: signed_up(oauth_data, now) },
                ),
            ),
            ResponseView::Storage(StorageResponseView::Failed(reason)) => StepView::Done(
                Err(ApiErrorView::UserError(UserErrorView::DatabaseError(reason))),
            ),
            _ => StepView::Done(Err(ApiErrorView::InternalServerError)),
        },
        SignUpFlowView::Storing => match response {
            ResponseView::Storage(StorageResponseView::UserStored(user)) => StepView::Done(
                Ok(user),
            ),
            ResponseView::Storage(StorageResponseView::Failed(reason)) => StepView::Done(
                Err(ApiErrorView::UserError(UserErrorView::DatabaseError(reason))),
            ),
            _ => StepView::Done(Err(ApiErrorView::InternalServerError)),
        },
    }
}

impl SignUpFlow {
    /// Starts signing in the user whom the identity provider vouched for.
    pub fn sign_up_or_login(oauth_data: OAuthData) -> (step: Step<SignUpFlow, User>)
        ensures
            step@ == begins(oauth_data@),
    {
        let request = Request::Storage(
            StorageRequest::FindUserByEmail { email: oauth_data.email.clone() },
        );
        Step::Ask(SignUpFlow::FindingUser { oauth_data }, request)
    }

    /// Takes the answer to the question last put, which came at `now`, and
    /// says what comes next.
    pub fn advance(self, response: Response, now: Timestamp) -> (step: Step<SignUpFlow, User>)
        ensures
            step@ == advances(self@, response@, now),
    {
        match self {
            SignUpFlow::FindingUser { oauth_data } => match response {
                Response::Storage(StorageResponse::User(Some(user))) => {
                    if user.oauth_refresh_token != oauth_data.refresh_token {
                        Step::Ask(
                            SignUpFlow::Storing,
                            Request::Storage(
                                StorageRequest::UpdateUser {
                                    user: user.with_refresh_token(oauth_data.refresh_token),
                                },
                            ),
                        )
                    } else {
                        Step::Done(Ok(user))
                    }
                },
                Response::Storage(StorageResponse::User(None)) => Step::Ask(
                    SignUpFlow::Storing,
                    Request::Storage(
                        StorageRequest::CreateUser { user: User::created(oauth_data, now) },
                    ),
                ),
                Response::Storage(StorageResponse::Failed(reason)) => Step::Done(
                    Err(ApiError::UserError(UserError::DatabaseError(reason))),
                ),
                _ => Step::Done(Err(ApiError::InternalServerError)),
            },
            SignUpFlow::Storing => match response {
                Response::Storage(StorageResponse::UserStored(user)) => Step::Done(Ok(user)),
                Response::Storage(StorageResponse::Failed(reason)) => Step::Done(
                    Err(ApiError::UserError(UserError::DatabaseError(reason))),
                ),
                _ => Step::Done(Err(ApiError::InternalServerError)),
            },
        }
    }
}

} // verus!
