//! A flow run to its end against a store and a payment provider.
//!
//! This is how the engine is meant to be driven, written down as
//! mathematics: each request goes to the collaborator it is for, and the
//! answer goes back into the flow, until the flow is done.

use vstd::prelude::*;
use crate::auth::OAuthDataView;
use crate::checkout::CheckoutFlowView;
use crate::checkout::CheckoutSettingsView;
use crate::clock::Timestamp;
use crate::customer::CustomerFlowView;
use crate::error::ApiErrorView;
use crate::protocol::ProviderRequestView;
use crate::protocol::ProviderResponseView;
use crate::protocol::RequestView;
use crate::protocol::ResponseView;
use crate::protocol::StepView;
use crate::protocol::StorageRequestView;
use crate::provider::RejectionView;
use crate::provider::WebhookEventView;
use crate::signup::SignUpFlowView;
use crate::store::answer;
use crate::store::StoreView;
use crate::user::UserView;
use crate::webhook::WebhookFlowView;

verus! {

/// The engine's surroundings: what the store holds, and what the payment
/// provider answers to each question.
pub struct World {
    pub store: StoreView,
    pub provider: spec_fn(ProviderRequestView) -> ProviderResponseView,
}

/// What the world does on a request, and what it answers: the store may
/// change, the provider only talks.
pub open spec fn respond(world: World, request: RequestView) -> (World, ResponseView) {
    match request {
        RequestView::Storage(question) => {
            let (store, reply) = answer(world.store, question);
            (World { store, ..world }, ResponseView::Storage(reply))
        },
        RequestView::Provider(question) => (
            world,
            ResponseView::Provider((world.provider)(question)),
        ),
    }
}

/// A run: the world it left, the requests it made, in order, and how it
/// ended, if it did.
pub struct Run<T> {
    pub world: World,
    pub asked: Seq<RequestView>,
    pub outcome: Option<Result<T, ApiErrorView>>,
}

/// Runs a flow from the given step for at most `patience` requests.
pub open spec fn drive<S, T>(
    advance: spec_fn(S, ResponseView) -> StepView<S, T>,
    step: StepView<S, T>,
    world: World,
    patience: nat,
) -> Run<T>
    decreases patience,
{
    match step {
        StepView::Done(result) => Run { world, asked: seq![], outcome: Some(result) },
        StepView::Ask(state, request) => {
            if patience == 0 {
                Run { world, asked: seq![], outcome: None }
            } else {
                let (next_world, response) = respond(world, request);
                let rest = drive(
                    advance,
                    advance(state, response),
                    next_world,
                    (patience - 1) as nat,
                );
                Run { world: rest.world, asked: seq![request] + rest.asked, outcome: rest.outcome }
            }
        },
    }
}

/// A customer resolution for the user, run to its end.
pub open spec fn resolution(world: World, user: UserView) -> Run<Seq<char>> {
    drive(
        |state: CustomerFlowView, response: ResponseView|
            crate::customer::advances(state, response),
        crate::customer::begins(user),
        world,
        3,
    )
}

/// A checkout of the product for the user, run to its end.
pub open spec fn checkout(
    world: World,
    settings: CheckoutSettingsView,
    user_id: int,
    product_id: Seq<char>,
) -> Run<Seq<char>> {
    drive(
        |state: CheckoutFlowView, response: ResponseView|
            crate::checkout::advances(state, response),
        crate::checkout::begins(settings, user_id, product_id),
        world,
        7,
    )
}

/// One sign-in, run to its end, every answer coming at `now`.
pub open spec fn sign_in(world: World, oauth_data: OAuthDataView, now: Timestamp) -> Run<UserView> {
    drive(
        |state: SignUpFlowView, response: ResponseView|
            crate::signup::advances(state, response, now),
        crate::signup::begins(oauth_data),
        world,
        2,
    )
}

/// One webhook delivery, run to its end, every answer coming at `now`.
pub open spec fn delivery(
    world: World,
    verified: Result<WebhookEventView, RejectionView>,
    now: Timestamp,
) -> Run<()> {
    drive(
        |state: WebhookFlowView, response: ResponseView|
            crate::webhook::advances(state, response, now),
        crate::webhook::begins(verified),
        world,
        5,
    )
}

/// One webhook delivery from its raw body and signature header, run to its
/// end, every answer coming at `now`.
pub open spec fn handling(
    world: World,
    payload: Seq<u8>,
    signature: Option<Seq<char>>,
    secret: Seq<char>,
    now: Timestamp,
) -> Run<()> {
    drive(
        |state: WebhookFlowView, response: ResponseView|
            crate::webhook::advances(state, response, now),
        crate::webhook::starts(payload, signature, secret, now),
        world,
        5,
    )
}

/// The world after one delivery that is handled as a unit, as whoever
/// drives it must: the writes of a delivery that succeeds are kept, and
/// those of one that fails are undone.
pub open spec fn delivered(
    world: World,
    verified: Result<WebhookEventView, RejectionView>,
    now: Timestamp,
) -> World {
    let run = delivery(world, verified, now);
    if run.outcome == Some(Ok::<(), ApiErrorView>(())) {
        run.world
    } else {
        world
    }
}

/// One delivery after another, each with what its verification found and
/// the time at which its answers came.
pub open spec fn deliveries(
    world: World,
    arrivals: Seq<(Result<WebhookEventView, RejectionView>, Timestamp)>,
) -> World
    decreases arrivals.len(),
{
    if arrivals.len() == 0 {
        world
    } else {
        delivered(deliveries(world, arrivals.drop_last()), arrivals.last().0, arrivals.last().1)
    }
}

/// One request to the store after another.
pub open spec fn answers(store: StoreView, requests: Seq<StorageRequestView>) -> StoreView
    decreases requests.len(),
{
    if requests.len() == 0 {
        store
    } else {
        answer(answers(store, requests.drop_last()), requests.last()).0
    }
}

} // verus!
