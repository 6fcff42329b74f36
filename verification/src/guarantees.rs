//! What holds of the engine as a whole, proved from the flows and the
//! store's rules.

use vstd::prelude::*;
use vstd::utf8::decode_utf8;
use vstd::utf8::encode_utf8;
use vstd::utf8::valid_utf8;
use crate::auth::OAuthDataView;
use crate::checkout::CheckoutFlowView;
use crate::checkout::CheckoutSettingsView;
use crate::checkout::CheckoutStageView;
use crate::checkout::opening_of;
use crate::clock::Timestamp;
use crate::customer::creation_of;
use crate::customer::gone;
use crate::customer::opening_for;
use crate::customer::saving_of;
use crate::error::ApiErrorView;
use crate::error::ErrorKind;
use crate::payment::PaymentErrorView;
use crate::payment::PaymentView;
use crate::protocol::ProviderRequestView;
use crate::protocol::ProviderResponseView;
use crate::protocol::RequestView;
use crate::protocol::ResponseView;
use crate::protocol::StepView;
use crate::protocol::StorageRequestView;
use crate::protocol::StorageResponseView;
use crate::provider::CheckoutMode;
use crate::provider::CheckoutSessionView;
use crate::provider::PriceView;
use crate::provider::RejectionView;
use crate::provider::WebhookEventView;
use crate::search::first_after_push;
use crate::search::first_found;
use crate::search::first_index;
use crate::search::first_index_is_first;
use crate::search::first_match;
use crate::search::none_found;
use crate::store::activated_under;
use crate::store::answer;
use crate::store::answer_keeps_rules;
use crate::store::highest_id;
use crate::store::identified;
use crate::store::known_as;
use crate::store::paid_under;
use crate::store::reached_at;
use crate::store::record_payment;
use crate::store::record_payment_keeps_rules;
use crate::store::StoreView;
use crate::store::update_user;
use crate::subscription::activated_by;
use crate::subscription::active_for;
use crate::subscription::after_payment;
use crate::subscription::UserSubscriptionView;
use crate::user::signed_up;
use crate::user::UserView;
use crate::webhook::expansions;
use crate::webhook::payment_for;
use crate::webhook::purchase_in;
use crate::webhook::session_to_reconcile;
use crate::webhook::times_are_short;
use crate::webhook::verified_event;
use crate::webhook::WebhookFlowView;
use crate::world::answers;
use crate::world::checkout;
use crate::world::deliveries;
use crate::world::delivery;
use crate::world::drive;
use crate::world::handling;
use crate::world::resolution;
use crate::world::respond;
use crate::world::Run;
use crate::world::sign_in;
use crate::world::World;

verus! {

/// A delivery that cannot be trusted is rejected as unauthorized before
/// anything is asked of the store or the provider, and the world stays as
/// it was. So is, as bad input, an authentic one that cannot be read.
pub proof fn unverified_delivery_is_rejected(world: World, rejection: RejectionView, now: Timestamp)
    ensures
        delivery(world, Err(rejection), now) == (Run::<()> {
            world,
            asked: seq![],
            outcome: Some(
                Err(
                    match rejection {
                        RejectionView::Untrusted(_) => ApiErrorView::PaymentError(
                            PaymentErrorView::InvalidSignature,
                        ),
                        RejectionView::Unreadable(reason) => ApiErrorView::ValidationError(
                            reason,
                        ),
                    },
                ),
            ),
        }),
        ApiErrorView::PaymentError(PaymentErrorView::InvalidSignature).kind()
            == ErrorKind::Unauthorized,
        ErrorKind::Unauthorized.spec_status() == 401,
{
}

/// A delivery whose raw body is text, whose header holds no overlong time
/// of signing, and whose verification finds something is handled as what
/// was found says.
pub proof fn handling_goes_by_the_verification(
    world: World,
    payload: Seq<u8>,
    signature: Seq<char>,
    secret: Seq<char>,
    now: Timestamp,
)
    requires
        valid_utf8(payload),
        times_are_short(encode_utf8(signature)),
    ensures
        handling(world, payload, Some(signature), secret, now) == delivery(
            world,
            verified_event(decode_utf8(payload), signature, secret, now.spec_seconds()),
            now,
        ),
{
}

/// Nothing is asked of the store or the provider, and nothing changes,
/// unless the raw body is text, a signature header came with it, and the
/// signature verifies over the body under the secret. Every other delivery
/// is rejected, for good, whatever it holds.
pub proof fn only_verified_deliveries_are_handled(
    world: World,
    payload: Seq<u8>,
    signature: Option<Seq<char>>,
    secret: Seq<char>,
    now: Timestamp,
)
    ensures
        ({
            let run = handling(world, payload, signature, secret, now);
            let verifies = valid_utf8(payload) && signature is Some && verified_event(
                decode_utf8(payload),
                signature.unwrap(),
                secret,
                now.spec_seconds(),
            ) is Ok;
            &&& handling(world, payload, signature, secret, now).outcome is Some
            &&& !verifies ==> {
                &&& run.world == world
                &&& run.asked == Seq::<RequestView>::empty()
                &&& run.outcome matches Some(Err(error)) && !error.kind().spec_retryable()
            }
        }),
{
    reveal_with_fuel(drive, 6);
}

/// A checkout for the product of the user's active subscription fails with
/// a conflict. The one thing asked is the store's active subscription for
/// the user: the provider is never called, and nothing is written.
pub proof fn checkout_guard(
    world: World,
    settings: CheckoutSettingsView,
    user_id: int,
    product_id: Seq<char>,
)
    requires
        world.store.active_subscription(user_id) is Some,
        world.store.active_subscription(user_id).unwrap().stripe_product_id == product_id,
    ensures
        checkout(world, settings, user_id, product_id) == (Run::<Seq<char>> {
            world,
            asked: seq![
                RequestView::Storage(StorageRequestView::FindActiveSubscription { user_id }),
            ],
            outcome: Some(Err(ApiErrorView::PaymentError(PaymentErrorView::AllreadyHaveProduct))),
        }),
        ApiErrorView::PaymentError(PaymentErrorView::AllreadyHaveProduct).kind()
            == ErrorKind::Conflict,
        ErrorKind::Conflict.spec_status() == 409,
{
    let run = checkout(world, settings, user_id, product_id);
    reveal_with_fuel(drive, 3);
    assert(run.asked =~= seq![
        RequestView::Storage(StorageRequestView::FindActiveSubscription { user_id }),
    ]);
}

/// Resolving the customer of a stored user who has none yet calls the
/// provider's creation once and writes the store once, and resolving it
/// again for the user as then stored is a pure read: the provider is asked
/// for the customer, nothing is created, and nothing is written.
///
/// The provider is taken to open the customer when asked, and to know it
/// when asked again.
pub proof fn customer_is_resolved_once(world: World, user: UserView, customer_id: Seq<char>)
    requires
        user.stripe_customer_id is None,
        first_index(world.store.users, identified(user.id)) is Some,
        (world.provider)(opening_for(user)) == (ProviderResponseView::Customer {
            id: customer_id,
            deleted: false,
        }),
        (world.provider)(ProviderRequestView::RetrieveCustomer { customer_id }) == (
        ProviderResponseView::Customer { id: customer_id, deleted: false }),
    ensures
        ({
            let stored = UserView { stripe_customer_id: Some(customer_id), ..user };
            let first = resolution(world, user);
            let again = resolution(first.world, stored);
            &&& first.outcome == Some(Ok::<Seq<char>, ApiErrorView>(customer_id))
            &&& first.asked == seq![creation_of(user), saving_of(user, customer_id)]
            &&& first.world == (World { store: update_user(world.store, stored).0, ..world })
            &&& first_match(first.world.store.users, identified(user.id)) == Some(stored)
            &&& again.outcome == Some(Ok::<Seq<char>, ApiErrorView>(customer_id))
            &&& again.asked == seq![
                RequestView::Provider(ProviderRequestView::RetrieveCustomer { customer_id }),
            ]
            &&& again.world == first.world
        }),
{
    let stored = UserView { stripe_customer_id: Some(customer_id), ..user };
    let first = resolution(world, user);
    let again = resolution(first.world, stored);
    reveal_with_fuel(drive, 4);
    first_index_is_first(world.store.users, identified(user.id));
    let at = first_index(world.store.users, identified(user.id)).unwrap();
    assert(first.asked =~= seq![creation_of(user), saving_of(user, customer_id)]);
    first_found(world.store.users.update(at, stored), identified(user.id), at);
    assert(again.asked =~= seq![
        RequestView::Provider(ProviderRequestView::RetrieveCustomer { customer_id }),
    ]);
}

/// Whatever flow is run against a store that keeps the rules, for however
/// long and whatever the provider answers, the store keeps the rules, and
/// the provider is left as it was.
pub proof fn run_keeps_rules<S, T>(
    advance: spec_fn(S, ResponseView) -> StepView<S, T>,
    step: StepView<S, T>,
    world: World,
    patience: nat,
)
    requires
        world.store.well_formed(),
    ensures
        drive(advance, step, world, patience).world.store.well_formed(),
        drive(advance, step, world, patience).world.provider == world.provider,
    decreases patience,
{
    match step {
        StepView::Done(_) => {},
        StepView::Ask(state, request) => {
            if patience > 0 {
                let (next_world, response) = respond(world, request);
                match request {
                    RequestView::Storage(question) => {
                        answer_keeps_rules(world.store, question);
                    },
                    RequestView::Provider(_) => {},
                }
                run_keeps_rules(
                    advance,
                    advance(state, response),
                    next_world,
                    (patience - 1) as nat,
                );
            }
        },
    }
}

/// After any number of deliveries, whatever they carry, however they end
/// and whatever the provider says of them, no user has two active
/// subscriptions, and the other rules hold as well.
pub proof fn one_active_subscription_at_most(
    world: World,
    arrivals: Seq<(Result<WebhookEventView, RejectionView>, Timestamp)>,
)
    requires
        world.store.well_formed(),
    ensures
        deliveries(world, arrivals).store.well_formed(),
        deliveries(world, arrivals).store.single_active(),
    decreases arrivals.len(),
{
    if arrivals.len() > 0 {
        let before = deliveries(world, arrivals.drop_last());
        one_active_subscription_at_most(world, arrivals.drop_last());
        let now = arrivals.last().1;
        run_keeps_rules(
            |state: WebhookFlowView, response: ResponseView|
                crate::webhook::advances(state, response, now),
            crate::webhook::begins(arrivals.last().0),
            before,
            5,
        );
    }
}

/// In whatever order the requests of however many flows reach the store,
/// one at a time, no user has two active subscriptions afterwards, and the
/// other rules hold as well.
pub proof fn rules_hold_in_any_order(store: StoreView, requests: Seq<StorageRequestView>)
    requires
        store.well_formed(),
    ensures
        answers(store, requests).well_formed(),
        answers(store, requests).single_active(),
    decreases requests.len(),
{
    if requests.len() > 0 {
        rules_hold_in_any_order(store, requests.drop_last());
        answer_keeps_rules(answers(store, requests.drop_last()), requests.last());
    }
}

/// Whether exactly one item is wanted.
pub open spec fn exactly_one<T>(items: Seq<T>, wanted: spec_fn(T) -> bool) -> bool {
    exists|i: int|
        0 <= i < items.len() && wanted(#[trigger] items[i]) && forall|j: int|
            0 <= j < items.len() && j != i ==> !wanted(#[trigger] items[j])
}

/// The request for the full session behind an event.
pub open spec fn expansion_of(session_id: Seq<char>) -> ProviderRequestView {
    ProviderRequestView::RetrieveCheckoutSession { session_id, expand: expansions() }
}

/// The first delivery of a completed checkout, for a payment that the
/// ledger does not hold and a customer who is a user, succeeds: it appends
/// the payment, as successful, to the ledger, and moves the payer's
/// subscription once. A second delivery of the same event succeeds too and
/// changes nothing: the ledger holds the payment exactly once, and the
/// subscriptions stay as the first delivery left them.
pub proof fn delivery_is_idempotent(
    world: World,
    event: WebhookEventView,
    session: CheckoutSessionView,
    first_at: Timestamp,
    again_at: Timestamp,
)
    requires
        world.store.well_formed(),
        session_to_reconcile(event) is Some,
        (world.provider)(expansion_of(session_to_reconcile(event).unwrap())) == (
        ProviderResponseView::CheckoutSession(session)),
        purchase_in(session) is Some,
        first_match(world.store.users, known_as(purchase_in(session).unwrap().customer_id))
            is Some,
        first_index(
            world.store.payments,
            paid_under(purchase_in(session).unwrap().payment_intent),
        ) is None,
    ensures
        ({
            let purchase = purchase_in(session).unwrap();
            let payer = first_match(world.store.users, known_as(purchase.customer_id)).unwrap();
            let payment = payment_for(
                payer.id,
                purchase.payment_intent,
                purchase.product_id,
                first_at,
            );
            let first = delivery(world, Ok(event), first_at);
            let again = delivery(first.world, Ok(event), again_at);
            &&& first.outcome == Some(Ok::<(), ApiErrorView>(()))
            &&& first.world.provider == world.provider
            &&& first.world.store.users == world.store.users
            &&& first.world.store.payments == world.store.payments.push(payment)
            &&& first.world.store.subscriptions == after_payment(
                world.store.subscriptions,
                payment,
            )
            &&& again.outcome == Some(Ok::<(), ApiErrorView>(()))
            &&& again.world == first.world
            &&& exactly_one(again.world.store.payments, paid_under(purchase.payment_intent))
        }),
{
    let purchase = purchase_in(session).unwrap();
    let payer = first_match(world.store.users, known_as(purchase.customer_id)).unwrap();
    let payment = payment_for(payer.id, purchase.payment_intent, purchase.product_id, first_at);
    let first = delivery(world, Ok(event), first_at);
    let again = delivery(first.world, Ok(event), again_at);
    reveal_with_fuel(drive, 6);

    // The ledger takes the payment, and every row's payment stays known.
    let recorded = record_payment(world.store, payment).0;
    record_payment_keeps_rules(world.store, payment);
    first_after_push(world.store.payments, paid_under(purchase.payment_intent), payment);
    assert(first_index(recorded.payments, paid_under(purchase.payment_intent)) == Some(
        world.store.payments.len() as int,
    ));

    // No row was activated by a payment that the ledger did not hold.
    first_index_is_first(world.store.subscriptions, activated_under(purchase.payment_intent));
    assert(first_index(world.store.subscriptions, activated_under(purchase.payment_intent))
        is None) by {
        if first_index(world.store.subscriptions, activated_under(purchase.payment_intent))
            is Some {
            let at = first_index(
                world.store.subscriptions,
                activated_under(purchase.payment_intent),
            ).unwrap();
            assert(world.store.subscriptions[at].stripe_payment_id == purchase.payment_intent);
        }
    }

    // The payer's active row, where there is one, is the row that its own
    // payment activated.
    first_index_is_first(world.store.subscriptions, active_for(payer.id));
    match first_index(world.store.subscriptions, active_for(payer.id)) {
        Some(at) => {
            let active = world.store.subscriptions[at];
            first_index_is_first(
                world.store.subscriptions,
                activated_under(active.stripe_payment_id),
            );
            assert(first_index(
                world.store.subscriptions,
                activated_under(active.stripe_payment_id),
            ) == Some(at)) by {
                let found = first_index(
                    world.store.subscriptions,
                    activated_under(active.stripe_payment_id),
                );
                assert(activated_under(active.stripe_payment_id)(world.store.subscriptions[at]));
                assert(found is Some);
                if found.unwrap() != at {
                    assert(world.store.subscriptions[found.unwrap()].stripe_payment_id
                        == active.stripe_payment_id);
                }
            }
        },
        None => {},
    }
    assert(first.outcome == Some(Ok::<(), ApiErrorView>(())));
    assert(first.world.store.payments == world.store.payments.push(payment));
    assert(first.world.store.subscriptions == after_payment(world.store.subscriptions, payment));

    // The second delivery finds the payment and stops.
    assert(again.world == first.world);
    let at = world.store.payments.len() as int;
    first_index_is_first(world.store.payments, paid_under(purchase.payment_intent));
    assert(paid_under(purchase.payment_intent)(first.world.store.payments[at]));
    assert forall|j: int|
        0 <= j < first.world.store.payments.len() && j != at implies !paid_under(
        purchase.payment_intent,
    )(#[trigger] first.world.store.payments[j]) by {
        assert(first.world.store.payments[j] == world.store.payments[j]);
    }
}

/// Whatever a delivery holds and whatever the store held before it: once
/// it has succeeded, the same delivery may come again at any time, and will
/// succeed and change nothing.
pub proof fn a_delivery_that_succeeded_may_come_again(
    world: World,
    verified: Result<WebhookEventView, RejectionView>,
    first_at: Timestamp,
    again_at: Timestamp,
)
    ensures
        ({
            let first = delivery(world, verified, first_at);
            let again = delivery(first.world, verified, again_at);
            first.outcome == Some(Ok::<(), ApiErrorView>(())) ==> {
                &&& again.outcome == Some(Ok::<(), ApiErrorView>(()))
                &&& again.world == first.world
            }
        }),
{
    reveal_with_fuel(drive, 6);
    match verified {
        Ok(event) => match session_to_reconcile(event) {
            Some(session_id) => match (world.provider)(expansion_of(session_id)) {
                ProviderResponseView::CheckoutSession(session) => match purchase_in(session) {
                    Some(purchase) => match first_match(
                        world.store.users,
                        known_as(purchase.customer_id),
                    ) {
                        Some(payer) => {
                            first_after_push(
                                world.store.payments,
                                paid_under(purchase.payment_intent),
                                payment_for(
                                    payer.id,
                                    purchase.payment_intent,
                                    purchase.product_id,
                                    first_at,
                                ),
                            );
                        },
                        None => {},
                    },
                    None => {},
                },
                _ => {},
            },
            None => {},
        },
        Err(_) => {},
    }
}

/// Every customer resolution ends within three requests.
pub proof fn resolution_ends(world: World, user: UserView)
    ensures
        resolution(world, user).outcome is Some,
        resolution(world, user).asked.len() <= 3,
{
    reveal_with_fuel(drive, 4);
}

/// Every delivery ends within five requests.
pub proof fn delivery_ends(
    world: World,
    verified: Result<WebhookEventView, RejectionView>,
    now: Timestamp,
)
    ensures
        delivery(world, verified, now).outcome is Some,
        delivery(world, verified, now).asked.len() <= 5,
{
    reveal_with_fuel(drive, 6);
}

/// Every checkout ends within seven requests.
pub proof fn checkout_ends(
    world: World,
    settings: CheckoutSettingsView,
    user_id: int,
    product_id: Seq<char>,
)
    ensures
        checkout(world, settings, user_id, product_id).outcome is Some,
        checkout(world, settings, user_id, product_id).asked.len() <= 7,
{
    reveal_with_fuel(drive, 8);
}

/// Whether the answer reports a failure of the store or of the provider.
pub open spec fn reports_failure(response: ResponseView) -> bool {
    ||| response matches ResponseView::Storage(StorageResponseView::Failed(_))
    ||| response matches ResponseView::Provider(ProviderResponseView::Failed(_))
    ||| response matches ResponseView::Provider(ProviderResponseView::Rejected { .. })
}

/// Whether the checkout is waiting for the customer that its user names.
pub open spec fn retrieves_customer(state: CheckoutFlowView) -> bool {
    state.stage matches CheckoutStageView::ResolvingCustomer { customer }
        && customer is Retrieving
}

/// Whether the answer comes from the provider; if not, it comes from the
/// store.
pub open spec fn from_provider(response: ResponseView) -> bool {
    response is Provider
}

/// The user whose payments or subscriptions a request reads or writes.
pub open spec fn ledger_user(request: RequestView) -> Option<int> {
    match request {
        RequestView::Storage(StorageRequestView::RecordPayment { payment }) => Some(
            payment.user_id,
        ),
        RequestView::Storage(StorageRequestView::FindActiveSubscription { user_id }) => Some(
            user_id,
        ),
        RequestView::Storage(StorageRequestView::CreateSubscription { subscription }) => Some(
            subscription.user_id,
        ),
        RequestView::Storage(StorageRequestView::UpdateSubscription { subscription }) => Some(
            subscription.user_id,
        ),
        _ => None,
    }
}

/// A delivery fails in a way worth delivering again just when the
/// collaborator that was asked reports a failure: then it always does, and
/// a bad signature, a malformed session, an unknown customer and an answer
/// that does not fit are failures for good.
pub proof fn delivery_failures_are_told_apart(
    state: WebhookFlowView,
    response: ResponseView,
    now: Timestamp,
    verified: Result<WebhookEventView, RejectionView>,
)
    ensures
        (crate::webhook::advances(state, response, now) matches StepView::Done(Err(error))
            && error.kind().spec_retryable()) <==> (reports_failure(response) && from_provider(
            response,
        ) == state.asks_provider()),
        crate::webhook::begins(verified) matches StepView::Done(Err(error))
            ==> !error.kind().spec_retryable(),
{
}

/// A checkout fails in a way worth trying again just when the collaborator
/// that was asked reports a failure, except that a customer who is gone is
/// no failure: a new one is opened.
pub proof fn checkout_failures_are_told_apart(state: CheckoutFlowView, response: ResponseView)
    ensures
        (crate::checkout::advances(state, response) matches StepView::Done(Err(error))
            && error.kind().spec_retryable()) <==> (reports_failure(response) && from_provider(
            response,
        ) == state.asks_provider() && !(retrieves_customer(state) && gone(response))),
{
}

/// From the first request of a delivery that touches the ledger or the
/// subscriptions to its last, the flow names the payer as the user on whom
/// it must be serialized, and every such request is for that user.
pub proof fn ledger_requests_are_serialized(
    state: WebhookFlowView,
    response: ResponseView,
    now: Timestamp,
)
    ensures
        crate::webhook::advances(state, response, now) matches StepView::Ask(next, request) ==> {
            &&& ledger_user(request) == next.serialized_on()
            &&& state.serialized_on() is Some ==> next.serialized_on() == state.serialized_on()
        },
{
}

/// A checkout writes nothing but the customer identifier of one user: the
/// ledger and the subscriptions stay as they are, no user comes or goes,
/// and no user changes in anything else.
pub proof fn checkout_writes_the_customer_only(
    world: World,
    settings: CheckoutSettingsView,
    user_id: int,
    product_id: Seq<char>,
)
    ensures
        ({
            let after = checkout(world, settings, user_id, product_id).world.store;
            &&& after.payments == world.store.payments
            &&& after.subscriptions == world.store.subscriptions
            &&& after.users.len() == world.store.users.len()
            &&& forall|i: int|
                0 <= i < after.users.len() ==> #[trigger] after.users[i] == (UserView {
                    stripe_customer_id: after.users[i].stripe_customer_id,
                    ..world.store.users[i]
                })
        }),
{
    reveal_with_fuel(drive, 8);
    first_index_is_first(world.store.users, identified(user_id));
}

/// A delivery leaves the users as they are.
pub proof fn delivery_leaves_users(
    world: World,
    verified: Result<WebhookEventView, RejectionView>,
    now: Timestamp,
)
    ensures
        delivery(world, verified, now).world.store.users == world.store.users,
{
    reveal_with_fuel(drive, 6);
}

/// Whatever is asked of the store, the ledger loses nothing: every payment
/// stays at its place, under its identifier, bound to its user, its product
/// and its date. Its status alone may change.
pub proof fn payments_are_never_lost(store: StoreView, request: StorageRequestView)
    ensures
        ({
            let after = answer(store, request).0;
            &&& after.payments.len() >= store.payments.len()
            &&& forall|i: int|
                0 <= i < store.payments.len() ==> #[trigger] after.payments[i] == (PaymentView {
                    payment_status: after.payments[i].payment_status,
                    ..store.payments[i]
                })
        }),
{
    match request {
        StorageRequestView::UpdatePaymentStatus { stripe_payment_id, .. } => {
            first_index_is_first(store.payments, paid_under(stripe_payment_id));
        },
        _ => {},
    }
}

/// Whatever is asked of the store, the subscription history loses nothing:
/// every row stays at its place, as the row of the payment that activated
/// it.
pub proof fn history_is_never_lost(store: StoreView, request: StorageRequestView)
    ensures
        ({
            let after = answer(store, request).0;
            &&& after.subscriptions.len() >= store.subscriptions.len()
            &&& forall|i: int|
                0 <= i < store.subscriptions.len() ==> (
                #[trigger] after.subscriptions[i]).stripe_payment_id
                    == store.subscriptions[i].stripe_payment_id
        }),
{
    match request {
        StorageRequestView::UpdateSubscription { subscription } => {
            first_index_is_first(
                store.subscriptions,
                activated_under(subscription.stripe_payment_id),
            );
        },
        _ => {},
    }
}

/// Once a payment has moved a user's subscription, the user has a row in
/// the history, active or not.
pub proof fn a_payer_has_a_row(rows: Seq<UserSubscriptionView>, payment: PaymentView)
    ensures
        exists|i: int|
            0 <= i < after_payment(rows, payment).len() && (#[trigger] after_payment(
                rows,
                payment,
            )[i]).user_id == payment.user_id,
{
    first_index_is_first(rows, active_for(payment.user_id));
    match first_index(rows, active_for(payment.user_id)) {
        Some(at) => {
            assert(after_payment(rows, payment)[at].user_id == payment.user_id);
        },
        None => {
            assert(after_payment(rows, payment)[rows.len() as int].user_id == payment.user_id);
        },
    }
}

/// A payment moves the subscription of its payer alone: a payer with an
/// active row has none afterwards, and a payer without has the row that the
/// payment activates. The rows of every other user stay as they are.
pub proof fn a_payment_moves_one_subscription(store: StoreView, payment: PaymentView)
    requires
        store.single_active(),
    ensures
        ({
            let rows = store.subscriptions;
            let after = after_payment(rows, payment);
            &&& forall|i: int|
                0 <= i < rows.len() && (#[trigger] rows[i]).user_id != payment.user_id
                    ==> after[i] == rows[i]
            &&& match first_match(rows, active_for(payment.user_id)) {
                Some(_) => first_match(after, active_for(payment.user_id)) is None,
                None => first_match(after, active_for(payment.user_id)) == Some(
                    activated_by(payment),
                ),
            }
        }),
{
    let rows = store.subscriptions;
    let after = after_payment(rows, payment);
    first_index_is_first(rows, active_for(payment.user_id));
    match first_index(rows, active_for(payment.user_id)) {
        Some(at) => {
            assert forall|i: int| 0 <= i < after.len() implies !active_for(payment.user_id)(
                #[trigger] after[i],
            ) by {
                if i != at {
                    assert(after[i] == rows[i]);
                    if active_for(payment.user_id)(rows[i]) {
                        assert(rows[at].is_active && rows[i].is_active);
                    }
                }
            }
            none_found(after, active_for(payment.user_id));
        },
        None => {
            first_after_push(rows, active_for(payment.user_id), activated_by(payment));
        },
    }
}

/// A checkout by a stored user who holds no active subscription and has
/// no customer yet, with a provider that opens the customer, lists a price
/// and opens a session with a page, returns that page. On the way the
/// customer is opened and remembered on the user, the product is priced in
/// the configured currency, and the session is opened for one unit of the
/// last price listed, to be paid once, with the configured redirects.
pub proof fn checkout_returns_the_hosted_page(
    world: World,
    settings: CheckoutSettingsView,
    user: UserView,
    product_id: Seq<char>,
    customer_id: Seq<char>,
    prices: Seq<PriceView>,
    session: CheckoutSessionView,
)
    requires
        world.store.active_subscription(user.id) is None,
        first_match(world.store.users, identified(user.id)) == Some(user),
        user.stripe_customer_id is None,
        (world.provider)(opening_for(user)) == (ProviderResponseView::Customer {
            id: customer_id,
            deleted: false,
        }),
        (world.provider)(
            ProviderRequestView::ListActivePrices { product_id, currency: settings.currency },
        ) == ProviderResponseView::Prices(prices),
        prices.len() > 0,
        (world.provider)(
            ProviderRequestView::CreateCheckoutSession {
                customer_id,
                price_id: prices.last().id,
                quantity: 1,
                mode: CheckoutMode::Payment,
                success_url: settings.success_url,
                cancel_url: settings.cancel_url,
            },
        ) == ProviderResponseView::CheckoutSession(session),
        session.url is Some,
    ensures
        ({
            let run = checkout(world, settings, user.id, product_id);
            &&& run.outcome == Some(Ok::<Seq<char>, ApiErrorView>(session.url.unwrap()))
            &&& run.asked == seq![
                RequestView::Storage(
                    StorageRequestView::FindActiveSubscription { user_id: user.id },
                ),
                RequestView::Storage(StorageRequestView::FindUserById { user_id: user.id }),
                creation_of(user),
                saving_of(user, customer_id),
                RequestView::Provider(
                    ProviderRequestView::ListActivePrices {
                        product_id,
                        currency: settings.currency,
                    },
                ),
                opening_of(settings, customer_id, prices.last().id),
            ]
            &&& first_match(run.world.store.users, identified(user.id)) == Some(
                UserView { stripe_customer_id: Some(customer_id), ..user },
            )
        }),
{
    reveal_with_fuel(drive, 8);
    let run = checkout(world, settings, user.id, product_id);
    let stored = UserView { stripe_customer_id: Some(customer_id), ..user };
    first_index_is_first(world.store.users, identified(user.id));
    let at = first_index(world.store.users, identified(user.id)).unwrap();
    first_found(world.store.users.update(at, stored), identified(user.id), at);
    assert(run.asked =~= seq![
        RequestView::Storage(StorageRequestView::FindActiveSubscription { user_id: user.id }),
        RequestView::Storage(StorageRequestView::FindUserById { user_id: user.id }),
        creation_of(user),
        saving_of(user, customer_id),
        RequestView::Provider(
            ProviderRequestView::ListActivePrices { product_id, currency: settings.currency },
        ),
        opening_of(settings, customer_id, prices.last().id),
    ]);
}

/// Signing in twice with the same data makes one user: the first sign-in
/// of an email that the store does not know creates the user, and the
/// second finds that user and writes nothing.
pub proof fn signing_in_again_finds_the_user(
    world: World,
    oauth_data: OAuthDataView,
    first_at: Timestamp,
    again_at: Timestamp,
)
    requires
        world.store.well_formed(),
        first_match(world.store.users, reached_at(oauth_data.email)) is None,
        highest_id(world.store.users) < i32::MAX,
    ensures
        ({
            let created = UserView {
                id: highest_id(world.store.users) + 1,
                ..signed_up(oauth_data, first_at)
            };
            let first = sign_in(world, oauth_data, first_at);
            let again = sign_in(first.world, oauth_data, again_at);
            &&& first.outcome == Some(Ok::<UserView, ApiErrorView>(created))
            &&& first.world.store.users == world.store.users.push(created)
            &&& again.outcome == first.outcome
            &&& again.world == first.world
            &&& again.asked == seq![
                RequestView::Storage(
                    StorageRequestView::FindUserByEmail { email: oauth_data.email },
                ),
            ]
        }),
{
    reveal_with_fuel(drive, 3);
    let created = UserView {
        id: highest_id(world.store.users) + 1,
        ..signed_up(oauth_data, first_at)
    };
    let first = sign_in(world, oauth_data, first_at);
    let again = sign_in(first.world, oauth_data, again_at);
    first_index_is_first(world.store.users, reached_at(oauth_data.email));
    first_after_push(world.store.users, reached_at(oauth_data.email), created);
    assert(world.store.users.push(created)[world.store.users.len() as int] == created);
    assert(again.asked =~= seq![
        RequestView::Storage(StorageRequestView::FindUserByEmail { email: oauth_data.email }),
    ]);
}

} // verus!
