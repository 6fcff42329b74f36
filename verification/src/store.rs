//! The store as the engine needs it: users, the payment ledger and the
//! subscription history, with the rules that hold between them.
//!
//! `StoreView` and `answer` say what any store has to do. `Store` does it in
//! memory.

use vstd::prelude::*;
use crate::payment::Payment;
use crate::payment::PaymentStatus;
use crate::payment::PaymentView;
use crate::protocol::Recorded;
use crate::protocol::StorageRequest;
use crate::protocol::StorageRequestView;
use crate::protocol::StorageResponse;
use crate::protocol::StorageResponseView;
use crate::search::first_after_push;
use crate::search::first_after_update;
use crate::search::first_found;
use crate::search::first_index;
use crate::search::first_index_is_first;
use crate::search::first_match;
use crate::search::none_found;
use crate::subscription::active_for;
use crate::subscription::UserSubscription;
use crate::subscription::UserSubscriptionView;
use crate::user::User;
use crate::user::UserView;
use crate::views::opt_view;
use crate::views::views;

verus! {

/// What a store holds: each table in the order in which its rows came.
pub struct StoreView {
    pub users: Seq<UserView>,
    pub payments: Seq<PaymentView>,
    pub subscriptions: Seq<UserSubscriptionView>,
}

/// The users with the given identifier.
pub open spec fn identified(user_id: int) -> spec_fn(UserView) -> bool {
    |user: UserView| user.id == user_id
}

/// The users known to the provider as the given customer.
pub open spec fn known_as(customer_id: Seq<char>) -> spec_fn(UserView) -> bool {
    |user: UserView| user.stripe_customer_id == Some(customer_id)
}

/// The users with the given email.
pub open spec fn reached_at(email: Seq<char>) -> spec_fn(UserView) -> bool {
    |user: UserView| user.email == email
}

/// The payments with the given provider identifier.
pub open spec fn paid_under(payment_id: Seq<char>) -> spec_fn(PaymentView) -> bool {
    |payment: PaymentView| payment.stripe_payment_id == payment_id
}

/// The payments made by the given user.
pub open spec fn paid_by(user_id: int) -> spec_fn(PaymentView) -> bool {
    |payment: PaymentView| payment.user_id == user_id
}

/// The rows that the given payment activated.
pub open spec fn activated_under(payment_id: Seq<char>) -> spec_fn(UserSubscriptionView) -> bool {
    |row: UserSubscriptionView| row.stripe_payment_id == payment_id
}

impl StoreView {
    /// No two users share an identifier.
    pub open spec fn users_distinct(self) -> bool {
        forall|i: int, j: int|
            0 <= i < j < self.users.len() ==> (#[trigger] self.users[i]).id != (
            #[trigger] self.users[j]).id
    }

    /// No two payments share a provider identifier.
    pub open spec fn payments_distinct(self) -> bool {
        forall|i: int, j: int|
            0 <= i < j < self.payments.len() ==> (#[trigger] self.payments[i]).stripe_payment_id
                != (#[trigger] self.payments[j]).stripe_payment_id
    }

    /// No user has two active rows.
    pub open spec fn single_active(self) -> bool {
        forall|i: int, j: int|
            0 <= i < j < self.subscriptions.len() && (#[trigger] self.subscriptions[i]).is_active
                && (#[trigger] self.subscriptions[j]).is_active ==> self.subscriptions[i].user_id
                != self.subscriptions[j].user_id
    }

    /// No payment activated two rows.
    pub open spec fn rows_distinct(self) -> bool {
        forall|i: int, j: int|
            0 <= i < j < self.subscriptions.len() ==> (
            #[trigger] self.subscriptions[i]).stripe_payment_id != (
            #[trigger] self.subscriptions[j]).stripe_payment_id
    }

    /// Every row was activated by a payment in the ledger.
    pub open spec fn rows_paid(self) -> bool {
        forall|i: int|
            0 <= i < self.subscriptions.len() ==> first_index(
                self.payments,
                paid_under((#[trigger] self.subscriptions[i]).stripe_payment_id),
            ) is Some
    }

    /// The rules that hold of every store.
    pub open spec fn well_formed(self) -> bool {
        &&& self.users_distinct()
        &&& self.payments_distinct()
        &&& self.single_active()
        &&& self.rows_distinct()
        &&& self.rows_paid()
    }

    /// The user's one active subscription, if any.
    pub open spec fn active_subscription(self, user_id: int) -> Option<UserSubscriptionView> {
        first_match(self.subscriptions, active_for(user_id))
    }
}

/// The greatest identifier among the users, and zero where it is greater.
pub open spec fn highest_id(users: Seq<UserView>) -> int
    decreases users.len(),
{
    if users.len() == 0 {
        0
    } else {
        let rest = highest_id(users.drop_last());
        if users.last().id > rest {
            users.last().id
        } else {
            rest
        }
    }
}

/// Why a user cannot be created: no identifier is left.
pub open spec fn no_identifier_left() -> Seq<char> {
    "no user identifier is left"@
}

/// Why a row cannot be written: it is not there.
pub open spec fn no_rows_returned() -> Seq<char> {
    "no rows returned by a query that expected to return at least one row"@
}

/// Why a subscription cannot be written: its payment is not in the ledger.
pub open spec fn payment_unknown() -> Seq<char> {
    "the subscription's payment is not in the ledger"@
}

/// Why a subscription cannot be created: its payment activated one before.
pub open spec fn payment_spent() -> Seq<char> {
    "the payment has activated a subscription before"@
}

/// Why a subscription cannot be written as active: the user has another.
pub open spec fn already_active() -> Seq<char> {
    "the user has another active subscription"@
}

/// What creating a user does: the store gives it the identifier after the
/// highest one, unless that is out of range.
pub open spec fn create_user(store: StoreView, user: UserView) -> (StoreView, StorageResponseView) {
    if highest_id(store.users) >= i32::MAX {
        (store, StorageResponseView::Failed(no_identifier_left()))
    } else {
        let stored = UserView { id: highest_id(store.users) + 1, ..user };
        (
            StoreView { users: store.users.push(stored), ..store },
            StorageResponseView::UserStored(stored),
        )
    }
}

/// What updating a user does: the user with the same identifier is
/// overwritten; without one, nothing is.
pub open spec fn update_user(store: StoreView, user: UserView) -> (StoreView, StorageResponseView) {
    match first_index(store.users, identified(user.id)) {
        None => (store, StorageResponseView::Failed(no_rows_returned())),
        Some(i) => (
            StoreView { users: store.users.update(i, user), ..store },
            StorageResponseView::UserStored(user),
        ),
    }
}

/// What recording a payment does: it is appended unless its identifier is
/// in the ledger already, in which case the ledger stays as it is.
pub open spec fn record_payment(store: StoreView, payment: PaymentView) -> (
    StoreView,
    StorageResponseView,
) {
    if first_index(store.payments, paid_under(payment.stripe_payment_id)) is Some {
        (store, StorageResponseView::PaymentRecorded(Recorded::AlreadyExists))
    } else {
        (
            StoreView { payments: store.payments.push(payment), ..store },
            StorageResponseView::PaymentRecorded(Recorded::Created),
        )
    }
}

/// What updating a payment's status does: the payment under the identifier
/// gets the status, whatever status it had; without one, nothing changes.
pub open spec fn update_payment_status(
    store: StoreView,
    payment_id: Seq<char>,
    status: PaymentStatus,
) -> (StoreView, StorageResponseView) {
    match first_index(store.payments, paid_under(payment_id)) {
        None => (store, StorageResponseView::PaymentUpdated),
        Some(i) => (
            StoreView {
                payments: store.payments.update(
                    i,
                    PaymentView { payment_status: status, ..store.payments[i] },
                ),
                ..store
            },
            StorageResponseView::PaymentUpdated,
        ),
    }
}

/// What creating a subscription does: the row is appended, unless its
/// payment is unknown or has activated a row before, or the row is active
/// and the user has an active row already.
pub open spec fn create_subscription(store: StoreView, row: UserSubscriptionView) -> (
    StoreView,
    StorageResponseView,
) {
    if first_index(store.payments, paid_under(row.stripe_payment_id)) is None {
        (store, StorageResponseView::Failed(payment_unknown()))
    } else if first_index(store.subscriptions, activated_under(row.stripe_payment_id)) is Some {
        (store, StorageResponseView::Failed(payment_spent()))
    } else if row.is_active && first_index(store.subscriptions, active_for(row.user_id)) is Some {
        (store, StorageResponseView::Failed(already_active()))
    } else {
        (
            StoreView { subscriptions: store.subscriptions.push(row), ..store },
            StorageResponseView::SubscriptionStored(row),
        )
    }
}

/// What updating a subscription does: the row that the same payment
/// activated is overwritten, unless there is none, or the row would become
/// active beside another active row of its user.
pub open spec fn update_subscription(store: StoreView, row: UserSubscriptionView) -> (
    StoreView,
    StorageResponseView,
) {
    match first_index(store.subscriptions, activated_under(row.stripe_payment_id)) {
        None => (store, StorageResponseView::Failed(no_rows_returned())),
        Some(i) => {
            if row.is_active && exists|j: int|
                0 <= j < store.subscriptions.len() && j != i && active_for(row.user_id)(
                    #[trigger] store.subscriptions[j],
                ) {
                (store, StorageResponseView::Failed(already_active()))
            } else {
                (
                    StoreView { subscriptions: store.subscriptions.update(i, row), ..store },
                    StorageResponseView::SubscriptionStored(row),
                )
            }
        },
    }
}

/// What the store does on a request, and what it answers.
pub open spec fn answer(store: StoreView, request: StorageRequestView) -> (
    StoreView,
    StorageResponseView,
) {
    match request {
        StorageRequestView::FindUserById { user_id } => (
            store,
            StorageResponseView::User(first_match(store.users, identified(user_id))),
        ),
        StorageRequestView::FindUserByCustomerId { customer_id } => (
            store,
            StorageResponseView::User(first_match(store.users, known_as(customer_id))),
        ),
        StorageRequestView::FindUserByEmail { email } => (
            store,
            StorageResponseView::User(first_match(store.users, reached_at(email))),
        ),
        StorageRequestView::CreateUser { user } => create_user(store, user),
        StorageRequestView::UpdateUser { user } => update_user(store, user),
        StorageRequestView::FindActiveSubscription { user_id } => (
            store,
            StorageResponseView::Subscription(store.active_subscription(user_id)),
        ),
        StorageRequestView::CreateSubscription { subscription } => create_subscription(
            store,
            subscription,
        ),
        StorageRequestView::UpdateSubscription { subscription } => update_subscription(
            store,
            subscription,
        ),
        StorageRequestView::RecordPayment { payment } => record_payment(store, payment),
        StorageRequestView::UpdatePaymentStatus {
            stripe_payment_id,
            status,
        } => update_payment_status(store, stripe_payment_id, status),
        StorageRequestView::FindPaymentByUser { user_id } => (
            store,
            StorageResponseView::Payment(first_match(store.payments, paid_by(user_id))),
        ),
    }
}

/// Every user's identifier is at most the highest.
pub proof fn highest_id_bounds(users: Seq<UserView>)
    ensures
        highest_id(users) >= 0,
        forall|i: int| 0 <= i < users.len() ==> (#[trigger] users[i]).id <= highest_id(users),
    decreases users.len(),
{
    if users.len() > 0 {
        highest_id_bounds(users.drop_last());
        assert forall|i: int| 0 <= i < users.len() implies (#[trigger] users[i]).id <= highest_id(
            users,
        ) by {
            if i < users.len() - 1 {
                assert(users.drop_last()[i] == users[i]);
            }
        }
    }
}

/// Creating a user keeps the rules.
pub proof fn create_user_keeps_rules(store: StoreView, user: UserView)
    requires
        store.well_formed(),
    ensures
        create_user(store, user).0.well_formed(),
{
    highest_id_bounds(store.users);
}

/// Updating a user keeps the rules.
pub proof fn update_user_keeps_rules(store: StoreView, user: UserView)
    requires
        store.well_formed(),
    ensures
        update_user(store, user).0.well_formed(),
{
    first_index_is_first(store.users, identified(user.id));
}

/// Recording a payment keeps the rules.
pub proof fn record_payment_keeps_rules(store: StoreView, payment: PaymentView)
    requires
        store.well_formed(),
    ensures
        record_payment(store, payment).0.well_formed(),
{
    let after = record_payment(store, payment).0;
    first_index_is_first(store.payments, paid_under(payment.stripe_payment_id));
    assert forall|i: int| 0 <= i < after.subscriptions.len() implies first_index(
        after.payments,
        paid_under((#[trigger] after.subscriptions[i]).stripe_payment_id),
    ) is Some by {
        first_after_push(
            store.payments,
            paid_under(store.subscriptions[i].stripe_payment_id),
            payment,
        );
    }
}

/// Updating a payment's status keeps the rules.
pub proof fn update_payment_status_keeps_rules(
    store: StoreView,
    payment_id: Seq<char>,
    status: PaymentStatus,
)
    requires
        store.well_formed(),
    ensures
        update_payment_status(store, payment_id, status).0.well_formed(),
{
    let after = update_payment_status(store, payment_id, status).0;
    first_index_is_first(store.payments, paid_under(payment_id));
    match first_index(store.payments, paid_under(payment_id)) {
        None => {},
        Some(at) => {
            let put = PaymentView { payment_status: status, ..store.payments[at] };
            assert forall|i: int| 0 <= i < after.subscriptions.len() implies first_index(
                after.payments,
                paid_under((#[trigger] after.subscriptions[i]).stripe_payment_id),
            ) is Some by {
                first_after_update(
                    store.payments,
                    paid_under(store.subscriptions[i].stripe_payment_id),
                    at,
                    put,
                );
            }
        },
    }
}

/// Creating a subscription keeps the rules.
pub proof fn create_subscription_keeps_rules(store: StoreView, row: UserSubscriptionView)
    requires
        store.well_formed(),
    ensures
        create_subscription(store, row).0.well_formed(),
{
    first_index_is_first(store.subscriptions, activated_under(row.stripe_payment_id));
    first_index_is_first(store.subscriptions, active_for(row.user_id));
}

/// Updating a subscription keeps the rules.
pub proof fn update_subscription_keeps_rules(store: StoreView, row: UserSubscriptionView)
    requires
        store.well_formed(),
    ensures
        update_subscription(store, row).0.well_formed(),
{
    first_index_is_first(store.subscriptions, activated_under(row.stripe_payment_id));
}

/// Whatever is asked of a store that keeps the rules, it keeps them: no two
/// users share an identifier, no two payments share one, no user has two
/// active subscriptions, no payment activated two, and every subscription's
/// payment is in the ledger.
pub proof fn answer_keeps_rules(store: StoreView, request: StorageRequestView)
    requires
        store.well_formed(),
    ensures
        answer(store, request).0.well_formed(),
{
    match request {
        StorageRequestView::CreateUser { user } => create_user_keeps_rules(store, user),
        StorageRequestView::UpdateUser { user } => update_user_keeps_rules(store, user),
        StorageRequestView::CreateSubscription { subscription } => create_subscription_keeps_rules(
            store,
            subscription,
        ),
        StorageRequestView::UpdateSubscription { subscription } => update_subscription_keeps_rules(
            store,
            subscription,
        ),
        StorageRequestView::RecordPayment { payment } => record_payment_keeps_rules(store, payment),
        StorageRequestView::UpdatePaymentStatus {
            stripe_payment_id,
            status,
        } => update_payment_status_keeps_rules(store, stripe_payment_id, status),
        _ => {},
    }
}

/// A store in memory.
pub struct Store {
    users: Vec<User>,
    payments: Vec<Payment>,
    subscriptions: Vec<UserSubscription>,
}

impl View for Store {
    type V = StoreView;

    closed spec fn view(&self) -> StoreView {
        StoreView {
            users: views(self.users@),
            payments: views(self.payments@),
            subscriptions: views(self.subscriptions@),
        }
    }
}

/// The views of a list with one more item are the views with one more view.
proof fn views_after_push<T: View>(items: Seq<T>, added: T)
    ensures
        views(items.push(added)) == views(items).push(added@),
{
    assert(views(items.push(added)) =~= views(items).push(added@));
}

/// The views of a list with one item overwritten are the views with that
/// view overwritten.
proof fn views_after_update<T: View>(items: Seq<T>, at: int, put: T)
    requires
        0 <= at < items.len(),
    ensures
        views(items.update(at, put)) == views(items).update(at, put@),
{
    assert(views(items.update(at, put)) =~= views(items).update(at, put@));
}

impl Clone for Store {
    /// A copy that holds the same rows, to go back to when a unit of work
    /// is given up.
    fn clone(&self) -> (copy: Store)
        ensures
            copy@ == self@,
    {
        let mut users: Vec<User> = Vec::new();
        let mut i: usize = 0;
        while i < self.users.len()
            invariant
                i <= self.users.len(),
                views(users@) == views(self.users@).take(i as int),
            decreases self.users.len() - i,
        {
            proof {
                views_after_push(users@, self.users[i as int]);
                assert(views(self.users@).take(i + 1) =~= views(self.users@).take(i as int).push(
                    self.users[i as int]@,
                ));
            }
            users.push(self.users[i].clone());
            i += 1;
        }
        let mut payments: Vec<Payment> = Vec::new();
        let mut j: usize = 0;
        while j < self.payments.len()
            invariant
                j <= self.payments.len(),
                views(payments@) == views(self.payments@).take(j as int),
            decreases self.payments.len() - j,
        {
            proof {
                views_after_push(payments@, self.payments[j as int]);
                assert(views(self.payments@).take(j + 1) =~= views(self.payments@).take(
                    j as int,
                ).push(self.payments[j as int]@));
            }
            payments.push(self.payments[j].clone());
            j += 1;
        }
        let mut subscriptions: Vec<UserSubscription> = Vec::new();
        let mut k: usize = 0;
        while k < self.subscriptions.len()
            invariant
                k <= self.subscriptions.len(),
                views(subscriptions@) == views(self.subscriptions@).take(k as int),
            decreases self.subscriptions.len() - k,
        {
            proof {
                views_after_push(subscriptions@, self.subscriptions[k as int]);
                assert(views(self.subscriptions@).take(k + 1) =~= views(
                    self.subscriptions@,
                ).take(k as int).push(self.subscriptions[k as int]@));
            }
            subscriptions.push(self.subscriptions[k].clone());
            k += 1;
        }
        assert(views(self.users@).take(i as int) =~= views(self.users@));
        assert(views(self.payments@).take(j as int) =~= views(self.payments@));
        assert(views(self.subscriptions@).take(k as int) =~= views(self.subscriptions@));
        Store { users, payments, subscriptions }
    }
}

impl Store {
    /// An empty store.
    pub fn new() -> (store: Store)
        ensures
            store@ == (StoreView { users: seq![], payments: seq![], subscriptions: seq![] }),
            store@.well_formed(),
    {
        let store = Store { users: Vec::new(), payments: Vec::new(), subscriptions: Vec::new() };
        assert(store@.users =~= seq![]);
        assert(store@.payments =~= seq![]);
        assert(store@.subscriptions =~= seq![]);
        store
    }

    /// The users, in the order in which they came.
    pub fn users(&self) -> (users: &Vec<User>)
        ensures
            views(users@) == self@.users,
    {
        &self.users
    }

    /// The ledger, in the order in which the payments came.
    pub fn payments(&self) -> (payments: &Vec<Payment>)
        ensures
            views(payments@) == self@.payments,
    {
        &self.payments
    }

    /// The subscription history, in the order in which the rows came.
    pub fn subscriptions(&self) -> (rows: &Vec<UserSubscription>)
        ensures
            views(rows@) == self@.subscriptions,
    {
        &self.subscriptions
    }

    /// The place of the first user with the identifier.
    fn user_index(&self, user_id: i32) -> (found: Option<usize>)
        ensures
            found is Some ==> found.unwrap() < self.users.len(),
            match found {
                Some(i) => first_index(self@.users, identified(user_id as int)) == Some(i as int),
                None => first_index(self@.users, identified(user_id as int)) is None,
            },
    {
        let mut i: usize = 0;
        while i < self.users.len()
            invariant
                i <= self.users.len(),
                forall|j: int|
                    0 <= j < i ==> !identified(user_id as int)(#[trigger] self@.users[j]),
            decreases self.users.len() - i,
        {
            if self.users[i].id == user_id {
                proof {
                    first_found(self@.users, identified(user_id as int), i as int);
                }
                return Some(i);
            }
            i += 1;
        }
        proof {
            none_found(self@.users, identified(user_id as int));
        }
        None
    }

    /// The place of the first user known as the customer.
    fn customer_index(&self, customer_id: &String) -> (found: Option<usize>)
        ensures
            found is Some ==> found.unwrap() < self.users.len(),
            match found {
                Some(i) => first_index(self@.users, known_as(customer_id@)) == Some(i as int),
                None => first_index(self@.users, known_as(customer_id@)) is None,
            },
    {
        let mut i: usize = 0;
        while i < self.users.len()
            invariant
                i <= self.users.len(),
                forall|j: int| 0 <= j < i ==> !known_as(customer_id@)(#[trigger] self@.users[j]),
            decreases self.users.len() - i,
        {
            let known = match &self.users[i].stripe_customer_id {
                Some(id) => *id == *customer_id,
                None => false,
            };
            if known {
                proof {
                    first_found(self@.users, known_as(customer_id@), i as int);
                }
                return Some(i);
            }
            i += 1;
        }
        proof {
            none_found(self@.users, known_as(customer_id@));
        }
        None
    }

    /// The place of the first user with the email.
    fn email_index(&self, email: &String) -> (found: Option<usize>)
        ensures
            found is Some ==> found.unwrap() < self.users.len(),
            match found {
                Some(i) => first_index(self@.users, reached_at(email@)) == Some(i as int),
                None => first_index(self@.users, reached_at(email@)) is None,
            },
    {
        let mut i: usize = 0;
        while i < self.users.len()
            invariant
                i <= self.users.len(),
                forall|j: int| 0 <= j < i ==> !reached_at(email@)(#[trigger] self@.users[j]),
            decreases self.users.len() - i,
        {
            if self.users[i].email == *email {
                proof {
                    first_found(self@.users, reached_at(email@), i as int);
                }
                return Some(i);
            }
            i += 1;
        }
        proof {
            none_found(self@.users, reached_at(email@));
        }
        None
    }

    /// The place of the payment under the identifier.
    fn payment_index(&self, payment_id: &String) -> (found: Option<usize>)
        ensures
            found is Some ==> found.unwrap() < self.payments.len(),
            match found {
                Some(i) => first_index(self@.payments, paid_under(payment_id@)) == Some(i as int),
                None => first_index(self@.payments, paid_under(payment_id@)) is None,
            },
    {
        let mut i: usize = 0;
        while i < self.payments.len()
            invariant
                i <= self.payments.len(),
                forall|j: int|
                    0 <= j < i ==> !paid_under(payment_id@)(#[trigger] self@.payments[j]),
            decreases self.payments.len() - i,
        {
            if self.payments[i].stripe_payment_id == *payment_id {
                proof {
                    first_found(self@.payments, paid_under(payment_id@), i as int);
                }
                return Some(i);
            }
            i += 1;
        }
        proof {
            none_found(self@.payments, paid_under(payment_id@));
        }
        None
    }

    /// The place of the user's first payment.
    fn payer_index(&self, user_id: i32) -> (found: Option<usize>)
        ensures
            found is Some ==> found.unwrap() < self.payments.len(),
            match found {
                Some(i) => first_index(self@.payments, paid_by(user_id as int)) == Some(i as int),
                None => first_index(self@.payments, paid_by(user_id as int)) is None,
            },
    {
        let mut i: usize = 0;
        while i < self.payments.len()
            invariant
                i <= self.payments.len(),
                forall|j: int|
                    0 <= j < i ==> !paid_by(user_id as int)(#[trigger] self@.payments[j]),
            decreases self.payments.len() - i,
        {
            if self.payments[i].user_id == user_id {
                proof {
                    first_found(self@.payments, paid_by(user_id as int), i as int);
                }
                return Some(i);
            }
            i += 1;
        }
        proof {
            none_found(self@.payments, paid_by(user_id as int));
        }
        None
    }

    /// The place of the user's first active row.
    fn active_index(&self, user_id: i32) -> (found: Option<usize>)
        ensures
            found is Some ==> found.unwrap() < self.subscriptions.len(),
            match found {
                Some(i) => first_index(self@.subscriptions, active_for(user_id as int)) == Some(
                    i as int,
                ),
                None => first_index(self@.subscriptions, active_for(user_id as int)) is None,
            },
    {
        let mut i: usize = 0;
        while i < self.subscriptions.len()
            invariant
                i <= self.subscriptions.len(),
                forall|j: int|
                    0 <= j < i ==> !active_for(user_id as int)(#[trigger] self@.subscriptions[j]),
            decreases self.subscriptions.len() - i,
        {
            if self.subscriptions[i].user_id == user_id && self.subscriptions[i].is_active {
                proof {
                    first_found(self@.subscriptions, active_for(user_id as int), i as int);
                }
                return Some(i);
            }
            i += 1;
        }
        proof {
            none_found(self@.subscriptions, active_for(user_id as int));
        }
        None
    }

    /// The place of the row that the payment activated.
    fn row_index(&self, payment_id: &String) -> (found: Option<usize>)
        ensures
            found is Some ==> found.unwrap() < self.subscriptions.len(),
            match found {
                Some(i) => first_index(self@.subscriptions, activated_under(payment_id@)) == Some(
                    i as int,
                ),
                None => first_index(self@.subscriptions, activated_under(payment_id@)) is None,
            },
    {
        let mut i: usize = 0;
        while i < self.subscriptions.len()
            invariant
                i <= self.subscriptions.len(),
                forall|j: int|
                    0 <= j < i ==> !activated_under(payment_id@)(
                        #[trigger] self@.subscriptions[j],
                    ),
            decreases self.subscriptions.len() - i,
        {
            if self.subscriptions[i].stripe_payment_id == *payment_id {
                proof {
                    first_found(self@.subscriptions, activated_under(payment_id@), i as int);
                }
                return Some(i);
            }
            i += 1;
        }
        proof {
            none_found(self@.subscriptions, activated_under(payment_id@));
        }
        None
    }

    /// The first user with the identifier.
    pub fn get_user_by_id(&self, user_id: i32) -> (user: Option<User>)
        ensures
            opt_view(user) == first_match(self@.users, identified(user_id as int)),
    {
        match self.user_index(user_id) {
            Some(i) => Some(self.users[i].clone()),
            None => None,
        }
    }

    /// The first user known to the provider as the customer.
    pub fn get_user_by_customer_id(&self, customer_id: &String) -> (user: Option<User>)
        ensures
            opt_view(user) == first_match(self@.users, known_as(customer_id@)),
    {
        match self.customer_index(customer_id) {
            Some(i) => Some(self.users[i].clone()),
            None => None,
        }
    }

    /// The first user with the email.
    pub fn get_user_by_email(&self, email: &String) -> (user: Option<User>)
        ensures
            opt_view(user) == first_match(self@.users, reached_at(email@)),
    {
        match self.email_index(email) {
            Some(i) => Some(self.users[i].clone()),
            None => None,
        }
    }

    /// The user's active subscription.
    pub fn get_subscription_by_user(&self, user_id: i32) -> (row: Option<UserSubscription>)
        ensures
            opt_view(row) == self@.active_subscription(user_id as int),
    {
        match self.active_index(user_id) {
            Some(i) => Some(self.subscriptions[i].clone()),
            None => None,
        }
    }

    /// The user's first payment.
    pub fn get_payment_by_user(&self, user_id: i32) -> (payment: Option<Payment>)
        ensures
            opt_view(payment) == first_match(self@.payments, paid_by(user_id as int)),
    {
        match self.payer_index(user_id) {
            Some(i) => Some(self.payments[i].clone()),
            None => None,
        }
    }

    /// The greatest identifier among the users.
    fn highest_user_id(&self) -> (highest: i32)
        ensures
            highest == highest_id(self@.users),
    {
        let mut highest: i32 = 0;
        let mut i: usize = 0;
        assert(self@.users.take(0) =~= seq![]);
        while i < self.users.len()
            invariant
                i <= self.users.len(),
                highest == highest_id(self@.users.take(i as int)),
            decreases self.users.len() - i,
        {
            assert(self@.users.take(i + 1).drop_last() =~= self@.users.take(i as int));
            if self.users[i].id > highest {
                highest = self.users[i].id;
            }
            i += 1;
        }
        assert(self@.users.take(i as int) =~= self@.users);
        highest
    }

    /// Stores a new user under the identifier after the highest one.
    pub fn create_user(&mut self, user: User) -> (response: StorageResponse)
        requires
            old(self)@.well_formed(),
        ensures
            (final(self)@, response@) == create_user(old(self)@, user@),
            final(self)@.well_formed(),
    {
        proof {
            create_user_keeps_rules(self@, user@);
        }
        let highest = self.highest_user_id();
        if highest == i32::MAX {
            StorageResponse::Failed(String::from_str("no user identifier is left"))
        } else {
            let mut stored = user;
            stored.id = highest + 1;
            let response = StorageResponse::UserStored(stored.clone());
            proof {
                views_after_push(self.users@, stored);
            }
            self.users.push(stored);
            response
        }
    }

    /// Overwrites the user with the same identifier.
    pub fn update_user(&mut self, user: User) -> (response: StorageResponse)
        requires
            old(self)@.well_formed(),
        ensures
            (final(self)@, response@) == update_user(old(self)@, user@),
            final(self)@.well_formed(),
    {
        proof {
            update_user_keeps_rules(self@, user@);
        }
        match self.user_index(user.id) {
            None => StorageResponse::Failed(
                String::from_str(
                    "no rows returned by a query that expected to return at least one row",
                ),
            ),
            Some(i) => {
                let response = StorageResponse::UserStored(user.clone());
                proof {
                    views_after_update(self.users@, i as int, user);
                }
                self.users.set(i, user);
                response
            },
        }
    }

    /// Records the payment unless one with its identifier is there already.
    pub fn record_if_absent(&mut self, payment: Payment) -> (recorded: Recorded)
        requires
            old(self)@.well_formed(),
        ensures
            (final(self)@, StorageResponseView::PaymentRecorded(recorded)) == record_payment(
                old(self)@,
                payment@,
            ),
            final(self)@.well_formed(),
    {
        proof {
            record_payment_keeps_rules(self@, payment@);
        }
        match self.payment_index(&payment.stripe_payment_id) {
            Some(_) => Recorded::AlreadyExists,
            None => {
                proof {
                    views_after_push(self.payments@, payment);
                }
                self.payments.push(payment);
                Recorded::Created
            },
        }
    }

    /// Gives the payment under the identifier the status, whatever status
    /// it had.
    pub fn update_payment_status(&mut self, stripe_payment_id: &String, status: PaymentStatus)
        requires
            old(self)@.well_formed(),
        ensures
            (final(self)@, StorageResponseView::PaymentUpdated) == update_payment_status(
                old(self)@,
                stripe_payment_id@,
                status,
            ),
            final(self)@.well_formed(),
    {
        proof {
            update_payment_status_keeps_rules(self@, stripe_payment_id@, status);
        }
        match self.payment_index(stripe_payment_id) {
            None => {},
            Some(i) => {
                let changed = self.payments[i].clone().with_status(status);
                proof {
                    views_after_update(self.payments@, i as int, changed);
                }
                self.payments.set(i, changed);
            },
        }
    }

    /// Appends the row, if the rules allow it.
    pub fn create_subscription(&mut self, row: UserSubscription) -> (response: StorageResponse)
        requires
            old(self)@.well_formed(),
        ensures
            (final(self)@, response@) == create_subscription(old(self)@, row@),
            final(self)@.well_formed(),
    {
        proof {
            create_subscription_keeps_rules(self@, row@);
        }
        if self.payment_index(&row.stripe_payment_id).is_none() {
            StorageResponse::Failed(
                String::from_str("the subscription's payment is not in the ledger"),
            )
        } else if self.row_index(&row.stripe_payment_id).is_some() {
            StorageResponse::Failed(
                String::from_str("the payment has activated a subscription before"),
            )
        } else if row.is_active && self.active_index(row.user_id).is_some() {
            StorageResponse::Failed(String::from_str("the user has another active subscription"))
        } else {
            let response = StorageResponse::SubscriptionStored(row.clone());
            proof {
                views_after_push(self.subscriptions@, row);
            }
            self.subscriptions.push(row);
            response
        }
    }

    /// Whether the user has an active row at another place than `at`.
    fn active_elsewhere(&self, user_id: i32, at: usize) -> (elsewhere: bool)
        ensures
            elsewhere == exists|j: int|
                0 <= j < self@.subscriptions.len() && j != at && active_for(user_id as int)(
                    #[trigger] self@.subscriptions[j],
                ),
    {
        let mut i: usize = 0;
        while i < self.subscriptions.len()
            invariant
                i <= self.subscriptions.len(),
                forall|j: int|
                    0 <= j < i && j != at ==> !active_for(user_id as int)(
                        #[trigger] self@.subscriptions[j],
                    ),
            decreases self.subscriptions.len() - i,
        {
            if i != at && self.subscriptions[i].user_id == user_id
                && self.subscriptions[i].is_active {
                assert(active_for(user_id as int)(self@.subscriptions[i as int]));
                return true;
            }
            i += 1;
        }
        false
    }

    /// Overwrites the row that the same payment activated, if the rules
    /// allow it.
    pub fn update_subscription(&mut self, row: UserSubscription) -> (response: StorageResponse)
        requires
            old(self)@.well_formed(),
        ensures
            (final(self)@, response@) == update_subscription(old(self)@, row@),
            final(self)@.well_formed(),
    {
        proof {
            update_subscription_keeps_rules(self@, row@);
        }
        match self.row_index(&row.stripe_payment_id) {
            None => StorageResponse::Failed(
                String::from_str(
                    "no rows returned by a query that expected to return at least one row",
                ),
            ),
            Some(i) => {
                if row.is_active && self.active_elsewhere(row.user_id, i) {
                    StorageResponse::Failed(
                        String::from_str("the user has another active subscription"),
                    )
                } else {
                    let response = StorageResponse::SubscriptionStored(row.clone());
                    proof {
                        views_after_update(self.subscriptions@, i as int, row);
                    }
                    self.subscriptions.set(i, row);
                    response
                }
            },
        }
    }

    /// Does what is asked, and answers.
    pub fn execute(&mut self, request: StorageRequest) -> (response: StorageResponse)
        requires
            old(self)@.well_formed(),
        ensures
            (final(self)@, response@) == answer(old(self)@, request@),
            final(self)@.well_formed(),
    {
        match request {
            StorageRequest::FindUserById { user_id } => StorageResponse::User(
                self.get_user_by_id(user_id),
            ),
            StorageRequest::FindUserByCustomerId { customer_id } => StorageResponse::User(
                self.get_user_by_customer_id(&customer_id),
            ),
            StorageRequest::FindUserByEmail { email } => StorageResponse::User(
                self.get_user_by_email(&email),
            ),
            StorageRequest::CreateUser { user } => self.create_user(user),
            StorageRequest::UpdateUser { user } => self.update_user(user),
            StorageRequest::FindActiveSubscription { user_id } => StorageResponse::Subscription(
                self.get_subscription_by_user(user_id),
            ),
            StorageRequest::CreateSubscription { subscription } => self.create_subscription(
                subscription,
            ),
            StorageRequest::UpdateSubscription { subscription } => self.update_subscription(
                subscription,
            ),
            StorageRequest::RecordPayment { payment } => StorageResponse::PaymentRecorded(
                self.record_if_absent(payment),
            ),
            StorageRequest::UpdatePaymentStatus { stripe_payment_id, status } => {
                self.update_payment_status(&stripe_payment_id, status);
                StorageResponse::PaymentUpdated
            },
            StorageRequest::FindPaymentByUser { user_id } => StorageResponse::Payment(
                self.get_payment_by_user(user_id),
            ),
        }
    }
}

} // verus!
