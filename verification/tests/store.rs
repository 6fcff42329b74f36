use billing_core::clock::Timestamp;
use billing_core::payment::Payment;
use billing_core::payment::PaymentStatus;
use billing_core::protocol::Recorded;
use billing_core::protocol::StorageRequest;
use billing_core::protocol::StorageResponse;
use billing_core::store::Store;
use billing_core::subscription::UserSubscription;
use billing_core::user::User;

fn user(email: &str, customer: Option<&str>) -> User {
    User {
        id: 0,
        name: String::from("Ada"),
        email: String::from(email),
        image_url: None,
        oauth_provider: String::from("google"),
        oauth_id: String::from("g-1"),
        stripe_customer_id: customer.map(String::from),
        oauth_refresh_token: String::from("rt"),
        created_at: Timestamp { micros: 1 },
    }
}

fn payment(id: &str, user_id: i32, product: &str) -> Payment {
    Payment::dated(user_id, id, product, Timestamp { micros: 10 })
        .with_status(PaymentStatus::Successful)
}

fn row(user_id: i32, product: &str, payment_id: &str, active: bool) -> UserSubscription {
    UserSubscription {
        user_id,
        stripe_product_id: String::from(product),
        stripe_payment_id: String::from(payment_id),
        subscription_date: Timestamp { micros: 10 },
        is_active: active,
    }
}

fn failed(reason: &str) -> StorageResponse {
    StorageResponse::Failed(String::from(reason))
}

#[test]
fn a_new_store_is_empty() {
    let store = Store::new();
    assert!(store.users().is_empty());
    assert!(store.payments().is_empty());
    assert!(store.subscriptions().is_empty());
    assert_eq!(store.get_user_by_id(1), None);
    assert_eq!(store.get_subscription_by_user(1), None);
    assert_eq!(store.get_payment_by_user(1), None);
}

#[test]
fn users_are_numbered_from_one() {
    let mut store = Store::new();
    let first = store.create_user(user("a@example.com", None));
    assert_eq!(first, StorageResponse::UserStored(User { id: 1, ..user("a@example.com", None) }));
    let second = store.create_user(User { id: 40, ..user("b@example.com", Some("cus_b")) });
    assert_eq!(
        second,
        StorageResponse::UserStored(User { id: 2, ..user("b@example.com", Some("cus_b")) })
    );
    assert_eq!(store.users().len(), 2);
    assert_eq!(store.get_user_by_id(2).expect("a user").email, "b@example.com");
    assert_eq!(store.get_user_by_id(3), None);
    assert_eq!(
        store.get_user_by_email(&String::from("a@example.com")).expect("a user").id,
        1
    );
    assert_eq!(store.get_user_by_email(&String::from("c@example.com")), None);
    assert_eq!(
        store.get_user_by_customer_id(&String::from("cus_b")).expect("a user").id,
        2
    );
    assert_eq!(store.get_user_by_customer_id(&String::from("cus_a")), None);
}

#[test]
fn the_first_of_several_users_is_found() {
    let mut store = Store::new();
    store.create_user(user("same@example.com", Some("cus_x")));
    store.create_user(user("same@example.com", Some("cus_x")));
    assert_eq!(
        store.get_user_by_email(&String::from("same@example.com")).expect("a user").id,
        1
    );
    assert_eq!(
        store.get_user_by_customer_id(&String::from("cus_x")).expect("a user").id,
        1
    );
}

#[test]
fn a_user_is_overwritten_by_identifier() {
    let mut store = Store::new();
    store.create_user(user("a@example.com", None));
    store.create_user(user("b@example.com", None));
    let changed = User { id: 2, ..user("b2@example.com", Some("cus_2")) };
    assert_eq!(store.update_user(changed.clone()), StorageResponse::UserStored(changed.clone()));
    assert_eq!(store.get_user_by_id(2), Some(changed));
    assert_eq!(store.get_user_by_id(1).expect("a user").email, "a@example.com");
    assert_eq!(store.users().len(), 2);
    assert_eq!(
        store.update_user(User { id: 9, ..user("x@example.com", None) }),
        failed("no rows returned by a query that expected to return at least one row")
    );
    assert_eq!(store.users().len(), 2);
}

#[test]
fn a_payment_is_recorded_once() {
    let mut store = Store::new();
    assert_eq!(store.record_if_absent(payment("pi_1", 1, "prod_P")), Recorded::Created);
    assert_eq!(store.record_if_absent(payment("pi_1", 1, "prod_P")), Recorded::AlreadyExists);
    assert_eq!(store.record_if_absent(payment("pi_1", 2, "prod_Q")), Recorded::AlreadyExists);
    assert_eq!(store.payments().len(), 1);
    assert_eq!(store.payments()[0], payment("pi_1", 1, "prod_P"));
    assert_eq!(store.record_if_absent(payment("pi_2", 1, "prod_P")), Recorded::Created);
    assert_eq!(store.payments().len(), 2);
    assert_eq!(store.get_payment_by_user(1), Some(payment("pi_1", 1, "prod_P")));
    assert_eq!(store.get_payment_by_user(2), None);
}

#[test]
fn any_status_overwrites_any_other() {
    let mut store = Store::new();
    store.record_if_absent(payment("pi_1", 1, "prod_P"));
    store.record_if_absent(payment("pi_2", 1, "prod_P"));
    for status in [
        PaymentStatus::Failed,
        PaymentStatus::Pending,
        PaymentStatus::Denied,
        PaymentStatus::Successful,
        PaymentStatus::Successful,
        PaymentStatus::Pending,
    ] {
        store.update_payment_status(&String::from("pi_2"), status);
        assert_eq!(store.payments()[1], payment("pi_2", 1, "prod_P").with_status(status));
        assert_eq!(store.payments()[0], payment("pi_1", 1, "prod_P"));
    }
    store.update_payment_status(&String::from("pi_3"), PaymentStatus::Failed);
    assert_eq!(store.payments().len(), 2);
    assert_eq!(store.payments()[0], payment("pi_1", 1, "prod_P"));
}

#[test]
fn a_subscription_needs_its_payment() {
    let mut store = Store::new();
    assert_eq!(
        store.create_subscription(row(1, "prod_P", "pi_1", true)),
        failed("the subscription's payment is not in the ledger")
    );
    assert!(store.subscriptions().is_empty());
    store.record_if_absent(payment("pi_1", 1, "prod_P"));
    assert_eq!(
        store.create_subscription(row(1, "prod_P", "pi_1", true)),
        StorageResponse::SubscriptionStored(row(1, "prod_P", "pi_1", true))
    );
    assert_eq!(store.get_subscription_by_user(1), Some(row(1, "prod_P", "pi_1", true)));
    assert_eq!(store.get_subscription_by_user(2), None);
}

#[test]
fn a_payment_activates_one_row_only() {
    let mut store = Store::new();
    store.record_if_absent(payment("pi_1", 1, "prod_P"));
    store.create_subscription(row(1, "prod_P", "pi_1", false));
    assert_eq!(
        store.create_subscription(row(1, "prod_P", "pi_1", true)),
        failed("the payment has activated a subscription before")
    );
    assert_eq!(store.subscriptions().len(), 1);
}

#[test]
fn a_user_has_one_active_row_at_most() {
    let mut store = Store::new();
    store.record_if_absent(payment("pi_1", 1, "prod_P"));
    store.record_if_absent(payment("pi_2", 1, "prod_Q"));
    store.record_if_absent(payment("pi_3", 2, "prod_P"));
    store.create_subscription(row(1, "prod_P", "pi_1", true));
    assert_eq!(
        store.create_subscription(row(1, "prod_Q", "pi_2", true)),
        failed("the user has another active subscription")
    );
    assert_eq!(
        store.create_subscription(row(2, "prod_P", "pi_3", true)),
        StorageResponse::SubscriptionStored(row(2, "prod_P", "pi_3", true))
    );
    assert_eq!(
        store.create_subscription(row(1, "prod_Q", "pi_2", false)),
        StorageResponse::SubscriptionStored(row(1, "prod_Q", "pi_2", false))
    );
    assert_eq!(
        store.update_subscription(row(1, "prod_Q", "pi_2", true)),
        failed("the user has another active subscription")
    );
    assert_eq!(store.subscriptions()[2], row(1, "prod_Q", "pi_2", false));
    assert_eq!(
        store.update_subscription(row(1, "prod_P", "pi_1", false)),
        StorageResponse::SubscriptionStored(row(1, "prod_P", "pi_1", false))
    );
    assert_eq!(store.get_subscription_by_user(1), None);
    assert_eq!(
        store.update_subscription(row(1, "prod_Q", "pi_2", true)),
        StorageResponse::SubscriptionStored(row(1, "prod_Q", "pi_2", true))
    );
    assert_eq!(store.get_subscription_by_user(1), Some(row(1, "prod_Q", "pi_2", true)));
    let active = store.subscriptions().iter().filter(|r| r.user_id == 1 && r.is_active).count();
    assert_eq!(active, 1);
}

#[test]
fn an_active_row_may_be_written_again() {
    let mut store = Store::new();
    store.record_if_absent(payment("pi_1", 1, "prod_P"));
    store.create_subscription(row(1, "prod_P", "pi_1", true));
    assert_eq!(
        store.update_subscription(row(1, "prod_P", "pi_1", true)),
        StorageResponse::SubscriptionStored(row(1, "prod_P", "pi_1", true))
    );
    assert_eq!(
        store.update_subscription(row(1, "prod_P", "pi_9", false)),
        failed("no rows returned by a query that expected to return at least one row")
    );
    assert_eq!(store.subscriptions().len(), 1);
}

#[test]
fn requests_are_answered_as_the_methods_answer() {
    let mut store = Store::new();
    let stored = User { id: 1, ..user("a@example.com", Some("cus_a")) };
    assert_eq!(
        store.execute(StorageRequest::CreateUser { user: user("a@example.com", Some("cus_a")) }),
        StorageResponse::UserStored(stored.clone())
    );
    assert_eq!(
        store.execute(StorageRequest::FindUserById { user_id: 1 }),
        StorageResponse::User(Some(stored.clone()))
    );
    assert_eq!(
        store.execute(StorageRequest::FindUserByCustomerId { customer_id: String::from("cus_a") }),
        StorageResponse::User(Some(stored.clone()))
    );
    assert_eq!(
        store.execute(StorageRequest::FindUserByEmail { email: String::from("b@example.com") }),
        StorageResponse::User(None)
    );
    let renamed = User { name: String::from("Grace"), ..stored.clone() };
    assert_eq!(
        store.execute(StorageRequest::UpdateUser { user: renamed.clone() }),
        StorageResponse::UserStored(renamed)
    );
    assert_eq!(
        store.execute(StorageRequest::RecordPayment { payment: payment("pi_1", 1, "prod_P") }),
        StorageResponse::PaymentRecorded(Recorded::Created)
    );
    assert_eq!(
        store.execute(StorageRequest::RecordPayment { payment: payment("pi_1", 1, "prod_P") }),
        StorageResponse::PaymentRecorded(Recorded::AlreadyExists)
    );
    assert_eq!(
        store.execute(StorageRequest::FindActiveSubscription { user_id: 1 }),
        StorageResponse::Subscription(None)
    );
    assert_eq!(
        store.execute(StorageRequest::CreateSubscription {
            subscription: row(1, "prod_P", "pi_1", true)
        }),
        StorageResponse::SubscriptionStored(row(1, "prod_P", "pi_1", true))
    );
    assert_eq!(
        store.execute(StorageRequest::FindActiveSubscription { user_id: 1 }),
        StorageResponse::Subscription(Some(row(1, "prod_P", "pi_1", true)))
    );
    assert_eq!(
        store.execute(StorageRequest::UpdateSubscription {
            subscription: row(1, "prod_P", "pi_1", false)
        }),
        StorageResponse::SubscriptionStored(row(1, "prod_P", "pi_1", false))
    );
    assert_eq!(
        store.execute(StorageRequest::UpdatePaymentStatus {
            stripe_payment_id: String::from("pi_1"),
            status: PaymentStatus::Denied,
        }),
        StorageResponse::PaymentUpdated
    );
    assert_eq!(
        store.execute(StorageRequest::FindPaymentByUser { user_id: 1 }),
        StorageResponse::Payment(Some(
            payment("pi_1", 1, "prod_P").with_status(PaymentStatus::Denied)
        ))
    );
}
