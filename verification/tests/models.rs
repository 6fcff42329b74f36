use billing_core::auth::OAuthData;
use billing_core::auth::OAuthProviderType;
use billing_core::clock::Timestamp;
use billing_core::payment::payment_status;
use billing_core::payment::Payment;
use billing_core::payment::PaymentError;
use billing_core::payment::PaymentStatus;
use billing_core::subscription::UserSubscription;
use billing_core::tier::Subscription;
use billing_core::tier::Tier;
use billing_core::user::User;

fn oauth_data() -> OAuthData {
    OAuthData {
        provider: OAuthProviderType::Google,
        user_identifier: String::from("1234"),
        name: String::from("Ada"),
        email: String::from("ada@example.com"),
        refresh_token: String::from("rt-1"),
        image_url: Some(String::from("https://example.com/ada.png")),
    }
}

#[test]
fn new_tier_has_no_identifier_yet() {
    let tier = Tier::new(1999);
    assert_eq!(tier.id, 0);
    assert_eq!(tier.price, 1999);
}

#[test]
fn the_clock_is_past_the_epoch() {
    let now = Timestamp::now();
    assert!(now.micros > 1_600_000_000_000_000);
    assert_eq!(now.seconds(), now.micros / 1_000_000);
}

#[test]
fn seconds_round_towards_the_past() {
    assert_eq!(Timestamp { micros: 1_999_999 }.seconds(), 1);
    assert_eq!(Timestamp { micros: 2_000_000 }.seconds(), 2);
    assert_eq!(Timestamp { micros: 0 }.seconds(), 0);
    assert_eq!(Timestamp { micros: -1 }.seconds(), -1);
    assert_eq!(Timestamp { micros: -1_000_000 }.seconds(), -1);
    assert_eq!(Timestamp { micros: -1_000_001 }.seconds(), -2);
}

#[test]
fn status_names_are_read_back() {
    for status in [
        PaymentStatus::Pending,
        PaymentStatus::Successful,
        PaymentStatus::Failed,
        PaymentStatus::Denied,
    ] {
        assert_eq!(PaymentStatus::try_from(status.to_string()), Ok(status));
    }
    assert_eq!(PaymentStatus::Pending.to_string(), "pending");
    assert_eq!(PaymentStatus::Successful.to_string(), "successful");
    assert_eq!(PaymentStatus::Failed.to_string(), "failed");
    assert_eq!(PaymentStatus::Denied.into(), "denied");
}

#[test]
fn an_unknown_status_name_comes_back_in_the_error() {
    assert_eq!(
        PaymentStatus::try_from(String::from("Pending")),
        Err(PaymentError::InvalidPaymentStatus(String::from("Pending")))
    );
    assert_eq!(
        PaymentStatus::try_from(String::new()),
        Err(PaymentError::InvalidPaymentStatus(String::new()))
    );
}

#[test]
fn a_stored_status_that_is_unknown_counts_as_denied() {
    assert_eq!(PaymentStatus::from_stored("pending"), PaymentStatus::Pending);
    assert_eq!(PaymentStatus::from_stored("successful"), PaymentStatus::Successful);
    assert_eq!(PaymentStatus::from_stored("failed"), PaymentStatus::Failed);
    assert_eq!(PaymentStatus::from_stored("denied"), PaymentStatus::Denied);
    assert_eq!(PaymentStatus::from_stored("refunded"), PaymentStatus::Denied);
}

#[test]
fn a_new_payment_is_pending_and_dated_now() {
    let before = Timestamp::now();
    let payment = Payment::new(7, "pi_1", "prod_P");
    let after = Timestamp::now();
    assert_eq!(payment.stripe_payment_id, "pi_1");
    assert_eq!(payment.user_id, 7);
    assert_eq!(payment.stripe_product_id, "prod_P");
    assert_eq!(payment.payment_status, PaymentStatus::Pending);
    assert!(before.micros <= payment.payment_date.micros);
    assert!(payment.payment_date.micros <= after.micros);
}

#[test]
fn with_status_changes_the_status_alone() {
    let at = Timestamp { micros: 42 };
    let payment = Payment::dated(7, "pi_1", "prod_P", at).with_status(PaymentStatus::Successful);
    assert_eq!(
        payment,
        Payment {
            stripe_payment_id: String::from("pi_1"),
            user_id: 7,
            stripe_product_id: String::from("prod_P"),
            payment_date: at,
            payment_status: PaymentStatus::Successful,
        }
    );
    assert_eq!(payment.get_payment_status(), PaymentStatus::Successful);
    assert_eq!(payment.clone(), payment);
}

#[test]
fn the_status_of_no_payment_is_not_found() {
    let payment = Payment::dated(7, "pi_1", "prod_P", Timestamp { micros: 1 })
        .with_status(PaymentStatus::Failed);
    assert_eq!(payment_status(Some(payment)), Ok(PaymentStatus::Failed));
    assert_eq!(payment_status(None), Err(PaymentError::PaymentNotFound));
}

#[test]
fn a_new_subscription_is_active() {
    let at = Timestamp { micros: 5 };
    let row = UserSubscription::new(3, String::from("prod_P"), String::from("pi_9"), at);
    assert_eq!(
        row,
        UserSubscription {
            user_id: 3,
            stripe_product_id: String::from("prod_P"),
            stripe_payment_id: String::from("pi_9"),
            subscription_date: at,
            is_active: true,
        }
    );
    let inactive = row.clone().deactivate();
    assert!(!inactive.is_active);
    assert_eq!(inactive.stripe_payment_id, "pi_9");
    assert_eq!(inactive.stripe_product_id, "prod_P");
    assert_eq!(inactive.subscription_date, at);
}

#[test]
fn a_payment_activates_a_row_of_its_own() {
    let payment = Payment::dated(3, "pi_9", "prod_P", Timestamp { micros: 77 });
    assert_eq!(
        UserSubscription::for_payment(&payment),
        UserSubscription::new(
            3,
            String::from("prod_P"),
            String::from("pi_9"),
            Timestamp { micros: 77 }
        )
    );
}

#[test]
fn a_first_sign_in_makes_an_unstored_user() {
    let at = Timestamp { micros: 11 };
    let user = User::created(oauth_data(), at);
    assert_eq!(
        user,
        User {
            id: 0,
            name: String::from("Ada"),
            email: String::from("ada@example.com"),
            image_url: Some(String::from("https://example.com/ada.png")),
            oauth_provider: String::from("google"),
            oauth_id: String::from("1234"),
            stripe_customer_id: None,
            oauth_refresh_token: String::from("rt-1"),
            created_at: at,
        }
    );
    assert_eq!(user.clone(), user);
    let now = User::new(oauth_data());
    assert!(now.created_at.micros > 0);
    assert_eq!(now.id, 0);
    assert_eq!(now.stripe_customer_id, None);
}

#[test]
fn a_customer_and_a_token_are_set_alone() {
    let user = User::created(oauth_data(), Timestamp { micros: 11 });
    let known = user.clone().with_customer(String::from("cus_1"));
    assert_eq!(known.stripe_customer_id, Some(String::from("cus_1")));
    assert_eq!(User { stripe_customer_id: None, ..known.clone() }, user);
    let renewed = user.clone().with_refresh_token(String::from("rt-2"));
    assert_eq!(renewed.oauth_refresh_token, "rt-2");
    assert_eq!(User { oauth_refresh_token: String::from("rt-1"), ..renewed }, user);
}

#[test]
fn the_provider_is_stored_by_name() {
    assert_eq!(OAuthProviderType::Google.into(), "google");
}

#[test]
fn a_tier_subscription_starts_active_and_open_ended() {
    let at = Timestamp { micros: 3 };
    let subscription = Subscription::starting(4, 2, at);
    assert_eq!(
        subscription,
        Subscription { id: 0, user_id: 4, tier_id: 2, start_date: at, end_date: None, active: true }
    );
    let ended = subscription.with_end_date(Timestamp { micros: 9 });
    assert_eq!(
        ended,
        Subscription {
            id: 0,
            user_id: 4,
            tier_id: 2,
            start_date: at,
            end_date: Some(Timestamp { micros: 9 }),
            active: true,
        }
    );
    let now = Subscription::new(4, 2);
    assert!(now.start_date.micros > 0);
    assert_eq!(now.end_date, None);
    assert!(now.active);
    assert_eq!((now.id, now.user_id, now.tier_id), (0, 4, 2));
}
