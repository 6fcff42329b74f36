use billing_core::clock::Timestamp;
use billing_core::error::ApiError;
use billing_core::payment::PaymentError;
use billing_core::payment::Payment;
use billing_core::payment::PaymentStatus;
use billing_core::protocol::ProviderRequest;
use billing_core::protocol::ProviderResponse;
use billing_core::protocol::Request;
use billing_core::protocol::Response;
use billing_core::protocol::Step;
use billing_core::provider::CheckoutSession;
use billing_core::provider::LineItem;
use billing_core::provider::Price;
use billing_core::store::Store;
use billing_core::subscription::UserSubscription;
use billing_core::user::User;
use billing_core::webhook::header_times_are_short;
use billing_core::webhook::WebhookFlow;
use stripe_webhook::Webhook;

const SECRET: &str = "whsec_test_secret";

const SIGNED_AT: i64 = 1_700_000_000;

fn now() -> Timestamp {
    Timestamp { micros: SIGNED_AT * 1_000_000 + 42 }
}

fn completed_checkout() -> String {
    String::from(
        r#"{
  "id": "evt_1",
  "object": "event",
  "api_version": "2024-04-10",
  "created": 1700000000,
  "livemode": false,
  "pending_webhooks": 1,
  "request": null,
  "type": "checkout.session.completed",
  "data": {
    "object": {
      "id": "cs_test_a1",
      "object": "checkout.session",
      "automatic_tax": { "enabled": false, "liability": null, "provider": null, "status": null },
      "created": 1700000000,
      "custom_fields": [],
      "custom_text": {
        "after_submit": null,
        "shipping_address": null,
        "submit": null,
        "terms_of_service_acceptance": null
      },
      "customer": "cus_1",
      "expires_at": 1700086400,
      "livemode": false,
      "mode": "payment",
      "payment_intent": "pi_1",
      "payment_method_types": ["card"],
      "payment_status": "paid",
      "shipping_options": []
    }
  }
}"#,
    )
}

fn customer_created() -> String {
    String::from(
        r#"{
  "id": "evt_2",
  "object": "event",
  "api_version": "2024-04-10",
  "created": 1700000000,
  "livemode": false,
  "pending_webhooks": 1,
  "request": null,
  "type": "some.future.event",
  "data": { "object": { "id": "thing_1", "object": "thing" } }
}"#,
    )
}

fn rejected() -> Step<WebhookFlow, ()> {
    Step::Done(Err(ApiError::PaymentError(PaymentError::InvalidSignature)))
}

#[test]
fn a_signed_completed_checkout_has_its_session_fetched() {
    let payload = completed_checkout();
    let header = Webhook::generate_test_header(&payload, SECRET, Some(SIGNED_AT));
    match WebhookFlow::handle_webhook_at(payload.as_bytes(), Some(&header), SECRET, now()) {
        Step::Ask(flow, request) => {
            assert_eq!(flow, WebhookFlow::FetchingSession);
            assert_eq!(
                request,
                Request::Provider(ProviderRequest::RetrieveCheckoutSession {
                    session_id: String::from("cs_test_a1"),
                    expand: vec![
                        String::from("line_items"),
                        String::from("line_items.data.price.product"),
                        String::from("payment_intent"),
                    ],
                })
            );
        }
        Step::Done(result) => panic!("the delivery ended: {:?}", result),
    }
}

#[test]
fn a_tampered_body_is_rejected() {
    let payload = completed_checkout();
    let header = Webhook::generate_test_header(&payload, SECRET, Some(SIGNED_AT));
    let tampered = payload.replacen("cs_test_a1", "cs_test_a2", 1);
    assert_eq!(tampered.len(), payload.len());
    assert_eq!(WebhookFlow::handle_webhook_at(tampered.as_bytes(), Some(&header), SECRET, now()), rejected());
    let spaced = payload.replacen("\"evt_1\"", "\"evt_1\" ", 1);
    assert_eq!(WebhookFlow::handle_webhook_at(spaced.as_bytes(), Some(&header), SECRET, now()), rejected());
}

#[test]
fn a_signature_under_another_secret_is_rejected() {
    let payload = completed_checkout();
    let header = Webhook::generate_test_header(&payload, "whsec_other", Some(SIGNED_AT));
    assert_eq!(WebhookFlow::handle_webhook_at(payload.as_bytes(), Some(&header), SECRET, now()), rejected());
}

#[test]
fn a_header_that_is_no_signature_is_rejected() {
    let payload = completed_checkout();
    for header in ["", "nonsense", "t=1700000000", "v1=abcdef", "t=soon,v1=abcdef", "t=1,v1=zz"] {
        assert_eq!(WebhookFlow::handle_webhook_at(payload.as_bytes(), Some(header), SECRET, now()), rejected());
    }
}

#[test]
fn a_delivery_without_a_header_is_rejected() {
    let payload = completed_checkout();
    assert_eq!(WebhookFlow::handle_webhook_at(payload.as_bytes(), None, SECRET, now()), rejected());
    assert_eq!(WebhookFlow::handle_webhook(payload.as_bytes(), None, SECRET), rejected());
}

#[test]
fn a_body_that_is_no_text_is_rejected() {
    let payload = completed_checkout();
    let header = Webhook::generate_test_header(&payload, SECRET, Some(SIGNED_AT));
    let mut bytes = payload.into_bytes();
    bytes[10] = 0xff;
    assert_eq!(WebhookFlow::handle_webhook_at(&bytes, Some(&header), SECRET, now()), rejected());
    let short = [0xc3, 0x28];
    assert_eq!(WebhookFlow::handle_webhook_at(&short, Some(&header), SECRET, now()), rejected());
}

#[test]
fn a_body_may_hold_any_text() {
    let payload = completed_checkout().replacen("\"cus_1\"", "\"cus_\u{e9}t\u{e9}\"", 1);
    let header = Webhook::generate_test_header(&payload, SECRET, Some(SIGNED_AT));
    assert!(matches!(
        WebhookFlow::handle_webhook_at(payload.as_bytes(), Some(&header), SECRET, now()),
        Step::Ask(..)
    ));
}

#[test]
fn a_signature_is_good_for_five_minutes_either_way() {
    let payload = completed_checkout();
    let header = Webhook::generate_test_header(&payload, SECRET, Some(SIGNED_AT));
    for seconds in [SIGNED_AT - 300, SIGNED_AT - 1, SIGNED_AT, SIGNED_AT + 300] {
        let at = Timestamp { micros: seconds * 1_000_000 };
        assert!(matches!(
            WebhookFlow::handle_webhook_at(payload.as_bytes(), Some(&header), SECRET, at),
            Step::Ask(..)
        ));
    }
    for seconds in [SIGNED_AT - 301, SIGNED_AT + 301, 0, SIGNED_AT * 2] {
        let at = Timestamp { micros: seconds * 1_000_000 };
        assert_eq!(WebhookFlow::handle_webhook_at(payload.as_bytes(), Some(&header), SECRET, at), rejected());
    }
}

#[test]
fn a_delivery_signed_now_is_taken_now() {
    let payload = completed_checkout();
    let header = Webhook::generate_test_header(&payload, SECRET, None);
    assert!(matches!(WebhookFlow::handle_webhook(payload.as_bytes(), Some(&header), SECRET), Step::Ask(..)));
    let stale = Webhook::generate_test_header(&payload, SECRET, Some(SIGNED_AT));
    assert_eq!(WebhookFlow::handle_webhook(payload.as_bytes(), Some(&stale), SECRET), rejected());
}

#[test]
fn a_signed_event_of_another_kind_is_accepted_and_ignored() {
    let payload = customer_created();
    let header = Webhook::generate_test_header(&payload, SECRET, Some(SIGNED_AT));
    assert_eq!(
        WebhookFlow::handle_webhook_at(payload.as_bytes(), Some(&header), SECRET, now()),
        Step::Done(Ok(()))
    );
}

#[test]
fn a_signed_body_that_is_no_event_is_bad_input() {
    for payload in ["{}", "not json", "{\"id\": \"evt_1\"}", ""] {
        let header = Webhook::generate_test_header(payload, SECRET, Some(SIGNED_AT));
        match WebhookFlow::handle_webhook_at(payload.as_bytes(), Some(&header), SECRET, now()) {
            Step::Done(Err(ApiError::ValidationError(_))) => {}
            other => panic!("the body was taken: {:?}", other),
        }
    }
    let failure = ApiError::ValidationError(String::from("x"));
    assert_eq!(failure.status_code(), 400);
    assert!(!failure.is_retryable());
}

#[test]
fn an_overlong_time_of_signing_is_rejected_unseen() {
    let payload = completed_checkout();
    let good = Webhook::generate_test_header(&payload, SECRET, Some(SIGNED_AT));
    let far = Webhook::generate_test_header(&payload, SECRET, Some(i64::MIN));
    assert_eq!(WebhookFlow::handle_webhook_at(payload.as_bytes(), Some(&far), SECRET, now()), rejected());
    let far = Webhook::generate_test_header(&payload, SECRET, Some(i64::MAX));
    assert_eq!(WebhookFlow::handle_webhook_at(payload.as_bytes(), Some(&far), SECRET, now()), rejected());
    let twice = format!("{},t=-9223372036854775808", good);
    assert_eq!(WebhookFlow::handle_webhook_at(payload.as_bytes(), Some(&twice), SECRET, now()), rejected());
}

#[test]
fn times_of_signing_are_measured_item_by_item() {
    assert!(header_times_are_short(b""));
    assert!(header_times_are_short(b"t"));
    assert!(header_times_are_short(b"t="));
    assert!(header_times_are_short(b"t=1700000000,v1=abc"));
    assert!(header_times_are_short(b"t=123456789012345678"));
    assert!(!header_times_are_short(b"t=1234567890123456789"));
    assert!(header_times_are_short(b"t=123456789012345678,v1=abc"));
    assert!(!header_times_are_short(b"t=1234567890123456789,v1=abc"));
    assert!(header_times_are_short(b"v1=1234567890123456789012345678901234567890"));
    assert!(header_times_are_short(b"at=1234567890123456789012345678901234567890"));
    assert!(header_times_are_short(b"v1=abc,x=t=1234567890123456789012345"));
    assert!(!header_times_are_short(b"v1=abc,t=-9223372036854775808"));
    assert!(header_times_are_short(b"v1=abc,t=1,t=22"));
    assert!(!header_times_are_short(b"t=1,t=0000000000000000001"));
    assert!(header_times_are_short(b"tt=0000000000000000001"));
}

/// Handles a delivery against the store, with a provider that knows the one
/// session of the signed event. Says how it ended and how often the
/// provider was asked.
fn deliver(store: &mut Store, payload: &[u8], header: &str, at: Timestamp) -> (Result<(), ApiError>, usize) {
    let mut asked = 0;
    let mut step = WebhookFlow::handle_webhook_at(payload, Some(header), SECRET, at);
    loop {
        match step {
            Step::Done(result) => return (result, asked),
            Step::Ask(flow, Request::Storage(question)) => {
                step = flow.advance(Response::Storage(store.execute(question)), at)
            }
            Step::Ask(flow, Request::Provider(question)) => {
                asked += 1;
                let answer = match question {
                    ProviderRequest::RetrieveCheckoutSession { session_id, .. }
                        if session_id == "cs_test_a1" =>
                    {
                        ProviderResponse::CheckoutSession(CheckoutSession {
                            id: session_id,
                            url: None,
                            payment_intent: Some(String::from("pi_1")),
                            line_items: vec![LineItem {
                                price: Some(Price {
                                    id: String::from("price_P"),
                                    product: Some(String::from("prod_P")),
                                }),
                            }],
                            customer: Some(String::from("cus_1")),
                        })
                    }
                    _ => ProviderResponse::Rejected { status: 404, reason: String::from("unknown") },
                };
                step = flow.advance(Response::Provider(answer), at)
            }
        }
    }
}

fn store_with_customer() -> Store {
    let mut store = Store::new();
    store.create_user(User {
        id: 0,
        name: String::from("Ada"),
        email: String::from("ada@example.com"),
        image_url: None,
        oauth_provider: String::from("google"),
        oauth_id: String::from("g-1"),
        stripe_customer_id: Some(String::from("cus_1")),
        oauth_refresh_token: String::from("rt"),
        created_at: Timestamp { micros: 1 },
    });
    store
}

#[test]
fn a_signed_delivery_is_reconciled_once() {
    let mut store = store_with_customer();
    let payload = completed_checkout();
    let header = Webhook::generate_test_header(&payload, SECRET, Some(SIGNED_AT));

    assert_eq!(deliver(&mut store, payload.as_bytes(), &header, now()), (Ok(()), 1));
    assert_eq!(
        store.payments(),
        &vec![Payment::dated(1, "pi_1", "prod_P", now()).with_status(PaymentStatus::Successful)]
    );
    assert_eq!(
        store.subscriptions(),
        &vec![UserSubscription::new(1, String::from("prod_P"), String::from("pi_1"), now())]
    );

    let later = Timestamp { micros: now().micros + 60_000_000 };
    assert_eq!(deliver(&mut store, payload.as_bytes(), &header, later), (Ok(()), 1));
    assert_eq!(store.payments().len(), 1);
    assert_eq!(store.subscriptions().len(), 1);
    assert_eq!(store.payments()[0].payment_date, now());
    assert!(store.subscriptions()[0].is_active);
}

#[test]
fn a_tampered_delivery_reaches_neither_the_store_nor_the_provider() {
    let mut store = store_with_customer();
    let payload = completed_checkout();
    let header = Webhook::generate_test_header(&payload, SECRET, Some(SIGNED_AT));
    let mut tampered = payload.clone().into_bytes();
    let last = tampered.len() - 2;
    tampered[last] = b' ';
    assert_ne!(tampered, payload.as_bytes());

    let (outcome, asked) = deliver(&mut store, &tampered, &header, now());
    let failure = outcome.expect_err("a rejection");
    assert_eq!(failure, ApiError::PaymentError(PaymentError::InvalidSignature));
    assert_eq!(failure.status_code(), 401);
    assert_eq!(asked, 0);
    assert!(store.payments().is_empty());
    assert!(store.subscriptions().is_empty());
    assert_eq!(store.users().len(), 1);
}
