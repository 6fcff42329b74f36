use billing_core::auth::OAuthData;
use billing_core::auth::OAuthProviderType;
use billing_core::clock::Timestamp;
use billing_core::error::ApiError;
use billing_core::payment::PaymentError;
use billing_core::payment::PaymentStatus;
use billing_core::protocol::ProviderRequest;
use billing_core::protocol::ProviderResponse;
use billing_core::protocol::Request;
use billing_core::protocol::Response;
use billing_core::protocol::Step;
use billing_core::protocol::StorageRequest;
use billing_core::protocol::StorageResponse;
use billing_core::provider::CheckoutSession;
use billing_core::signup::SignUpFlow;
use billing_core::status::StatusFlow;
use billing_core::store::Store;
use billing_core::user::User;
use billing_core::user::UserError;

fn data(refresh_token: &str) -> OAuthData {
    OAuthData {
        provider: OAuthProviderType::Google,
        user_identifier: String::from("g-1"),
        name: String::from("Ada"),
        email: String::from("ada@example.com"),
        refresh_token: String::from(refresh_token),
        image_url: None,
    }
}

fn sign_in(store: &mut Store, oauth_data: OAuthData, now: Timestamp) -> Result<User, ApiError> {
    let mut step = SignUpFlow::sign_up_or_login(oauth_data);
    loop {
        match step {
            Step::Done(result) => return result,
            Step::Ask(flow, Request::Storage(question)) => {
                step = flow.advance(Response::Storage(store.execute(question)), now)
            }
            Step::Ask(_, Request::Provider(_)) => panic!("a sign-in asks the store only"),
        }
    }
}

#[test]
fn a_sign_in_starts_with_the_email() {
    match SignUpFlow::sign_up_or_login(data("rt-1")) {
        Step::Ask(flow, request) => {
            assert_eq!(flow, SignUpFlow::FindingUser { oauth_data: data("rt-1") });
            assert_eq!(
                request,
                Request::Storage(StorageRequest::FindUserByEmail {
                    email: String::from("ada@example.com")
                })
            );
        }
        Step::Done(_) => panic!("nothing was asked"),
    }
}

#[test]
fn a_first_sign_in_creates_the_user() {
    let mut store = Store::new();
    let user = sign_in(&mut store, data("rt-1"), Timestamp { micros: 8 }).expect("a user");
    assert_eq!(user, User { id: 1, ..User::created(data("rt-1"), Timestamp { micros: 8 }) });
    assert_eq!(store.users(), &vec![user]);
}

#[test]
fn a_later_sign_in_finds_the_user() {
    let mut store = Store::new();
    let first = sign_in(&mut store, data("rt-1"), Timestamp { micros: 8 }).expect("a user");
    let again = sign_in(&mut store, data("rt-1"), Timestamp { micros: 9 }).expect("a user");
    assert_eq!(again, first);
    assert_eq!(store.users().len(), 1);
}

#[test]
fn a_new_refresh_token_is_stored() {
    let mut store = Store::new();
    let first = sign_in(&mut store, data("rt-1"), Timestamp { micros: 8 }).expect("a user");
    let again = sign_in(&mut store, data("rt-2"), Timestamp { micros: 9 }).expect("a user");
    assert_eq!(again, User { oauth_refresh_token: String::from("rt-2"), ..first });
    assert_eq!(store.users(), &vec![again]);
}

#[test]
fn a_sign_in_fails_with_the_store() {
    let down = || Response::Storage(StorageResponse::Failed(String::from("down")));
    let failure =
        Step::Done(Err(ApiError::UserError(UserError::DatabaseError(String::from("down")))));
    let now = Timestamp { micros: 1 };
    assert_eq!(SignUpFlow::FindingUser { oauth_data: data("rt") }.advance(down(), now), failure);
    assert_eq!(SignUpFlow::Storing.advance(down(), now), failure);
    assert_eq!(
        SignUpFlow::Storing.advance(Response::Storage(StorageResponse::User(None)), now),
        Step::Done(Err(ApiError::InternalServerError))
    );
}

fn bare_session(payment_intent: Option<&str>) -> CheckoutSession {
    CheckoutSession {
        id: String::from("cs_1"),
        url: None,
        payment_intent: payment_intent.map(String::from),
        line_items: vec![],
        customer: None,
    }
}

fn fetching(status: PaymentStatus) -> StatusFlow {
    match StatusFlow::update_payment_status("cs_1", status) {
        Step::Ask(flow, request) => {
            assert_eq!(
                request,
                Request::Provider(ProviderRequest::RetrieveCheckoutSession {
                    session_id: String::from("cs_1"),
                    expand: vec![
                        String::from("line_items"),
                        String::from("line_items.data.price.product"),
                        String::from("payment_intent"),
                    ],
                })
            );
            flow
        }
        Step::Done(_) => panic!("nothing was asked"),
    }
}

#[test]
fn a_status_is_written_under_the_payment_intent() {
    let flow = fetching(PaymentStatus::Failed);
    assert_eq!(flow, StatusFlow::FetchingSession { status: PaymentStatus::Failed });
    let step = flow.advance(Response::Provider(ProviderResponse::CheckoutSession(bare_session(
        Some("pi_7"),
    ))));
    match step {
        Step::Ask(flow, request) => {
            assert_eq!(
                request,
                Request::Storage(StorageRequest::UpdatePaymentStatus {
                    stripe_payment_id: String::from("pi_7"),
                    status: PaymentStatus::Failed,
                })
            );
            assert_eq!(
                flow.advance(Response::Storage(StorageResponse::PaymentUpdated)),
                Step::Done(Ok(()))
            );
        }
        Step::Done(_) => panic!("nothing was written"),
    }
}

#[test]
fn a_status_update_needs_a_payment_intent() {
    let step = fetching(PaymentStatus::Denied)
        .advance(Response::Provider(ProviderResponse::CheckoutSession(bare_session(None))));
    assert_eq!(step, Step::Done(Err(ApiError::PaymentError(PaymentError::ItemNotFound))));
}

#[test]
fn a_status_update_fails_with_its_collaborators() {
    let step = fetching(PaymentStatus::Denied)
        .advance(Response::Provider(ProviderResponse::Failed(String::from("timeout"))));
    assert_eq!(step, Step::Done(Err(ApiError::StripeError(String::from("timeout")))));
    let step = fetching(PaymentStatus::Denied).advance(Response::Provider(
        ProviderResponse::Rejected { status: 404, reason: String::from("no such session") },
    ));
    assert_eq!(step, Step::Done(Err(ApiError::StripeError(String::from("no such session")))));
    let step = StatusFlow::Updating
        .advance(Response::Storage(StorageResponse::Failed(String::from("down"))));
    assert_eq!(
        step,
        Step::Done(Err(ApiError::PaymentError(PaymentError::DatabaseError(String::from(
            "down"
        )))))
    );
    let step = StatusFlow::Updating.advance(Response::Storage(StorageResponse::User(None)));
    assert_eq!(step, Step::Done(Err(ApiError::InternalServerError)));
}
