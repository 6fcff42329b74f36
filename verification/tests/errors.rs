use billing_core::auth::AuthError;
use billing_core::error::ApiError;
use billing_core::error::ErrorKind;
use billing_core::payment::PaymentError;
use billing_core::subscription::SubscriptionError;
use billing_core::tier::TierError;
use billing_core::user::UserError;

fn text(s: &str) -> String {
    String::from(s)
}

#[test]
fn each_kind_has_its_status() {
    assert_eq!(ErrorKind::NotFound.status(), 404);
    assert_eq!(ErrorKind::Conflict.status(), 409);
    assert_eq!(ErrorKind::InvalidInput.status(), 400);
    assert_eq!(ErrorKind::Unprocessable.status(), 422);
    assert_eq!(ErrorKind::Unauthorized.status(), 401);
    assert_eq!(ErrorKind::Forbidden.status(), 403);
    assert_eq!(ErrorKind::UpstreamUnavailable.status(), 502);
    assert_eq!(ErrorKind::StorageUnavailable.status(), 503);
    assert_eq!(ErrorKind::InternalInvariantViolation.status(), 500);
}

#[test]
fn only_upstream_and_storage_failures_are_retried() {
    for kind in [
        ErrorKind::NotFound,
        ErrorKind::Conflict,
        ErrorKind::InvalidInput,
        ErrorKind::Unprocessable,
        ErrorKind::Unauthorized,
        ErrorKind::Forbidden,
        ErrorKind::InternalInvariantViolation,
    ] {
        assert!(!kind.retryable());
    }
    assert!(ErrorKind::UpstreamUnavailable.retryable());
    assert!(ErrorKind::StorageUnavailable.retryable());
}

#[test]
fn plain_api_errors_have_their_status() {
    assert_eq!(ApiError::InternalServerError.status_code(), 500);
    assert_eq!(ApiError::ValidationError(text("x")).status_code(), 400);
    assert_eq!(ApiError::UnprocessableEntity.status_code(), 422);
    assert_eq!(ApiError::NetworkError(text("x")).status_code(), 502);
    assert_eq!(ApiError::AccessDenied.status_code(), 403);
    assert_eq!(ApiError::NotFound(text("x")).status_code(), 404);
    assert_eq!(ApiError::Conflict(text("x")).status_code(), 409);
    assert_eq!(ApiError::ServiceUnavailable.status_code(), 503);
    assert_eq!(ApiError::DatabaseConnectivityError.status_code(), 503);
    assert_eq!(ApiError::StripeError(text("x")).status_code(), 502);
    assert_eq!(ApiError::ParseIdError(text("x")).status_code(), 500);
}

#[test]
fn wrapped_errors_keep_their_status() {
    assert_eq!(ApiError::UserError(UserError::DatabaseError(text("x"))).status_code(), 503);
    assert_eq!(ApiError::UserError(UserError::UserAlreadyExists).status_code(), 409);
    assert_eq!(ApiError::UserError(UserError::UserNotFound).status_code(), 404);
    assert_eq!(
        ApiError::SubscriptionError(SubscriptionError::DatabaseError(text("x"))).status_code(),
        503
    );
    assert_eq!(
        ApiError::SubscriptionError(SubscriptionError::SubscriptionNotFound).status_code(),
        404
    );
    assert_eq!(ApiError::PaymentError(PaymentError::DatabaseError(text("x"))).status_code(), 503);
    assert_eq!(ApiError::PaymentError(PaymentError::ItemNotFound).status_code(), 400);
    assert_eq!(ApiError::PaymentError(PaymentError::PaymentNotFound).status_code(), 404);
    assert_eq!(ApiError::PaymentError(PaymentError::CreateCheckoutError).status_code(), 500);
    assert_eq!(
        ApiError::PaymentError(PaymentError::InvalidPaymentStatus(text("x"))).status_code(),
        400
    );
    assert_eq!(ApiError::PaymentError(PaymentError::AllreadyHaveProduct).status_code(), 409);
    assert_eq!(ApiError::PaymentError(PaymentError::InvalidSignature).status_code(), 401);
}

#[test]
fn sign_in_errors_are_judged_at_the_boundary() {
    for error in [
        AuthError::AuthorizationFailed,
        AuthError::InvalidTokenError(text("x")),
        AuthError::JwtError(text("x")),
        AuthError::JwtCreationFailed(text("x")),
    ] {
        assert_eq!(ApiError::AuthError(error).status_code(), 401);
    }
    for error in [
        AuthError::TokenRequestFailed(text("x")),
        AuthError::OAuth2RequestTokenError(text("x")),
        AuthError::NetworkError(text("x")),
        AuthError::SerdeParseError(text("x")),
    ] {
        assert_eq!(ApiError::AuthError(error).status_code(), 502);
    }
    assert_eq!(ApiError::AuthError(AuthError::InvalidCallbackData).status_code(), 400);
    assert_eq!(
        ApiError::AuthError(AuthError::UserError(UserError::UserNotFound)).status_code(),
        404
    );
}

#[test]
fn sign_in_errors_answer_for_themselves() {
    assert_eq!(AuthError::AuthorizationFailed.status_code(), 401);
    for error in [
        AuthError::TokenRequestFailed(text("x")),
        AuthError::InvalidTokenError(text("x")),
        AuthError::JwtCreationFailed(text("x")),
        AuthError::OAuth2RequestTokenError(text("x")),
        AuthError::InvalidCallbackData,
    ] {
        assert_eq!(error.status_code(), 400);
    }
    for error in [
        AuthError::JwtError(text("x")),
        AuthError::NetworkError(text("x")),
        AuthError::SerdeParseError(text("x")),
    ] {
        assert_eq!(error.status_code(), 500);
        assert_eq!(error.error_response(), "Internal server error");
    }
    assert_eq!(AuthError::UserError(UserError::UserAlreadyExists).status_code(), 409);
    assert_eq!(AuthError::TokenRequestFailed(text("why")).error_response(), "why");
    assert_eq!(AuthError::AuthorizationFailed.error_response(), "Authorization failed");
    assert_eq!(
        AuthError::InvalidCallbackData.error_response(),
        "Invalid callback data provided"
    );
    assert_eq!(
        AuthError::UserError(UserError::UserNotFound).error_response(),
        "User not found"
    );
}

#[test]
fn retryable_errors_are_the_transient_ones() {
    assert!(ApiError::StripeError(text("x")).is_retryable());
    assert!(ApiError::NetworkError(text("x")).is_retryable());
    assert!(ApiError::UserError(UserError::DatabaseError(text("x"))).is_retryable());
    assert!(ApiError::PaymentError(PaymentError::DatabaseError(text("x"))).is_retryable());
    assert!(ApiError::SubscriptionError(SubscriptionError::DatabaseError(text("x")))
        .is_retryable());
    assert!(!ApiError::PaymentError(PaymentError::InvalidSignature).is_retryable());
    assert!(!ApiError::PaymentError(PaymentError::ItemNotFound).is_retryable());
    assert!(!ApiError::UserError(UserError::UserNotFound).is_retryable());
    assert!(!ApiError::PaymentError(PaymentError::AllreadyHaveProduct).is_retryable());
    assert!(!ApiError::InternalServerError.is_retryable());
}

#[test]
fn api_errors_describe_themselves() {
    assert_eq!(ApiError::InternalServerError.to_string(), "Internal Server Error");
    assert_eq!(ApiError::ValidationError(text("bad")).to_string(), "Validation Error: bad");
    assert_eq!(ApiError::UnprocessableEntity.to_string(), "Unprocessable Entity");
    assert_eq!(ApiError::NetworkError(text("down")).to_string(), "Network Error: down");
    assert_eq!(ApiError::AccessDenied.to_string(), "Access Denied");
    assert_eq!(ApiError::NotFound(text("it")).to_string(), "Resource Not Found: it");
    assert_eq!(ApiError::Conflict(text("it")).to_string(), "Conflict: it");
    assert_eq!(ApiError::ServiceUnavailable.to_string(), "Service Unavailable");
    assert_eq!(
        ApiError::DatabaseConnectivityError.to_string(),
        "Database Connectivity Error"
    );
    assert_eq!(ApiError::StripeError(text("oops")).to_string(), "Stripe error: oops");
    assert_eq!(ApiError::ParseIdError(text("oops")).to_string(), "Stripe Id parse error");
    assert_eq!(ApiError::UserError(UserError::UserNotFound).to_string(), "User not found");
    assert_eq!(
        ApiError::SubscriptionError(SubscriptionError::DatabaseError(text("x"))).to_string(),
        "Database error: x"
    );
    assert_eq!(
        ApiError::PaymentError(PaymentError::AllreadyHaveProduct).to_string(),
        "Allready have this product"
    );
    assert_eq!(
        ApiError::AuthError(AuthError::AuthorizationFailed).to_string(),
        "Authorization failed"
    );
}

#[test]
fn component_errors_describe_themselves() {
    assert_eq!(UserError::DatabaseError(text("x")).to_string(), "Database error");
    assert_eq!(UserError::UserAlreadyExists.to_string(), "User already exists");
    assert_eq!(UserError::UserNotFound.to_string(), "User not found");
    assert_eq!(SubscriptionError::SubscriptionNotFound.to_string(), "Subscription not found");
    assert_eq!(PaymentError::DatabaseError(text("x")).to_string(), "Database error: x");
    assert_eq!(
        PaymentError::ItemNotFound.to_string(),
        "Item in payment not found - likely due to missing line item or product information."
    );
    assert_eq!(PaymentError::PaymentNotFound.to_string(), "Payment not found");
    assert_eq!(PaymentError::CreateCheckoutError.to_string(), "Couldn't create checkout");
    assert_eq!(
        PaymentError::InvalidPaymentStatus(text("paid")).to_string(),
        "Invalid payment status: paid"
    );
    assert_eq!(PaymentError::InvalidSignature.to_string(), "Invalid webhook signature");
    assert_eq!(AuthError::TokenRequestFailed(text("x")).to_string(), "Token request failed: x");
    assert_eq!(AuthError::InvalidTokenError(text("x")).to_string(), "Invalid token error: x");
    assert_eq!(AuthError::JwtCreationFailed(text("x")).to_string(), "JWT creation failed: x");
    assert_eq!(
        AuthError::InvalidCallbackData.to_string(),
        "Invalid callback data provided"
    );
    assert_eq!(
        AuthError::OAuth2RequestTokenError(text("x")).to_string(),
        "OAuth2 request token error: x"
    );
    assert_eq!(AuthError::JwtError(text("bad token")).to_string(), "bad token");
    assert_eq!(AuthError::NetworkError(text("x")).to_string(), "Network error: x");
    assert_eq!(AuthError::SerdeParseError(text("x")).to_string(), "JSON parsing error: x");
    assert_eq!(AuthError::UserError(UserError::UserNotFound).to_string(), "User Error");
    assert_eq!(TierError::DatabaseError(text("x")).to_string(), "Database error: x");
    assert_eq!(TierError::NotFound.to_string(), "Tier not found");
    assert_eq!(TierError::InvalidTierData(text("x")).to_string(), "Invalid tier data: x");
}

#[test]
fn a_failing_store_is_not_described_to_callers() {
    assert_eq!(
        PaymentError::DatabaseError(text("secret")).error_response(),
        "Database error occurred"
    );
    assert_eq!(PaymentError::PaymentNotFound.error_response(), "Payment not found");
    assert_eq!(
        SubscriptionError::DatabaseError(text("secret")).error_response(),
        "Database error occurred"
    );
    assert_eq!(
        SubscriptionError::SubscriptionNotFound.error_response(),
        "Subscription not found"
    );
    assert_eq!(
        TierError::DatabaseError(text("secret")).error_response(),
        "Database error occurred"
    );
    assert_eq!(TierError::NotFound.error_response(), "Tier not found");
    assert_eq!(
        TierError::InvalidTierData(text("x")).error_response(),
        "Invalid tier data: x"
    );
    assert_eq!(TierError::DatabaseError(text("x")).status_code(), 503);
    assert_eq!(TierError::NotFound.status_code(), 404);
    assert_eq!(TierError::InvalidTierData(text("x")).status_code(), 400);
    assert_eq!(SubscriptionError::SubscriptionNotFound.status_code(), 404);
    assert_eq!(PaymentError::AllreadyHaveProduct.status_code(), 409);
    assert_eq!(UserError::UserNotFound.status_code(), 404);
}

#[test]
fn component_errors_are_wrapped_as_they_are() {
    assert_eq!(ApiError::from(UserError::UserNotFound), ApiError::UserError(UserError::UserNotFound));
    assert_eq!(
        ApiError::from(SubscriptionError::SubscriptionNotFound),
        ApiError::SubscriptionError(SubscriptionError::SubscriptionNotFound)
    );
    assert_eq!(
        ApiError::from(PaymentError::ItemNotFound),
        ApiError::PaymentError(PaymentError::ItemNotFound)
    );
    assert_eq!(
        ApiError::from(AuthError::InvalidCallbackData),
        ApiError::AuthError(AuthError::InvalidCallbackData)
    );
    assert_eq!(
        AuthError::from(UserError::DatabaseError(text("x"))),
        AuthError::UserError(UserError::DatabaseError(text("x")))
    );
    let wrapped: ApiError = PaymentError::AllreadyHaveProduct.into();
    assert_eq!(wrapped.status_code(), 409);
}
