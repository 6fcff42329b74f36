use billing_core::auth::authorization_params;
use billing_core::auth::authorization_scopes;
use billing_core::auth::authorize;
use billing_core::auth::bearer_token;
use billing_core::auth::create_jwt;
use billing_core::auth::create_jwt_at;
use billing_core::auth::extract_field;
use billing_core::auth::extract_oauth_data;
use billing_core::auth::verify_jwt;
use billing_core::auth::AuthError;
use billing_core::auth::Claims;
use billing_core::auth::Field;
use billing_core::auth::OAuthData;
use billing_core::auth::OAuthProviderType;
use billing_core::auth::UserInfo;
use billing_core::auth::TOKEN_LIFETIME_SECONDS;
use billing_core::clock::Timestamp;
use billing_core::user::User;

const SECRET: &str = "a secret for tests";

fn get_test_user() -> User {
    User {
        name: "test".into(),
        id: 1,
        stripe_customer_id: None,
        email: "test".into(),
        oauth_provider: "google".into(),
        oauth_id: "1234".into(),
        oauth_refresh_token: "1234".into(),
        image_url: None,
        created_at: Timestamp::now(),
    }
}

fn user_info() -> UserInfo {
    UserInfo {
        sub: Field::Text(String::from("g-1")),
        given_name: Field::Text(String::from("Ada")),
        email: Field::Text(String::from("ada@example.com")),
        picture: Field::Text(String::from("https://example.com/ada.png")),
    }
}

#[test]
fn test_create_and_verify_jwt() {
    let user = get_test_user();
    let token = create_jwt(&user, SECRET).expect("Failed to create JWT");

    let claims = verify_jwt(&token, SECRET).expect("Failed to verify JWT");

    assert_eq!(claims.sub, 1, "JWT 'sub' field mismatch");
}

#[test]
fn a_token_lasts_an_hour() {
    assert_eq!(TOKEN_LIFETIME_SECONDS, 3600);
    let now = Timestamp { micros: 1_700_000_000_123_456 };
    assert_eq!(Claims::issued_to(9, now), Claims { sub: 9, exp: 1_700_003_600 });
    let mut user = get_test_user();
    user.id = 9;
    let token = create_jwt_at(&user, SECRET, now).expect("a token");
    assert_eq!(verify_jwt(&token, SECRET), Ok(Claims { sub: 9, exp: 1_700_003_600 }));
}

#[test]
fn a_token_is_three_parts_and_not_the_secret() {
    let token = create_jwt_at(&get_test_user(), SECRET, Timestamp { micros: 0 }).expect("a token");
    assert_eq!(token.split('.').count(), 3);
    assert_ne!(token, SECRET);
    let again = create_jwt_at(&get_test_user(), SECRET, Timestamp { micros: 0 }).expect("a token");
    assert_eq!(token, again);
}

#[test]
fn an_expired_token_still_verifies() {
    let token = create_jwt_at(&get_test_user(), SECRET, Timestamp { micros: 0 }).expect("a token");
    assert_eq!(verify_jwt(&token, SECRET), Ok(Claims { sub: 1, exp: 3600 }));
}

#[test]
fn a_token_under_another_secret_is_refused() {
    let token = create_jwt(&get_test_user(), SECRET).expect("a token");
    assert!(matches!(verify_jwt(&token, "another secret"), Err(AuthError::JwtError(_))));
}

#[test]
fn a_tampered_token_is_refused() {
    let token = create_jwt(&get_test_user(), SECRET).expect("a token");
    let mut tampered = token.clone();
    let last = tampered.pop().expect("a character");
    tampered.push(if last == 'A' { 'B' } else { 'A' });
    assert!(matches!(verify_jwt(&tampered, SECRET), Err(AuthError::JwtError(_))));
    assert!(matches!(verify_jwt("not a token", SECRET), Err(AuthError::JwtError(_))));
    assert!(matches!(verify_jwt("", SECRET), Err(AuthError::JwtError(_))));
}

#[test]
fn decoded_claims_must_be_whole() {
    assert_eq!(
        Claims::from_decoded(Ok((Some(5), Some(10)))),
        Ok(Claims { sub: 5, exp: 10 })
    );
    assert_eq!(
        Claims::from_decoded(Ok((Some(-2147483648), Some(-1)))),
        Ok(Claims { sub: i32::MIN, exp: -1 })
    );
    assert_eq!(
        Claims::from_decoded(Ok((Some(2147483648), Some(10)))),
        Err(AuthError::JwtError(String::from("invalid claim `sub`")))
    );
    assert_eq!(
        Claims::from_decoded(Ok((None, Some(10)))),
        Err(AuthError::JwtError(String::from("invalid claim `sub`")))
    );
    assert_eq!(
        Claims::from_decoded(Ok((None, None))),
        Err(AuthError::JwtError(String::from("invalid claim `sub`")))
    );
    assert_eq!(
        Claims::from_decoded(Ok((Some(5), None))),
        Err(AuthError::JwtError(String::from("invalid claim `exp`")))
    );
    assert_eq!(
        Claims::from_decoded(Err(String::from("InvalidSignature"))),
        Err(AuthError::JwtError(String::from("InvalidSignature")))
    );
}

#[test]
fn a_bearer_token_follows_its_prefix() {
    assert_eq!(bearer_token("Bearer abc.def.ghi"), Some("abc.def.ghi"));
    assert_eq!(bearer_token("Bearer "), Some(""));
    assert_eq!(bearer_token("Bearer  x"), Some(" x"));
    assert_eq!(bearer_token("Bearer"), None);
    assert_eq!(bearer_token("bearer abc"), None);
    assert_eq!(bearer_token("Basic abc"), None);
    assert_eq!(bearer_token(""), None);
    assert_eq!(bearer_token("Bearer \u{e9}t\u{e9}"), Some("\u{e9}t\u{e9}"));
    assert_eq!(bearer_token("\u{e9}Bearer abc"), None);
}

#[test]
fn a_request_is_admitted_by_its_token() {
    let token = create_jwt_at(&get_test_user(), SECRET, Timestamp { micros: 0 }).expect("a token");
    let header = format!("Bearer {}", token);
    assert_eq!(authorize(Some(&header), SECRET), Ok(Claims { sub: 1, exp: 3600 }));
}

#[test]
fn a_request_without_a_bearer_token_is_refused() {
    let refusal = Err(String::from("No valid Bearer token found"));
    assert_eq!(authorize(None, SECRET), refusal);
    assert_eq!(authorize(Some("Basic abc"), SECRET), refusal);
    assert_eq!(authorize(Some(""), SECRET), refusal);
}

#[test]
fn a_request_with_a_bad_token_is_told_why() {
    let refusal = authorize(Some("Bearer abc"), SECRET).expect_err("a refusal");
    assert!(refusal.starts_with("Invalid token: "));
    assert!(refusal.len() > "Invalid token: ".len());
    let error = verify_jwt("abc", SECRET).expect_err("an error");
    assert_eq!(refusal, format!("Invalid token: {}", error.to_string()));
}

#[test]
fn a_required_field_must_be_text() {
    assert_eq!(extract_field(Field::Text(String::from("v")), "sub"), Ok(String::from("v")));
    assert_eq!(
        extract_field(Field::Missing, "sub"),
        Err(AuthError::InvalidTokenError(String::from(
            "Missing 'sub' field in UserInfo response"
        )))
    );
    assert_eq!(
        extract_field(Field::NotText, "email"),
        Err(AuthError::InvalidTokenError(String::from(
            "Invalid 'email' field in UserInfo response"
        )))
    );
}

#[test]
fn a_sign_in_is_read_whole() {
    assert_eq!(
        extract_oauth_data(Some(String::from("rt")), user_info()),
        Ok(OAuthData {
            provider: OAuthProviderType::Google,
            user_identifier: String::from("g-1"),
            name: String::from("Ada"),
            email: String::from("ada@example.com"),
            refresh_token: String::from("rt"),
            image_url: Some(String::from("https://example.com/ada.png")),
        })
    );
}

#[test]
fn a_picture_may_be_missing() {
    let absent = extract_oauth_data(
        Some(String::from("rt")),
        UserInfo { picture: Field::Missing, ..user_info() },
    );
    assert_eq!(absent.expect("data").image_url, None);
    let odd = extract_oauth_data(
        Some(String::from("rt")),
        UserInfo { picture: Field::NotText, ..user_info() },
    );
    assert_eq!(odd.expect("data").image_url, None);
}

#[test]
fn a_sign_in_fails_on_the_first_thing_missing() {
    let nothing = UserInfo {
        sub: Field::Missing,
        given_name: Field::NotText,
        email: Field::Missing,
        picture: Field::Missing,
    };
    assert_eq!(
        extract_oauth_data(None, nothing),
        Err(AuthError::InvalidTokenError(String::from("No refresh token received")))
    );
    let nothing = UserInfo {
        sub: Field::Missing,
        given_name: Field::NotText,
        email: Field::Missing,
        picture: Field::Missing,
    };
    assert_eq!(
        extract_oauth_data(Some(String::from("rt")), nothing),
        Err(AuthError::InvalidTokenError(String::from(
            "Missing 'sub' field in UserInfo response"
        )))
    );
    assert_eq!(
        extract_oauth_data(
            Some(String::from("rt")),
            UserInfo { given_name: Field::NotText, email: Field::Missing, ..user_info() }
        ),
        Err(AuthError::InvalidTokenError(String::from(
            "Invalid 'given_name' field in UserInfo response"
        )))
    );
    assert_eq!(
        extract_oauth_data(
            Some(String::from("rt")),
            UserInfo { email: Field::Missing, ..user_info() }
        ),
        Err(AuthError::InvalidTokenError(String::from(
            "Missing 'email' field in UserInfo response"
        )))
    );
}

#[test]
fn the_sign_in_asks_for_three_scopes_offline() {
    assert_eq!(authorization_scopes(), vec!["email", "profile", "openid"]);
    assert_eq!(
        authorization_params(),
        vec![
            (String::from("access_type"), String::from("offline")),
            (String::from("prompt"), String::from("consent")),
        ]
    );
}
