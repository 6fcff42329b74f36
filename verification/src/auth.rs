//! Signing in: what the identity provider says of a user, the session tokens
//! issued to them, and what can go wrong on the way.

use vstd::prelude::*;
use vstd::std_specs::convert::FromSpecImpl;
use crate::clock::Timestamp;
use crate::error::ApiError;
use crate::error::ApiErrorView;
use crate::error::ErrorKind;
use crate::protocol::labels;
use crate::text::joined;
use crate::text::opt_text;
use crate::text::same_text;
use crate::user::User;
use crate::user::UserError;
use crate::user::UserErrorView;
use crate::views::views;

verus! {

/// What can go wrong while a user signs in or presents a token.
#[derive(Debug, PartialEq, Eq)]
pub enum AuthError {
    AuthorizationFailed,
    TokenRequestFailed(String),
    InvalidTokenError(String),
    JwtCreationFailed(String),
    InvalidCallbackData,
    OAuth2RequestTokenError(String),
    /// A token that does not verify; the text is the verifier's account.
    JwtError(String),
    /// The identity provider could not be reached.
    NetworkError(String),
    /// The identity provider's answer could not be read.
    SerdeParseError(String),
    UserError(UserError),
}

/// An `AuthError` with its texts as sequences of characters.
pub enum AuthErrorView {
    AuthorizationFailed,
    TokenRequestFailed(Seq<char>),
    InvalidTokenError(Seq<char>),
    JwtCreationFailed(Seq<char>),
    InvalidCallbackData,
    OAuth2RequestTokenError(Seq<char>),
    JwtError(Seq<char>),
    NetworkError(Seq<char>),
    SerdeParseError(Seq<char>),
    UserError(UserErrorView),
}

impl View for AuthError {
    type V = AuthErrorView;

    open spec fn view(&self) -> AuthErrorView {
        match self {
            AuthError::AuthorizationFailed => AuthErrorView::AuthorizationFailed,
            AuthError::TokenRequestFailed(detail) => AuthErrorView::TokenRequestFailed(detail@),
            AuthError::InvalidTokenError(detail) => AuthErrorView::InvalidTokenError(detail@),
            AuthError::JwtCreationFailed(detail) => AuthErrorView::JwtCreationFailed(detail@),
            AuthError::InvalidCallbackData => AuthErrorView::InvalidCallbackData,
            AuthError::OAuth2RequestTokenError(detail) => AuthErrorView::OAuth2RequestTokenError(
                detail@,
            ),
            AuthError::JwtError(detail) => AuthErrorView::JwtError(detail@),
            AuthError::NetworkError(detail) => AuthErrorView::NetworkError(detail@),
            AuthError::SerdeParseError(detail) => AuthErrorView::SerdeParseError(detail@),
            AuthError::UserError(inner) => AuthErrorView::UserError(inner@),
        }
    }
}

impl From<UserError> for AuthError {
    fn from(error: UserError) -> (wrapped: AuthError) {
        AuthError::UserError(error)
    }
}

impl FromSpecImpl<UserError> for AuthError {
    open spec fn obeys_from_spec() -> bool {
        true
    }

    open spec fn from_spec(error: UserError) -> AuthError {
        AuthError::UserError(error)
    }
}

impl AuthErrorView {
    /// The kind of the error where the sign-in endpoints answer with it
    /// themselves: whatever the caller sent wrong is bad input, and whatever
    /// failed behind the service is the service's fault.
    pub open spec fn kind(self) -> ErrorKind {
        match self {
            AuthErrorView::UserError(inner) => inner.kind(),
            AuthErrorView::AuthorizationFailed => ErrorKind::Unauthorized,
            AuthErrorView::TokenRequestFailed(_) => ErrorKind::InvalidInput,
            AuthErrorView::InvalidTokenError(_) => ErrorKind::InvalidInput,
            AuthErrorView::JwtCreationFailed(_) => ErrorKind::InvalidInput,
            AuthErrorView::OAuth2RequestTokenError(_) => ErrorKind::InvalidInput,
            AuthErrorView::InvalidCallbackData => ErrorKind::InvalidInput,
            AuthErrorView::JwtError(_) => ErrorKind::InternalInvariantViolation,
            AuthErrorView::NetworkError(_) => ErrorKind::InternalInvariantViolation,
            AuthErrorView::SerdeParseError(_) => ErrorKind::InternalInvariantViolation,
        }
    }

    /// The kind of the error where it is wrapped for the service boundary:
    /// a token that cannot be trusted or made means no authorization, and a
    /// failed exchange with the identity provider is an upstream failure.
    pub open spec fn boundary_kind(self) -> ErrorKind {
        match self {
            AuthErrorView::AuthorizationFailed => ErrorKind::Unauthorized,
            AuthErrorView::InvalidTokenError(_) => ErrorKind::Unauthorized,
            AuthErrorView::JwtError(_) => ErrorKind::Unauthorized,
            AuthErrorView::JwtCreationFailed(_) => ErrorKind::Unauthorized,
            AuthErrorView::TokenRequestFailed(_) => ErrorKind::UpstreamUnavailable,
            AuthErrorView::OAuth2RequestTokenError(_) => ErrorKind::UpstreamUnavailable,
            AuthErrorView::NetworkError(_) => ErrorKind::UpstreamUnavailable,
            AuthErrorView::SerdeParseError(_) => ErrorKind::UpstreamUnavailable,
            AuthErrorView::InvalidCallbackData => ErrorKind::InvalidInput,
            AuthErrorView::UserError(inner) => inner.kind(),
        }
    }

    /// The text that describes the error to a caller.
    pub open spec fn text(self) -> Seq<char> {
        match self {
            AuthErrorView::AuthorizationFailed => "Authorization failed"@,
            AuthErrorView::TokenRequestFailed(detail) => "Token request failed: "@ + detail,
            AuthErrorView::InvalidTokenError(detail) => "Invalid token error: "@ + detail,
            AuthErrorView::JwtCreationFailed(detail) => "JWT creation failed: "@ + detail,
            AuthErrorView::InvalidCallbackData => "Invalid callback data provided"@,
            AuthErrorView::OAuth2RequestTokenError(detail) => "OAuth2 request token error: "@
                + detail,
            AuthErrorView::JwtError(detail) => detail,
            AuthErrorView::NetworkError(detail) => "Network error: "@ + detail,
            AuthErrorView::SerdeParseError(detail) => "JSON parsing error: "@ + detail,
            AuthErrorView::UserError(_) => "User Error"@,
        }
    }

    /// The text that answers the error over HTTP where the sign-in
    /// endpoints answer with it themselves.
    pub open spec fn public_text(self) -> Seq<char> {
        match self {
            AuthErrorView::AuthorizationFailed => "Authorization failed"@,
            AuthErrorView::TokenRequestFailed(detail) => detail,
            AuthErrorView::InvalidTokenError(detail) => detail,
            AuthErrorView::JwtCreationFailed(detail) => detail,
            AuthErrorView::OAuth2RequestTokenError(detail) => detail,
            AuthErrorView::InvalidCallbackData => "Invalid callback data provided"@,
            AuthErrorView::JwtError(_) => "Internal server error"@,
            AuthErrorView::NetworkError(_) => "Internal server error"@,
            AuthErrorView::SerdeParseError(_) => "Internal server error"@,
            AuthErrorView::UserError(inner) => inner.text(),
        }
    }
}

impl AuthError {
    /// The kind of the error where the sign-in endpoints answer with it
    /// themselves.
    pub fn kind(&self) -> (kind: ErrorKind)
        ensures
            kind == self@.kind(),
    {
        match self {
            AuthError::UserError(inner) => inner.kind(),
            AuthError::AuthorizationFailed => ErrorKind::Unauthorized,
            AuthError::TokenRequestFailed(_) => ErrorKind::InvalidInput,
            AuthError::InvalidTokenError(_) => ErrorKind::InvalidInput,
            AuthError::JwtCreationFailed(_) => ErrorKind::InvalidInput,
            AuthError::OAuth2RequestTokenError(_) => ErrorKind::InvalidInput,
            AuthError::InvalidCallbackData => ErrorKind::InvalidInput,
            AuthError::JwtError(_) => ErrorKind::InternalInvariantViolation,
            AuthError::NetworkError(_) => ErrorKind::InternalInvariantViolation,
            AuthError::SerdeParseError(_) => ErrorKind::InternalInvariantViolation,
        }
    }

    /// The kind of the error where it is wrapped for the service boundary.
    pub fn boundary_kind(&self) -> (kind: ErrorKind)
        ensures
            kind == self@.boundary_kind(),
    {
        match self {
            AuthError::AuthorizationFailed => ErrorKind::Unauthorized,
            AuthError::InvalidTokenError(_) => ErrorKind::Unauthorized,
            AuthError::JwtError(_) => ErrorKind::Unauthorized,
            AuthError::JwtCreationFailed(_) => ErrorKind::Unauthorized,
            AuthError::TokenRequestFailed(_) => ErrorKind::UpstreamUnavailable,
            AuthError::OAuth2RequestTokenError(_) => ErrorKind::UpstreamUnavailable,
            AuthError::NetworkError(_) => ErrorKind::UpstreamUnavailable,
            AuthError::SerdeParseError(_) => ErrorKind::UpstreamUnavailable,
            AuthError::InvalidCallbackData => ErrorKind::InvalidInput,
            AuthError::UserError(inner) => inner.kind(),
        }
    }

    /// The HTTP status with which the sign-in endpoints answer the error.
    pub fn status_code(&self) -> (code: u16)
        ensures
            code == self@.kind().spec_status(),
    {
        self.kind().status()
    }

    /// The text that describes the error to a caller.
    pub fn to_string(&self) -> (text: String)
        ensures
            text@ == self@.text(),
    {
        match self {
            AuthError::AuthorizationFailed => String::from_str("Authorization failed"),
            AuthError::TokenRequestFailed(detail) => joined(
                "Token request failed: ",
                detail.as_str(),
            ),
            AuthError::InvalidTokenError(detail) => joined(
                "Invalid token error: ",
                detail.as_str(),
            ),
            AuthError::JwtCreationFailed(detail) => joined(
                "JWT creation failed: ",
                detail.as_str(),
            ),
            AuthError::InvalidCallbackData => String::from_str("Invalid callback data provided"),
            AuthError::OAuth2RequestTokenError(detail) => joined(
                "OAuth2 request token error: ",
                detail.as_str(),
            ),
            AuthError::JwtError(detail) => detail.clone(),
            AuthError::NetworkError(detail) => joined("Network error: ", detail.as_str()),
            AuthError::SerdeParseError(detail) => joined("JSON parsing error: ", detail.as_str()),
            AuthError::UserError(_) => String::from_str("User Error"),
        }
    }

    /// The text with which the sign-in endpoints answer the error.
    pub fn error_response(&self) -> (text: String)
        ensures
            text@ == self@.public_text(),
    {
        match self {
            AuthError::AuthorizationFailed => String::from_str("Authorization failed"),
            AuthError::TokenRequestFailed(detail) => detail.clone(),
            AuthError::InvalidTokenError(detail) => detail.clone(),
            AuthError::JwtCreationFailed(detail) => detail.clone(),
            AuthError::OAuth2RequestTokenError(detail) => detail.clone(),
            AuthError::InvalidCallbackData => String::from_str("Invalid callback data provided"),
            AuthError::JwtError(_) => String::from_str("Internal server error"),
            AuthError::NetworkError(_) => String::from_str("Internal server error"),
            AuthError::SerdeParseError(_) => String::from_str("Internal server error"),
            AuthError::UserError(inner) => inner.to_string(),
        }
    }
}

/// What a session token asserts: the user it was issued to and when it
/// lapses, in seconds since the Unix epoch.
#[derive(Debug, PartialEq, Eq)]
pub struct Claims {
    pub sub: i32,
    pub exp: i64,
}

/// The identity providers that can vouch for a user.
#[derive(Debug, Clone, Copy, PartialEq, Eq, Structural)]
pub enum OAuthProviderType {
    Google,
}

/// The name under which a provider is stored.
pub open spec fn provider_name(provider: OAuthProviderType) -> Seq<char> {
    match provider {
        OAuthProviderType::Google => "google"@,
    }
}

impl OAuthProviderType {
    /// The name under which the provider is stored.
    pub fn into(self) -> (name: String)
        ensures
            name@ == provider_name(self),
    {
        match self {
            OAuthProviderType::Google => String::from_str("google"),
        }
    }
}

/// What an identity provider told us about a user who signed in.
#[derive(Debug, PartialEq, Eq)]
pub struct OAuthData {
    pub provider: OAuthProviderType,
    pub user_identifier: String,
    pub name: String,
    pub email: String,
    pub refresh_token: String,
    pub image_url: Option<String>,
}

/// An `OAuthData` with its texts as sequences of characters.
pub struct OAuthDataView {
    pub provider: OAuthProviderType,
    pub user_identifier: Seq<char>,
    pub name: Seq<char>,
    pub email: Seq<char>,
    pub refresh_token: Seq<char>,
    pub image_url: Option<Seq<char>>,
}

impl View for OAuthData {
    type V = OAuthDataView;

    open spec fn view(&self) -> OAuthDataView {
        OAuthDataView {
            provider: self.provider,
            user_identifier: self.user_identifier@,
            name: self.name@,
            email: self.email@,
            refresh_token: self.refresh_token@,
            image_url: opt_text(self.image_url),
        }
    }
}

/// How long a session token is good for, in seconds.
pub const TOKEN_LIFETIME_SECONDS: i64 = 3600;

/// What one field of the identity provider's answer holds.
#[derive(Debug, PartialEq, Eq)]
pub enum Field {
    /// The answer has no such field.
    Missing,
    /// The field is there and is no text.
    NotText,
    Text(String),
}

/// A `Field` with its text as a sequence of characters.
pub enum FieldView {
    Missing,
    NotText,
    Text(Seq<char>),
}

impl View for Field {
    type V = FieldView;

    open spec fn view(&self) -> FieldView {
        match self {
            Field::Missing => FieldView::Missing,
            Field::NotText => FieldView::NotText,
            Field::Text(text) => FieldView::Text(text@),
        }
    }
}

/// The fields of the identity provider's answer that the sign-in reads.
#[derive(Debug, PartialEq, Eq)]
pub struct UserInfo {
    pub sub: Field,
    pub given_name: Field,
    pub email: Field,
    pub picture: Field,
}

/// A `UserInfo` over the views of its fields.
pub struct UserInfoView {
    pub sub: FieldView,
    pub given_name: FieldView,
    pub email: FieldView,
    pub picture: FieldView,
}

impl View for UserInfo {
    type V = UserInfoView;

    open spec fn view(&self) -> UserInfoView {
        UserInfoView {
            sub: self.sub@,
            given_name: self.given_name@,
            email: self.email@,
            picture: self.picture@,
        }
    }
}

/// A user who has signed in, with the token issued to them.
#[derive(Debug, PartialEq, Eq)]
pub struct OAuthResponse {
    pub user: User,
    pub token: String,
}

/// The text of a required field, or what is wrong with it.
pub open spec fn required(field: FieldView, name: Seq<char>) -> Result<Seq<char>, AuthErrorView> {
    match field {
        FieldView::Text(text) => Ok(text),
        FieldView::Missing => Err(
            AuthErrorView::InvalidTokenError(
                "Missing '"@ + name + "' field in UserInfo response"@,
            ),
        ),
        FieldView::NotText => Err(
            AuthErrorView::InvalidTokenError(
                "Invalid '"@ + name + "' field in UserInfo response"@,
            ),
        ),
    }
}

/// The text of an optional field.
pub open spec fn optional(field: FieldView) -> Option<Seq<char>> {
    match field {
        FieldView::Text(text) => Some(text),
        _ => None,
    }
}

/// What a sign-in with Google yields: the refresh token must have come,
/// then the subject, the given name and the email must be texts, looked at
/// in that order; the picture is taken where it is a text.
pub open spec fn oauth_data_from(refresh_token: Option<Seq<char>>, info: UserInfoView) -> Result<
    OAuthDataView,
    AuthErrorView,
> {
    match refresh_token {
        None => Err(AuthErrorView::InvalidTokenError("No refresh token received"@)),
        Some(refresh_token) => match required(info.sub, "sub"@) {
            Err(error) => Err(error),
            Ok(user_identifier) => match required(info.given_name, "given_name"@) {
                Err(error) => Err(error),
                Ok(name) => match required(info.email, "email"@) {
                    Err(error) => Err(error),
                    Ok(email) => Ok(
                        OAuthDataView {
                            provider: OAuthProviderType::Google,
                            user_identifier,
                            name,
                            email,
                            refresh_token,
                            image_url: optional(info.picture),
                        },
                    ),
                },
            },
        },
    }
}

/// The view of what reading a field gave.
pub open spec fn field_result(result: Result<String, AuthError>) -> Result<
    Seq<char>,
    AuthErrorView,
> {
    match result {
        Ok(text) => Ok(text@),
        Err(error) => Err(error@),
    }
}

/// The view of what reading the sign-in gave.
pub open spec fn oauth_result(result: Result<OAuthData, AuthError>) -> Result<
    OAuthDataView,
    AuthErrorView,
> {
    match result {
        Ok(data) => Ok(data@),
        Err(error) => Err(error@),
    }
}

/// Reads a required field of the identity provider's answer.
pub fn extract_field(field: Field, name: &str) -> (text: Result<String, AuthError>)
    ensures
        field_result(text) == required(field@, name@),
{
    match field {
        Field::Text(text) => Ok(text),
        Field::Missing => {
            let mut message = joined("Missing '", name);
            message.append("' field in UserInfo response");
            Err(AuthError::InvalidTokenError(message))
        },
        Field::NotText => {
            let mut message = joined("Invalid '", name);
            message.append("' field in UserInfo response");
            Err(AuthError::InvalidTokenError(message))
        },
    }
}

/// Reads what a sign-in with Google yields out of the token exchange and
/// the identity provider's answer.
pub fn extract_oauth_data(refresh_token: Option<String>, user_info: UserInfo) -> (data: Result<
    OAuthData,
    AuthError,
>)
    ensures
        oauth_result(data) == oauth_data_from(opt_text(refresh_token), user_info@),
{
    let refresh_token = match refresh_token {
        Some(token) => token,
        None => {
            return Err(
                AuthError::InvalidTokenError(String::from_str("No refresh token received")),
            );
        },
    };
    let user_identifier = match extract_field(user_info.sub, "sub") {
        Ok(text) => text,
        Err(error) => { return Err(error); },
    };
    let name = match extract_field(user_info.given_name, "given_name") {
        Ok(text) => text,
        Err(error) => { return Err(error); },
    };
    let email = match extract_field(user_info.email, "email") {
        Ok(text) => text,
        Err(error) => { return Err(error); },
    };
    let image_url = match user_info.picture {
        Field::Text(url) => Some(url),
        _ => None,
    };
    Ok(
        OAuthData {
            provider: OAuthProviderType::Google,
            user_identifier,
            name,
            email,
            refresh_token,
            image_url,
        },
    )
}

/// The scopes asked of Google at sign-in.
pub open spec fn scopes() -> Seq<Seq<char>> {
    seq!["email"@, "profile"@, "openid"@]
}

/// The extra parameters of the sign-in URL: a refresh token is wanted, and
/// the user is to consent each time.
pub open spec fn extra_params() -> Seq<(Seq<char>, Seq<char>)> {
    seq![("access_type"@, "offline"@), ("prompt"@, "consent"@)]
}

/// The scopes asked of Google at sign-in.
pub fn authorization_scopes() -> (list: Vec<String>)
    ensures
        views(list@) == scopes(),
{
    let mut list: Vec<String> = Vec::new();
    list.push(String::from_str("email"));
    list.push(String::from_str("profile"));
    list.push(String::from_str("openid"));
    assert(views(list@) =~= scopes());
    list
}

/// The extra parameters of the sign-in URL.
pub fn authorization_params() -> (list: Vec<(String, String)>)
    ensures
        labels(list@) == extra_params(),
{
    let mut list: Vec<(String, String)> = Vec::new();
    list.push((String::from_str("access_type"), String::from_str("offline")));
    list.push((String::from_str("prompt"), String::from_str("consent")));
    assert(labels(list@) =~= extra_params());
    list
}

/// The token that a header value bears: what follows `Bearer `, if the
/// value starts so.
pub open spec fn bearer(header: Seq<char>) -> Option<Seq<char>> {
    if header.len() >= 7 && header.subrange(0, 7) == "Bearer "@ {
        Some(header.subrange(7, header.len() as int))
    } else {
        None
    }
}

/// The token that a header value bears.
pub fn bearer_token(header: &str) -> (token: Option<&str>)
    ensures
        match bearer(header@) {
            Some(text) => token is Some && token.unwrap()@ == text,
            None => token is None,
        },
{
    let length = header.unicode_len();
    if length >= 7 && same_text(header.substring_char(0, 7), "Bearer ") {
        Some(header.substring_char(7, length))
    } else {
        None
    }
}

/// The token that signing the two claims under the secret gives, or why
/// none could be made.
pub uninterp spec fn signed_token(sub: int, exp: int, secret: Seq<char>) -> Result<
    Seq<char>,
    Seq<char>,
>;

/// What a token holds under `sub` and `exp`, each where it is a whole
/// number, once its signature under the secret is verified; or why the
/// token cannot be trusted.
pub uninterp spec fn token_claims(token: Seq<char>, secret: Seq<char>) -> Result<
    (Option<int>, Option<int>),
    Seq<char>,
>;

/// The view of a text or a reason.
pub open spec fn text_result(result: Result<String, String>) -> Result<Seq<char>, Seq<char>> {
    match result {
        Ok(text) => Ok(text@),
        Err(reason) => Err(reason@),
    }
}

/// A whole number, where there is one.
pub open spec fn opt_int(value: Option<i64>) -> Option<int> {
    match value {
        Some(n) => Some(n as int),
        None => None,
    }
}

/// The view of decoded claims or a reason.
pub open spec fn claims_result(result: Result<(Option<i64>, Option<i64>), String>) -> Result<
    (Option<int>, Option<int>),
    Seq<char>,
> {
    match result {
        Ok((sub, exp)) => Ok((opt_int(sub), opt_int(exp))),
        Err(reason) => Err(reason@),
    }
}

/// Signs the two claims under the secret.
///
/// Trusted: calls `jsonwebtoken::encode` with the default header (HS256), a
/// JSON object holding `sub` and `exp`, and the secret's bytes as the key.
/// The token depends on these alone, so it has a name; nothing is said of
/// what it looks like.
#[verifier::external_body]
fn encode_claims(sub: i32, exp: i64, secret: &str) -> (token: Result<String, String>)
    ensures
        text_result(token) == signed_token(sub as int, exp as int, secret@),
{
    let mut claims = serde_json::Map::new();
    claims.insert(String::from("sub"), serde_json::Value::from(sub));
    claims.insert(String::from("exp"), serde_json::Value::from(exp));
    let key = jsonwebtoken::EncodingKey::from_secret(secret.as_bytes());
    match jsonwebtoken::encode(&jsonwebtoken::Header::default(), &claims, &key) {
        Ok(token) => Ok(token),
        Err(error) => Err(error.to_string()),
    }
}

/// Verifies a token's signature under the secret and reads its claims.
///
/// Trusted: calls `jsonwebtoken::decode` for HS256 with the check of the
/// expiry switched off, the secret's bytes as the key, and takes `sub` and
/// `exp` out of the claims with `serde_json::Value::as_i64`. With the
/// expiry unchecked the outcome depends on the token and the secret alone,
/// so it has a name; nothing is said of which tokens verify.
#[verifier::external_body]
fn decode_claims(token: &str, secret: &str) -> (decoded: Result<
    (Option<i64>, Option<i64>),
    String,
>)
    ensures
        claims_result(decoded) == token_claims(token@, secret@),
{
    let mut validation = jsonwebtoken::Validation::new(jsonwebtoken::Algorithm::HS256);
    validation.validate_exp = false;
    let key = jsonwebtoken::DecodingKey::from_secret(secret.as_bytes());
    match jsonwebtoken::decode::<serde_json::Value>(token, &key, &validation) {
        Ok(data) => Ok(
            (
                data.claims.get("sub").and_then(serde_json::Value::as_i64),
                data.claims.get("exp").and_then(serde_json::Value::as_i64),
            ),
        ),
        Err(error) => Err(error.to_string()),
    }
}

/// The claims issued to a user at a time: good for an hour from then.
pub open spec fn issued(user_id: int, now: Timestamp) -> Claims {
    Claims { sub: user_id as i32, exp: (now.spec_seconds() + TOKEN_LIFETIME_SECONDS) as i64 }
}

/// What issuing a token to the user at the time gives: the signed claims,
/// or the failure to sign them.
pub open spec fn token_issued(user_id: int, secret: Seq<char>, now: Timestamp) -> Result<
    Seq<char>,
    AuthErrorView,
> {
    match signed_token(user_id, now.spec_seconds() + TOKEN_LIFETIME_SECONDS, secret) {
        Ok(token) => Ok(token),
        Err(reason) => Err(AuthErrorView::JwtCreationFailed(reason)),
    }
}

/// The claims that decoding found, if both are there and the subject is a
/// user identifier; or why the token is refused.
pub open spec fn claims_read(decoded: Result<(Option<int>, Option<int>), Seq<char>>) -> Result<
    Claims,
    AuthErrorView,
> {
    match decoded {
        Err(reason) => Err(AuthErrorView::JwtError(reason)),
        Ok((Some(sub), Some(exp))) => {
            if i32::MIN <= sub <= i32::MAX {
                Ok(Claims { sub: sub as i32, exp: exp as i64 })
            } else {
                Err(AuthErrorView::JwtError("invalid claim `sub`"@))
            }
        },
        Ok((None, _)) => Err(AuthErrorView::JwtError("invalid claim `sub`"@)),
        Ok((Some(_), None)) => Err(AuthErrorView::JwtError("invalid claim `exp`"@)),
    }
}

/// The view of claims or an error.
pub open spec fn verdict(result: Result<Claims, AuthError>) -> Result<Claims, AuthErrorView> {
    match result {
        Ok(claims) => Ok(claims),
        Err(error) => Err(error@),
    }
}

impl Claims {
    /// The claims issued to the user at the time.
    pub fn issued_to(user_id: i32, now: Timestamp) -> (claims: Claims)
        ensures
            claims == issued(user_id as int, now),
            claims.sub == user_id,
            claims.exp == now.spec_seconds() + TOKEN_LIFETIME_SECONDS,
    {
        Claims { sub: user_id, exp: now.seconds() + TOKEN_LIFETIME_SECONDS }
    }

    /// The user behind a request that has passed the token check. A request
    /// without claims has not, which is the service's own fault.
    pub fn subject(claims: Option<&Claims>) -> (user_id: Result<i32, ApiError>)
        ensures
            match claims {
                Some(found) => user_id == Ok::<i32, ApiError>(found.sub),
                None => user_id is Err && user_id.unwrap_err()@
                    == ApiErrorView::InternalServerError,
            },
    {
        match claims {
            Some(found) => Ok(found.sub),
            None => Err(ApiError::InternalServerError),
        }
    }

    /// The claims that decoding a token found, or why the token is
    /// refused.
    pub fn from_decoded(decoded: Result<(Option<i64>, Option<i64>), String>) -> (claims: Result<
        Claims,
        AuthError,
    >)
        ensures
            verdict(claims) == claims_read(claims_result(decoded)),
    {
        match decoded {
            Err(reason) => Err(AuthError::JwtError(reason)),
            Ok((Some(sub), Some(exp))) => {
                if sub >= -2147483648 && sub <= 2147483647 {
                    Ok(Claims { sub: sub as i32, exp })
                } else {
                    Err(AuthError::JwtError(String::from_str("invalid claim `sub`")))
                }
            },
            Ok((None, _)) => Err(AuthError::JwtError(String::from_str("invalid claim `sub`"))),
            Ok((Some(_), None)) => Err(
                AuthError::JwtError(String::from_str("invalid claim `exp`")),
            ),
        }
    }
}

/// Issues a token to the user at the given time.
pub fn create_jwt_at(user: &User, secret: &str, now: Timestamp) -> (token: Result<
    String,
    AuthError,
>)
    ensures
        field_result(token) == token_issued(user@.id, secret@, now),
{
    let claims = Claims::issued_to(user.id, now);
    match encode_claims(claims.sub, claims.exp, secret) {
        Ok(token) => Ok(token),
        Err(reason) => Err(AuthError::JwtCreationFailed(reason)),
    }
}

/// Issues a token to the user now: whenever the clock says, and never
/// before the epoch.
pub fn create_jwt(user: &User, secret: &str) -> (token: Result<String, AuthError>)
    ensures
        exists|now: Timestamp|
            now.micros >= 0 && field_result(token) == #[trigger] token_issued(
                user@.id,
                secret@,
                now,
            ),
{
    create_jwt_at(user, secret, Timestamp::now())
}

/// Verifies a token under the secret and reads its claims. Whether the
/// token has expired is not looked at.
pub fn verify_jwt(token: &str, secret: &str) -> (claims: Result<Claims, AuthError>)
    ensures
        verdict(claims) == claims_read(token_claims(token@, secret@)),
{
    Claims::from_decoded(decode_claims(token, secret))
}

/// Whom a request is from, going by its `Authorization` header: the claims
/// of the token that it bears, or the text that refuses it.
pub open spec fn authorized(
    authorization: Option<Seq<char>>,
    decoded: spec_fn(Seq<char>) -> Result<Claims, AuthErrorView>,
) -> Result<Claims, Seq<char>> {
    if authorization is Some && bearer(authorization.unwrap()) is Some {
        match decoded(bearer(authorization.unwrap()).unwrap()) {
            Ok(claims) => Ok(claims),
            Err(error) => Err("Invalid token: "@ + error.text()),
        }
    } else {
        Err("No valid Bearer token found"@)
    }
}

/// The view of claims or a refusal.
pub open spec fn admission(result: Result<Claims, String>) -> Result<Claims, Seq<char>> {
    match result {
        Ok(claims) => Ok(claims),
        Err(refusal) => Err(refusal@),
    }
}

/// Decides whom a request is from, going by its `Authorization` header,
/// where it has one that is text.
pub fn authorize(authorization: Option<&str>, secret: &str) -> (claims: Result<Claims, String>)
    ensures
        admission(claims) == authorized(
            match authorization {
                Some(header) => Some(header@),
                None => None,
            },
            |token: Seq<char>| claims_read(token_claims(token, secret@)),
        ),
{
    let token = match authorization {
        Some(header) => bearer_token(header),
        None => None,
    };
    match token {
        Some(token) => match verify_jwt(token, secret) {
            Ok(claims) => Ok(claims),
            Err(error) => Err(joined("Invalid token: ", error.to_string().as_str())),
        },
        None => Err(String::from_str("No valid Bearer token found")),
    }
}

} // verus!
