//! Users of the service.

use vstd::prelude::*;
use crate::auth::OAuthData;
use crate::auth::OAuthDataView;
use crate::auth::provider_name;
use crate::clock::Timestamp;
use crate::error::ErrorKind;
use crate::text::copy_opt_text;
use crate::text::opt_text;

verus! {

/// What can go wrong while reading or writing a user.
#[derive(Debug, PartialEq, Eq)]
pub enum UserError {
    /// The store failed; the text is the store's own account of it.
    DatabaseError(String),
    UserAlreadyExists,
    UserNotFound,
}

/// A `UserError` with its text as a sequence of characters.
pub enum UserErrorView {
    DatabaseError(Seq<char>),
    UserAlreadyExists,
    UserNotFound,
}

impl View for UserError {
    type V = UserErrorView;

    open spec fn view(&self) -> UserErrorView {
        match self {
            UserError::DatabaseError(detail) => UserErrorView::DatabaseError(detail@),
            UserError::UserAlreadyExists => UserErrorView::UserAlreadyExists,
            UserError::UserNotFound => UserErrorView::UserNotFound,
        }
    }
}

impl UserErrorView {
    /// The kind that the error belongs to.
    pub open spec fn kind(self) -> ErrorKind {
        match self {
            UserErrorView::DatabaseError(_) => ErrorKind::StorageUnavailable,
            UserErrorView::UserAlreadyExists => ErrorKind::Conflict,
            UserErrorView::UserNotFound => ErrorKind::NotFound,
        }
    }

    /// The text that describes the error to a caller.
    pub open spec fn text(self) -> Seq<char> {
        match self {
            UserErrorView::DatabaseError(_) => "Database error"@,
            UserErrorView::UserAlreadyExists => "User already exists"@,
            UserErrorView::UserNotFound => "User not found"@,
        }
    }
}

impl UserError {
    /// The kind that the error belongs to.
    pub fn kind(&self) -> (kind: ErrorKind)
        ensures
            kind == self@.kind(),
    {
        match self {
            UserError::DatabaseError(_) => ErrorKind::StorageUnavailable,
            UserError::UserAlreadyExists => ErrorKind::Conflict,
            UserError::UserNotFound => ErrorKind::NotFound,
        }
    }

    /// The HTTP status that answers the error.
    pub fn status_code(&self) -> (code: u16)
        ensures
            code == self@.kind().spec_status(),
    {
        self.kind().status()
    }

    /// The text that describes the error to a caller.
    pub fn to_string(&self) -> (text: String)
        ensures
            text@ == self@.text(),
    {
        match self {
            UserError::DatabaseError(_) => String::from_str("Database error"),
            UserError::UserAlreadyExists => String::from_str("User already exists"),
            UserError::UserNotFound => String::from_str("User not found"),
        }
    }
}

/// A user: who they are, how they signed in, and, once they have been to
/// checkout, the provider's customer identifier for them.
#[derive(Debug, PartialEq, Eq)]
pub struct User {
    pub id: i32,
    pub name: String,
    pub email: String,
    pub image_url: Option<String>,
    pub oauth_provider: String,
    pub oauth_id: String,
    pub stripe_customer_id: Option<String>,
    pub oauth_refresh_token: String,
    pub created_at: Timestamp,
}

/// A `User` with its texts as sequences of characters.
pub struct UserView {
    pub id: int,
    pub name: Seq<char>,
    pub email: Seq<char>,
    pub image_url: Option<Seq<char>>,
    pub oauth_provider: Seq<char>,
    pub oauth_id: Seq<char>,
    pub stripe_customer_id: Option<Seq<char>>,
    pub oauth_refresh_token: Seq<char>,
    pub created_at: Timestamp,
}

impl View for User {
    type V = UserView;

    open spec fn view(&self) -> UserView {
        UserView {
            id: self.id as int,
            name: self.name@,
            email: self.email@,
            image_url: opt_text(self.image_url),
            oauth_provider: self.oauth_provider@,
            oauth_id: self.oauth_id@,
            stripe_customer_id: opt_text(self.stripe_customer_id),
            oauth_refresh_token: self.oauth_refresh_token@,
            created_at: self.created_at,
        }
    }
}

impl Clone for User {
    fn clone(&self) -> (copy: User)
        ensures
            copy@ == self@,
    {
        User {
            id: self.id,
            name: self.name.clone(),
            email: self.email.clone(),
            image_url: copy_opt_text(&self.image_url),
            oauth_provider: self.oauth_provider.clone(),
            oauth_id: self.oauth_id.clone(),
            stripe_customer_id: copy_opt_text(&self.stripe_customer_id),
            oauth_refresh_token: self.oauth_refresh_token.clone(),
            created_at: self.created_at,
        }
    }
}

/// The user that a first sign-in makes: not stored yet (identifier zero),
/// without a customer identifier, created at the given time.
pub open spec fn signed_up(data: OAuthDataView, created_at: Timestamp) -> UserView {
    UserView {
        id: 0,
        name: data.name,
        email: data.email,
        image_url: data.image_url,
        oauth_provider: provider_name(data.provider),
        oauth_id: data.user_identifier,
        stripe_customer_id: None,
        oauth_refresh_token: data.refresh_token,
        created_at,
    }
}

impl User {
    /// The user that a first sign-in at the given time makes.
    pub fn created(oauth_data: OAuthData, created_at: Timestamp) -> (user: User)
        ensures
            user@ == signed_up(oauth_data@, created_at),
    {
        User {
            id: 0,
            email: oauth_data.email,
            oauth_provider: oauth_data.provider.into(),
            oauth_id: oauth_data.user_identifier,
            stripe_customer_id: None,
            oauth_refresh_token: oauth_data.refresh_token,
            name: oauth_data.name,
            image_url: oauth_data.image_url,
            created_at,
        }
    }

    /// The user that a first sign-in makes now: created whenever the clock
    /// says, and never before the epoch.
    pub fn new(oauth_data: OAuthData) -> (user: User)
        ensures
            user@ == signed_up(oauth_data@, user.created_at),
            user.created_at.micros >= 0,
    {
        User::created(oauth_data, Timestamp::now())
    }

    /// The same user, known to the provider under the given customer
    /// identifier.
    pub fn with_customer(self, customer_id: String) -> (user: User)
        ensures
            user@ == (UserView { stripe_customer_id: Some(customer_id@), ..self@ }),
    {
        let mut user = self;
        user.stripe_customer_id = Some(customer_id);
        user
    }

    /// The same user with another refresh token.
    pub fn with_refresh_token(self, token: String) -> (user: User)
        ensures
            user@ == (UserView { oauth_refresh_token: token@, ..self@ }),
    {
        let mut user = self;
        user.oauth_refresh_token = token;
        user
    }
}

} // verus!
