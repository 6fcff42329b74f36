//! Deployment settings.

use vstd::prelude::*;

verus! {

/// The settings that the service reads once at start-up.
pub struct Config {
    pub google_client_id: String,
    pub google_client_secret: String,
    pub google_redirect_uri: String,
    pub database_url: String,
    pub strip_secret: String,
    pub stripe_checkout_cancel_url: String,
    pub stripe_checkout_success_url: String,
    pub stripe_webhook_secret: String,
    pub jwt_secret: String,
}

} // verus!
