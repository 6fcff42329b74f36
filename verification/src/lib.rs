//! Payment and subscription reconciliation for a single-product storefront.
//!
//! A user buys a product on a checkout page that the payment provider
//! hosts; the provider then tells the service, by webhook and at least
//! once, that the checkout is complete; the service records the payment and
//! moves the user's subscription. This crate holds every decision made on
//! that way, and proves that they fit together.
//!
//! The engine never waits on anything. Each operation is a *flow*: a value
//! that hands out one request at a time, to the store or to the provider,
//! and takes the answer to say what comes next.
//!
//! - [`customer`], [`checkout`], [`webhook`], [`signup`] and [`status`] are
//!   the flows.
//! - [`protocol`] holds the requests and the answers, [`provider`] what the
//!   provider's answers carry.
//! - [`store`] says what a store must do with each request, which rules it
//!   keeps, and does so in memory.
//! - [`world`] runs flows against a store and a provider, and
//!   [`guarantees`] proves what then holds: a delivery that comes twice is
//!   one payment and one subscription change, no user ever has two active
//!   subscriptions, nobody buys what they hold, a customer is opened once,
//!   and a delivery that does not verify touches nothing.
//! - [`payment`], [`subscription`], [`user`], [`tier`], [`auth`] and
//!   [`config`] hold the data, and [`auth`] the session tokens.
//! - [`error`] sorts every failure into a kind, and the kind picks the HTTP
//!   status.

pub mod auth;
pub mod checkout;
pub mod clock;
pub mod config;
pub mod customer;
pub mod error;
pub mod guarantees;
pub mod payment;
pub mod protocol;
pub mod provider;
pub mod search;
pub mod signup;
pub mod status;
pub mod store;
pub mod subscription;
pub mod text;
pub mod tier;
pub mod user;
pub mod views;
pub mod webhook;
pub mod world;
