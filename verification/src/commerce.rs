//! A small shop: its catalog, cache, checkout, messaging, analytics and
//! reports, each written with the ownership its operations need.
pub mod domain;
pub mod inventory;
pub mod catalog;
pub mod cache;
pub mod checkout;
pub mod messaging;
pub mod analytics;
pub mod reports;
pub mod fulfillment;
pub mod sample;
