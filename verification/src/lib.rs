//! In-app purchases through the Microsoft Store: the rules of a plugin that lists
//! products, buys them, restores purchases and uses consumables up.
//!
//! The host reads the Store's objects and hands them over as plain values
//! ([`store`]); what becomes of them is decided here.

pub mod catalog;
pub mod catalog_laws;
pub mod clock;
pub mod context;
pub mod encoding;
pub mod error;
pub mod iap;
pub mod license_laws;
pub mod licenses;
pub mod models;
pub mod purchase_laws;
pub mod purchases;
pub mod store;
pub mod text;
pub mod token;
pub mod walk;
