//! A local gateway to authenticated social-media accounts: a credential
//! store, the decisions of the authorization flow and of session building,
//! and a request dispatcher that threads timelines through a filter chain.

pub mod accounts;
pub mod assoc;
pub mod auth;
pub mod cache;
pub mod config;
pub mod connection;
pub mod error;
pub mod filter;
pub mod json;
pub mod methods;
pub mod text;
pub mod wire;

use vstd::prelude::*;

verus! {

/// The version that a status request reports.
pub const VERSION: &'static str = "0.1.0";

} // verus!

