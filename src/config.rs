//! The settings the service runs with.

use vstd::prelude::*;

verus! {

/// The settings of the service, read from its environment at start.
#[derive(Debug)]
pub struct Config {
    pub unisender_api_key: String,
    pub unisender_sender_name: String,
    pub unisender_sender_email: String,
    pub github_app_id: u64,
    pub github_app_private_key: String,
    pub jwt_secret: String,
    pub database_url: String,
}

} // verus!
