//! The stored configuration: credentials and timing.

use vstd::prelude::*;

verus! {

/// The credentials submitted to the portal.
pub struct Profile {
    pub username: String,
    pub password: String,
}

/// Timing and credentials, loaded once at start-up.
pub struct Config {
    /// Seconds between two check cycles.
    pub refresh: u64,
    pub profile: Profile,
    /// Seconds that a connectivity check or an HTTP request may take.
    pub timeouts: u64,
}

} // verus!
