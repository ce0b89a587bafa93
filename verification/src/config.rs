//! The immutable process-wide configuration.

use vstd::prelude::*;

verus! {

/// The three settings read once at startup and then shared read-only by
/// every handler; loading or validating them is the caller's concern, and a
/// failure there is fatal before any request is handled.
pub struct Configuration {
    /// Messaging platform credential.
    pub telegram_token: String,
    /// Publishing API credential.
    pub telegraph_token: String,
    /// Forum API base URL.
    pub tsdm_api_base: String,
}

} // verus!
