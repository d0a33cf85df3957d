//! The publicly visible configuration and the full-text-search toggle
//! decision. Reading the environment and the command line stays with the
//! embedding program; this module holds the plain values and the rules.

use vstd::prelude::*;

verus! {

/// The part of the configuration the frontend may see.
#[derive(Debug, Clone)]
pub struct PublicConfig {
    /// Where static resources are served from, when not from this process.
    pub resource_url: Option<String>,
    /// Where images are served from, when not from this process.
    pub images_url: Option<String>,
}

/// Feature toggles that arrive from configuration.
#[derive(Debug, Clone)]
pub struct FutureConfig {
    /// Whether full-text search should be on; `None` keeps the stored state.
    pub full_text_search: Option<bool>,
}

/// What the full-text-search synchronisation decides: the mode to run in,
/// and whether the stored state has to change (the virtual index must be
/// created or dropped) to reach it.
pub fn fts_transition(old_status: bool, requested: Option<bool>) -> (r: (bool, bool))
    ensures
        r.0 == (match requested {
            Some(b) => b,
            None => old_status,
        }),
        r.1 == (r.0 != old_status),
{
    let status = match requested {
        Some(b) => b,
        None => old_status,
    };
    (status, status != old_status)
}

} // verus!
