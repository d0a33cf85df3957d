//! The application context: the shared database handle, the count caches
//! and the full-text-search mode flag, constructed once at startup. The
//! embedding server wraps one of these in its own lock; at most one
//! statement runs at any instant.

use vstd::prelude::*;

use crate::cache::Caches;
use crate::db::Db;

verus! {

/// Process-wide state of the query engine.
pub struct AppState {
    pub db: Db,
    pub caches: Caches,
    /// Whether the full-text virtual index is active, fixed at startup;
    /// it decides the text-search predicate.
    pub full_text_search: bool,
}

impl AppState {
    /// The caches are well formed.
    pub open spec fn wf(&self) -> bool {
        self.caches.wf()
    }

    /// A fresh context over an opened archive: empty caches, counter at
    /// zero.
    pub fn new(db: Db, full_text_search: bool) -> (r: AppState)
        ensures
            r.wf(),
            r.db == db,
            r.full_text_search == full_text_search,
    {
        AppState { db, caches: Caches::new(), full_text_search }
    }
}

} // verus!
