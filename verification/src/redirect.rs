//! Redirecting a source URL to the archived post that came from it.

use vstd::prelude::*;

use crate::db::bumped;
use crate::ids::PostId;
use crate::state::AppState;
use crate::strfmt::{dec_str, format_u64};

verus! {

/// The parameter bag of a redirect request.
#[derive(Debug, Clone)]
pub struct RedirectQuery {
    pub url: String,
}

/// Where a redirect request lands: the archived post's own page when the
/// URL is a known post source, else the URL itself, unchanged.
pub fn redirect_target(url: String, id: Option<PostId>) -> (r: String)
    ensures
        match id {
            Some(p) => r@ == ("/posts/")@ + dec_str(p.0 as nat),
            None => r@ == url@,
        },
{
    match id {
        Some(p) => {
            let mut s = ("/posts/").to_owned();
            let n = format_u64(p.0 as u64);
            s.append(n.as_str());
            s
        },
        None => url,
    }
}

/// Resolves a redirect request: one lookup of the URL among post sources,
/// then the target computed from whatever it found — either the archived
/// post's own page or the URL itself, unchanged.
pub fn get_redirect(st: &mut AppState, query: RedirectQuery) -> (r: String)
    ensures
        final(st).db.spec_queries() == bumped(old(st).db.spec_queries()),
        final(st).caches == old(st).caches,
        final(st).full_text_search == old(st).full_text_search,
        r@ == query.url@ || (exists|p: PostId| r@ == ("/posts/")@ + #[trigger] dec_str(
            p.0 as nat,
        )),
{
    let id = st.db.run_post_id_by_source(query.url.as_str());
    let r = redirect_target(query.url, id);
    proof {
        match id {
            Some(p) => {
                assert(r@ == ("/posts/")@ + dec_str(p.0 as nat));
            },
            None => {},
        }
    }
    r
}

} // verus!
