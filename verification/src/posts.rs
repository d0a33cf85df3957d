//! The post search operation: compose the SQL for the structured filter,
//! run the row statement for the requested page, answer the total from the
//! search cache or one fresh count, and enrich the previews.

use vstd::prelude::*;

use crate::cache::{search_cache_key, search_key_of, CountKey, preserves_others};
use crate::db::{bumped, DbError};
use crate::entity::{ListResponse, PostPreview};
use crate::pagination::Pagination;
use crate::relation::{bumped_n, enrich_cost, enriched, WithRelation};
use crate::search::{
    bind_relation, bind_search, search_sql, search_total_sql, SearchContext, SearchQuery,
};
use crate::state::AppState;
use crate::strfmt::{format_u64, param_views, push_param};

verus! {

/// Searches posts. The filter composes into one row statement and one
/// total statement sharing the same joins, filters and havings. Rows are
/// never cached — the page window changes per request — while the total is
/// read through the search cache under the full filter signature: a hit
/// answers the total with no second statement; a miss runs the count once
/// and stores it.
pub fn search_posts(st: &mut AppState, pagination: &Pagination, query: &SearchQuery) -> (r: Result<
    WithRelation<ListResponse<PostPreview>>,
    DbError,
>)
    requires
        old(st).wf(),
    ensures
        final(st).wf(),
        final(st).full_text_search == old(st).full_text_search,
        r matches Ok(w) ==> enriched(w),
        old(st).caches.search@.contains_key(search_cache_key(*query)) ==> final(st).caches
            == old(st).caches && (match r {
            Ok(w) => w.inner.total == old(st).caches.search@[search_cache_key(*query)]
                && final(st).db.spec_queries() == bumped_n(
                bumped(old(st).db.spec_queries()),
                enrich_cost(w),
            ),
            Err(_) => true,
        }),
        !old(st).caches.search@.contains_key(search_cache_key(*query)) ==> (match r {
            Ok(w) => final(st).caches.search@.contains_key(search_cache_key(*query))
                && final(st).caches.search@[search_cache_key(*query)] == w.inner.total
                && preserves_others(
                old(st).caches.search@,
                final(st).caches.search@,
                search_cache_key(*query),
            ) && final(st).db.spec_queries() == bumped_n(
                bumped(bumped(old(st).db.spec_queries())),
                enrich_cost(w),
            ),
            Err(_) => true,
        }),
{
    let mut ctx = SearchContext::new();
    bind_search(&mut ctx, st.full_text_search, query.search.as_str());
    bind_relation(&mut ctx, &query.authors, &query.tags, &query.collections, &query.platforms);
    let sql = search_sql(&ctx, query.order_by);
    let mut named: Vec<(String, String)> = Vec::new();
    let mut i: usize = 0;
    while i < ctx.params.len()
        invariant
            i <= ctx.params.len(),
            param_views(named@) == param_views(ctx.params@).take(i as int),
        decreases ctx.params.len() - i,
    {
        let ghost n0 = named@;
        named.push((ctx.params[i].0.clone(), ctx.params[i].1.clone()));
        proof {
            let l = param_views(named@);
            let rs = param_views(ctx.params@).take(i + 1);
            assert(param_views(n0).len() == n0.len());
            assert(param_views(ctx.params@).len() == ctx.params@.len());
            assert forall|j: int| 0 <= j < l.len() implies l[j] == rs[j] by {
                assert(l[j] == (named@[j].0@, named@[j].1@));
                assert(rs[j] == param_views(ctx.params@)[j]);
                assert(param_views(ctx.params@)[j] == (ctx.params@[j].0@, ctx.params@[j].1@));
                if j < n0.len() {
                    assert(param_views(n0)[j] == (n0[j].0@, n0[j].1@));
                    assert(param_views(ctx.params@).take(i as int)[j] == param_views(
                        ctx.params@,
                    )[j]);
                }
            };
            assert(l =~= rs);
        }
        i = i + 1;
    }
    // the row statement receives exactly the composed parameters, then the
    // page window
    proof {
        assert(param_views(ctx.params@).take(ctx.params@.len() as int) =~= param_views(
            ctx.params@,
        ));
        assert(param_views(named@) == param_views(ctx.params@));
    }
    push_param(&mut named, ":limit", format_u64(pagination.limit() as u64));
    push_param(&mut named, ":offset", format_u64(pagination.offset_u64()));
    let list = match st.db.run_preview_rows(sql.as_str(), &named) {
        Ok(l) => l,
        Err(e) => {
            return Err(e);
        },
    };
    let key = CountKey::Search(search_key_of(query));
    let total = match st.caches.search.lookup(&key) {
        Some(n) => n,
        None => {
            let tsql = search_total_sql(&ctx);
            let n = match st.db.run_count_named(tsql.as_str(), &ctx.params) {
                Ok(n) => n,
                Err(e) => {
                    return Err(e);
                },
            };
            st.caches.search.store(key, n);
            n
        },
    };
    match WithRelation::new(&mut st.db, ListResponse { list, total }) {
        Ok(w) => Ok(w),
        Err(e) => Err(e),
    }
}

} // verus!
