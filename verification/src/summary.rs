//! The archive-wide summary: version strings and the size of each category
//! table, queried fresh on every call.

use vstd::prelude::*;

use crate::category::{category_total_sql, CategoryKind};
use crate::db::{archiver_version, bumped, DbError};
use crate::entity::SummaryJson;
use crate::state::AppState;

verus! {

fn count_as_u32(n: u64) -> (r: Result<u32, DbError>)
    ensures
        match r {
            Ok(v) => v == n,
            Err(_) => n > u32::MAX,
        },
{
    if n > 0xffff_ffffu64 {
        Err(DbError::Query)
    } else {
        Ok(n as u32)
    }
}

/// Reads the stored archive version and counts each category table: five
/// statements, none cached.
pub fn get_summary(st: &mut AppState) -> (r: Result<SummaryJson, DbError>)
    ensures
        r matches Ok(_) ==> final(st).db.spec_queries() == bumped(
            bumped(bumped(bumped(bumped(old(st).db.spec_queries())))),
        ),
        final(st).caches == old(st).caches,
        final(st).full_text_search == old(st).full_text_search,
{
    let post_archiver_version = match st.db.run_meta_version() {
        Ok(v) => v,
        Err(e) => {
            return Err(e);
        },
    };
    let empty: Vec<String> = Vec::new();
    let platforms = match st.db.run_count(
        category_total_sql(CategoryKind::Platform, false).as_str(),
        &empty,
    ) {
        Ok(n) => match count_as_u32(n) {
            Ok(v) => v,
            Err(e) => {
                return Err(e);
            },
        },
        Err(e) => {
            return Err(e);
        },
    };
    let tags = match st.db.run_count(category_total_sql(CategoryKind::Tag, false).as_str(), &empty)
        {
        Ok(n) => match count_as_u32(n) {
            Ok(v) => v,
            Err(e) => {
                return Err(e);
            },
        },
        Err(e) => {
            return Err(e);
        },
    };
    let authors = match st.db.run_count(
        category_total_sql(CategoryKind::Author, false).as_str(),
        &empty,
    ) {
        Ok(n) => match count_as_u32(n) {
            Ok(v) => v,
            Err(e) => {
                return Err(e);
            },
        },
        Err(e) => {
            return Err(e);
        },
    };
    let collections = match st.db.run_count(
        category_total_sql(CategoryKind::Collection, false).as_str(),
        &empty,
    ) {
        Ok(n) => match count_as_u32(n) {
            Ok(v) => v,
            Err(e) => {
                return Err(e);
            },
        },
        Err(e) => {
            return Err(e);
        },
    };
    Ok(
        SummaryJson {
            version: archiver_version(),
            post_archiver_version,
            tags,
            authors,
            collections,
            platforms,
        },
    )
}

} // verus!
